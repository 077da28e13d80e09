//! Starting a recording: the addresses of the stream are tried in turn until one delivers data.

use vstd::prelude::*;

use crate::json::Json;
use crate::number;
use crate::parser::streams;
use crate::parser::StreamCandidate;
use crate::recorder::ffmpeg;
use crate::recorder::Recorder;
use crate::text;

verus! {

/// How far the start of a recording has come: an address is about to be tried.
#[derive(Debug)]
pub struct Launch {
    urls: Vec<String>,
    index: usize,
    failures: Vec<String>,
}

/// What is known of the start of a recording.
#[verifier::ext_equal]
pub struct LaunchView {
    /// The addresses, in the order in which they are tried.
    pub urls: Seq<Seq<char>>,
    /// Which one is tried now.
    pub index: int,
    /// Why those before it did not deliver.
    pub failures: Seq<Seq<char>>,
}

impl View for Launch {
    type V = LaunchView;

    closed spec fn view(&self) -> LaunchView {
        LaunchView {
            urls: text::texts_view(self.urls@),
            index: self.index as int,
            failures: text::texts_view(self.failures@),
        }
    }
}

/// How the try of an address ended. `S` is the kind of text.
#[derive(Debug)]
pub enum Attempt<S> {
    /// FFmpeg could not be started at all.
    NotStarted(S),
    /// FFmpeg writes data.
    Ready,
    /// FFmpeg was given up, for that reason; its last line is given where it said anything.
    NotReady { reason: S, last_line: Option<S> },
}

impl View for Attempt<String> {
    type V = Attempt<Seq<char>>;

    open spec fn view(&self) -> Attempt<Seq<char>> {
        match self {
            Attempt::NotStarted(message) => Attempt::NotStarted(message@),
            Attempt::Ready => Attempt::Ready,
            Attempt::NotReady { reason, last_line } => Attempt::NotReady {
                reason: reason@,
                last_line: text::opt_view(*last_line),
            },
        }
    }
}

/// What is done next to start a recording. `L` is how far the start has come, and `S` the kind of
/// text.
#[derive(Debug)]
pub enum LaunchStep<L, S> {
    /// Create the directory of the output file; then [`Launch::directory_made`].
    MakeDirectory(L),
    /// Remove the output file where there is one, and let FFmpeg record from the address; then
    /// [`Recorder::attempt_ended`].
    Try(L),
    /// The recording is under way.
    Recording,
    /// The recording does not start, for that reason.
    Refused(S),
    /// No address delivers: remove the output file. The recording does not start, for that reason.
    GiveUp(S),
}

impl View for LaunchStep<Launch, String> {
    type V = LaunchStep<LaunchView, Seq<char>>;

    open spec fn view(&self) -> LaunchStep<LaunchView, Seq<char>> {
        match self {
            LaunchStep::MakeDirectory(launch) => LaunchStep::MakeDirectory(launch@),
            LaunchStep::Try(launch) => LaunchStep::Try(launch@),
            LaunchStep::Recording => LaunchStep::Recording,
            LaunchStep::Refused(message) => LaunchStep::Refused(message@),
            LaunchStep::GiveUp(message) => LaunchStep::GiveUp(message@),
        }
    }
}

// ---------------------------------------------------------------------------
// The steps
// ---------------------------------------------------------------------------

/// The first step, given whether the recording is already under way.
pub open spec fn first_step(urls: Seq<Seq<char>>, active: bool) -> LaunchStep<
    LaunchView,
    Seq<char>,
> {
    if urls.len() == 0 {
        LaunchStep::Refused("直播流地址为空，主播可能未开播"@)
    } else if active {
        LaunchStep::Refused("该录制任务已经在运行"@)
    } else {
        LaunchStep::MakeDirectory(LaunchView { urls, index: 0, failures: Seq::empty() })
    }
}

/// The step after the directory was created, or could not be.
pub open spec fn step_with_directory(
    launch: LaunchView,
    error: Option<Seq<char>>,
) -> LaunchStep<LaunchView, Seq<char>> {
    match error {
        Some(detail) => LaunchStep::Refused("创建输出目录失败: "@ + detail),
        None => LaunchStep::Try(launch),
    }
}

/// What is noted of an address that did not deliver: the last thing FFmpeg said, or else why it
/// was given up, without the address itself.
pub open spec fn failure_line(index: int, reason: Seq<char>, last_line: Option<Seq<char>>) -> Seq<
    char,
> {
    let detail = match last_line {
        Some(line) => line,
        None => reason,
    };
    "CDN "@ + number::decimal((index + 1) as nat) + ": "@ + ffmpeg::redacted(detail)
}

/// What is said when no address delivers.
pub open spec fn all_failed(failures: Seq<Seq<char>>) -> Seq<char> {
    "所有直播线路均无法产生有效数据："@ + text::joined(failures, "；"@)
}

/// The step after an address was tried.
pub open spec fn step_after(launch: LaunchView, attempt: Attempt<Seq<char>>) -> LaunchStep<
    LaunchView,
    Seq<char>,
> {
    match attempt {
        Attempt::NotStarted(message) => LaunchStep::Refused(message),
        Attempt::Ready => LaunchStep::Recording,
        Attempt::NotReady { reason, last_line } => {
            let failures = launch.failures.push(failure_line(launch.index, reason, last_line));
            if launch.index + 1 < launch.urls.len() {
                LaunchStep::Try(LaunchView { index: launch.index + 1, failures, ..launch })
            } else {
                LaunchStep::GiveUp(all_failed(failures))
            }
        },
    }
}

impl Launch {
    /// There is an address to be tried.
    #[verifier::type_invariant]
    closed spec fn wf(self) -> bool {
        self.index < self.urls@.len()
    }

    /// The address that is tried.
    pub fn url(&self) -> (url: &str)
        ensures
            0 <= self@.index < self@.urls.len(),
            url@ == self@.urls[self@.index],
    {
        proof {
            use_type_invariant(self);
        }
        self.urls[self.index].as_str()
    }

    /// The directory of the output file was created, or could not be.
    pub fn directory_made(self, error: Option<String>) -> (step: LaunchStep<Launch, String>)
        ensures
            step@ == step_with_directory(self@, text::opt_view(error)),
    {
        match error {
            Some(detail) => LaunchStep::Refused(
                text::cat2("创建输出目录失败: ", detail.as_str()),
            ),
            None => LaunchStep::Try(self),
        }
    }
}

fn urls_of(candidates: &Vec<StreamCandidate>) -> (urls: Vec<String>)
    ensures
        text::texts_view(urls@) == streams::urls_of(candidates@),
{
    let mut urls: Vec<String> = Vec::new();
    let mut i: usize = 0;
    while i < candidates.len()
        invariant
            i <= candidates@.len(),
            text::texts_view(urls@) == streams::urls_of(candidates@).take(i as int),
        decreases candidates@.len() - i,
    {
        ffmpeg::add_arg(&mut urls, candidates[i].url.as_str());
        assert(streams::urls_of(candidates@).take(i + 1) =~= streams::urls_of(candidates@).take(
            i as int,
        ).push(candidates@[i as int].url@));
        i += 1;
    }
    assert(streams::urls_of(candidates@).take(i as int) =~= streams::urls_of(candidates@));
    urls
}

impl Recorder {
    /// Begins to start a recording. There has to be an address, and the recording may not be
    /// under way.
    pub fn start_record(&self, task_id: i64, candidates: &Vec<StreamCandidate>) -> (step: LaunchStep<
        Launch,
        String,
    >)
        ensures
            step@ == first_step(streams::urls_of(candidates@), self@.contains_key(task_id)),
    {
        if candidates.len() == 0 {
            return LaunchStep::Refused("直播流地址为空，主播可能未开播".to_owned());
        }
        if self.is_active(task_id) {
            return LaunchStep::Refused("该录制任务已经在运行".to_owned());
        }
        let urls = urls_of(candidates);
        assert(streams::urls_of(candidates@).len() == candidates@.len());
        assert(text::texts_view(urls@).len() == urls@.len());
        let failures: Vec<String> = Vec::new();
        assert(text::texts_view(failures@) =~= Seq::empty());
        LaunchStep::MakeDirectory(Launch { urls, index: 0, failures })
    }

    /// An address was tried. If it delivers, the recording is under way from now on.
    pub fn attempt_ended(&mut self, task_id: i64, launch: Launch, attempt: Attempt<String>) -> (step:
        LaunchStep<Launch, String>)
        ensures
            step@ == step_after(launch@, attempt@),
            final(self)@ == (if attempt is Ready {
                old(self)@.insert(task_id, true)
            } else {
                old(self)@
            }),
            final(self).program() == old(self).program(),
    {
        proof {
            use_type_invariant(&launch);
        }
        match attempt {
            Attempt::NotStarted(message) => LaunchStep::Refused(message),
            Attempt::Ready => {
                self.recording_started(task_id);
                LaunchStep::Recording
            },
            Attempt::NotReady { reason, last_line } => {
                let detail = match last_line {
                    Some(line) => line,
                    None => reason,
                };
                let Launch { urls, index, failures } = launch;
                let mut failures = failures;
                let count: usize = urls.len();
                let line = text::cat4(
                    "CDN ",
                    number::u64_text(index as u64 + 1).as_str(),
                    ": ",
                    ffmpeg::redact_url(detail.as_str()).as_str(),
                );
                ffmpeg::add_arg(&mut failures, line.as_str());
                if index + 1 < count {
                    LaunchStep::Try(Launch { urls, index: index + 1, failures })
                } else {
                    LaunchStep::GiveUp(
                        text::cat2(
                            "所有直播线路均无法产生有效数据：",
                            text::join_texts(&failures, "；").as_str(),
                        ),
                    )
                }
            },
        }
    }
}

// ---------------------------------------------------------------------------
// Laws
// ---------------------------------------------------------------------------

/// How the start ends, if the try of each address ends as given.
pub open spec fn outcome(launch: LaunchView, attempts: Seq<Attempt<Seq<char>>>) -> LaunchStep<
    LaunchView,
    Seq<char>,
>
    decreases launch.urls.len() - launch.index,
{
    match step_after(launch, attempts[launch.index]) {
        LaunchStep::Try(next) => outcome(next, attempts),
        step => step,
    }
}

/// The addresses that are tried, in order, if the try of each address ends as given.
pub open spec fn tried(launch: LaunchView, attempts: Seq<Attempt<Seq<char>>>) -> Seq<Seq<char>>
    decreases launch.urls.len() - launch.index,
{
    let now = seq![launch.urls[launch.index]];
    match step_after(launch, attempts[launch.index]) {
        LaunchStep::Try(next) => now + tried(next, attempts),
        _ => now,
    }
}

/// What is noted of the first addresses, if none of them delivers.
pub open spec fn failure_lines(attempts: Seq<Attempt<Seq<char>>>, n: nat) -> Seq<Seq<char>> {
    Seq::new(
        n,
        |i: int|
            match attempts[i] {
                Attempt::NotReady { reason, last_line } => failure_line(i, reason, last_line),
                _ => Seq::empty(),
            },
    )
}

/// The first address that delivers is recorded, and the ones up to it are tried, in order.
pub proof fn law_first_address_that_delivers(
    launch: LaunchView,
    attempts: Seq<Attempt<Seq<char>>>,
    k: int,
)
    requires
        0 <= launch.index <= k < launch.urls.len(),
        attempts.len() == launch.urls.len(),
        attempts[k] is Ready,
        forall|i: int| launch.index <= i < k ==> #[trigger] attempts[i] is NotReady,
    ensures
        outcome(launch, attempts) is Recording,
        tried(launch, attempts) == launch.urls.subrange(launch.index, k + 1),
    decreases launch.urls.len() - launch.index,
{
    if launch.index < k {
        assert(attempts[launch.index] is NotReady);
        let next = step_after(launch, attempts[launch.index])->Try_0;
        law_first_address_that_delivers(next, attempts, k);
        assert(seq![launch.urls[launch.index]] + launch.urls.subrange(launch.index + 1, k + 1)
            =~= launch.urls.subrange(launch.index, k + 1));
    } else {
        assert(seq![launch.urls[launch.index]] =~= launch.urls.subrange(launch.index, k + 1));
    }
}

/// If no address delivers, all of them are tried, in order, and the user is told of each.
pub proof fn law_no_address_delivers(launch: LaunchView, attempts: Seq<Attempt<Seq<char>>>)
    requires
        0 <= launch.index < launch.urls.len(),
        attempts.len() == launch.urls.len(),
        launch.failures == failure_lines(attempts, launch.index as nat),
        forall|i: int| launch.index <= i < attempts.len() ==> #[trigger] attempts[i] is NotReady,
    ensures
        outcome(launch, attempts) == LaunchStep::<LaunchView, Seq<char>>::GiveUp(
            all_failed(failure_lines(attempts, launch.urls.len())),
        ),
        tried(launch, attempts) == launch.urls.skip(launch.index),
    decreases launch.urls.len() - launch.index,
{
    let now = attempts[launch.index];
    assert(now is NotReady);
    let line = failure_line(launch.index, now->reason, now->last_line);
    assert(launch.failures.push(line) =~= failure_lines(attempts, (launch.index + 1) as nat));
    assert(seq![launch.urls[launch.index]] + launch.urls.skip(launch.index + 1)
        =~= launch.urls.skip(launch.index));
    if launch.index + 1 < launch.urls.len() {
        law_no_address_delivers(step_after(launch, now)->Try_0, attempts);
    } else {
        assert(seq![launch.urls[launch.index]] =~= launch.urls.skip(launch.index));
    }
}

/// A stream that was selected has an address to be tried, so only a recording that is already under
/// way keeps it from being started.
pub proof fn law_selected_streams_are_tried(response: Json, requested_qn: i64, active: bool)
    requires
        streams::selected(response, requested_qn) is Ok,
    ensures
        first_step(streams::selected(response, requested_qn)->Ok_0.urls, active) is MakeDirectory
            == !active,
{
    streams::law_selection_has_an_address(response, requested_qn);
}

/// Where FFmpeg cannot be started, no further address is tried, and the user is told that.
pub proof fn law_missing_program_ends_the_start(
    launch: LaunchView,
    attempts: Seq<Attempt<Seq<char>>>,
)
    requires
        attempts[launch.index] is NotStarted,
    ensures
        outcome(launch, attempts) == LaunchStep::<LaunchView, Seq<char>>::Refused(
            attempts[launch.index]->NotStarted_0,
        ),
        tried(launch, attempts) == seq![launch.urls[launch.index]],
{
}

/// A recording starts only where there is an address and it is not under way; then the addresses
/// are tried as they are given, from the first on, and nothing has failed yet.
pub proof fn law_how_a_recording_begins(
    recorder: Recorder,
    task_id: i64,
    candidates: Vec<StreamCandidate>,
    step: LaunchStep<Launch, String>,
)
    requires
        call_ensures(Recorder::start_record, (&recorder, task_id, &candidates), step),
    ensures
        candidates@.len() == 0 ==> (step matches LaunchStep::Refused(message) && message@
            == "直播流地址为空，主播可能未开播"@),
        candidates@.len() > 0 && recorder@.contains_key(task_id) ==> (
        step matches LaunchStep::Refused(message) && message@ == "该录制任务已经在运行"@),
        candidates@.len() > 0 && !recorder@.contains_key(task_id) ==> {
            &&& step matches LaunchStep::MakeDirectory(launch)
            &&& launch@.index == 0
            &&& launch@.failures.len() == 0
            &&& launch@.urls.len() == candidates@.len()
            &&& forall|i: int|
                0 <= i < candidates@.len() ==> #[trigger] launch@.urls[i] == candidates@[i].url@
        },
{
    assert(streams::urls_of(candidates@).len() == candidates@.len());
    if let LaunchStep::MakeDirectory(launch) = step {
        assert(step@ == LaunchStep::<LaunchView, Seq<char>>::MakeDirectory(launch@));
        assert forall|i: int| 0 <= i < candidates@.len() implies #[trigger] launch@.urls[i]
            == candidates@[i].url@ by {
            assert(streams::urls_of(candidates@)[i] == candidates@[i].url@);
        }
    }
}

/// Without a directory for the output nothing is tried, and the user is told why.
pub proof fn law_what_the_directory_leads_to(
    launch: Launch,
    error: Option<String>,
    step: LaunchStep<Launch, String>,
)
    requires
        call_ensures(Launch::directory_made, (launch, error), step),
    ensures
        error is None ==> (step matches LaunchStep::Try(same) && same@ == launch@),
        error matches Some(detail) ==> (step matches LaunchStep::Refused(message) && message@
            == "创建输出目录失败: "@ + detail@),
{
}

/// An address that delivers ends the search. Of one that does not, its place in the order is noted,
/// counted from one, with the last line of FFmpeg, or the reason where it said nothing; then the
/// next address is tried, and after the last one the user is told what was noted of each.
pub proof fn law_what_an_attempt_leads_to(launch: LaunchView, attempt: Attempt<Seq<char>>)
    requires
        0 <= launch.index < launch.urls.len(),
    ensures
        ({
            let step = step_after(launch, attempt);
            let detail = match attempt->last_line {
                Some(line) => line,
                None => attempt->reason,
            };
            let noted = launch.failures.push(
                "CDN "@ + number::signed_decimal(launch.index + 1) + ": "@ + ffmpeg::redacted(
                    detail,
                ),
            );
            &&& attempt is Ready ==> step is Recording
            &&& attempt matches Attempt::NotStarted(message) ==> step == LaunchStep::<
                LaunchView,
                Seq<char>,
            >::Refused(message)
            &&& attempt is NotReady && launch.index < launch.urls.len() - 1 ==> {
                &&& step matches LaunchStep::Try(next)
                &&& next.urls == launch.urls
                &&& next.index == launch.index + 1
                &&& next.failures == noted
            }
            &&& attempt is NotReady && launch.index == launch.urls.len() - 1 ==> (
            step matches LaunchStep::GiveUp(message) && message
                == "所有直播线路均无法产生有效数据："@ + text::joined(noted, "；"@))
        }),
{
}

/// The address that is tried is the one whose turn it is.
pub proof fn law_which_address_is_tried(launch: Launch, url: &str)
    requires
        call_ensures(Launch::url, (&launch,), url),
    ensures
        url@ == launch@.urls[launch@.index],
{
}

/// A recording is under way exactly once an address delivers; nothing else changes what is.
pub proof fn law_what_an_attempt_changes(
    recorder: &mut Recorder,
    task_id: i64,
    launch: Launch,
    attempt: Attempt<String>,
    step: LaunchStep<Launch, String>,
    other: i64,
)
    requires
        call_ensures(Recorder::attempt_ended, (recorder, task_id, launch, attempt), step),
        other != task_id,
    ensures
        (step is Recording) == (attempt is Ready),
        attempt is Ready ==> final(recorder)@.contains_key(task_id) && final(recorder)@[task_id],
        !(attempt is Ready) ==> final(recorder)@ == old(recorder)@,
        final(recorder)@.contains_key(other) == old(recorder)@.contains_key(other),
        old(recorder)@.contains_key(other) ==> final(recorder)@[other] == old(recorder)@[other],
        final(recorder).program() == old(recorder).program(),
        attempt matches Attempt::NotStarted(message) ==> (step matches LaunchStep::Refused(told)
            && told@ == message@),
        step matches LaunchStep::Try(next) ==> next@.urls == launch@.urls && next@.index
            == launch@.index + 1,
{
    if let LaunchStep::Try(next) = step {
        assert(step@ == LaunchStep::<LaunchView, Seq<char>>::Try(next@));
    }
}

} // verus!
