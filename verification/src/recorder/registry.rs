//! The recordings that are under way.

use std::collections::HashMap;
use vstd::prelude::*;

use crate::text;

verus! {

broadcast use vstd::std_specs::hash::group_hash_axioms;

/// How the process of a recording ended.
#[derive(Debug)]
pub struct RecordingExit {
    pub manually_stopped: bool,
    pub status_success: bool,
    pub wait_error: Option<String>,
    pub stderr_tail: Vec<String>,
}

/// How waiting for the process ended: with success or not, or with an error.
#[derive(Debug)]
pub enum WaitResult {
    Ended { success: bool },
    Failed(String),
}

/// The process ended by itself.
pub fn exit_by_itself(wait: WaitResult, stderr_tail: Vec<String>) -> (exit: RecordingExit)
    ensures
        !exit.manually_stopped,
        exit.status_success == (wait matches WaitResult::Ended { success } && success),
        text::opt_view(exit.wait_error) == (match wait {
            WaitResult::Ended { .. } => None,
            WaitResult::Failed(detail) => Some(detail@),
        }),
        exit.stderr_tail == stderr_tail,
{
    match wait {
        WaitResult::Ended { success } => RecordingExit {
            manually_stopped: false,
            status_success: success,
            wait_error: None,
            stderr_tail,
        },
        WaitResult::Failed(detail) => RecordingExit {
            manually_stopped: false,
            status_success: false,
            wait_error: Some(detail),
            stderr_tail,
        },
    }
}

/// The process was killed because the user stopped the recording.
pub fn exit_by_stop(kill_error: Option<String>, wait: WaitResult, stderr_tail: Vec<String>) -> (exit:
    RecordingExit)
    ensures
        exit.manually_stopped,
        exit.status_success == (wait matches WaitResult::Ended { success } && success),
        text::opt_view(exit.wait_error) == (match wait {
            WaitResult::Ended { .. } => text::opt_view(kill_error),
            WaitResult::Failed(detail) => Some(detail@),
        }),
        exit.stderr_tail == stderr_tail,
{
    match wait {
        WaitResult::Ended { success } => RecordingExit {
            manually_stopped: true,
            status_success: success,
            wait_error: kill_error,
            stderr_tail,
        },
        WaitResult::Failed(detail) => RecordingExit {
            manually_stopped: true,
            status_success: false,
            wait_error: Some(detail),
            stderr_tail,
        },
    }
}

/// The recordings that are under way, and where FFmpeg is.
#[derive(Debug)]
pub struct Recorder {
    /// For each recording under way, whether it can still be told to stop.
    active_records: HashMap<i64, bool>,
    ffmpeg_path: String,
}

impl View for Recorder {
    type V = Map<i64, bool>;

    closed spec fn view(&self) -> Map<i64, bool> {
        self.active_records@
    }
}

/// What a request to stop a recording comes to.
#[derive(Debug, Clone, Copy, PartialEq, Eq, Structural)]
pub enum StopRequest {
    /// There is no such recording.
    NotActive,
    /// Tell the process to stop, then wait for its end.
    Signal,
    /// It was told before: only wait for its end.
    Wait,
}

/// What a request to stop a recording comes to.
pub open spec fn stop_request(records: Map<i64, bool>, task_id: i64) -> StopRequest {
    if !records.contains_key(task_id) {
        StopRequest::NotActive
    } else if records[task_id] {
        StopRequest::Signal
    } else {
        StopRequest::Wait
    }
}

/// The recordings under way after a request to stop one.
pub open spec fn after_stop(records: Map<i64, bool>, task_id: i64) -> Map<i64, bool> {
    if records.contains_key(task_id) {
        records.insert(task_id, false)
    } else {
        records
    }
}

/// How waiting for a recording to end after a request ended.
#[derive(Debug)]
pub enum StopWait {
    Ended(Result<(), String>),
    ChannelClosed,
    TimedOut,
}

/// How long to wait for a recording to end, in seconds.
pub const STOP_WAIT_SECS: u64 = 300;

impl Recorder {
    /// Where FFmpeg is.
    pub closed spec fn program(self) -> Seq<char> {
        self.ffmpeg_path@
    }

    /// Nothing is under way.
    pub fn new(ffmpeg_path: String) -> (recorder: Self)
        ensures
            recorder@ == Map::<i64, bool>::empty(),
            recorder.program() == ffmpeg_path@,
    {
        Self { active_records: HashMap::new(), ffmpeg_path }
    }

    /// Where FFmpeg is.
    pub fn ffmpeg_path(&self) -> (path: &str)
        ensures
            path@ == self.program(),
    {
        self.ffmpeg_path.as_str()
    }

    /// Whether the recording is under way.
    pub fn is_active(&self, task_id: i64) -> (active: bool)
        ensures
            active == self@.contains_key(task_id),
    {
        self.active_records.contains_key(&task_id)
    }

    /// The recording is under way from now on.
    pub fn recording_started(&mut self, task_id: i64)
        ensures
            final(self)@ == old(self)@.insert(task_id, true),
            final(self).program() == old(self).program(),
    {
        let _ = self.active_records.insert(task_id, true);
    }

    /// The recording has ended, and its end was dealt with.
    pub fn recording_ended(&mut self, task_id: i64)
        ensures
            final(self)@ == old(self)@.remove(task_id),
            final(self).program() == old(self).program(),
    {
        let _ = self.active_records.remove(&task_id);
    }

    /// The user wants the recording to stop. Its process is told only once.
    pub fn stop_record(&mut self, task_id: i64) -> (request: StopRequest)
        ensures
            request == stop_request(old(self)@, task_id),
            final(self)@ == after_stop(old(self)@, task_id),
            final(self).program() == old(self).program(),
    {
        let open = match self.active_records.get(&task_id) {
            None => return StopRequest::NotActive,
            Some(open) => *open,
        };
        let _ = self.active_records.insert(task_id, false);
        if open {
            StopRequest::Signal
        } else {
            StopRequest::Wait
        }
    }

    /// All recordings are given up: the ones that still have to be told to stop, each once.
    pub fn shut_down(&mut self) -> (told: Vec<i64>)
        ensures
            told@.no_duplicates(),
            forall|id: i64|
                #[trigger] told@.contains(id) <==> old(self)@.contains_key(id) && old(self)@[id],
            final(self)@ == Map::<i64, bool>::empty(),
            final(self).program() == old(self).program(),
    {
        let mut told: Vec<i64> = Vec::new();
        let ghost records = self.active_records@;
        for id in ids: self.active_records.keys()
            invariant
                records == self.active_records@,
                told@.no_duplicates(),
                ids.seq().no_duplicates(),
                ids.seq().unref().to_set() == records.dom(),
                forall|k: i64|
                    #[trigger] told@.contains(k) <==> records.contains_key(k) && records[k]
                        && (exists|i: int| 0 <= i < ids.index() && *#[trigger] ids.seq()[i] == k),
        {
            let ghost before = told@;
            proof {
                assert(ids.seq().unref()[ids.index()] == *id);
                assert(ids.seq().unref().to_set().contains(*id));
                assert(!told@.contains(*id));
            }
            let open = *self.active_records.get(id).unwrap();
            if open {
                told.push(*id);
                assert(told@[before.len() as int] == *id);
            }
            assert forall|k: i64| #[trigger] told@.contains(k) <==> before.contains(k) || (open && k
                == *id) by {
                if before.contains(k) {
                    let i = choose|i: int| 0 <= i < before.len() && before[i] == k;
                    assert(told@[i] == k);
                }
            }
            assert(*ids.seq()[ids.index()] == *id);
            assert forall|k: i64| #[trigger] told@.contains(k) <==> records.contains_key(k)
                && records[k] && (exists|i: int|
                0 <= i < ids.index() + 1 && *#[trigger] ids.seq()[i] == k) by {
                assert(told@.contains(k) == (before.contains(k) || (open && k == *id)));
            }
        }
        assert forall|id: i64| #[trigger] told@.contains(id) <==> records.contains_key(id)
            && records[id] by {
            assert(records.dom().contains(id) == records.contains_key(id));
        }
        self.active_records.clear();
        told
    }
}

/// What the user is answered once the recording was waited for: it was stopped, or why not.
pub open spec fn waited(wait: StopWait) -> Result<bool, Seq<char>> {
    match wait {
        StopWait::Ended(Ok(_)) => Ok(true),
        StopWait::Ended(Err(detail)) => Err(detail@),
        StopWait::ChannelClosed => Err("录制进程状态通道已关闭"@),
        StopWait::TimedOut => Err("等待录制进程停止超时"@),
    }
}

/// What a request to stop a recording is answered with, given how waiting for its end ended. Where
/// there is no such recording nothing is waited for, and the answer says so; otherwise there is no
/// answer before the end of the wait.
pub open spec fn answer_to(request: StopRequest, wait: Option<StopWait>) -> Option<
    Result<bool, Seq<char>>,
> {
    match (request, wait) {
        (StopRequest::NotActive, _) => Some(Ok(false)),
        (_, Some(wait)) => Some(waited(wait)),
        (_, None) => None,
    }
}

/// What an answer says.
pub open spec fn answer_view(answer: Result<bool, String>) -> Result<bool, Seq<char>> {
    match answer {
        Ok(stopped) => Ok(stopped),
        Err(message) => Err(message@),
    }
}

/// What the user is answered once the recording was waited for.
pub fn stop_outcome(wait: StopWait) -> (outcome: Result<bool, String>)
    ensures
        answer_view(outcome) == waited(wait),
{
    match wait {
        StopWait::Ended(Ok(_)) => Ok(true),
        StopWait::Ended(Err(detail)) => Err(detail),
        StopWait::ChannelClosed => Err("录制进程状态通道已关闭".to_owned()),
        StopWait::TimedOut => Err("等待录制进程停止超时".to_owned()),
    }
}

/// What a request to stop a recording is answered with, given how waiting for its end ended, if it
/// was waited for.
pub fn stop_answer(request: StopRequest, wait: Option<StopWait>) -> (answer: Option<
    Result<bool, String>,
>)
    ensures
        (match answer {
            Some(answer) => Some(answer_view(answer)),
            None => None,
        }) == answer_to(request, wait),
{
    match request {
        StopRequest::NotActive => Some(Ok(false)),
        _ => match wait {
            Some(wait) => Some(stop_outcome(wait)),
            None => None,
        },
    }
}

/// Once there is a recording to stop and it was waited for, there is an answer; without a recording
/// there is one at once, which is that nothing was stopped.
pub proof fn law_stop_requests_are_answered(
    records: Map<i64, bool>,
    task_id: i64,
    wait: StopWait,
)
    ensures
        answer_to(stop_request(records, task_id), Some(wait)) is Some,
        answer_to(stop_request(records, task_id), None) is Some == !records.contains_key(task_id),
        answer_to(stop_request(records, task_id), Some(wait)) == Some(
            Ok::<bool, Seq<char>>(false),
        ) <==> !records.contains_key(task_id),
{
}

/// A recording is told to stop once: after a request to stop it, it stays under way until it has
/// ended, and a further request only waits.
pub proof fn law_told_to_stop_once(records: Map<i64, bool>, task_id: i64)
    ensures
        after_stop(records, task_id).contains_key(task_id) == records.contains_key(task_id),
        records.contains_key(task_id) ==> stop_request(after_stop(records, task_id), task_id)
            == StopRequest::Wait,
{
}

/// A request to stop one recording leaves the others as they are.
pub proof fn law_stop_leaves_the_others(records: Map<i64, bool>, task_id: i64, other: i64)
    requires
        other != task_id,
    ensures
        stop_request(after_stop(records, task_id), other) == stop_request(records, other),
{
}

/// A recording that started can be told to stop, and one that has ended cannot.
pub proof fn law_life_of_a_recording(records: Map<i64, bool>, task_id: i64)
    ensures
        stop_request(records.insert(task_id, true), task_id) == StopRequest::Signal,
        stop_request(records.remove(task_id), task_id) == StopRequest::NotActive,
{
}

/// A process that ended by itself was not stopped by the user; one that was killed was. Either way
/// it succeeded exactly where waiting for it says so, and the error of waiting goes before that of
/// killing it.
pub proof fn law_how_processes_end(
    wait: WaitResult,
    kill_error: Option<String>,
    stderr_tail: Vec<String>,
    alone: RecordingExit,
    stopped: RecordingExit,
)
    requires
        call_ensures(exit_by_itself, (wait, stderr_tail), alone),
        call_ensures(exit_by_stop, (kill_error, wait, stderr_tail), stopped),
    ensures
        !alone.manually_stopped,
        stopped.manually_stopped,
        alone.stderr_tail == stderr_tail && stopped.stderr_tail == stderr_tail,
        wait matches WaitResult::Ended { success } ==> {
            &&& alone.status_success == success
            &&& stopped.status_success == success
            &&& alone.wait_error is None
            &&& text::opt_view(stopped.wait_error) == text::opt_view(kill_error)
        },
        wait matches WaitResult::Failed(detail) ==> {
            &&& !alone.status_success
            &&& !stopped.status_success
            &&& alone.wait_error matches Some(why) && why@ == detail@
            &&& stopped.wait_error matches Some(why) && why@ == detail@
        },
{
}

/// A recording that is not under way has nothing to stop; one that is, is told to stop exactly
/// where it was not told before. It is told then, and nothing else changes.
pub proof fn law_what_a_request_to_stop_does(records: Map<i64, bool>, task_id: i64, id: i64)
    ensures
        ({
            let request = stop_request(records, task_id);
            let after = after_stop(records, task_id);
            &&& request is NotActive <==> !records.contains_key(task_id)
            &&& request is Signal <==> records.contains_key(task_id) && records[task_id]
            &&& request is Wait <==> records.contains_key(task_id) && !records[task_id]
            &&& after.contains_key(id) <==> records.contains_key(id)
            &&& records.contains_key(task_id) ==> !after[task_id]
            &&& records.contains_key(id) && id != task_id ==> after[id] == records[id]
        }),
{
}

/// What the user is answered: that nothing was stopped where there was nothing to stop, and
/// otherwise, once the end was waited for, that it was stopped, or why that is not known.
pub proof fn law_what_the_user_is_answered(
    request: StopRequest,
    wait: Option<StopWait>,
    answer: Option<Result<bool, String>>,
)
    requires
        call_ensures(stop_answer, (request, wait), answer),
    ensures
        request is NotActive ==> answer == Some(Ok::<bool, String>(false)),
        !(request is NotActive) ==> match wait {
            None => answer is None,
            Some(StopWait::Ended(Ok(_))) => answer == Some(Ok::<bool, String>(true)),
            Some(StopWait::Ended(Err(detail))) => answer matches Some(Err(message)) && message@
                == detail@,
            Some(StopWait::ChannelClosed) => answer matches Some(Err(message)) && message@
                == "录制进程状态通道已关闭"@,
            Some(StopWait::TimedOut) => answer matches Some(Err(message)) && message@
                == "等待录制进程停止超时"@,
        },
{
}

/// A recording is active exactly where it is under way.
pub proof fn law_what_is_active(recorder: Recorder, task_id: i64, active: bool)
    requires
        call_ensures(Recorder::is_active, (&recorder, task_id), active),
    ensures
        active <==> recorder@.contains_key(task_id),
{
}

/// A recording that started is under way and can be told to stop; all others stay as they were, and
/// so does the program.
pub proof fn law_what_a_start_changes(recorder: &mut Recorder, task_id: i64, other: i64)
    requires
        call_ensures(Recorder::recording_started, (recorder, task_id), ()),
        other != task_id,
    ensures
        final(recorder)@.contains_key(task_id) && final(recorder)@[task_id],
        final(recorder)@.contains_key(other) == old(recorder)@.contains_key(other),
        old(recorder)@.contains_key(other) ==> final(recorder)@[other] == old(recorder)@[other],
        final(recorder).program() == old(recorder).program(),
{
}

/// A recording that has ended is not under way any more; all others stay as they were.
pub proof fn law_what_an_end_changes(recorder: &mut Recorder, task_id: i64, other: i64)
    requires
        call_ensures(Recorder::recording_ended, (recorder, task_id), ()),
        other != task_id,
    ensures
        !final(recorder)@.contains_key(task_id),
        final(recorder)@.contains_key(other) == old(recorder)@.contains_key(other),
        old(recorder)@.contains_key(other) ==> final(recorder)@[other] == old(recorder)@[other],
        final(recorder).program() == old(recorder).program(),
{
}

/// A recording that is told to stop stays under way, and cannot be told again; all others stay as
/// they were.
pub proof fn law_what_stopping_changes(
    recorder: &mut Recorder,
    task_id: i64,
    other: i64,
    request: StopRequest,
)
    requires
        call_ensures(Recorder::stop_record, (recorder, task_id), request),
        other != task_id,
    ensures
        (request is NotActive) == !old(recorder)@.contains_key(task_id),
        (request is Signal) == (old(recorder)@.contains_key(task_id) && old(recorder)@[task_id]),
        final(recorder)@.contains_key(task_id) == old(recorder)@.contains_key(task_id),
        old(recorder)@.contains_key(task_id) ==> !final(recorder)@[task_id],
        final(recorder)@.contains_key(other) == old(recorder)@.contains_key(other),
        old(recorder)@.contains_key(other) ==> final(recorder)@[other] == old(recorder)@[other],
        final(recorder).program() == old(recorder).program(),
{
}

/// Shutting down tells each recording that was not told before to stop, once, and leaves none under
/// way.
pub proof fn law_what_shutting_down_changes(recorder: &mut Recorder, told: Vec<i64>, id: i64)
    requires
        call_ensures(Recorder::shut_down, (recorder,), told),
    ensures
        told@.contains(id) == (old(recorder)@.contains_key(id) && old(recorder)@[id]),
        forall|i: int, j: int|
            0 <= i < j < told@.len() ==> #[trigger] told@[i] != #[trigger] told@[j],
        !final(recorder)@.contains_key(id),
        final(recorder).program() == old(recorder).program(),
{
}

/// A new recorder has nothing under way, and the program it was given.
pub proof fn law_new_recorders(ffmpeg_path: String, recorder: Recorder, path: &str, id: i64)
    requires
        call_ensures(Recorder::new, (ffmpeg_path,), recorder),
        call_ensures(Recorder::ffmpeg_path, (&recorder,), path),
    ensures
        !recorder@.contains_key(id),
        path@ == ffmpeg_path@,
{
}

/// The end of a recording is waited for up to five minutes.
pub proof fn law_how_long_an_end_is_waited_for()
    ensures
        STOP_WAIT_SECS == 5 * 60,
{
}

} // verus!
