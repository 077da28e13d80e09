//! How FFmpeg is called, and what it says.

use std::collections::VecDeque;
use vstd::prelude::*;

use crate::parser::http;
use crate::parser::room;
use crate::recorder::Recorder;
use crate::text;

verus! {

// ---------------------------------------------------------------------------
// The command line
// ---------------------------------------------------------------------------

/// A call of FFmpeg.
#[derive(Debug)]
pub struct FfmpegCommand {
    pub program: String,
    pub args: Vec<String>,
    /// The variables that are added to the environment.
    pub env: Vec<(String, String)>,
}

/// The address is fetched over HTTP.
pub open spec fn is_http(url: Seq<char>) -> bool {
    text::has_prefix(url, "http://"@) || text::has_prefix(url, "https://"@)
}

/// The headers that FFmpeg sends, each with its line end.
pub open spec fn header_lines(room_id: Seq<char>, cookie: Seq<char>) -> Seq<char> {
    let page = "Referer: "@ + room::room_page(room_id) + "\r\n"@;
    let agent = "User-Agent: "@ + http::BILIBILI_UA@ + "\r\n"@;
    let session = if text::trimmed(cookie).len() > 0 {
        "Cookie: "@ + text::trimmed(cookie) + "\r\n"@
    } else {
        Seq::empty()
    };
    page + agent + session
}

/// The arguments by which FFmpeg copies a stream into an FLV file. Over HTTP it identifies itself
/// and reconnects.
pub open spec fn record_args(
    url: Seq<char>,
    output: Seq<char>,
    cookie: Seq<char>,
    room_id: Seq<char>,
) -> Seq<Seq<char>> {
    let general = seq!["-y"@, "-nostdin"@, "-loglevel"@, "warning"@, "-nostats"@];
    let network = if is_http(url) {
        seq![
            "-rw_timeout"@,
            "60000000"@,
            "-reconnect"@,
            "1"@,
            "-reconnect_streamed"@,
            "1"@,
            "-reconnect_delay_max"@,
            "10"@,
            "-headers"@,
            header_lines(room_id, cookie),
        ]
    } else {
        Seq::empty()
    };
    general + network + seq!["-i"@, url, "-c"@, "copy"@, "-f"@, "flv"@, output]
}

/// The environment that makes FFmpeg use a proxy.
pub open spec fn proxy_env(proxy: Seq<char>) -> Seq<(Seq<char>, Seq<char>)> {
    if text::trimmed(proxy).len() > 0 {
        seq![
            ("http_proxy"@, text::trimmed(proxy)),
            ("https_proxy"@, text::trimmed(proxy)),
        ]
    } else {
        Seq::empty()
    }
}

/// What a list of variables says.
pub open spec fn env_view(env: Seq<(String, String)>) -> Seq<(Seq<char>, Seq<char>)> {
    env.map_values(|variable: (String, String)| (variable.0@, variable.1@))
}

/// Adds an argument.
pub(crate) fn add_arg(args: &mut Vec<String>, arg: &str)
    ensures
        text::texts_view(final(args)@) == text::texts_view(old(args)@).push(arg@),
{
    args.push(arg.to_owned());
    assert(text::texts_view(args@) =~= text::texts_view(old(args)@).push(arg@));
}

fn headers(room_id: &str, cookie: &str) -> (lines: String)
    ensures
        lines@ == header_lines(room_id@, cookie@),
{
    let page = text::cat3("Referer: ", room::live_page(room_id).as_str(), "\r\n");
    let agent = text::cat3("User-Agent: ", http::BILIBILI_UA, "\r\n");
    let inner = text::trim(cookie);
    let session = if inner.is_empty() {
        String::new()
    } else {
        text::cat3("Cookie: ", inner, "\r\n")
    };
    text::cat3(page.as_str(), agent.as_str(), session.as_str())
}

impl Recorder {
    /// The call by which FFmpeg copies a stream into an FLV file.
    pub fn spawn_ffmpeg(
        &self,
        stream_url: &str,
        output_path: &str,
        proxy: &str,
        cookie: &str,
        room_id: &str,
    ) -> (command: FfmpegCommand)
        ensures
            command.program@ == self.program(),
            text::texts_view(command.args@) == record_args(
                stream_url@,
                output_path@,
                cookie@,
                room_id@,
            ),
            env_view(command.env@) == proxy_env(proxy@),
    {
        let mut args: Vec<String> = Vec::new();
        add_arg(&mut args, "-y");
        add_arg(&mut args, "-nostdin");
        add_arg(&mut args, "-loglevel");
        add_arg(&mut args, "warning");
        add_arg(&mut args, "-nostats");
        if text::starts_with(stream_url, "http://") || text::starts_with(stream_url, "https://") {
            let lines = headers(room_id, cookie);
            add_arg(&mut args, "-rw_timeout");
            add_arg(&mut args, "60000000");
            add_arg(&mut args, "-reconnect");
            add_arg(&mut args, "1");
            add_arg(&mut args, "-reconnect_streamed");
            add_arg(&mut args, "1");
            add_arg(&mut args, "-reconnect_delay_max");
            add_arg(&mut args, "10");
            add_arg(&mut args, "-headers");
            add_arg(&mut args, lines.as_str());
        }
        add_arg(&mut args, "-i");
        add_arg(&mut args, stream_url);
        add_arg(&mut args, "-c");
        add_arg(&mut args, "copy");
        add_arg(&mut args, "-f");
        add_arg(&mut args, "flv");
        add_arg(&mut args, output_path);
        assert(text::texts_view(args@) =~= record_args(
            stream_url@,
            output_path@,
            cookie@,
            room_id@,
        ));
        let mut env: Vec<(String, String)> = Vec::new();
        let inner = text::trim(proxy);
        if !inner.is_empty() {
            env.push(("http_proxy".to_owned(), inner.to_owned()));
            env.push(("https_proxy".to_owned(), inner.to_owned()));
        }
        assert(env_view(env@) =~= proxy_env(proxy@));
        FfmpegCommand { program: self.ffmpeg_path().to_owned(), args, env }
    }
}

/// Why FFmpeg did not start, for the user.
pub fn spawn_error(not_found: bool, detail: &str) -> (message: String)
    ensures
        not_found ==> message@ == "ffmpeg 未找到"@,
        !not_found ==> message@ == "启动 ffmpeg 录制失败: "@ + detail@,
{
    if not_found {
        "ffmpeg 未找到".to_owned()
    } else {
        text::cat2("启动 ffmpeg 录制失败: ", detail)
    }
}

// ---------------------------------------------------------------------------
// What FFmpeg says
// ---------------------------------------------------------------------------

/// How many lines of what FFmpeg says are kept.
pub const STDERR_TAIL_LINES: usize = 50;

/// The last lines that FFmpeg said.
#[derive(Debug)]
pub struct StderrTail {
    lines: VecDeque<String>,
}

/// The last `STDERR_TAIL_LINES` of the lines.
pub open spec fn last_lines(lines: Seq<String>) -> Seq<String> {
    if lines.len() <= STDERR_TAIL_LINES {
        lines
    } else {
        lines.skip(lines.len() - STDERR_TAIL_LINES)
    }
}

impl View for StderrTail {
    type V = Seq<String>;

    closed spec fn view(&self) -> Seq<String> {
        self.lines@
    }
}

impl StderrTail {
    /// No more than the last lines are kept.
    #[verifier::type_invariant]
    closed spec fn wf(self) -> bool {
        self.lines@.len() <= STDERR_TAIL_LINES
    }

    /// Nothing was said yet.
    pub fn new() -> (tail: Self)
        ensures
            tail@ == Seq::<String>::empty(),
    {
        Self { lines: VecDeque::with_capacity(STDERR_TAIL_LINES) }
    }

    /// One more line was said; the oldest one goes where there are too many.
    pub fn push(&mut self, line: String)
        ensures
            final(self)@ == last_lines(old(self)@.push(line)),
    {
        proof {
            use_type_invariant(&*self);
        }
        let mut lines: VecDeque<String> = VecDeque::new();
        std::mem::swap(&mut lines, &mut self.lines);
        if lines.len() == STDERR_TAIL_LINES {
            let _ = lines.pop_front();
        }
        lines.push_back(line);
        assert(lines@ =~= last_lines(old(self)@.push(line)));
        self.lines = lines;
    }

    /// The line that was said last.
    pub fn last(&self) -> (line: Option<String>)
        ensures
            line is Some == (self@.len() > 0),
            line matches Some(line) ==> line@ == self@.last()@,
    {
        let count: usize = self.lines.len();
        if count == 0 {
            None
        } else {
            Some(self.lines[count - 1].clone())
        }
    }

    /// The lines, in order.
    pub fn to_vec(&self) -> (lines: Vec<String>)
        ensures
            text::texts_view(lines@) == text::texts_view(self@),
            lines@.len() <= STDERR_TAIL_LINES,
    {
        proof {
            use_type_invariant(self);
        }
        let mut lines: Vec<String> = Vec::new();
        let mut i: usize = 0;
        while i < self.lines.len()
            invariant
                i <= self.lines@.len(),
                text::texts_view(lines@) == text::texts_view(self.lines@).take(i as int),
            decreases self.lines@.len() - i,
        {
            let ghost before = lines@;
            lines.push(self.lines[i].clone());
            assert(text::texts_view(lines@) =~= text::texts_view(before).push(
                self.lines@[i as int]@,
            ));
            assert(text::texts_view(self.lines@).take(i + 1) =~= text::texts_view(
                self.lines@,
            ).take(i as int).push(self.lines@[i as int]@));
            i += 1;
        }
        assert(text::texts_view(self.lines@).take(i as int) =~= text::texts_view(self.lines@));
        assert(lines@.len() == text::texts_view(lines@).len());
        lines
    }
}

/// Keeping the last lines one by one is the same as keeping the last lines of all.
pub proof fn law_tail_is_the_end(said: Seq<String>, line: String)
    ensures
        last_lines(last_lines(said).push(line)) == last_lines(said.push(line)),
{
    assert(last_lines(last_lines(said).push(line)) =~= last_lines(said.push(line)));
}

// ---------------------------------------------------------------------------
// Addresses are not shown
// ---------------------------------------------------------------------------

/// The message with its first address hidden: from the first `http` up to the next white space.
pub open spec fn redacted(message: Seq<char>) -> Seq<char> {
    match text::find_from(message, "http"@, 0) {
        None => message,
        Some(start) => message.take(start) + "[直播地址]"@ + message.skip(
            text::white_space_from(message, start),
        ),
    }
}

/// The message with its first address hidden.
pub fn redact_url(message: &str) -> (shown: String)
    ensures
        shown@ == redacted(message@),
{
    let chars = text::chars_of(message);
    match text::find_text(&chars, "http") {
        None => message.to_owned(),
        Some(start) => {
            let end = text::find_white_space(&chars, start);
            let shown = text::cat3(
                message.substring_char(0, start),
                "[直播地址]",
                message.substring_char(end, chars.len()),
            );
            assert(shown@ =~= redacted(message@));
            shown
        },
    }
}

/// A message without an address is shown as it is.
pub proof fn law_redaction_keeps_other_messages(message: Seq<char>)
    requires
        forall|i: int| !text::occurs_at(message, "http"@, i),
    ensures
        redacted(message) == message,
{
    text::lemma_find_from(message, "http"@, 0);
}

/// What is shown of a message is what comes before its first address, the placeholder, and what
/// follows from the white space after the address on.
pub proof fn law_redaction_hides_the_address(message: Seq<char>, start: int)
    requires
        text::occurs_at(message, "http"@, start),
        forall|i: int| 0 <= i < start ==> !text::occurs_at(message, "http"@, i),
    ensures
        exists|end: int|
            #![trigger message.skip(end)]
            {
                &&& start < end <= message.len()
                &&& forall|i: int| start <= i < end ==> !text::is_white_space(#[trigger] message[i])
                &&& end < message.len() ==> text::is_white_space(message[end])
                &&& redacted(message) == message.take(start) + "[直播地址]"@ + message.skip(end)
            },
{
    text::lemma_find_from(message, "http"@, 0);
    let end = text::white_space_from(message, start);
    reveal_strlit("http");
    assert("http"@.len() == 4);
    text::lemma_white_space_from(message, start);
    assert(message[start] == message.subrange(start, start + 4)[0]);
    assert(message[start] == 'h');
    assert(redacted(message) == message.take(start) + "[直播地址]"@ + message.skip(end));
}

// ---------------------------------------------------------------------------
// Waiting for data
// ---------------------------------------------------------------------------

/// How long FFmpeg may take to write its first data, in milliseconds.
pub const STARTUP_TIMEOUT_MILLIS: u64 = 12_000;

/// How long to wait before looking again, in milliseconds.
pub const STARTUP_POLL_MILLIS: u64 = 200;

/// How the process is doing. `S` is the kind of text.
#[derive(Debug)]
pub enum ProcessState<S> {
    Running,
    /// It ended, with that status.
    Exited(S),
    /// That could not be found out.
    Unknown(S),
}

/// What to make of a process that should write its first data.
#[derive(Debug)]
pub enum Readiness<S> {
    Ready,
    /// Look again after so many milliseconds.
    Wait(u64),
    /// It will not write any, for that reason.
    Failed(S),
}

impl View for ProcessState<String> {
    type V = ProcessState<Seq<char>>;

    open spec fn view(&self) -> ProcessState<Seq<char>> {
        match self {
            ProcessState::Running => ProcessState::Running,
            ProcessState::Exited(status) => ProcessState::Exited(status@),
            ProcessState::Unknown(detail) => ProcessState::Unknown(detail@),
        }
    }
}

impl View for Readiness<String> {
    type V = Readiness<Seq<char>>;

    open spec fn view(&self) -> Readiness<Seq<char>> {
        match self {
            Readiness::Ready => Readiness::Ready,
            Readiness::Wait(millis) => Readiness::Wait(*millis),
            Readiness::Failed(message) => Readiness::Failed(message@),
        }
    }
}

/// What to make of a process, given the length of its output file where there is one, how the
/// process is doing, and for how long it has been running.
pub open spec fn readiness(
    output_len: Option<u64>,
    process: ProcessState<Seq<char>>,
    elapsed_millis: u64,
) -> Readiness<Seq<char>> {
    if output_len is Some && output_len->0 > 0 {
        Readiness::Ready
    } else {
        match process {
            ProcessState::Unknown(detail) => Readiness::Failed(
                "检查 FFmpeg 状态失败: "@ + detail,
            ),
            ProcessState::Exited(status) => Readiness::Failed(
                "FFmpeg 在产生数据前退出: "@ + status,
            ),
            ProcessState::Running => if elapsed_millis >= STARTUP_TIMEOUT_MILLIS {
                Readiness::Failed("等待直播流数据超时"@)
            } else {
                Readiness::Wait(STARTUP_POLL_MILLIS)
            },
        }
    }
}

/// Whether the process writes data, will not write any, or should be looked at again. Data counts
/// even where the process has ended or the time is up.
pub fn wait_until_ready(
    output_len: Option<u64>,
    process: ProcessState<String>,
    elapsed_millis: u64,
) -> (found: Readiness<String>)
    ensures
        found@ == readiness(output_len, process@, elapsed_millis),
{
    if let Some(len) = output_len {
        if len > 0 {
            return Readiness::Ready;
        }
    }
    match process {
        ProcessState::Unknown(detail) => Readiness::Failed(
            text::cat2("检查 FFmpeg 状态失败: ", detail.as_str()),
        ),
        ProcessState::Exited(status) => Readiness::Failed(
            text::cat2("FFmpeg 在产生数据前退出: ", status.as_str()),
        ),
        ProcessState::Running => if elapsed_millis >= STARTUP_TIMEOUT_MILLIS {
            Readiness::Failed("等待直播流数据超时".to_owned())
        } else {
            Readiness::Wait(STARTUP_POLL_MILLIS)
        },
    }
}

// ---------------------------------------------------------------------------
// Laws over what FFmpeg is called with
// ---------------------------------------------------------------------------

/// The address begins with one of the two schemes.
pub open spec fn is_on_the_web(url: Seq<char>) -> bool {
    (exists|rest: Seq<char>| url == #[trigger] ("http://"@ + rest)) || (exists|rest: Seq<char>|
        url == #[trigger] ("https://"@ + rest))
}

/// FFmpeg reads the address, copies the streams, and writes FLV to the output. An address on the
/// web is read with a time limit, with reconnection, and with headers; no other one is.
pub proof fn law_how_ffmpeg_records(
    recorder: Recorder,
    stream_url: &str,
    output_path: &str,
    proxy: &str,
    cookie: &str,
    room_id: &str,
    command: FfmpegCommand,
)
    requires
        call_ensures(
            Recorder::spawn_ffmpeg,
            (&recorder, stream_url, output_path, proxy, cookie, room_id),
            command,
        ),
    ensures
        ({
            let args = command.args@;
            let end = args.len() - 7;
            &&& command.program@ == recorder.program()
            &&& args.len() == (if is_on_the_web(stream_url@) {
                22int
            } else {
                12int
            })
            &&& args[0]@ == "-y"@
            &&& args[1]@ == "-nostdin"@
            &&& args[2]@ == "-loglevel"@ && args[3]@ == "warning"@
            &&& args[4]@ == "-nostats"@
            &&& is_on_the_web(stream_url@) ==> {
                &&& args[5]@ == "-rw_timeout"@ && args[6]@ == "60000000"@
                &&& args[7]@ == "-reconnect"@ && args[8]@ == "1"@
                &&& args[9]@ == "-reconnect_streamed"@ && args[10]@ == "1"@
                &&& args[11]@ == "-reconnect_delay_max"@ && args[12]@ == "10"@
                &&& args[13]@ == "-headers"@
                &&& args[14]@ == "Referer: "@ + ("https://live.bilibili.com/"@ + room_id@)
                    + "\r\n"@ + ("User-Agent: "@
                    + "Mozilla/5.0 (Windows NT 10.0; Win64; x64) AppleWebKit/537.36 (KHTML, like Gecko) Chrome/120.0.0.0 Safari/537.36"@
                    + "\r\n"@) + (if text::trimmed(cookie@).len() > 0 {
                    "Cookie: "@ + text::trimmed(cookie@) + "\r\n"@
                } else {
                    Seq::empty()
                })
            }
            &&& args[end]@ == "-i"@ && args[end + 1]@ == stream_url@
            &&& args[end + 2]@ == "-c"@ && args[end + 3]@ == "copy"@
            &&& args[end + 4]@ == "-f"@ && args[end + 5]@ == "flv"@
            &&& args[end + 6]@ == output_path@
        }),
{
    text::law_beginnings_and_ends(stream_url@, "http://"@);
    text::law_beginnings_and_ends(stream_url@, "https://"@);
    let args = command.args@;
    let texts = text::texts_view(args);
    assert(texts.len() == args.len());
    assert forall|i: int| 0 <= i < args.len() implies #[trigger] args[i]@ == texts[i] by {}
}

/// FFmpeg goes through the proxy that is set, for both schemes, and through none where the setting
/// is blank.
pub proof fn law_which_proxy_ffmpeg_uses(
    recorder: Recorder,
    stream_url: &str,
    output_path: &str,
    proxy: &str,
    cookie: &str,
    room_id: &str,
    command: FfmpegCommand,
)
    requires
        call_ensures(
            Recorder::spawn_ffmpeg,
            (&recorder, stream_url, output_path, proxy, cookie, room_id),
            command,
        ),
    ensures
        text::trimmed(proxy@).len() == 0 ==> command.env@.len() == 0,
        text::trimmed(proxy@).len() > 0 ==> {
            &&& command.env@.len() == 2
            &&& command.env@[0].0@ == "http_proxy"@ && command.env@[0].1@ == text::trimmed(proxy@)
            &&& command.env@[1].0@ == "https_proxy"@ && command.env@[1].1@ == text::trimmed(proxy@)
        },
{
    let views = env_view(command.env@);
    assert(views.len() == command.env@.len());
    if command.env@.len() > 1 {
        assert(views[0] == (command.env@[0].0@, command.env@[0].1@));
        assert(views[1] == (command.env@[1].0@, command.env@[1].1@));
    }
}

/// The user is told that FFmpeg is missing exactly where it is, and why it did not start otherwise.
pub proof fn law_why_ffmpeg_does_not_start(not_found: bool, detail: &str, message: String)
    requires
        call_ensures(spawn_error, (not_found, detail), message),
    ensures
        message@ == (if not_found {
            "ffmpeg 未找到"@
        } else {
            "启动 ffmpeg 录制失败: "@ + detail@
        }),
{
}

/// No more than the last 50 lines are kept, and these in their order.
pub proof fn law_the_last_lines_are_kept(lines: Seq<String>)
    ensures
        last_lines(lines).len() == (if lines.len() < 50 {
            lines.len()
        } else {
            50
        }),
        forall|i: int|
            0 <= i < last_lines(lines).len() ==> #[trigger] last_lines(lines)[i] == lines[lines.len()
                - last_lines(lines).len() + i],
{
}

/// Data make a process ready, whatever else holds. Without data it has failed where it ended, where
/// it cannot be looked at, or after 12 seconds; before that it is looked at again after a fifth of
/// a second.
pub proof fn law_when_a_process_is_ready(
    output_len: Option<u64>,
    process: ProcessState<String>,
    elapsed_millis: u64,
    found: Readiness<String>,
)
    requires
        call_ensures(wait_until_ready, (output_len, process, elapsed_millis), found),
    ensures
        ({
            let has_data = output_len matches Some(len) && len >= 1;
            &&& found is Ready == has_data
            &&& !has_data ==> match process {
                ProcessState::Unknown(detail) => found matches Readiness::Failed(why) && why@
                    == "检查 FFmpeg 状态失败: "@ + detail@,
                ProcessState::Exited(status) => found matches Readiness::Failed(why) && why@
                    == "FFmpeg 在产生数据前退出: "@ + status@,
                ProcessState::Running => if elapsed_millis >= 12_000 {
                    found matches Readiness::Failed(why) && why@ == "等待直播流数据超时"@
                } else {
                    found matches Readiness::Wait(millis) && millis == 200
                },
            }
        }),
{
}

/// What is shown of a message says nothing of its first address, and all of the rest.
pub proof fn law_what_is_shown_of_a_message(message: &str, shown: String, start: int)
    requires
        call_ensures(redact_url, (message,), shown),
        text::occurs_at(message@, "http"@, start),
        forall|i: int| 0 <= i < start ==> !text::occurs_at(message@, "http"@, i),
    ensures
        exists|end: int|
            #![trigger message@.skip(end)]
            {
                &&& start < end <= message@.len()
                &&& forall|i: int|
                    start <= i < end ==> !text::is_white_space(#[trigger] message@[i])
                &&& end < message@.len() ==> text::is_white_space(message@[end])
                &&& shown@ == message@.take(start) + "[直播地址]"@ + message@.skip(end)
            },
{
    law_redaction_hides_the_address(message@, start);
}

/// A new line is the last one that is kept, and the ones before it stay in their order; where that
/// would make more than 50, the oldest one goes.
pub proof fn law_what_a_line_changes(tail: &mut StderrTail, line: String)
    requires
        call_ensures(StderrTail::push, (tail, line), ()),
    ensures
        old(tail)@.len() < 50 ==> final(tail)@ == old(tail)@.push(line),
        old(tail)@.len() == 50 ==> final(tail)@ == old(tail)@.skip(1).push(line),
{
    if old(tail)@.len() == 50 {
        assert(old(tail)@.push(line).skip(1) =~= old(tail)@.skip(1).push(line));
    }
}

/// What was kept is told line by line, and the last line is the last one.
pub proof fn law_what_was_kept_is_told(
    tail: StderrTail,
    lines: Vec<String>,
    last: Option<String>,
    fresh: StderrTail,
)
    requires
        call_ensures(StderrTail::to_vec, (&tail,), lines),
        call_ensures(StderrTail::last, (&tail,), last),
        call_ensures(StderrTail::new, (), fresh),
    ensures
        lines@.len() == tail@.len(),
        lines@.len() <= 50,
        forall|i: int| 0 <= i < lines@.len() ==> #[trigger] lines@[i]@ == tail@[i]@,
        last is None <==> tail@.len() == 0,
        last matches Some(line) ==> line@ == tail@[tail@.len() - 1]@,
        fresh@.len() == 0,
{
    let texts = text::texts_view(lines@);
    assert(texts.len() == lines@.len());
    assert(text::texts_view(tail@).len() == tail@.len());
    assert forall|i: int| 0 <= i < lines@.len() implies #[trigger] lines@[i]@ == tail@[i]@ by {
        assert(texts[i] == lines@[i]@);
        assert(text::texts_view(tail@)[i] == tail@[i]@);
    }
}

} // verus!
