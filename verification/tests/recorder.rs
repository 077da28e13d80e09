use bilibili_recorder::parser::{StreamCandidate, BILIBILI_UA};
use bilibili_recorder::recorder::ffmpeg::{
    redact_url, spawn_error, wait_until_ready, ProcessState, Readiness, StderrTail,
};
use bilibili_recorder::recorder::launch::{Attempt, Launch, LaunchStep};
use bilibili_recorder::recorder::registry::{
    exit_by_itself, exit_by_stop, stop_answer, stop_outcome, StopRequest, StopWait, WaitResult,
};
use bilibili_recorder::recorder::Recorder;

fn recorder() -> Recorder {
    Recorder::new("/bin/ffmpeg".to_string())
}

fn candidates(urls: &[&str]) -> Vec<StreamCandidate> {
    urls.iter().map(|url| StreamCandidate { url: url.to_string() }).collect()
}

fn launch(recorder: &Recorder, task_id: i64, urls: &[&str]) -> Launch {
    let launch = match recorder.start_record(task_id, &candidates(urls)) {
        LaunchStep::MakeDirectory(launch) => launch,
        other => panic!("{:?}", other),
    };
    trying(launch.directory_made(None))
}

fn trying(step: LaunchStep<Launch, String>) -> Launch {
    match step {
        LaunchStep::Try(launch) => launch,
        other => panic!("{:?}", other),
    }
}

fn refused(step: LaunchStep<Launch, String>) -> String {
    match step {
        LaunchStep::Refused(message) => message,
        other => panic!("{:?}", other),
    }
}

fn not_ready(reason: &str, last_line: Option<&str>) -> Attempt<String> {
    Attempt::NotReady {
        reason: reason.to_string(),
        last_line: last_line.map(str::to_string),
    }
}

#[test]
fn http_streams_are_fetched_like_a_browser_does() {
    let command = recorder().spawn_ffmpeg("https://a/b?c", "/r/a.flv", " p ", " k=v ", "123");
    assert_eq!(command.program, "/bin/ffmpeg");
    let headers = format!(
        "Referer: https://live.bilibili.com/123\r\nUser-Agent: {}\r\nCookie: k=v\r\n",
        BILIBILI_UA
    );
    assert_eq!(
        command.args,
        [
            "-y",
            "-nostdin",
            "-loglevel",
            "warning",
            "-nostats",
            "-rw_timeout",
            "60000000",
            "-reconnect",
            "1",
            "-reconnect_streamed",
            "1",
            "-reconnect_delay_max",
            "10",
            "-headers",
            &headers,
            "-i",
            "https://a/b?c",
            "-c",
            "copy",
            "-f",
            "flv",
            "/r/a.flv",
        ]
    );
    assert_eq!(
        command.env,
        [
            ("http_proxy".to_string(), "p".to_string()),
            ("https_proxy".to_string(), "p".to_string()),
        ]
    );
}

#[test]
fn headers_name_no_cookie_where_there_is_none() {
    let command = recorder().spawn_ffmpeg("http://a", "o", "", " \n", "1");
    assert_eq!(
        command.args[14],
        format!(
            "Referer: https://live.bilibili.com/1\r\nUser-Agent: {}\r\n",
            BILIBILI_UA
        )
    );
    assert!(command.env.is_empty());
}

#[test]
fn local_files_are_read_without_headers() {
    let command = recorder().spawn_ffmpeg("/in.flv", "/out.flv", " ", "k", "1");
    assert_eq!(
        command.args,
        [
            "-y", "-nostdin", "-loglevel", "warning", "-nostats", "-i", "/in.flv", "-c", "copy",
            "-f", "flv", "/out.flv",
        ]
    );
    assert_eq!(spawn_error(true, "x"), "ffmpeg 未找到");
    assert_eq!(spawn_error(false, "x"), "启动 ffmpeg 录制失败: x");
}

#[test]
fn the_first_address_is_hidden() {
    for (message, expected) in [
        ("", ""),
        ("no address", "no address"),
        ("https://a/b", "[直播地址]"),
        ("错 http://a/b?c: 404 http://d", "错 [直播地址] 404 http://d"),
        ("xhttps://a\u{3000}b", "x[直播地址]\u{3000}b"),
        ("HTTP http", "HTTP [直播地址]"),
        ("htt http1\nhttp2", "htt [直播地址]\nhttp2"),
    ] {
        assert_eq!(redact_url(message), expected);
    }
}

#[test]
fn the_last_fifty_lines_are_kept() {
    let mut tail = StderrTail::new();
    assert_eq!(tail.last(), None);
    assert!(tail.to_vec().is_empty());
    for i in 0..53 {
        tail.push(i.to_string());
    }
    let lines = tail.to_vec();
    assert_eq!(lines.len(), 50);
    assert_eq!(lines[0], "3");
    assert_eq!(lines[49], "52");
    assert_eq!(tail.last().as_deref(), Some("52"));
}

#[test]
fn data_is_waited_for_up_to_twelve_seconds() {
    let look = |len, process, elapsed| wait_until_ready(len, process, elapsed);
    assert!(matches!(look(Some(1), ProcessState::Running, 20_000), Readiness::Ready));
    assert!(matches!(
        look(Some(1), ProcessState::Exited("exit status: 1".to_string()), 0),
        Readiness::Ready
    ));
    assert!(matches!(look(None, ProcessState::Running, 11_999), Readiness::Wait(200)));
    assert!(matches!(look(Some(0), ProcessState::Running, 0), Readiness::Wait(200)));
    for (process, elapsed, expected) in [
        (ProcessState::Running, 12_000, "等待直播流数据超时"),
        (
            ProcessState::Exited("exit status: 1".to_string()),
            0,
            "FFmpeg 在产生数据前退出: exit status: 1",
        ),
        (ProcessState::Unknown("x".to_string()), 12_000, "检查 FFmpeg 状态失败: x"),
    ] {
        match look(Some(0), process, elapsed) {
            Readiness::Failed(message) => assert_eq!(message, expected),
            other => panic!("{:?}", other),
        }
    }
}

#[test]
fn recordings_need_an_address_and_start_once() {
    let mut recorder = recorder();
    assert_eq!(
        refused(recorder.start_record(1, &candidates(&[]))),
        "直播流地址为空，主播可能未开播"
    );
    recorder.recording_started(1);
    assert_eq!(
        refused(recorder.start_record(1, &candidates(&["a"]))),
        "该录制任务已经在运行"
    );
    assert!(matches!(
        recorder.start_record(2, &candidates(&["a"])),
        LaunchStep::MakeDirectory(_)
    ));
    let step = match recorder.start_record(2, &candidates(&["a"])) {
        LaunchStep::MakeDirectory(launch) => launch.directory_made(Some("只读".to_string())),
        other => panic!("{:?}", other),
    };
    assert_eq!(refused(step), "创建输出目录失败: 只读");
}

#[test]
fn the_first_address_that_delivers_is_recorded() {
    let mut recorder = recorder();
    let first = launch(&recorder, 7, &["a", "b", "c"]);
    assert_eq!(first.url(), "a");
    let second = trying(recorder.attempt_ended(7, first, not_ready("超时", None)));
    assert_eq!(second.url(), "b");
    assert!(!recorder.is_active(7));
    let step = recorder.attempt_ended(7, second, Attempt::Ready);
    assert!(matches!(step, LaunchStep::Recording));
    assert!(recorder.is_active(7));
}

#[test]
fn failures_of_all_addresses_are_told() {
    let mut recorder = recorder();
    let first = launch(&recorder, 7, &["a", "b"]);
    let line = "http://a/secret: 403 Forbidden";
    let second = trying(recorder.attempt_ended(7, first, not_ready("超时", Some(line))));
    match recorder.attempt_ended(7, second, not_ready("超时", None)) {
        LaunchStep::GiveUp(message) => assert_eq!(
            message,
            "所有直播线路均无法产生有效数据：CDN 1: [直播地址] 403 Forbidden；CDN 2: 超时"
        ),
        other => panic!("{:?}", other),
    }
    assert!(!recorder.is_active(7));
}

#[test]
fn a_missing_program_ends_the_start() {
    let mut recorder = recorder();
    let first = launch(&recorder, 7, &["a", "b"]);
    let step = recorder.attempt_ended(7, first, Attempt::NotStarted("ffmpeg 未找到".to_string()));
    assert_eq!(refused(step), "ffmpeg 未找到");
}

#[test]
fn a_recording_is_told_to_stop_once() {
    let mut recorder = recorder();
    assert_eq!(recorder.ffmpeg_path(), "/bin/ffmpeg");
    assert_eq!(recorder.stop_record(1), StopRequest::NotActive);
    recorder.recording_started(1);
    recorder.recording_started(2);
    assert_eq!(recorder.stop_record(1), StopRequest::Signal);
    assert_eq!(recorder.stop_record(1), StopRequest::Wait);
    assert!(recorder.is_active(1));
    recorder.recording_ended(1);
    assert!(!recorder.is_active(1));
    assert_eq!(recorder.stop_record(1), StopRequest::NotActive);
    assert_eq!(recorder.stop_record(2), StopRequest::Signal);
}

#[test]
fn all_recordings_are_told_to_stop_at_the_end() {
    let mut recorder = recorder();
    for id in [3, 1, 2] {
        recorder.recording_started(id);
    }
    recorder.stop_record(2);
    let mut told = recorder.shut_down();
    told.sort();
    assert_eq!(told, [1, 3]);
    assert!(!recorder.is_active(2));
    assert!(recorder.shut_down().is_empty());
}

#[test]
fn stopping_waits_for_the_end() {
    assert_eq!(stop_outcome(StopWait::Ended(Ok(()))), Ok(true));
    assert_eq!(
        stop_outcome(StopWait::Ended(Err("库".to_string()))),
        Err("库".to_string())
    );
    assert_eq!(
        stop_outcome(StopWait::ChannelClosed),
        Err("录制进程状态通道已关闭".to_string())
    );
    assert_eq!(stop_outcome(StopWait::TimedOut), Err("等待录制进程停止超时".to_string()));
}

#[test]
fn requests_to_stop_are_answered_at_once_or_after_the_wait() {
    assert_eq!(stop_answer(StopRequest::NotActive, None), Some(Ok(false)));
    assert_eq!(stop_answer(StopRequest::NotActive, Some(StopWait::TimedOut)), Some(Ok(false)));
    for request in [StopRequest::Signal, StopRequest::Wait] {
        assert_eq!(stop_answer(request, None), None);
        assert_eq!(stop_answer(request, Some(StopWait::Ended(Ok(())))), Some(Ok(true)));
        assert_eq!(
            stop_answer(request, Some(StopWait::TimedOut)),
            Some(Err("等待录制进程停止超时".to_string()))
        );
    }
}

#[test]
fn the_end_of_a_process_is_described() {
    let tail = || vec!["a".to_string()];
    let exit = exit_by_itself(WaitResult::Ended { success: true }, tail());
    assert!(!exit.manually_stopped && exit.status_success);
    assert_eq!(exit.wait_error, None);
    assert_eq!(exit.stderr_tail, ["a"]);
    let exit = exit_by_itself(WaitResult::Failed("x".to_string()), tail());
    assert!(!exit.manually_stopped && !exit.status_success);
    assert_eq!(exit.wait_error.as_deref(), Some("x"));
    let exit = exit_by_stop(Some("k".to_string()), WaitResult::Ended { success: false }, tail());
    assert!(exit.manually_stopped && !exit.status_success);
    assert_eq!(exit.wait_error.as_deref(), Some("k"));
    let exit = exit_by_stop(Some("k".to_string()), WaitResult::Failed("x".to_string()), tail());
    assert!(exit.manually_stopped && !exit.status_success);
    assert_eq!(exit.wait_error.as_deref(), Some("x"));
}
