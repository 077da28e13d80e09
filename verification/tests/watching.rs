use bilibili_recorder::clock::{Instant, LocalMoment, TimeOfDay};
use bilibili_recorder::commands::{
    add_room, convert_to_mp4, delete_room, delete_task, get_room_avatar_data_url,
    set_room_auto_record, set_room_auto_schedule, start_record, stop_record, task_converted,
    task_file, tasks_counted, DeleteStep,
};
use bilibili_recorder::exit::{
    exit_converted, exit_finished, exit_is_noteworthy, exit_marked, exit_refreshed, exit_settled,
    handle_recording_exit, refresh_of, Conversion, EndedRecording, ExitStep, JudgedRecording, Refresh,
};
use bilibili_recorder::model::{
    apply_live_info, status_is_busy, status_is_pending, AppSettings, LiveRoom, RecordTask,
};
use bilibili_recorder::monitor::{
    check_auto_room, check_broke_down, info_stored, next_due_auto_room,
    process_auto_deadlines_and_schedules, reconcile_auto_state_on_startup, recording_begun,
    recording_refused, room_after_refusal, room_asked, room_reread, should_poll_auto_room,
    CheckStep, DueStep,
};
use bilibili_recorder::parser::{LiveInfo, ParseError, StreamSelection};
use bilibili_recorder::plan::{pause_auto_recording, Announcement, QueueMove, RoomPlan};
use bilibili_recorder::policy::{
    apply_post_recording_auto_policy, auto_post_record_action, classify_recording,
    AutoPostRecordAction, LiveVerification,
};
use bilibili_recorder::recorder::RecordingExit;
use bilibili_recorder::schedule::monitor_is_expired_at;
use bilibili_recorder::start::{
    file_named, file_not_named, recorder_started, refuse_while_running, start_record_from_info,
    task_added, StartStep,
};

// 2026-08-21 09:30 in UTC.
const NOW: Instant = Instant { secs: 1_787_304_600, nanos: 0 };

const OPEN: &str = "2026-08-21T09:30:01+00:00";
const OVER: &str = "2026-08-21T09:30:00+00:00";

fn here(hour: u32) -> LocalMoment {
    LocalMoment {
        year: 2026,
        month: 8,
        day: 21,
        time: TimeOfDay { secs: hour * 3600, nanos: 0 },
    }
}

fn room(enabled: bool, until: Option<&str>) -> LiveRoom {
    LiveRoom {
        id: 1,
        platform: "bilibili".to_string(),
        room_id: "123".to_string(),
        short_id: None,
        uid: 456,
        anchor_name: "旧".to_string(),
        room_title: "旧题".to_string(),
        cover_url: "旧图".to_string(),
        avatar_url: "旧像".to_string(),
        is_live: false,
        created_at: String::new(),
        auto_record_enabled: enabled,
        auto_record_daily_time: None,
        auto_record_until: until.map(str::to_string),
        last_schedule_trigger_date: None,
    }
}

fn scheduled(enabled: bool, until: Option<&str>, time: &str, last_date: Option<&str>) -> LiveRoom {
    LiveRoom {
        auto_record_daily_time: Some(time.to_string()),
        last_schedule_trigger_date: last_date.map(str::to_string),
        ..room(enabled, until)
    }
}

fn settings() -> AppSettings {
    AppSettings {
        quality: "10000".to_string(),
        proxy: String::new(),
        cookie: String::new(),
        recordings_dir: String::new(),
        auto_disable_after_record: false,
        auto_monitor_window_hours: 6,
        auto_check_interval_secs: 30,
        auto_convert_mp4: true,
        preserve_source_after_convert: true,
    }
}

fn info(is_live: bool) -> LiveInfo {
    LiveInfo {
        platform: "bilibili".to_string(),
        room_id: "123".to_string(),
        short_id: Some("6".to_string()),
        uid: 9,
        anchor_name: "新".to_string(),
        room_title: String::new(),
        cover_url: "新图".to_string(),
        avatar_url: String::new(),
        is_live,
    }
}

fn task(status: &str, file_path: Option<&str>) -> RecordTask {
    RecordTask {
        id: 5,
        room_id: 1,
        trigger: "auto".to_string(),
        status: status.to_string(),
        file_path: file_path.map(str::to_string),
    }
}

fn exit(manually_stopped: bool) -> RecordingExit {
    RecordingExit {
        manually_stopped,
        status_success: true,
        wait_error: None,
        stderr_tail: Vec::new(),
    }
}

fn ended(size: i64, manually_stopped: bool, file_path: Option<&str>) -> EndedRecording<String> {
    EndedRecording {
        file_path: file_path.map(str::to_string),
        size,
        trigger: "auto".to_string(),
        manually_stopped,
    }
}

fn finished(step: ExitStep<String>) -> JudgedRecording<String> {
    match step {
        ExitStep::FinishTask(recording) => recording,
        other => panic!("{:?}", other),
    }
}

fn settled(step: CheckStep<LiveInfo, String>) -> RoomPlan<String> {
    match step {
        CheckStep::Settle(plan) => plan,
        other => panic!("{:?}", other),
    }
}

fn assert_told(announce: &Option<Announcement<String>>, reason: &str, message: Option<&str>) {
    let announce = announce.as_ref().unwrap();
    assert_eq!(announce.reason, reason);
    assert_eq!(announce.message.as_deref(), message);
}

fn assert_off(plan: &RoomPlan<String>, reason: &str, message: &str) {
    let setting = plan.setting.as_ref().unwrap();
    assert!(!setting.enabled);
    assert_eq!(setting.until, None);
    assert_eq!(plan.queue, QueueMove::Clear);
    assert_told(&plan.announce, reason, Some(message));
}

fn assert_only(plan: &RoomPlan<String>, queue: QueueMove) {
    assert!(plan.setting.is_none());
    assert_eq!(plan.queue, queue);
    assert!(plan.announce.is_none());
}

// ---------------------------------------------------------------------------
// The result of a recording
// ---------------------------------------------------------------------------

#[test]
fn classifies_natural_offline_exit_as_completed() {
    assert_eq!(
        classify_recording(1024, false, Some(LiveVerification::Offline)),
        "completed"
    );
}

#[test]
fn classifies_live_or_unverified_exit_as_interrupted() {
    assert_eq!(
        classify_recording(1024, false, Some(LiveVerification::Live)),
        "interrupted"
    );
    assert_eq!(
        classify_recording(1024, false, Some(LiveVerification::Failed)),
        "interrupted"
    );
}

#[test]
fn classifies_empty_output_as_failed() {
    assert_eq!(
        classify_recording(0, true, Some(LiveVerification::Offline)),
        "failed"
    );
}

#[test]
fn classifies_stopped_recordings_as_completed() {
    assert_eq!(classify_recording(1, true, None), "completed");
    assert_eq!(classify_recording(1, true, Some(LiveVerification::Live)), "completed");
    assert_eq!(classify_recording(1, false, None), "interrupted");
    assert_eq!(classify_recording(-1, false, None), "failed");
}

#[test]
fn automatic_recording_post_action_respects_trigger_and_setting() {
    assert_eq!(
        auto_post_record_action("auto", "completed", true),
        AutoPostRecordAction::Disable
    );
    assert_eq!(
        auto_post_record_action("auto", "completed", false),
        AutoPostRecordAction::Continue
    );
    assert_eq!(
        auto_post_record_action("auto", "interrupted", false),
        AutoPostRecordAction::Disable
    );
    assert_eq!(
        auto_post_record_action("manual", "completed", true),
        AutoPostRecordAction::Preserve
    );
}

#[test]
fn a_completed_automatic_recording_opens_a_new_window() {
    let plan =
        apply_post_recording_auto_policy("auto", "completed", &settings(), &room(true, None), NOW);
    let setting = plan.setting.as_ref().unwrap();
    assert!(setting.enabled);
    assert_eq!(setting.until.as_deref(), Some("2026-08-21T15:30:00+00:00"));
    assert_eq!(plan.queue, QueueMove::Immediate);
    assert_told(&plan.announce, "enabled", Some("自动录制已完成，已开始新的监控窗口"));
}

#[test]
fn other_automatic_recordings_end_the_watching() {
    let mut once = settings();
    once.auto_disable_after_record = true;
    let plan = apply_post_recording_auto_policy("auto", "completed", &once, &room(true, None), NOW);
    assert_off(&plan, "disabled", "自动录制已完成，本次监控已关闭");
    let plan =
        apply_post_recording_auto_policy("auto", "failed", &settings(), &room(true, None), NOW);
    assert_off(&plan, "paused", "自动录制异常结束，已暂停该房间的自动监控");
}

#[test]
fn manual_recordings_leave_the_watching_as_it_is() {
    let after = |room: &LiveRoom| {
        apply_post_recording_auto_policy("manual", "completed", &settings(), room, NOW)
    };
    assert_only(&after(&room(false, None)), QueueMove::Keep);
    assert_only(&after(&room(true, Some(OPEN))), QueueMove::Immediate);
    assert_off(&after(&room(true, Some(OVER))), "window_expired", "自动录制监控时间已结束");
}

#[test]
fn the_end_of_a_recording_is_handled_once() {
    for status in ["preparing", "recording"] {
        match handle_recording_exit(&task(status, Some("/a.flv")), 7, &exit(false)) {
            ExitStep::MarkFinalizing { recording: ended, reason } => {
                assert_eq!(reason, "finalizing");
                assert_eq!(ended.file_path.as_deref(), Some("/a.flv"));
                assert_eq!(ended.size, 7);
                assert_eq!(ended.trigger, "auto");
                assert!(!ended.manually_stopped);
            }
            other => panic!("{:?}", other),
        }
    }
    for status in ["finalizing", "completed", "failed", "interrupted", ""] {
        let step = handle_recording_exit(&task(status, None), 7, &exit(false));
        assert!(matches!(step, ExitStep::Ignore));
    }
    assert!(!exit_is_noteworthy(&exit(true)));
    assert!(exit_is_noteworthy(&RecordingExit { status_success: false, ..exit(true) }));
    assert!(exit_is_noteworthy(&RecordingExit { wait_error: Some(String::new()), ..exit(true) }));
}

#[test]
fn the_room_is_looked_at_unless_the_user_stopped() {
    let step = exit_marked(ended(7, false, Some("/a.flv")), &settings());
    assert!(matches!(step, ExitStep::RefreshRoom(_)));
    assert!(matches!(refresh_of(Ok(true)), Refresh::Live));
    assert!(matches!(refresh_of(Ok(false)), Refresh::Offline));
    match refresh_of(Err("断".to_string())) {
        Refresh::Failed(error) => assert_eq!(error, "断"),
        other => panic!("{:?}", other),
    }
    match exit_marked(ended(7, true, Some("/a.flv")), &settings()) {
        ExitStep::Convert { recording, path, preserve_source } => {
            assert_eq!(recording.status, "completed");
            assert_eq!(recording.reason, "manual_stop");
            assert_eq!(recording.message.as_deref(), Some("录制已停止"));
            assert_eq!(path, "/a.flv");
            assert!(preserve_source);
        }
        other => panic!("{:?}", other),
    }
}

#[test]
fn results_are_told_by_reason_and_message() {
    let mut plain = settings();
    plain.auto_convert_mp4 = false;
    for (size, refresh, status, reason, message) in [
        (7, Refresh::Offline, "completed", "stream_ended", "直播已结束，录制已完成"),
        (
            7,
            Refresh::Live,
            "interrupted",
            "interrupted",
            "录制进程已结束，但主播仍在直播，请检查网络后重新录制",
        ),
        (
            7,
            Refresh::Failed("断".to_string()),
            "interrupted",
            "interrupted",
            "录制进程已结束，但无法确认直播状态: 断",
        ),
        (0, Refresh::Live, "failed", "failed", "录制已结束，但没有生成有效文件"),
    ] {
        let recording = finished(exit_refreshed(ended(size, false, Some("/a.flv")), refresh, &plain));
        assert_eq!(recording.status, status);
        assert_eq!(recording.reason, reason);
        assert_eq!(recording.message.as_deref(), Some(message));
        assert_eq!(recording.size, size);
    }
    let recording = finished(exit_refreshed(ended(7, false, None), Refresh::NotAsked, &plain));
    assert_eq!(recording.message, None);
    assert_eq!(recording.status, "interrupted");
}

#[test]
fn only_complete_flv_recordings_are_converted() {
    let refreshed = |path, refresh| exit_refreshed(ended(7, false, path), refresh, &settings());
    assert!(matches!(refreshed(Some("/a.flv"), Refresh::Offline), ExitStep::Convert { .. }));
    assert!(matches!(refreshed(Some("/a.flv"), Refresh::Live), ExitStep::FinishTask(_)));
    assert!(matches!(refreshed(Some("/a.mp4"), Refresh::Offline), ExitStep::FinishTask(_)));
    assert!(matches!(refreshed(None, Refresh::Offline), ExitStep::FinishTask(_)));
}

#[test]
fn conversions_change_the_file_but_not_the_result() {
    let recording = || match exit_marked(ended(7, true, Some("/a.flv")), &settings()) {
        ExitStep::Convert { recording, .. } => recording,
        other => panic!("{:?}", other),
    };
    let done = |warning: Option<&str>| Conversion::Done {
        path: "/a.mp4".to_string(),
        size: 6,
        warning: warning.map(str::to_string),
    };
    let result = finished(exit_converted(recording(), done(None)));
    assert_eq!(result.file_path.as_deref(), Some("/a.mp4"));
    assert_eq!(result.size, 6);
    assert_eq!(result.message.as_deref(), Some("录制已停止"));
    let result = finished(exit_converted(recording(), done(Some("未删"))));
    assert_eq!(result.message.as_deref(), Some("录制已停止；未删"));
    let result = finished(exit_converted(recording(), Conversion::Failed("坏".to_string())));
    assert_eq!(
        result.message.as_deref(),
        Some("录制已停止；自动转换 MP4 失败，已保留 FLV: 坏")
    );
    assert_eq!(result.file_path.as_deref(), Some("/a.flv"));
    assert_eq!(result.status, "completed");
    let silent = JudgedRecording { message: None, ..recording() };
    let result = finished(exit_converted(silent, Conversion::Crashed("崩".to_string())));
    assert_eq!(
        result.message.as_deref(),
        Some("录制已完成；自动转换任务异常，已保留 FLV: 崩")
    );
    assert_eq!(result.size, 7);
}

#[test]
fn the_room_is_settled_before_the_result_is_announced() {
    let recording = finished(exit_refreshed(
        ended(7, false, None),
        Refresh::Offline,
        &settings(),
    ));
    match exit_finished(recording, &settings(), &room(true, None), NOW) {
        ExitStep::SettleRoom { recording, plan } => {
            assert_eq!(plan.queue, QueueMove::Immediate);
            match exit_settled(recording) {
                ExitStep::Announce(recording) => assert_eq!(recording.reason, "stream_ended"),
                other => panic!("{:?}", other),
            }
        }
        other => panic!("{:?}", other),
    }
}

// ---------------------------------------------------------------------------
// Rooms and tasks
// ---------------------------------------------------------------------------

#[test]
fn known_texts_are_not_lost_to_empty_ones() {
    let update = apply_live_info(&room(true, None), &info(true));
    assert_eq!(update.short_id.as_deref(), Some("6"));
    assert_eq!(update.uid, 9);
    assert_eq!(update.anchor_name, "新");
    assert_eq!(update.room_title, "旧题");
    assert_eq!(update.cover_url, "新图");
    assert_eq!(update.avatar_url, "旧像");
    assert!(update.is_live);
}

#[test]
fn tasks_are_busy_until_they_are_finalized() {
    assert!(status_is_pending("preparing") && status_is_busy("preparing"));
    assert!(status_is_pending("recording") && status_is_busy("recording"));
    assert!(!status_is_pending("finalizing") && status_is_busy("finalizing"));
    assert!(!status_is_pending("completed") && !status_is_busy("completed"));
}

#[test]
fn one_recording_of_a_room_runs_at_a_time() {
    let selection = StreamSelection {
        requested_qn: 10000,
        actual_qn: 400,
        stream_type: "FLV".to_string(),
        candidates: Vec::new(),
    };
    let start = |trigger, running, room: &LiveRoom| {
        start_record_from_info(&selection, trigger, running, room, NOW)
    };
    assert_eq!(
        refuse_while_running(true).as_deref(),
        Some("该直播间已经在录制或结束处理中")
    );
    assert_eq!(refuse_while_running(false), None);
    match start("manual", true, &room(true, None)) {
        StartStep::Refused(message) => assert_eq!(message, "该直播间已经在录制或结束处理中"),
        other => panic!("{:?}", other),
    }
    for unwatched in [room(false, Some(OPEN)), room(true, Some(OVER)), room(true, None)] {
        match start("auto", false, &unwatched) {
            StartStep::Refused(message) => assert_eq!(message, "自动录制监控已关闭"),
            other => panic!("{:?}", other),
        }
        assert!(matches!(start("manual", false, &unwatched), StartStep::AddTask(_)));
    }
    match start("auto", false, &room(true, Some(OPEN))) {
        StartStep::AddTask(task) => {
            assert_eq!(task.trigger, "auto");
            assert_eq!(task.requested_qn, 10000);
            assert_eq!(task.actual_qn, 400);
            assert_eq!(task.stream_type, "FLV");
        }
        other => panic!("{:?}", other),
    }
}

#[test]
fn a_start_ends_in_a_recording_or_a_failure() {
    match task_added(&room(true, None), here(9)) {
        StartStep::NameFile { stem, extension } => {
            assert_eq!(stem, "旧_123_20260821_090000");
            assert_eq!(extension, "flv");
        }
        other => panic!("{:?}", other),
    }
    match file_named("/r/a.flv") {
        StartStep::Prepare { status, path, reason } => {
            assert_eq!(reason, "preparing");
            assert_eq!(status, "preparing");
            assert_eq!(path, "/r/a.flv");
        }
        other => panic!("{:?}", other),
    }
    match file_not_named("创建录制目录失败: 只读".to_string()) {
        StartStep::Abandoned(error) => assert_eq!(error, "创建录制目录失败: 只读"),
        other => panic!("{:?}", other),
    }
    match recorder_started("/r/a.flv", None) {
        StartStep::Started { status, path } => {
            assert_eq!(status, "recording");
            assert_eq!(path, "/r/a.flv");
        }
        other => panic!("{:?}", other),
    }
    match recorder_started("/r/a.flv", Some("坏".to_string())) {
        StartStep::Failed { status, path, size, reason, message, error } => {
            assert_eq!(reason, "failed");
            assert_eq!(status, "failed");
            assert_eq!(path, "/r/a.flv");
            assert_eq!(size, 0);
            assert_eq!(message, "启动录制失败: 坏");
            assert_eq!(error, "坏");
        }
        other => panic!("{:?}", other),
    }
}

#[test]
fn requests_of_the_user_may_be_refused() {
    assert!(add_room(false).is_ok());
    assert_eq!(add_room(true).unwrap_err(), "该直播间已经添加");
    assert!(get_room_avatar_data_url("https://a").is_ok());
    assert_eq!(get_room_avatar_data_url(" \t").unwrap_err(), "该主播没有可用头像");
    assert_eq!(start_record(&info(true)).unwrap(), "manual");
    assert_eq!(start_record(&info(false)).unwrap_err(), "主播未开播");
    let busy = "该任务正在录制或结束处理中，请先停止录制";
    assert_eq!(delete_task(true, "completed").unwrap_err(), busy);
    assert_eq!(delete_task(false, "finalizing").unwrap_err(), busy);
    assert!(delete_task(false, "interrupted").is_ok());
}

#[test]
fn rooms_with_tasks_are_deleted_only_together_with_them() {
    match delete_room(true, Some(true)) {
        DeleteStep::Refused(message) => {
            assert_eq!(message, "该房间正在录制或结束处理中，请先停止录制")
        }
        other => panic!("{:?}", other),
    }
    assert!(matches!(
        delete_room(false, Some(true)),
        DeleteStep::DeleteWithTasks { queue: QueueMove::Clear }
    ));
    assert!(matches!(delete_room(false, Some(false)), DeleteStep::CountTasks));
    assert!(matches!(delete_room(false, None), DeleteStep::CountTasks));
    match tasks_counted(12) {
        DeleteStep::Refused(message) => {
            assert_eq!(message, "该房间还有 12 个录制任务，请确认删除")
        }
        other => panic!("{:?}", other),
    }
    assert!(matches!(tasks_counted(0), DeleteStep::Delete { queue: QueueMove::Clear }));
}

#[test]
fn recordings_without_a_process_are_settled_when_stopped() {
    let exit = stop_record(false, &task("recording", None)).unwrap();
    assert!(exit.manually_stopped && !exit.status_success);
    assert_eq!(exit.wait_error.as_deref(), Some("未找到对应的 FFmpeg 进程"));
    assert!(exit.stderr_tail.is_empty());
    assert!(stop_record(true, &task("recording", None)).is_none());
    assert!(stop_record(false, &task("finalizing", None)).is_none());
}

#[test]
fn files_of_finished_tasks_are_converted() {
    assert_eq!(
        convert_to_mp4(&task("recording", Some("/a.flv"))).unwrap_err(),
        "录制尚未结束，暂时不能转换"
    );
    assert_eq!(convert_to_mp4(&task("completed", None)).unwrap_err(), "文件路径为空");
    assert_eq!(convert_to_mp4(&task("failed", Some("/a.flv"))).unwrap(), "/a.flv");
    let stored = task_converted(&task("failed", Some("/a.flv")), "/a.mp4", 6);
    assert_eq!(stored.status, "failed");
    assert_eq!(stored.path, "/a.mp4");
    assert_eq!(stored.size, 6);
    assert_eq!(task_file(&task("recording", Some("/a.flv"))).unwrap(), "/a.flv");
    assert_eq!(task_file(&task("recording", None)).unwrap_err(), "文件路径为空");
}

// ---------------------------------------------------------------------------
// Watching
// ---------------------------------------------------------------------------

#[test]
fn polling_is_disabled_when_auto_is_off_or_recording_is_active() {
    assert!(!should_poll_auto_room(false, false, false, true));
    assert!(!should_poll_auto_room(true, false, true, true));
    assert!(!should_poll_auto_room(true, true, false, true));
    assert!(should_poll_auto_room(true, false, false, true));
}

#[test]
fn rooms_that_are_not_due_are_not_polled() {
    assert!(!should_poll_auto_room(true, false, false, false));
}

#[test]
fn the_first_due_room_is_checked() {
    assert_eq!(next_due_auto_room(&Vec::new()), DueStep::Nothing);
    let rooms = vec![
        room(false, Some(OPEN)),
        room(true, Some(OVER)),
        room(true, Some(OPEN)),
        room(true, Some(OPEN)),
    ];
    assert_eq!(next_due_auto_room(&rooms), DueStep::Ask(0));
    assert_eq!(room_asked(&rooms, 0, false, true, NOW), DueStep::Ask(1));
    assert_eq!(room_asked(&rooms, 1, false, true, NOW), DueStep::Ask(2));
    assert_eq!(room_asked(&rooms, 2, false, true, NOW), DueStep::Found(2));
    assert_eq!(room_asked(&rooms, 2, true, true, NOW), DueStep::Ask(3));
    assert_eq!(room_asked(&rooms, 3, false, false, NOW), DueStep::Nothing);
}

#[test]
fn failed_checks_are_tried_again_later() {
    let error = ParseError::rate_limited("慢".to_string());
    let plan = settled(check_auto_room(Err(error), &settings()));
    assert_only(&plan, QueueMove::CheckFailed { interval_secs: 30, rate_limited: true });
    let error = ParseError::new("断".to_string());
    let plan = settled(check_auto_room(Err(error), &settings()));
    assert_only(&plan, QueueMove::CheckFailed { interval_secs: 30, rate_limited: false });
    assert_eq!(
        check_broke_down(&settings()),
        QueueMove::CheckFailed { interval_secs: 30, rate_limited: false }
    );
    assert!(matches!(check_auto_room(Ok(info(true)), &settings()), CheckStep::ReadRoom(_)));
}

#[test]
fn checks_end_where_the_room_is_not_watched_any_more() {
    let plan = settled(room_reread(info(true), &room(false, Some(OPEN)), NOW));
    assert_only(&plan, QueueMove::Clear);
    let plan = settled(room_reread(info(true), &room(true, Some(OVER)), NOW));
    assert_off(&plan, "window_expired", "自动录制监控时间已结束");
    let step = room_reread(info(true), &room(true, Some(OPEN)), NOW);
    assert!(matches!(step, CheckStep::StoreInfo(_)));
}

#[test]
fn live_rooms_are_recorded() {
    match info_stored(info(true), &settings()) {
        CheckStep::Record { info, trigger } => {
            assert_eq!(info.room_id, "123");
            assert_eq!(trigger, "auto");
        }
        other => panic!("{:?}", other),
    }
    let plan = settled(info_stored(info(false), &settings()));
    assert!(plan.setting.is_none());
    assert_eq!(plan.queue, QueueMove::CheckSucceeded { interval_secs: 30 });
    assert_told(&plan.announce, "enabled", None);
    match recording_begun() {
        CheckStep::Recording { queue, announce } => {
            assert_eq!(queue, QueueMove::Clear);
            assert_told(&Some(announce), "auto_started", Some("检测到主播开播，已开始自动录制"));
        }
        other => panic!("{:?}", other),
    }
}

#[test]
fn recordings_that_cannot_start_pause_the_watching() {
    match recording_refused("坏".to_string()) {
        CheckStep::ReadAfterRefusal(error) => assert_eq!(error, "坏"),
        other => panic!("{:?}", other),
    }
    let after = |running, room: &LiveRoom| settled(room_after_refusal("坏", running, room, NOW));
    assert_only(&after(true, &room(true, Some(OPEN))), QueueMove::Clear);
    assert_only(&after(false, &room(false, None)), QueueMove::Clear);
    assert_off(
        &after(false, &room(true, Some(OVER))),
        "window_expired",
        "自动录制监控时间已结束",
    );
    assert_off(
        &after(false, &room(true, Some(OPEN))),
        "paused",
        "自动录制启动失败，已暂停监控: 坏",
    );
    assert_off(&pause_auto_recording("停".to_string()), "paused", "停");
}

#[test]
fn windows_that_are_over_are_closed() {
    let tick = |room: &LiveRoom, running| {
        process_auto_deadlines_and_schedules(room, running, &settings(), NOW, here(9))
    };
    let over = tick(&room(true, Some(OVER)), false);
    assert_off(over.expire.as_ref().unwrap(), "window_expired", "自动录制监控时间已结束");
    assert!(over.trigger.is_none() && over.announce.is_none());
    assert_eq!(over.queue, QueueMove::Keep);
    assert!(tick(&room(true, Some(OVER)), true).expire.is_none());
    assert!(tick(&room(true, Some(OPEN)), false).expire.is_none());
    assert!(tick(&room(false, None), false).expire.is_none());
}

#[test]
fn schedules_open_windows() {
    let room = scheduled(false, None, "08:00", Some("2026-08-20"));
    let tick = process_auto_deadlines_and_schedules(&room, false, &settings(), NOW, here(9));
    let trigger = tick.trigger.unwrap();
    assert_eq!(trigger.until, "2026-08-21T15:30:00+00:00");
    assert_eq!(trigger.date, "2026-08-21");
    assert_eq!(tick.queue, QueueMove::Immediate);
    assert_told(
        &tick.announce,
        "schedule_triggered",
        Some("每日定时已触发，开始监控直播状态"),
    );
    let room = scheduled(true, Some(OVER), "08:00", Some("2026-08-20"));
    let tick = process_auto_deadlines_and_schedules(&room, false, &settings(), NOW, here(9));
    assert!(tick.expire.is_some() && tick.trigger.is_some());
}

#[test]
fn windows_are_put_right_when_the_program_starts() {
    let fix = |room: &LiveRoom| reconcile_auto_state_on_startup(room, &settings(), NOW, here(9));
    let setting = fix(&room(true, None)).setting.unwrap();
    assert!(setting.enabled);
    assert_eq!(setting.until.as_deref(), Some("2026-08-21T15:30:00+00:00"));
    let setting = fix(&room(true, Some(OVER))).setting.unwrap();
    assert!(!setting.enabled && setting.until.is_none());
    assert!(fix(&room(true, Some(OPEN))).setting.is_none());
    assert!(fix(&room(false, None)).setting.is_none());
    assert!(fix(&room(false, None)).trigger.is_none());
    let trigger = fix(&scheduled(false, None, "09:00", None)).trigger.unwrap();
    assert_eq!(trigger.date, "2026-08-21");
    assert_eq!(trigger.until, "2026-08-21T15:30:00+00:00");
}

#[test]
fn the_user_switches_watching_on_and_off() {
    let plan = set_room_auto_record(true, &settings(), NOW);
    let setting = plan.setting.as_ref().unwrap();
    assert!(setting.enabled);
    assert_eq!(setting.until.as_deref(), Some("2026-08-21T15:30:00+00:00"));
    assert_eq!(plan.queue, QueueMove::Immediate);
    assert_told(&plan.announce, "enabled", Some("自动录制已开启，正在检查直播状态"));
    let plan = set_room_auto_record(false, &settings(), NOW);
    assert_off(&plan, "disabled", "自动录制已关闭；正在进行的录制不会停止");
}

#[test]
fn opened_windows_last_their_hours() {
    let switched = set_room_auto_record(true, &settings(), NOW);
    let recorded =
        apply_post_recording_auto_policy("auto", "completed", &settings(), &room(true, None), NOW);
    for plan in [switched, recorded] {
        let until = plan.setting.unwrap().until.unwrap();
        let before = Instant { secs: NOW.secs + 6 * 3600 - 1, nanos: 999_999_999 };
        let end = Instant { secs: NOW.secs + 6 * 3600, nanos: 0 };
        assert!(!monitor_is_expired_at(Some(&until), before));
        assert!(monitor_is_expired_at(Some(&until), end));
    }
}

#[test]
fn the_user_sets_and_cancels_schedules() {
    let known = scheduled(false, None, "08:00", Some("2026-08-20"));
    let same = set_room_auto_schedule(&known, Some("08:00"), here(9)).unwrap();
    assert_eq!(same.daily_time.as_deref(), Some("08:00"));
    assert_eq!(same.marker.as_deref(), Some("2026-08-20"));
    let past = set_room_auto_schedule(&known, Some("8:30"), here(9)).unwrap();
    assert_eq!(past.marker.as_deref(), Some("2026-08-21"));
    assert_told(&Some(past.announce), "scheduled", Some("已设置每天 8:30 开启自动录制"));
    let future = set_room_auto_schedule(&known, Some("10:00"), here(9)).unwrap();
    assert_eq!(future.marker, None);
    let none = set_room_auto_schedule(&known, None, here(9)).unwrap();
    assert_eq!(none.daily_time, None);
    assert_eq!(none.marker, None);
    assert_told(&Some(none.announce), "schedule_cancelled", Some("已取消每日定时"));
    assert_eq!(
        set_room_auto_schedule(&known, Some("8"), here(9)).unwrap_err(),
        "定时时间格式无效，请使用 HH:mm"
    );
}
