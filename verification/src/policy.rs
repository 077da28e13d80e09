//! What a recording comes to when it ends, and what follows for watching its room.

use vstd::prelude::*;

use crate::clock;
use crate::clock::Instant;
use crate::model::{AppSettings, LiveRoom};
use crate::plan;
use crate::plan::{AutoSetting, QueueMove, RoomPlan};
use crate::schedule;
use crate::text;

verus! {

/// What a look at the room said after its recording ended.
#[derive(Debug, Clone, Copy, PartialEq, Eq, Structural)]
pub enum LiveVerification {
    Offline,
    Live,
    Failed,
}

/// What follows for watching a room after a recording.
#[derive(Debug, Clone, Copy, PartialEq, Eq, Structural)]
pub enum AutoPostRecordAction {
    Disable,
    Continue,
    Preserve,
}

/// What a recording came to. Without data it failed. With data it is complete if the user stopped
/// it or the room went offline; otherwise it was interrupted.
pub open spec fn recording_status(
    file_size: i64,
    manually_stopped: bool,
    verification: Option<LiveVerification>,
) -> Seq<char> {
    if file_size <= 0 {
        "failed"@
    } else if manually_stopped || verification == Some(LiveVerification::Offline) {
        "completed"@
    } else {
        "interrupted"@
    }
}

/// The three results of a recording are told apart.
pub proof fn lemma_statuses_differ()
    ensures
        "failed"@ != "completed"@,
        "failed"@ != "interrupted"@,
        "completed"@ != "interrupted"@,
{
    reveal_strlit("completed");
    reveal_strlit("failed");
    reveal_strlit("interrupted");
    assert("failed"@.len() == 6);
    assert("completed"@.len() == 9);
    assert("interrupted"@.len() == 11);
}

/// What a recording came to.
pub fn classify_recording(
    file_size: i64,
    manually_stopped: bool,
    verification: Option<LiveVerification>,
) -> (status: &'static str)
    ensures
        status@ == recording_status(file_size, manually_stopped, verification),
{
    if file_size <= 0 {
        return "failed";
    }
    if manually_stopped {
        return "completed";
    }
    match verification {
        Some(LiveVerification::Offline) => "completed",
        _ => "interrupted",
    }
}

/// What follows for watching a room: a recording that the user started changes nothing; an
/// automatic one goes on with watching only if it was completed and the user wants that.
pub open spec fn post_action(
    task_trigger: Seq<char>,
    status: Seq<char>,
    disable_after_record: bool,
) -> AutoPostRecordAction {
    if task_trigger != "auto"@ {
        AutoPostRecordAction::Preserve
    } else if status == "completed"@ && !disable_after_record {
        AutoPostRecordAction::Continue
    } else {
        AutoPostRecordAction::Disable
    }
}

/// What follows for watching a room.
pub fn auto_post_record_action(task_trigger: &str, status: &str, disable_after_record: bool) -> (
action: AutoPostRecordAction)
    ensures
        action == post_action(task_trigger@, status@, disable_after_record),
{
    if !text::same_text(task_trigger, "auto") {
        AutoPostRecordAction::Preserve
    } else if text::same_text(status, "completed") && !disable_after_record {
        AutoPostRecordAction::Continue
    } else {
        AutoPostRecordAction::Disable
    }
}

// ---------------------------------------------------------------------------
// Watching the room after a recording
// ---------------------------------------------------------------------------

/// A new monitoring window is opened after the recording.
pub open spec fn opens_window(
    task_trigger: Seq<char>,
    status: Seq<char>,
    settings: AppSettings,
) -> bool {
    post_action(task_trigger, status, settings.auto_disable_after_record)
        == AutoPostRecordAction::Continue
}

/// What is done about a room after a recording.
pub open spec fn post_recording_plan(
    task_trigger: Seq<char>,
    status: Seq<char>,
    settings: AppSettings,
    room: LiveRoom,
    now: Instant,
) -> RoomPlan<Seq<char>> {
    match post_action(task_trigger, status, settings.auto_disable_after_record) {
        AutoPostRecordAction::Continue => RoomPlan {
            setting: Some(
                AutoSetting {
                    enabled: true,
                    until: Some(schedule::window_text(now, settings.auto_monitor_window_hours)),
                },
            ),
            queue: QueueMove::Immediate,
            announce: plan::told("enabled"@, "自动录制已完成，已开始新的监控窗口"@),
        },
        AutoPostRecordAction::Disable => if status == "completed"@ {
            plan::watching_ends("disabled"@, "自动录制已完成，本次监控已关闭"@)
        } else {
            plan::watching_ends("paused"@, "自动录制异常结束，已暂停该房间的自动监控"@)
        },
        AutoPostRecordAction::Preserve => if !room.auto_record_enabled {
            plan::only_queue(QueueMove::Keep)
        } else if schedule::is_expired(text::opt_view(room.auto_record_until), now) {
            plan::window_expired()
        } else {
            plan::only_queue(QueueMove::Immediate)
        },
    }
}

/// What is done about a room after a recording.
pub fn apply_post_recording_auto_policy(
    task_trigger: &str,
    status: &str,
    settings: &AppSettings,
    room: &LiveRoom,
    now: Instant,
) -> (result: RoomPlan<String>)
    requires
        now.valid(),
        opens_window(task_trigger@, status@, *settings) ==> schedule::window_fits(
            now,
            settings.auto_monitor_window_hours,
        ),
    ensures
        result@ == post_recording_plan(task_trigger@, status@, *settings, *room, now),
        result.setting matches Some(AutoSetting { until: Some(until), .. })
            ==> schedule::reads_back(until@, settings.auto_monitor_window_hours, now),
{
    match auto_post_record_action(task_trigger, status, settings.auto_disable_after_record) {
        AutoPostRecordAction::Continue => {
            let until = schedule::monitor_until_at(now, settings.auto_monitor_window_hours);
            RoomPlan {
                setting: Some(AutoSetting { enabled: true, until: Some(until) }),
                queue: QueueMove::Immediate,
                announce: plan::tell(
                    "enabled",
                    "自动录制已完成，已开始新的监控窗口".to_owned(),
                ),
            }
        },
        AutoPostRecordAction::Disable => {
            if text::same_text(status, "completed") {
                plan::end_watching("disabled", "自动录制已完成，本次监控已关闭".to_owned())
            } else {
                plan::end_watching(
                    "paused",
                    "自动录制异常结束，已暂停该房间的自动监控".to_owned(),
                )
            }
        },
        AutoPostRecordAction::Preserve => {
            if !room.auto_record_enabled {
                plan::move_only(QueueMove::Keep)
            } else if schedule::monitor_is_expired_at(schedule::until_of(room), now) {
                plan::expire_window()
            } else {
                plan::move_only(QueueMove::Immediate)
            }
        },
    }
}

// ---------------------------------------------------------------------------
// Laws
// ---------------------------------------------------------------------------

/// After a recording, a new window is opened exactly where the recording was automatic and
/// complete and the user wants to go on. Watching ends after any other automatic recording; after
/// one that the user started it ends only where the window is over.
pub proof fn law_watching_after_a_recording(
    task_trigger: Seq<char>,
    status: Seq<char>,
    settings: AppSettings,
    room: LiveRoom,
    now: Instant,
)
    ensures
        ({
            let plan = post_recording_plan(task_trigger, status, settings, room, now);
            let goes_on = status == "completed"@ && !settings.auto_disable_after_record;
            let opens = plan.setting is Some && plan.setting->0.enabled;
            let ends = plan.setting is Some && !plan.setting->0.enabled;
            &&& plan::is_consistent(plan)
            &&& opens == (task_trigger == "auto"@ && goes_on)
            &&& ends == (if task_trigger == "auto"@ {
                !goes_on
            } else {
                room.auto_record_enabled && schedule::is_expired(
                    text::opt_view(room.auto_record_until),
                    now,
                )
            })
            &&& opens ==> plan.setting->0.until == Some(
                schedule::window_text(now, settings.auto_monitor_window_hours),
            )
        }),
{
}

/// A window that is opened after a recording lasts its hours.
pub proof fn law_window_after_a_recording_lasts(
    task_trigger: &str,
    status: &str,
    settings: AppSettings,
    room: LiveRoom,
    now: Instant,
    result: RoomPlan<String>,
)
    requires
        opens_window(task_trigger@, status@, settings),
        call_ensures(
            apply_post_recording_auto_policy,
            (task_trigger, status, &settings, &room, now),
            result,
        ),
    ensures
        result.setting matches Some(AutoSetting { enabled: true, until: Some(until) })
            && schedule::is_stored_end(until@, settings.auto_monitor_window_hours, now),
{
    assert(result@.setting == Some(result.setting->0@));
    let until = result.setting->0.until->0;
    schedule::law_windows_that_read_back_last(
        until@,
        settings.auto_monitor_window_hours,
        now,
    );
}

/// A recording without data failed; with data it was completed where the user stopped it or the
/// room went offline, and interrupted otherwise.
pub proof fn law_what_a_recording_comes_to(
    file_size: i64,
    manually_stopped: bool,
    verification: Option<LiveVerification>,
    status: &str,
)
    requires
        call_ensures(classify_recording, (file_size, manually_stopped, verification), status),
    ensures
        (status@ == "failed"@) == (file_size <= 0),
        (status@ == "completed"@) == (file_size >= 1 && (manually_stopped || verification == Some(
            LiveVerification::Offline,
        ))),
        (status@ == "interrupted"@) == (file_size >= 1 && !manually_stopped && verification != Some(
            LiveVerification::Offline,
        )),
{
    lemma_statuses_differ();
}

/// A recording that the user started leaves watching as it is. After an automatic one watching
/// goes on exactly where the recording was completed and the user did not ask for an end.
pub proof fn law_what_follows_for_watching(
    task_trigger: &str,
    status: &str,
    disable_after_record: bool,
    action: AutoPostRecordAction,
)
    requires
        call_ensures(
            auto_post_record_action,
            (task_trigger, status, disable_after_record),
            action,
        ),
    ensures
        (action is Preserve) == (task_trigger@ != "auto"@),
        (action is Continue) == (task_trigger@ == "auto"@ && status@ == "completed"@
            && !disable_after_record),
        (action is Disable) == (task_trigger@ == "auto"@ && (status@ != "completed"@
            || disable_after_record)),
{
}

/// What is stored, what the queue does and what the user is told after a recording.
pub proof fn law_what_is_planned_after_a_recording(
    task_trigger: &str,
    status: &str,
    settings: AppSettings,
    room: LiveRoom,
    now: Instant,
    result: RoomPlan<String>,
)
    requires
        call_ensures(
            apply_post_recording_auto_policy,
            (task_trigger, status, &settings, &room, now),
            result,
        ),
    ensures
        ({
            let auto = task_trigger@ == "auto"@;
            let completed = status@ == "completed"@;
            let until = text::opt_view(room.auto_record_until);
            let over = schedule::is_expired(until, now);
            &&& auto && completed && !settings.auto_disable_after_record ==> {
                &&& result.setting matches Some(setting) && setting.enabled && setting.until is Some
                &&& result.queue == QueueMove::Immediate
                &&& plan::says(
                    result.announce,
                    "enabled"@,
                    "自动录制已完成，已开始新的监控窗口"@,
                )
            }
            &&& auto && completed && settings.auto_disable_after_record ==> plan::switches_off(
                result,
                "disabled"@,
                "自动录制已完成，本次监控已关闭"@,
            )
            &&& auto && !completed ==> plan::switches_off(
                result,
                "paused"@,
                "自动录制异常结束，已暂停该房间的自动监控"@,
            )
            &&& !auto && !room.auto_record_enabled ==> plan::only_moves(result, QueueMove::Keep)
            &&& !auto && room.auto_record_enabled && over ==> plan::switches_off(
                result,
                "window_expired"@,
                "自动录制监控时间已结束"@,
            )
            &&& !auto && room.auto_record_enabled && !over ==> plan::only_moves(
                result,
                QueueMove::Immediate,
            )
        }),
{
    if result.setting is Some {
        assert(result@.setting == Some(result.setting->0@));
    }
    if result.announce is Some {
        assert(result@.announce == Some(result.announce->0@));
    }
}

/// The window that is opened after a recording ends its hours after the present.
pub proof fn law_how_long_a_new_window_lasts(
    task_trigger: &str,
    status: &str,
    settings: AppSettings,
    room: LiveRoom,
    now: Instant,
    result: RoomPlan<String>,
)
    requires
        call_ensures(
            apply_post_recording_auto_policy,
            (task_trigger, status, &settings, &room, now),
            result,
        ),
        result.setting matches Some(setting) && setting.enabled,
        settings.auto_monitor_window_hours <= 0x7fff_ffff_ffff_ffff,
        -62167219200 <= now.secs + settings.auto_monitor_window_hours * 3600 <= 253402300799,
    ensures
        result.setting matches Some(AutoSetting { until: Some(until), .. })
            && clock::parsed_rfc3339(until@) == Some(
            ((now.secs + settings.auto_monitor_window_hours * 3600) as i64, now.nanos),
        ),
{
    assert(result@.setting == Some(result.setting->0@));
}

} // verus!
