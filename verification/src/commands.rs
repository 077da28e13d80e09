//! What the user asks for: which requests are granted, and what they lead to.

use vstd::prelude::*;

use crate::clock;
use crate::clock::{Instant, LocalMoment, TimeOfDay};
use crate::exit;
use crate::exit::ExitWorld;
use crate::model;
use crate::model::{AppSettings, LiveRoom, RecordTask};
use crate::number;
use crate::parser::streams::SelectionView;
use crate::parser::LiveInfo;
use crate::plan;
use crate::plan::{Announcement, AutoSetting, QueueMove, RoomPlan};
use crate::policy;
use crate::recorder::RecordingExit;
use crate::schedule;
use crate::start;
use crate::text;

verus! {

/// A request is granted, or refused for a reason.
pub open spec fn verdict(granted: Result<(), String>) -> Option<Seq<char>> {
    match granted {
        Ok(_) => None,
        Err(message) => Some(message@),
    }
}

// ---------------------------------------------------------------------------
// Watching a room
// ---------------------------------------------------------------------------

/// What the user's switch for automatic recording leads to.
pub open spec fn switch_plan(enabled: bool, settings: AppSettings, now: Instant) -> RoomPlan<
    Seq<char>,
> {
    if enabled {
        RoomPlan {
            setting: Some(
                AutoSetting {
                    enabled: true,
                    until: Some(schedule::window_text(now, settings.auto_monitor_window_hours)),
                },
            ),
            queue: QueueMove::Immediate,
            announce: plan::told("enabled"@, "自动录制已开启，正在检查直播状态"@),
        }
    } else {
        plan::watching_ends(
            "disabled"@,
            "自动录制已关闭；正在进行的录制不会停止"@,
        )
    }
}

/// What the user's switch for automatic recording leads to.
pub fn set_room_auto_record(enabled: bool, settings: &AppSettings, now: Instant) -> (result: RoomPlan<
    String,
>)
    requires
        now.valid(),
        enabled ==> schedule::window_fits(now, settings.auto_monitor_window_hours),
    ensures
        result@ == switch_plan(enabled, *settings, now),
        result.setting matches Some(AutoSetting { until: Some(until), .. })
            ==> schedule::reads_back(until@, settings.auto_monitor_window_hours, now),
{
    if enabled {
        let until = schedule::monitor_until_at(now, settings.auto_monitor_window_hours);
        RoomPlan {
            setting: Some(AutoSetting { enabled: true, until: Some(until) }),
            queue: QueueMove::Immediate,
            announce: plan::tell(
                "enabled",
                "自动录制已开启，正在检查直播状态".to_owned(),
            ),
        }
    } else {
        plan::end_watching(
            "disabled",
            "自动录制已关闭；正在进行的录制不会停止".to_owned(),
        )
    }
}

/// The switch does what it says, and the queue goes with it.
pub proof fn law_switch(enabled: bool, settings: AppSettings, now: Instant)
    ensures
        plan::is_consistent(switch_plan(enabled, settings, now)),
        switch_plan(enabled, settings, now).setting is Some,
        switch_plan(enabled, settings, now).setting->0.enabled == enabled,
{
}

/// A window that the user opens lasts its hours.
pub proof fn law_switched_window_lasts(
    settings: AppSettings,
    now: Instant,
    result: RoomPlan<String>,
)
    requires
        call_ensures(set_room_auto_record, (true, &settings, now), result),
    ensures
        result.setting matches Some(AutoSetting { enabled: true, until: Some(until) })
            && schedule::is_stored_end(until@, settings.auto_monitor_window_hours, now),
{
    assert(result@.setting == Some(result.setting->0@));
    let until = result.setting->0.until->0;
    schedule::law_windows_that_read_back_last(
        until@,
        settings.auto_monitor_window_hours,
        now,
    );
}

/// What is stored of a daily schedule, and what the user is told. `S` is the kind of text.
#[derive(Debug)]
pub struct SchedulePlan<S> {
    pub daily_time: Option<S>,
    /// The date on which the schedule counts as triggered.
    pub marker: Option<S>,
    pub announce: Announcement<S>,
}

impl View for SchedulePlan<String> {
    type V = SchedulePlan<Seq<char>>;

    open spec fn view(&self) -> SchedulePlan<Seq<char>> {
        SchedulePlan {
            daily_time: text::opt_view(self.daily_time),
            marker: text::opt_view(self.marker),
            announce: self.announce@,
        }
    }
}

/// The date on which a schedule counts as triggered once it is set: the same schedule keeps its
/// date, and a new one starts out with today where its time has passed.
pub open spec fn marker_of(
    known_time: Option<Seq<char>>,
    known_date: Option<Seq<char>>,
    daily_time: Seq<char>,
    time: TimeOfDay,
    now: LocalMoment,
) -> Option<Seq<char>> {
    if known_time == Some(daily_time) {
        known_date
    } else {
        schedule::first_marker(time, now)
    }
}

/// What setting or cancelling a daily schedule leads to.
pub open spec fn schedule_plan(
    known_time: Option<Seq<char>>,
    known_date: Option<Seq<char>>,
    daily_time: Option<Seq<char>>,
    now: LocalMoment,
) -> Result<SchedulePlan<Seq<char>>, Seq<char>> {
    match daily_time {
        None => Ok(
            SchedulePlan {
                daily_time: None,
                marker: None,
                announce: Announcement {
                    reason: "schedule_cancelled"@,
                    message: Some("已取消每日定时"@),
                },
            },
        ),
        Some(value) => match clock::clock_time(value) {
            None => Err("定时时间格式无效，请使用 HH:mm"@),
            Some(time) => Ok(
                SchedulePlan {
                    daily_time: Some(value),
                    marker: marker_of(known_time, known_date, value, time, now),
                    announce: Announcement {
                        reason: "scheduled"@,
                        message: Some("已设置每天 "@ + value + " 开启自动录制"@),
                    },
                },
            ),
        },
    }
}

/// What a result with a plan says.
pub open spec fn schedule_view(result: Result<SchedulePlan<String>, String>) -> Result<
    SchedulePlan<Seq<char>>,
    Seq<char>,
> {
    match result {
        Ok(plan) => Ok(plan@),
        Err(message) => Err(message@),
    }
}

/// What setting a daily schedule for a room, or cancelling it, leads to.
pub fn set_room_auto_schedule(existing: &LiveRoom, daily_time: Option<&str>, now: LocalMoment) -> (
result: Result<SchedulePlan<String>, String>)
    requires
        now.valid(),
    ensures
        schedule_view(result) == schedule_plan(
            text::opt_view(existing.auto_record_daily_time),
            text::opt_view(existing.last_schedule_trigger_date),
            text::opt_str(daily_time),
            now,
        ),
{
    let value = match daily_time {
        Some(value) => value,
        None => return Ok(
            SchedulePlan {
                daily_time: None,
                marker: None,
                announce: Announcement {
                    reason: "schedule_cancelled".to_owned(),
                    message: Some("已取消每日定时".to_owned()),
                },
            },
        ),
    };
    let time = match TimeOfDay::parse(value) {
        Some(time) => time,
        None => return Err("定时时间格式无效，请使用 HH:mm".to_owned()),
    };
    let marker = if text::opt_is(&existing.auto_record_daily_time, value) {
        text::copy_opt(&existing.last_schedule_trigger_date)
    } else {
        schedule::initial_schedule_marker(time, now)
    };
    Ok(
        SchedulePlan {
            daily_time: Some(value.to_owned()),
            marker,
            announce: Announcement {
                reason: "scheduled".to_owned(),
                message: Some(text::cat3("已设置每天 ", value, " 开启自动录制")),
            },
        },
    )
}

/// Setting the schedule that a room already has changes nothing about when it is due.
pub proof fn law_same_schedule_stays(
    known_date: Option<Seq<char>>,
    daily_time: Seq<char>,
    now: LocalMoment,
)
    requires
        clock::clock_time(daily_time) is Some,
    ensures
        ({
            let result = schedule_plan(Some(daily_time), known_date, Some(daily_time), now);
            result is Ok && result->Ok_0.daily_time == Some(daily_time) && result->Ok_0.marker
                == known_date
        }),
{
}

/// A new schedule is due later on the same date exactly where its time was still to come when it
/// was set, and has come by then.
pub proof fn law_new_schedule_waits(
    known_time: Option<Seq<char>>,
    known_date: Option<Seq<char>>,
    daily_time: Seq<char>,
    time: TimeOfDay,
    now: LocalMoment,
    later: LocalMoment,
)
    requires
        now.valid(),
        later.valid(),
        later.same_date(now),
        clock::clock_time(daily_time) == Some(time),
        known_time != Some(daily_time),
    ensures
        ({
            let result = schedule_plan(known_time, known_date, Some(daily_time), now);
            result is Ok && schedule::schedule_due(
                result->Ok_0.daily_time,
                result->Ok_0.marker,
                later,
            ) == (!time.no_later_than(now.time) && time.no_later_than(later.time))
        }),
{
    schedule::law_new_schedule(daily_time, time, now, later);
}

/// A cancelled schedule is never due.
pub proof fn law_cancelled_schedule_is_never_due(
    known_time: Option<Seq<char>>,
    known_date: Option<Seq<char>>,
    now: LocalMoment,
    later: LocalMoment,
)
    ensures
        ({
            let result = schedule_plan(known_time, known_date, None, now);
            result is Ok && !schedule::schedule_due(
                result->Ok_0.daily_time,
                result->Ok_0.marker,
                later,
            )
        }),
{
}

// ---------------------------------------------------------------------------
// Rooms
// ---------------------------------------------------------------------------

/// Whether a room may be added, given whether it is there already.
pub fn add_room(known: bool) -> (granted: Result<(), String>)
    ensures
        verdict(granted) == (if known {
            Some("该直播间已经添加"@)
        } else {
            None
        }),
{
    if known {
        Err("该直播间已经添加".to_owned())
    } else {
        Ok(())
    }
}

/// Whether a room's avatar may be fetched: it has to have one.
pub fn get_room_avatar_data_url(avatar_url: &str) -> (granted: Result<(), String>)
    ensures
        verdict(granted) == (if text::trimmed(avatar_url@).len() == 0 {
            Some("该主播没有可用头像"@)
        } else {
            None
        }),
{
    if text::trim(avatar_url).is_empty() {
        Err("该主播没有可用头像".to_owned())
    } else {
        Ok(())
    }
}

/// What is done next to delete a room. `S` is the kind of text.
#[derive(Debug)]
pub enum DeleteStep<S> {
    /// The room stays, for that reason.
    Refused(S),
    /// Delete the room together with its tasks, and move it in the queue.
    DeleteWithTasks { queue: QueueMove },
    /// Count the room's tasks; then [`tasks_counted`].
    CountTasks,
    /// Delete the room, and move it in the queue.
    Delete { queue: QueueMove },
}

impl View for DeleteStep<String> {
    type V = DeleteStep<Seq<char>>;

    open spec fn view(&self) -> DeleteStep<Seq<char>> {
        match self {
            DeleteStep::Refused(message) => DeleteStep::Refused(message@),
            DeleteStep::DeleteWithTasks { queue } => DeleteStep::DeleteWithTasks {
                queue: *queue,
            },
            DeleteStep::CountTasks => DeleteStep::CountTasks,
            DeleteStep::Delete { queue } => DeleteStep::Delete { queue: *queue },
        }
    }
}

/// The first step: a room that is being recorded stays.
pub open spec fn delete_step(running: bool, cascade: Option<bool>) -> DeleteStep<Seq<char>> {
    if running {
        DeleteStep::Refused("该房间正在录制或结束处理中，请先停止录制"@)
    } else if cascade == Some(true) {
        DeleteStep::DeleteWithTasks { queue: QueueMove::Clear }
    } else {
        DeleteStep::CountTasks
    }
}

/// The step after the tasks were counted: a room with tasks stays.
pub open spec fn counted_step(task_count: i64) -> DeleteStep<Seq<char>> {
    if task_count > 0 {
        DeleteStep::Refused(
            "该房间还有 "@ + number::signed_decimal(task_count as int)
                + " 个录制任务，请确认删除"@,
        )
    } else {
        DeleteStep::Delete { queue: QueueMove::Clear }
    }
}

/// Begins to delete a room, given whether it is being recorded, and whether the user wants its
/// tasks deleted too.
pub fn delete_room(running: bool, cascade: Option<bool>) -> (step: DeleteStep<String>)
    ensures
        step@ == delete_step(running, cascade),
{
    if running {
        return DeleteStep::Refused("该房间正在录制或结束处理中，请先停止录制".to_owned());
    }
    match cascade {
        Some(true) => DeleteStep::DeleteWithTasks { queue: QueueMove::Clear },
        _ => DeleteStep::CountTasks,
    }
}

/// The step after the room's tasks were counted.
pub fn tasks_counted(task_count: i64) -> (step: DeleteStep<String>)
    ensures
        step@ == counted_step(task_count),
{
    if task_count > 0 {
        DeleteStep::Refused(
            text::cat3(
                "该房间还有 ",
                number::i64_text(task_count).as_str(),
                " 个录制任务，请确认删除",
            ),
        )
    } else {
        DeleteStep::Delete { queue: QueueMove::Clear }
    }
}

/// A room is deleted only if it is not being recorded, and its tasks go with it only if the user
/// said so.
pub proof fn law_when_a_room_is_deleted(running: bool, cascade: Option<bool>, task_count: i64)
    ensures
        ({
            let first = delete_step(running, cascade);
            let step = if first is CountTasks {
                counted_step(task_count)
            } else {
                first
            };
            &&& step is DeleteWithTasks == (!running && cascade == Some(true))
            &&& step is Delete == (!running && cascade != Some(true) && task_count <= 0)
            &&& !(step is CountTasks)
        }),
{
}

// ---------------------------------------------------------------------------
// Tasks
// ---------------------------------------------------------------------------

/// The trigger with which the user's recording is started: the room has to be live.
pub open spec fn manual_start(is_live: bool) -> Result<Seq<char>, Seq<char>> {
    if is_live {
        Ok("manual"@)
    } else {
        Err("主播未开播"@)
    }
}

/// The trigger with which the user's recording is started: the room has to be live.
pub fn start_record(info: &LiveInfo) -> (trigger: Result<String, String>)
    ensures
        (match trigger {
            Ok(trigger) => Ok(trigger@),
            Err(message) => Err(message@),
        }) == manual_start(info.is_live),
{
    if info.is_live {
        Ok("manual".to_owned())
    } else {
        Err("主播未开播".to_owned())
    }
}

/// A recording that the user starts does not depend on whether the room is watched, and does not
/// change that when it ends, but for a window that is over.
pub proof fn law_manual_recordings_stand_apart(
    selection: SelectionView,
    status: Seq<char>,
    settings: AppSettings,
    room: LiveRoom,
    now: Instant,
)
    ensures
        start::first_step(selection, manual_start(true)->Ok_0, false, room, now) is AddTask,
        policy::post_action(
            manual_start(true)->Ok_0,
            status,
            settings.auto_disable_after_record,
        ) is Preserve,
{
    reveal_strlit("auto");
    reveal_strlit("manual");
    assert("auto"@.len() == 4);
    assert("manual"@.len() == 6);
}

/// Whether a task may be deleted, given whether its recording is under way, and its status.
pub fn delete_task(active: bool, status: &str) -> (granted: Result<(), String>)
    ensures
        verdict(granted) == (if active || model::is_busy(status@) {
            Some("该任务正在录制或结束处理中，请先停止录制"@)
        } else {
            None
        }),
{
    if active || model::status_is_busy(status) {
        Err("该任务正在录制或结束处理中，请先停止录制".to_owned())
    } else {
        Ok(())
    }
}

/// The end of a recording that the user stops and that has no process.
pub open spec fn is_orphan_exit(exit: RecordingExit) -> bool {
    &&& exit.manually_stopped
    &&& !exit.status_success
    &&& text::opt_view(exit.wait_error) == Some("未找到对应的 FFmpeg 进程"@)
    &&& exit.stderr_tail@.len() == 0
}

/// The user stopped a recording. If the recorder knew nothing of it, and the task has not ended,
/// its end is dealt with like that of a process, as given.
pub fn stop_record(was_active: bool, task: &RecordTask) -> (exit: Option<RecordingExit>)
    ensures
        exit is Some == (!was_active && model::is_pending(task.status@)),
        exit matches Some(exit) ==> is_orphan_exit(exit),
{
    if !was_active && model::status_is_pending(task.status.as_str()) {
        Some(
            RecordingExit {
                manually_stopped: true,
                status_success: false,
                wait_error: Some("未找到对应的 FFmpeg 进程".to_owned()),
                stderr_tail: Vec::new(),
            },
        )
    } else {
        None
    }
}

/// A recording without a process is settled when the user stops it: with data it is complete, and
/// without it failed.
pub proof fn law_stopping_an_orphan_settles_it(
    task: RecordTask,
    stopped: RecordingExit,
    size: i64,
    world: ExitWorld,
)
    requires
        call_ensures(stop_record, (false, &task), Some(stopped)),
    ensures
        exit::first_step(task, size, stopped) is MarkFinalizing,
        exit::final_recording(task, size, stopped, world).status == (if size > 0 {
            "completed"@
        } else {
            "failed"@
        }),
{
}

/// The file that is converted when the user wants the file of a task converted. Afterwards
/// [`task_converted`] says what is stored.
pub fn convert_to_mp4(task: &RecordTask) -> (file: Result<String, String>)
    ensures
        model::is_busy(task.status@) ==> (file matches Err(message) && message@
            == "录制尚未结束，暂时不能转换"@),
        !model::is_busy(task.status@) && task.file_path is None ==> (file matches Err(message)
            && message@ == "文件路径为空"@),
        !model::is_busy(task.status@) && task.file_path is Some ==> (file matches Ok(path) && path@
            == task.file_path->0@),
{
    if model::status_is_busy(task.status.as_str()) {
        return Err("录制尚未结束，暂时不能转换".to_owned());
    }
    task_file(task)
}

/// What is stored of a task once its file was converted. `S` is the kind of text.
#[derive(Debug)]
pub struct ConvertedTask<S> {
    pub status: S,
    pub path: S,
    pub size: i64,
}

impl View for ConvertedTask<String> {
    type V = ConvertedTask<Seq<char>>;

    open spec fn view(&self) -> ConvertedTask<Seq<char>> {
        ConvertedTask { status: self.status@, path: self.path@, size: self.size }
    }
}

/// What is stored of a task once its file was converted: the new file, and the status that the task
/// had.
pub fn task_converted(task: &RecordTask, path: &str, size: i64) -> (stored: ConvertedTask<String>)
    ensures
        stored@ == (ConvertedTask::<Seq<char>> { status: task.status@, path: path@, size }),
{
    ConvertedTask { status: task.status.clone(), path: path.to_owned(), size }
}

/// The file of a task.
pub fn task_file(task: &RecordTask) -> (file: Result<String, String>)
    ensures
        task.file_path is None ==> (file matches Err(message) && message@ == "文件路径为空"@),
        task.file_path is Some ==> (file matches Ok(path) && path@ == task.file_path->0@),
{
    match &task.file_path {
        Some(path) => Ok(path.clone()),
        None => Err("文件路径为空".to_owned()),
    }
}

// ---------------------------------------------------------------------------
// Laws over what is stored and told
// ---------------------------------------------------------------------------

/// Switching on opens a window of the hours that are set, and has the room checked at once;
/// switching off closes it. The user is told either way.
pub proof fn law_what_the_switch_does(
    enabled: bool,
    settings: AppSettings,
    now: Instant,
    result: RoomPlan<String>,
)
    requires
        call_ensures(set_room_auto_record, (enabled, &settings, now), result),
    ensures
        enabled ==> {
            &&& result.setting matches Some(setting) && setting.enabled && setting.until is Some
            &&& result.queue == QueueMove::Immediate
            &&& plan::says(result.announce, "enabled"@, "自动录制已开启，正在检查直播状态"@)
        },
        !enabled ==> plan::switches_off(
            result,
            "disabled"@,
            "自动录制已关闭；正在进行的录制不会停止"@,
        ),
        enabled && settings.auto_monitor_window_hours <= 0x7fff_ffff_ffff_ffff && -62167219200
            <= now.secs + settings.auto_monitor_window_hours * 3600 <= 253402300799 ==> (
        result.setting matches Some(AutoSetting { until: Some(until), .. })
            && clock::parsed_rfc3339(until@) == Some(
            ((now.secs + settings.auto_monitor_window_hours * 3600) as i64, now.nanos),
        )),
{
    assert(result@.setting == Some(result.setting->0@));
    assert(result@.announce == Some(result.announce->0@));
}

/// A schedule is refused exactly where its time cannot be read; one that is set is stored as it was
/// given. The date of a schedule that stays the same is kept; a new schedule counts as triggered
/// today exactly where its time of day has come.
pub proof fn law_what_is_stored_of_a_schedule(
    existing: LiveRoom,
    daily_time: &str,
    now: LocalMoment,
    result: Result<SchedulePlan<String>, String>,
)
    requires
        call_ensures(set_room_auto_schedule, (&existing, Some(daily_time), now), result),
    ensures
        ({
            let time = clock::clock_time(daily_time@);
            let same = existing.auto_record_daily_time matches Some(known) && known@ == daily_time@;
            let come = time->0.secs < now.time.secs || time->0.secs == now.time.secs
                && time->0.nanos <= now.time.nanos;
            &&& result is Ok == time is Some
            &&& result matches Err(message) ==> message@ == "定时时间格式无效，请使用 HH:mm"@
            &&& result matches Ok(stored) ==> {
                &&& stored.daily_time matches Some(given) && given@ == daily_time@
                &&& same ==> text::opt_view(stored.marker) == text::opt_view(
                    existing.last_schedule_trigger_date,
                )
                &&& !same ==> stored.marker is Some == come
                &&& !same ==> (stored.marker matches Some(date) ==> date@ == clock::date_text(now))
                &&& stored.announce.reason@ == "scheduled"@
                &&& stored.announce.message matches Some(message) && message@ == "已设置每天 "@
                    + daily_time@ + " 开启自动录制"@
            }
        }),
{
    if let Ok(stored) = result {
        assert(schedule_view(result) == Ok::<SchedulePlan<Seq<char>>, Seq<char>>(stored@));
    }
}

/// A cancelled schedule leaves neither a time nor a date behind.
pub proof fn law_what_is_stored_of_a_cancelled_schedule(
    existing: LiveRoom,
    now: LocalMoment,
    result: Result<SchedulePlan<String>, String>,
)
    requires
        call_ensures(set_room_auto_schedule, (&existing, None::<&str>, now), result),
    ensures
        result matches Ok(stored) && stored.daily_time is None && stored.marker is None
            && stored.announce.reason@ == "schedule_cancelled"@ && (
        stored.announce.message matches Some(message) && message@ == "已取消每日定时"@),
{
    if let Ok(stored) = result {
        assert(schedule_view(result) == Ok::<SchedulePlan<Seq<char>>, Seq<char>>(stored@));
    }
}

/// A room is added exactly where it is not there already.
pub proof fn law_when_a_room_is_added(known: bool, granted: Result<(), String>)
    requires
        call_ensures(add_room, (known,), granted),
    ensures
        granted is Ok == !known,
        granted matches Err(message) ==> message@ == "该直播间已经添加"@,
{
}

/// An avatar is fetched exactly where its address is not blank.
pub proof fn law_when_an_avatar_is_fetched(avatar_url: &str, granted: Result<(), String>)
    requires
        call_ensures(get_room_avatar_data_url, (avatar_url,), granted),
    ensures
        granted is Ok == (text::trimmed(avatar_url@).len() > 0),
        granted matches Err(message) ==> message@ == "该主播没有可用头像"@,
{
}

/// A room that is being recorded is never deleted. Its tasks go with it exactly where the user says
/// so; without that word a room with tasks stays, and the user is told how many there are.
pub proof fn law_how_a_room_is_deleted(
    running: bool,
    cascade: Option<bool>,
    first: DeleteStep<String>,
    task_count: i64,
    second: DeleteStep<String>,
)
    requires
        call_ensures(delete_room, (running, cascade), first),
        call_ensures(tasks_counted, (task_count,), second),
    ensures
        running ==> (first matches DeleteStep::Refused(message) && message@
            == "该房间正在录制或结束处理中，请先停止录制"@),
        !running && cascade == Some(true) ==> (first matches DeleteStep::DeleteWithTasks { queue }
            && queue == QueueMove::Clear),
        !running && cascade != Some(true) ==> first is CountTasks,
        task_count >= 1 ==> (second matches DeleteStep::Refused(message) && message@
            == "该房间还有 "@ + number::signed_decimal(task_count as int)
            + " 个录制任务，请确认删除"@),
        task_count <= 0 ==> (second matches DeleteStep::Delete { queue } && queue
            == QueueMove::Clear),
{
}

/// The user's recording starts exactly where the room is live, and it is a manual one.
pub proof fn law_when_the_user_can_record(info: LiveInfo, trigger: Result<String, String>)
    requires
        call_ensures(start_record, (&info,), trigger),
    ensures
        trigger is Ok == info.is_live,
        trigger matches Ok(trigger) ==> trigger@ == "manual"@,
        trigger matches Err(message) ==> message@ == "主播未开播"@,
{
}

/// A task is deleted exactly where its recording is not under way and nothing is left to be done.
pub proof fn law_when_a_task_is_deleted(
    active: bool,
    status: &str,
    granted: Result<(), String>,
)
    requires
        call_ensures(delete_task, (active, status), granted),
    ensures
        granted is Ok == (!active && status@ != "preparing"@ && status@ != "recording"@ && status@
            != "finalizing"@),
        granted matches Err(message) ==> message@
            == "该任务正在录制或结束处理中，请先停止录制"@,
{
}

/// A recording without a process that the user stops counts as stopped by the user, and as failed.
pub proof fn law_how_an_orphan_ends(
    was_active: bool,
    task: RecordTask,
    exit: Option<RecordingExit>,
)
    requires
        call_ensures(stop_record, (was_active, &task), exit),
    ensures
        exit is Some == (!was_active && (task.status@ == "preparing"@ || task.status@
            == "recording"@)),
        exit matches Some(exit) ==> exit.manually_stopped && !exit.status_success && (
        exit.wait_error matches Some(why) && why@ == "未找到对应的 FFmpeg 进程"@)
            && exit.stderr_tail@.len() == 0,
{
}

/// The user can have the file of a task converted exactly where there is one and nothing is left to
/// be done about it.
pub proof fn law_when_a_task_is_converted(task: RecordTask, file: Result<String, String>)
    requires
        call_ensures(convert_to_mp4, (&task,), file),
    ensures
        ({
            let busy = task.status@ == "preparing"@ || task.status@ == "recording"@ || task.status@
                == "finalizing"@;
            &&& file is Ok == (!busy && task.file_path is Some)
            &&& file matches Ok(path) ==> path@ == task.file_path->0@
            &&& file matches Err(message) ==> message@ == (if busy {
                "录制尚未结束，暂时不能转换"@
            } else {
                "文件路径为空"@
            })
        }),
{
}

/// A converted task has the new file and its size, and the status that it had.
pub proof fn law_what_is_stored_of_a_conversion(
    task: RecordTask,
    path: &str,
    size: i64,
    stored: ConvertedTask<String>,
)
    requires
        call_ensures(task_converted, (&task, path, size), stored),
    ensures
        stored.status@ == task.status@,
        stored.path@ == path@,
        stored.size == size,
{
    assert(stored@.size == size);
}

/// The file of a task is the one that is stored.
pub proof fn law_the_file_of_a_task(task: RecordTask, file: Result<String, String>)
    requires
        call_ensures(task_file, (&task,), file),
    ensures
        file is Ok == task.file_path is Some,
        file matches Ok(path) ==> path@ == task.file_path->0@,
        file matches Err(message) ==> message@ == "文件路径为空"@,
{
}

} // verus!
