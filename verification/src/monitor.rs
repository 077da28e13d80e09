//! Watching rooms: which one is checked next, what a check leads to, and what the time brings.

use vstd::prelude::*;

use crate::clock;
use crate::clock::{Instant, LocalMoment};
use crate::model::{AppSettings, LiveRoom};
use crate::parser::error::Failure;
use crate::parser::room::LiveInfoView;
use crate::parser::{LiveInfo, ParseError};
use crate::plan;
use crate::plan::{Announcement, AutoSetting, QueueMove, RoomPlan};
use crate::schedule;
use crate::text;

verus! {

// ---------------------------------------------------------------------------
// Which room is checked next
// ---------------------------------------------------------------------------

/// How long to wait between two looks at all rooms, in seconds.
pub const TICK_SECS: u64 = 1;

/// Whether to check a room: it is watched, its window is open, it is not being recorded, and it
/// is due.
pub fn should_poll_auto_room(enabled: bool, expired: bool, running: bool, due: bool) -> (poll: bool)
    ensures
        poll == (enabled && !expired && !running && due),
{
    enabled && !expired && !running && due
}

/// How the search for a room to check goes on.
#[derive(Debug, Clone, Copy, PartialEq, Eq, Structural)]
pub enum DueStep {
    /// Find out whether the room at that index is being recorded, and whether it is due; then
    /// [`room_asked`].
    Ask(usize),
    /// Check the room at that index.
    Found(usize),
    /// No room is to be checked.
    Nothing,
}

/// Looks at the room at that index, if there is one.
pub open spec fn ask_from(count: nat, index: int) -> DueStep {
    if index < count {
        DueStep::Ask(index as usize)
    } else {
        DueStep::Nothing
    }
}

/// The room is to be checked.
pub open spec fn is_to_be_checked(room: LiveRoom, running: bool, due: bool, now: Instant) -> bool {
    &&& room.auto_record_enabled
    &&& !schedule::is_expired(text::opt_view(room.auto_record_until), now)
    &&& !running
    &&& due
}

/// The step after a room was asked about.
pub open spec fn step_asked(
    rooms: Seq<LiveRoom>,
    index: int,
    running: bool,
    due: bool,
    now: Instant,
) -> DueStep {
    if is_to_be_checked(rooms[index], running, due, now) {
        DueStep::Found(index as usize)
    } else {
        ask_from(rooms.len(), index + 1)
    }
}

/// Begins to search for a room to check.
pub fn next_due_auto_room(rooms: &Vec<LiveRoom>) -> (step: DueStep)
    ensures
        step == ask_from(rooms@.len(), 0),
{
    if rooms.len() > 0 {
        DueStep::Ask(0)
    } else {
        DueStep::Nothing
    }
}

/// The step after the room at `index` was asked about.
pub fn room_asked(rooms: &Vec<LiveRoom>, index: usize, running: bool, due: bool, now: Instant) -> (
step: DueStep)
    requires
        index < rooms@.len(),
    ensures
        step == step_asked(rooms@, index as int, running, due, now),
{
    let count: usize = rooms.len();
    let room = &rooms[index];
    let expired = schedule::monitor_is_expired_at(schedule::until_of(room), now);
    if should_poll_auto_room(room.auto_record_enabled, expired, running, due) {
        DueStep::Found(index)
    } else if index + 1 < count {
        DueStep::Ask(index + 1)
    } else {
        DueStep::Nothing
    }
}

/// What is found out about a room when it is asked about.
pub struct RoomAnswer {
    pub running: bool,
    pub due: bool,
    pub now: Instant,
}

/// Where the search ends, given the answers.
pub open spec fn search_from(rooms: Seq<LiveRoom>, answers: Seq<RoomAnswer>, index: int) -> DueStep
    decreases rooms.len() - index,
{
    if index >= rooms.len() {
        DueStep::Nothing
    } else {
        let answer = answers[index];
        match step_asked(rooms, index, answer.running, answer.due, answer.now) {
            DueStep::Ask(_) => search_from(rooms, answers, index + 1),
            step => step,
        }
    }
}

/// The room at that index is to be checked, given the answers.
pub open spec fn qualifies(rooms: Seq<LiveRoom>, answers: Seq<RoomAnswer>, index: int) -> bool {
    is_to_be_checked(
        rooms[index],
        answers[index].running,
        answers[index].due,
        answers[index].now,
    )
}

/// The search finds the first room that is to be checked, and nothing exactly where there is none.
pub proof fn law_first_due_room(rooms: Seq<LiveRoom>, answers: Seq<RoomAnswer>, index: int)
    requires
        0 <= index <= rooms.len() <= usize::MAX,
        answers.len() == rooms.len(),
    ensures
        match search_from(rooms, answers, index) {
            DueStep::Ask(_) => false,
            DueStep::Found(found) => {
                &&& index <= found < rooms.len()
                &&& qualifies(rooms, answers, found as int)
                &&& forall|i: int| index <= i < found ==> !#[trigger] qualifies(rooms, answers, i)
            },
            DueStep::Nothing => forall|i: int|
                index <= i < rooms.len() ==> !#[trigger] qualifies(rooms, answers, i),
        },
    decreases rooms.len() - index,
{
    if index < rooms.len() && !qualifies(rooms, answers, index) {
        law_first_due_room(rooms, answers, index + 1);
    }
}

// ---------------------------------------------------------------------------
// Checking a room
// ---------------------------------------------------------------------------

/// What is done next to check a room. `I` is the kind of information, `S` the kind of text.
#[derive(Debug)]
pub enum CheckStep<I, S> {
    /// Read the stored room; then [`room_reread`].
    ReadRoom(I),
    /// Store what the platform says of the room; then [`info_stored`].
    StoreInfo(I),
    /// Start a recording with that trigger; then [`recording_begun`] or [`recording_refused`].
    Record { info: I, trigger: S },
    /// Move the room in the queue, and announce the recording. The check is over.
    Recording { queue: QueueMove, announce: Announcement<S> },
    /// Read the stored room, and find out whether it is being recorded; then [`room_after_refusal`].
    ReadAfterRefusal(S),
    /// Do what is planned about the room. The check is over.
    Settle(RoomPlan<S>),
}

impl View for CheckStep<LiveInfo, String> {
    type V = CheckStep<LiveInfoView, Seq<char>>;

    open spec fn view(&self) -> CheckStep<LiveInfoView, Seq<char>> {
        match self {
            CheckStep::ReadRoom(info) => CheckStep::ReadRoom(info@),
            CheckStep::StoreInfo(info) => CheckStep::StoreInfo(info@),
            CheckStep::Record { info, trigger } => CheckStep::Record {
                info: info@,
                trigger: trigger@,
            },
            CheckStep::Recording { queue, announce } => CheckStep::Recording {
                queue: *queue,
                announce: announce@,
            },
            CheckStep::ReadAfterRefusal(error) => CheckStep::ReadAfterRefusal(error@),
            CheckStep::Settle(plan) => CheckStep::Settle(plan@),
        }
    }
}

/// What the platform said of a room.
pub open spec fn answer_view(answer: Result<LiveInfo, ParseError>) -> Result<
    LiveInfoView,
    Failure,
> {
    match answer {
        Ok(info) => Ok(info@),
        Err(error) => Err(error@),
    }
}

/// The first step, once the platform was asked about the room.
pub open spec fn step_answered(
    answer: Result<LiveInfoView, Failure>,
    settings: AppSettings,
) -> CheckStep<LiveInfoView, Seq<char>> {
    match answer {
        Ok(info) => CheckStep::ReadRoom(info),
        Err(error) => CheckStep::Settle(
            plan::only_queue(
                QueueMove::CheckFailed {
                    interval_secs: settings.auto_check_interval_secs,
                    rate_limited: error.rate_limited,
                },
            ),
        ),
    }
}

/// The step after the stored room was read: it may not be watched any more.
pub open spec fn step_reread(info: LiveInfoView, room: LiveRoom, now: Instant) -> CheckStep<
    LiveInfoView,
    Seq<char>,
> {
    if !room.auto_record_enabled {
        CheckStep::Settle(plan::only_queue(QueueMove::Clear))
    } else if schedule::is_expired(text::opt_view(room.auto_record_until), now) {
        CheckStep::Settle(plan::window_expired())
    } else {
        CheckStep::StoreInfo(info)
    }
}

/// The step after the information was stored.
pub open spec fn step_stored(info: LiveInfoView, settings: AppSettings) -> CheckStep<
    LiveInfoView,
    Seq<char>,
> {
    if info.is_live {
        CheckStep::Record { info, trigger: "auto"@ }
    } else {
        CheckStep::Settle(
            RoomPlan {
                setting: None,
                queue: QueueMove::CheckSucceeded {
                    interval_secs: settings.auto_check_interval_secs,
                },
                announce: Some(Announcement { reason: "enabled"@, message: None }),
            },
        )
    }
}

/// The step after the recording started.
pub open spec fn step_begun() -> CheckStep<LiveInfoView, Seq<char>> {
    CheckStep::Recording {
        queue: QueueMove::Clear,
        announce: Announcement {
            reason: "auto_started"@,
            message: Some("检测到主播开播，已开始自动录制"@),
        },
    }
}

/// The step after the room was read because its recording could not start.
pub open spec fn step_after_refusal(
    error: Seq<char>,
    running: bool,
    room: LiveRoom,
    now: Instant,
) -> CheckStep<LiveInfoView, Seq<char>> {
    if running || !room.auto_record_enabled {
        CheckStep::Settle(plan::only_queue(QueueMove::Clear))
    } else if schedule::is_expired(text::opt_view(room.auto_record_until), now) {
        CheckStep::Settle(plan::window_expired())
    } else {
        CheckStep::Settle(
            plan::watching_ends("paused"@, "自动录制启动失败，已暂停监控: "@ + error),
        )
    }
}

/// Begins to check a room, once the platform was asked about it.
pub fn check_auto_room(answer: Result<LiveInfo, ParseError>, settings: &AppSettings) -> (step:
    CheckStep<LiveInfo, String>)
    ensures
        step@ == step_answered(answer_view(answer), *settings),
{
    match answer {
        Ok(info) => CheckStep::ReadRoom(info),
        Err(error) => CheckStep::Settle(
            plan::move_only(
                QueueMove::CheckFailed {
                    interval_secs: settings.auto_check_interval_secs,
                    rate_limited: error.is_rate_limited(),
                },
            ),
        ),
    }
}

/// The step after the stored room was read.
pub fn room_reread(info: LiveInfo, room: &LiveRoom, now: Instant) -> (step: CheckStep<
    LiveInfo,
    String,
>)
    ensures
        step@ == step_reread(info@, *room, now),
{
    if !room.auto_record_enabled {
        CheckStep::Settle(plan::move_only(QueueMove::Clear))
    } else if schedule::monitor_is_expired_at(schedule::until_of(room), now) {
        CheckStep::Settle(plan::expire_window())
    } else {
        CheckStep::StoreInfo(info)
    }
}

/// The step after the information was stored.
pub fn info_stored(info: LiveInfo, settings: &AppSettings) -> (step: CheckStep<LiveInfo, String>)
    ensures
        step@ == step_stored(info@, *settings),
{
    if info.is_live {
        CheckStep::Record { info, trigger: "auto".to_owned() }
    } else {
        CheckStep::Settle(
            RoomPlan {
                setting: None,
                queue: QueueMove::CheckSucceeded {
                    interval_secs: settings.auto_check_interval_secs,
                },
                announce: Some(Announcement { reason: "enabled".to_owned(), message: None }),
            },
        )
    }
}

/// The step after the recording started.
pub fn recording_begun() -> (step: CheckStep<LiveInfo, String>)
    ensures
        step@ == step_begun(),
{
    CheckStep::Recording {
        queue: QueueMove::Clear,
        announce: Announcement {
            reason: "auto_started".to_owned(),
            message: Some("检测到主播开播，已开始自动录制".to_owned()),
        },
    }
}

/// The step after the recording could not start.
pub fn recording_refused(error: String) -> (step: CheckStep<LiveInfo, String>)
    ensures
        step@ == (CheckStep::<LiveInfoView, Seq<char>>::ReadAfterRefusal(error@)),
{
    CheckStep::ReadAfterRefusal(error)
}

/// The step after the room was read because its recording could not start.
pub fn room_after_refusal(error: &str, running: bool, room: &LiveRoom, now: Instant) -> (step:
    CheckStep<LiveInfo, String>)
    ensures
        step@ == step_after_refusal(error@, running, *room, now),
{
    if running || !room.auto_record_enabled {
        CheckStep::Settle(plan::move_only(QueueMove::Clear))
    } else if schedule::monitor_is_expired_at(schedule::until_of(room), now) {
        CheckStep::Settle(plan::expire_window())
    } else {
        CheckStep::Settle(
            plan::pause_auto_recording(
                text::cat2("自动录制启动失败，已暂停监控: ", error),
            ),
        )
    }
}

/// Where the room moves in the queue when a check itself broke down.
pub fn check_broke_down(settings: &AppSettings) -> (queue: QueueMove)
    ensures
        queue == (QueueMove::CheckFailed {
            interval_secs: settings.auto_check_interval_secs,
            rate_limited: false,
        }),
{
    QueueMove::CheckFailed {
        interval_secs: settings.auto_check_interval_secs,
        rate_limited: false,
    }
}

/// What the steps of a check meet with outside.
pub struct CheckWorld {
    pub settings: AppSettings,
    pub room: LiveRoom,
    pub now: Instant,
    /// Why the recording cannot start, where it cannot.
    pub refusal: Option<Seq<char>>,
    /// Whether the room is being recorded when the recording could not start.
    pub running: bool,
    /// The stored room at that time, and the time.
    pub later_room: LiveRoom,
    pub later: Instant,
}

/// The step that follows.
pub open spec fn next_step(step: CheckStep<LiveInfoView, Seq<char>>, world: CheckWorld) -> Option<
    CheckStep<LiveInfoView, Seq<char>>,
> {
    match step {
        CheckStep::ReadRoom(info) => Some(step_reread(info, world.room, world.now)),
        CheckStep::StoreInfo(info) => Some(step_stored(info, world.settings)),
        CheckStep::Record { .. } => match world.refusal {
            None => Some(step_begun()),
            Some(error) => Some(CheckStep::ReadAfterRefusal(error)),
        },
        CheckStep::ReadAfterRefusal(error) => Some(
            step_after_refusal(error, world.running, world.later_room, world.later),
        ),
        CheckStep::Recording { .. } => None,
        CheckStep::Settle(_) => None,
    }
}

/// How many steps can still follow.
pub open spec fn steps_left(step: CheckStep<LiveInfoView, Seq<char>>) -> nat {
    match step {
        CheckStep::ReadRoom(_) => 4,
        CheckStep::StoreInfo(_) => 3,
        CheckStep::Record { .. } => 2,
        CheckStep::ReadAfterRefusal(_) => 1,
        CheckStep::Recording { .. } => 0,
        CheckStep::Settle(_) => 0,
    }
}

/// All the steps from `step` on.
pub open spec fn steps_from(step: CheckStep<LiveInfoView, Seq<char>>, world: CheckWorld) -> Seq<
    CheckStep<LiveInfoView, Seq<char>>,
>
    decreases steps_left(step),
{
    match next_step(step, world) {
        None => seq![step],
        Some(next) => seq![step] + steps_from(next, world),
    }
}

/// A recording is started exactly where the platform says that the room is live and the room, read
/// again after that, is still watched.
pub proof fn law_when_a_check_records(answer: Result<LiveInfoView, Failure>, world: CheckWorld)
    ensures
        ({
            let steps = steps_from(step_answered(answer, world.settings), world);
            (exists|i: int| 0 <= i < steps.len() && #[trigger] steps[i] is Record) == (answer is Ok
                && answer->Ok_0.is_live && world.room.auto_record_enabled && !schedule::is_expired(
                text::opt_view(world.room.auto_record_until),
                world.now,
            ))
        }),
{
    reveal_with_fuel(steps_from, 6);
    let steps = steps_from(step_answered(answer, world.settings), world);
    if answer is Ok && answer->Ok_0.is_live && world.room.auto_record_enabled
        && !schedule::is_expired(text::opt_view(world.room.auto_record_until), world.now) {
        assert(steps[2] is Record);
    }
}

/// A check ends the watching of a room exactly where its window is over, or where its recording
/// could not start although the room is still watched and not being recorded; the user is then
/// told. A failure to read the room never ends it.
pub proof fn law_when_a_check_ends_watching(
    answer: Result<LiveInfoView, Failure>,
    world: CheckWorld,
)
    ensures
        ({
            let last = steps_from(step_answered(answer, world.settings), world).last();
            let over = schedule::is_expired(text::opt_view(world.room.auto_record_until), world.now);
            let ends = last is Settle && last->Settle_0.setting is Some;
            &&& last is Settle || last is Recording
            &&& last is Settle ==> plan::is_consistent(last->Settle_0)
            &&& ends == (answer is Ok && world.room.auto_record_enabled && (over || (
            answer->Ok_0.is_live && world.refusal is Some && !world.running
                && world.later_room.auto_record_enabled)))
            &&& ends ==> {
                &&& last->Settle_0.setting == Some(
                    AutoSetting::<Seq<char>> { enabled: false, until: None },
                )
                &&& last->Settle_0.queue is Clear
                &&& last->Settle_0.announce is Some
            }
        }),
{
    reveal_with_fuel(steps_from, 6);
}

// ---------------------------------------------------------------------------
// What the time brings
// ---------------------------------------------------------------------------

/// The daily schedule of a room opens a window. `S` is the kind of text.
#[derive(Debug)]
pub struct ScheduleTrigger<S> {
    /// The end of the window.
    pub until: S,
    /// The date on which the schedule was triggered.
    pub date: S,
}

/// What the time brings for a room, in this order: what is planned is done; the trigger is stored,
/// with the window, the room moves to the front of the queue, and the user is told.
#[derive(Debug)]
pub struct RoomTick<S> {
    pub expire: Option<RoomPlan<S>>,
    pub trigger: Option<ScheduleTrigger<S>>,
    pub queue: QueueMove,
    pub announce: Option<Announcement<S>>,
}

impl View for ScheduleTrigger<String> {
    type V = ScheduleTrigger<Seq<char>>;

    open spec fn view(&self) -> ScheduleTrigger<Seq<char>> {
        ScheduleTrigger { until: self.until@, date: self.date@ }
    }
}

/// What a trigger says, where there is one.
pub open spec fn trigger_view(trigger: Option<ScheduleTrigger<String>>) -> Option<
    ScheduleTrigger<Seq<char>>,
> {
    match trigger {
        Some(trigger) => Some(trigger@),
        None => None,
    }
}

impl View for RoomTick<String> {
    type V = RoomTick<Seq<char>>;

    open spec fn view(&self) -> RoomTick<Seq<char>> {
        RoomTick {
            expire: match self.expire {
                Some(plan) => Some(plan@),
                None => None,
            },
            trigger: trigger_view(self.trigger),
            queue: self.queue,
            announce: match self.announce {
                Some(announcement) => Some(announcement@),
                None => None,
            },
        }
    }
}

/// The trigger of a schedule now.
pub open spec fn triggered(settings: AppSettings, now: Instant, local: LocalMoment) -> ScheduleTrigger<
    Seq<char>,
> {
    ScheduleTrigger {
        until: schedule::window_text(now, settings.auto_monitor_window_hours),
        date: clock::date_text(local),
    }
}

/// What the time brings for a room, given whether it is being recorded.
pub open spec fn tick_of(
    room: LiveRoom,
    running: bool,
    settings: AppSettings,
    now: Instant,
    local: LocalMoment,
) -> RoomTick<Seq<char>> {
    let due = schedule::room_is_due(room, local);
    RoomTick {
        expire: if room.auto_record_enabled && schedule::is_expired(
            text::opt_view(room.auto_record_until),
            now,
        ) && !running {
            Some(plan::window_expired())
        } else {
            None
        },
        trigger: if due {
            Some(triggered(settings, now, local))
        } else {
            None
        },
        queue: if due {
            QueueMove::Immediate
        } else {
            QueueMove::Keep
        },
        announce: if due {
            plan::told("schedule_triggered"@, "每日定时已触发，开始监控直播状态"@)
        } else {
            None
        },
    }
}

fn trigger_now(settings: &AppSettings, now: Instant, local: LocalMoment) -> (trigger:
    ScheduleTrigger<String>)
    requires
        now.valid(),
        local.valid(),
        schedule::window_fits(now, settings.auto_monitor_window_hours),
    ensures
        trigger@ == triggered(*settings, now, local),
        schedule::reads_back(
            trigger.until@,
            settings.auto_monitor_window_hours,
            now,
        ),
{
    ScheduleTrigger {
        until: schedule::monitor_until_at(now, settings.auto_monitor_window_hours),
        date: local.date(),
    }
}

/// What the time brings for a room, given whether it is being recorded: a window that is over is
/// closed unless the room is being recorded, and a schedule that is due opens a new one.
pub fn process_auto_deadlines_and_schedules(
    room: &LiveRoom,
    running: bool,
    settings: &AppSettings,
    now: Instant,
    local: LocalMoment,
) -> (tick: RoomTick<String>)
    requires
        now.valid(),
        local.valid(),
        schedule::room_is_due(*room, local) ==> schedule::window_fits(
            now,
            settings.auto_monitor_window_hours,
        ),
    ensures
        tick@ == tick_of(*room, running, *settings, now, local),
        tick.trigger matches Some(trigger) ==> schedule::reads_back(
            trigger.until@,
            settings.auto_monitor_window_hours,
            now,
        ),
{
    let expire = if room.auto_record_enabled && schedule::monitor_is_expired_at(
        schedule::until_of(room),
        now,
    ) && !running {
        Some(plan::expire_window())
    } else {
        None
    };
    if schedule::daily_schedule_is_due(room, local) {
        RoomTick {
            expire,
            trigger: Some(trigger_now(settings, now, local)),
            queue: QueueMove::Immediate,
            announce: plan::tell(
                "schedule_triggered",
                "每日定时已触发，开始监控直播状态".to_owned(),
            ),
        }
    } else {
        RoomTick { expire, trigger: None, queue: QueueMove::Keep, announce: None }
    }
}

/// What is stored of a room when the program starts: the setting first, then the trigger of its
/// schedule, with the window. `S` is the kind of text.
#[derive(Debug)]
pub struct StartupFix<S> {
    pub setting: Option<AutoSetting<S>>,
    pub trigger: Option<ScheduleTrigger<S>>,
}

impl View for StartupFix<String> {
    type V = StartupFix<Seq<char>>;

    open spec fn view(&self) -> StartupFix<Seq<char>> {
        StartupFix {
            setting: match self.setting {
                Some(setting) => Some(setting@),
                None => None,
            },
            trigger: trigger_view(self.trigger),
        }
    }
}

/// What is stored of a room when the program starts: a room that is watched without a window gets
/// one, a window that is over is closed, and a schedule that is due opens a new one.
pub open spec fn startup_fix(
    room: LiveRoom,
    settings: AppSettings,
    now: Instant,
    local: LocalMoment,
) -> StartupFix<Seq<char>> {
    StartupFix {
        setting: if !room.auto_record_enabled {
            None
        } else if room.auto_record_until is None {
            Some(
                AutoSetting {
                    enabled: true,
                    until: Some(schedule::window_text(now, settings.auto_monitor_window_hours)),
                },
            )
        } else if schedule::is_expired(text::opt_view(room.auto_record_until), now) {
            Some(AutoSetting { enabled: false, until: None })
        } else {
            None
        },
        trigger: if schedule::room_is_due(room, local) {
            Some(triggered(settings, now, local))
        } else {
            None
        },
    }
}

/// A window is opened for the room when the program starts.
pub open spec fn startup_opens_window(room: LiveRoom, local: LocalMoment) -> bool {
    room.auto_record_enabled && room.auto_record_until is None || schedule::room_is_due(room, local)
}

/// What is stored of a room when the program starts.
pub fn reconcile_auto_state_on_startup(
    room: &LiveRoom,
    settings: &AppSettings,
    now: Instant,
    local: LocalMoment,
) -> (fix: StartupFix<String>)
    requires
        now.valid(),
        local.valid(),
        startup_opens_window(*room, local) ==> schedule::window_fits(
            now,
            settings.auto_monitor_window_hours,
        ),
    ensures
        fix@ == startup_fix(*room, *settings, now, local),
        fix.setting matches Some(AutoSetting { until: Some(until), .. }) ==> schedule::reads_back(
            until@,
            settings.auto_monitor_window_hours,
            now,
        ),
        fix.trigger matches Some(trigger) ==> schedule::reads_back(
            trigger.until@,
            settings.auto_monitor_window_hours,
            now,
        ),
{
    let setting = if !room.auto_record_enabled {
        None
    } else if room.auto_record_until.is_none() {
        let until = schedule::monitor_until_at(now, settings.auto_monitor_window_hours);
        Some(AutoSetting { enabled: true, until: Some(until) })
    } else if schedule::monitor_is_expired_at(schedule::until_of(room), now) {
        Some(AutoSetting { enabled: false, until: None })
    } else {
        None
    };
    let trigger = if schedule::daily_schedule_is_due(room, local) {
        Some(trigger_now(settings, now, local))
    } else {
        None
    };
    StartupFix { setting, trigger }
}

/// Time closes the window of a room only where it is over and the room is not being recorded, and
/// opens one exactly where the schedule is due.
pub proof fn law_what_the_time_brings(
    room: LiveRoom,
    running: bool,
    settings: AppSettings,
    now: Instant,
    local: LocalMoment,
)
    ensures
        ({
            let tick = tick_of(room, running, settings, now, local);
            &&& tick.expire is Some == (room.auto_record_enabled && !running
                && schedule::is_expired(text::opt_view(room.auto_record_until), now))
            &&& tick.expire is Some ==> tick.expire->0.setting == Some(
                AutoSetting::<Seq<char>> { enabled: false, until: None },
            ) && plan::is_consistent(tick.expire->0)
            &&& tick.trigger is Some == schedule::room_is_due(room, local)
            &&& tick.trigger is Some ==> tick.queue is Immediate && tick.announce is Some
        }),
{
}

/// The window that a schedule opens is over exactly from its end on, as long as that falls within
/// the years 0 to 9999, and the schedule is not due again on the same date.
pub proof fn law_triggered_window(
    room: LiveRoom,
    running: bool,
    settings: AppSettings,
    now: Instant,
    local: LocalMoment,
    tick: RoomTick<String>,
    later: Instant,
    later_local: LocalMoment,
)
    requires
        call_ensures(
            process_auto_deadlines_and_schedules,
            (&room, running, &settings, now, local),
            tick,
        ),
        tick.trigger is Some,
        clock::FIRST_FOUR_DIGIT_SECOND <= schedule::window_end(
            now,
            settings.auto_monitor_window_hours,
        ).secs <= clock::LAST_FOUR_DIGIT_SECOND,
        later_local.same_date(local),
    ensures
        schedule::is_expired(Some(tick.trigger->0.until@), later) == schedule::window_end(
            now,
            settings.auto_monitor_window_hours,
        ).no_later_than(later),
        !schedule::schedule_due(
            text::opt_view(room.auto_record_daily_time),
            Some(tick.trigger->0.date@),
            later_local,
        ),
{
    assert(tick@.trigger == Some(tick.trigger->0@));
}

/// Whether the room is watched once the setting is stored, and until when.
pub open spec fn watched_after(room: LiveRoom, setting: Option<AutoSetting<String>>) -> AutoSetting<
    Seq<char>,
> {
    match setting {
        Some(setting) => setting@,
        None => AutoSetting {
            enabled: room.auto_record_enabled,
            until: text::opt_view(room.auto_record_until),
        },
    }
}

/// Once the program has started, a room is watched only with a window that is open, as long as a
/// new window ends later than it begins and within the years 0 to 9999.
pub proof fn law_startup_leaves_open_windows(
    room: LiveRoom,
    settings: AppSettings,
    now: Instant,
    local: LocalMoment,
    fix: StartupFix<String>,
)
    requires
        call_ensures(
            reconcile_auto_state_on_startup,
            (&room, &settings, now, local),
            fix,
        ),
        clock::FIRST_FOUR_DIGIT_SECOND <= schedule::window_end(
            now,
            settings.auto_monitor_window_hours,
        ).secs <= clock::LAST_FOUR_DIGIT_SECOND,
        !schedule::window_end(now, settings.auto_monitor_window_hours).no_later_than(now),
    ensures
        watched_after(room, fix.setting).enabled ==> !schedule::is_expired(
            watched_after(room, fix.setting).until,
            now,
        ),
{
    assert(fix@.setting == (match fix.setting {
        Some(setting) => Some(setting@),
        None => None,
    }));
}

// ---------------------------------------------------------------------------
// Laws over what is stored and told
// ---------------------------------------------------------------------------

/// A room is checked exactly where it is watched, its window is open, it is not being recorded,
/// and it is due.
pub proof fn law_when_a_room_is_checked(
    enabled: bool,
    expired: bool,
    running: bool,
    due: bool,
    poll: bool,
)
    requires
        call_ensures(should_poll_auto_room, (enabled, expired, running, due), poll),
    ensures
        poll ==> enabled && due && !expired && !running,
        enabled && due && !expired && !running ==> poll,
{
}

/// The search asks about one room after the other, from the first on, and ends at the first one
/// that is to be checked, or after the last one.
pub proof fn law_how_a_room_is_searched_for(
    rooms: Vec<LiveRoom>,
    first: DueStep,
    index: usize,
    running: bool,
    due: bool,
    now: Instant,
    step: DueStep,
)
    requires
        index < rooms@.len(),
        call_ensures(next_due_auto_room, (&rooms,), first),
        call_ensures(room_asked, (&rooms, index, running, due, now), step),
    ensures
        first == DueStep::Ask(0),
        ({
            let room = rooms@[index as int];
            let over = schedule::is_expired(text::opt_view(room.auto_record_until), now);
            if room.auto_record_enabled && !over && !running && due {
                step == DueStep::Found(index)
            } else if index + 1 < rooms@.len() {
                step == DueStep::Ask((index + 1) as usize)
            } else {
                step == DueStep::Nothing
            }
        }),
{
    assert(rooms.len() == rooms@.len());
}

/// Without rooms nothing is found.
pub proof fn law_no_room_to_search(rooms: Vec<LiveRoom>, first: DueStep)
    requires
        rooms@.len() == 0,
        call_ensures(next_due_auto_room, (&rooms,), first),
    ensures
        first == DueStep::Nothing,
{
}

/// A room that could not be read is only put off, by the interval that is set, and longer where the
/// platform asked to slow down; what was read of it is kept for the next step.
pub proof fn law_what_an_answer_leads_to(
    answer: Result<LiveInfo, ParseError>,
    settings: AppSettings,
    step: CheckStep<LiveInfo, String>,
)
    requires
        call_ensures(check_auto_room, (answer, &settings), step),
    ensures
        answer matches Ok(info) ==> (step matches CheckStep::ReadRoom(same) && same@ == info@),
        answer matches Err(error) ==> (step matches CheckStep::Settle(plan) && plan::only_moves(
            plan,
            QueueMove::CheckFailed {
                interval_secs: settings.auto_check_interval_secs,
                rate_limited: error@.rate_limited,
            },
        )),
{
    if let CheckStep::Settle(plan) = step {
        assert(step@ == CheckStep::<LiveInfoView, Seq<char>>::Settle(plan@));
    }
}

/// A room that is not watched any more leaves the queue, one whose window is over is no longer
/// watched, and of any other one the information is stored.
pub proof fn law_what_the_stored_room_leads_to(
    info: LiveInfo,
    room: LiveRoom,
    now: Instant,
    step: CheckStep<LiveInfo, String>,
)
    requires
        call_ensures(room_reread, (info, &room, now), step),
    ensures
        ({
            let over = schedule::is_expired(text::opt_view(room.auto_record_until), now);
            &&& !room.auto_record_enabled ==> (step matches CheckStep::Settle(plan)
                && plan::only_moves(plan, QueueMove::Clear))
            &&& room.auto_record_enabled && over ==> (step matches CheckStep::Settle(plan)
                && plan::switches_off(
                plan,
                "window_expired"@,
                "自动录制监控时间已结束"@,
            ))
            &&& room.auto_record_enabled && !over ==> (step matches CheckStep::StoreInfo(same)
                && same@ == info@)
        }),
{
    if let CheckStep::Settle(plan) = step {
        assert(step@ == CheckStep::<LiveInfoView, Seq<char>>::Settle(plan@));
        if plan.setting is Some {
            assert(plan@.setting == Some(plan.setting->0@));
        }
        if plan.announce is Some {
            assert(plan@.announce == Some(plan.announce->0@));
        }
    }
}

/// A live room is recorded automatically; one that is not live is checked again after the interval
/// that is set.
pub proof fn law_what_the_information_leads_to(
    info: LiveInfo,
    settings: AppSettings,
    step: CheckStep<LiveInfo, String>,
)
    requires
        call_ensures(info_stored, (info, &settings), step),
    ensures
        info.is_live ==> (step matches CheckStep::Record { info: same, trigger } && same@ == info@
            && trigger@ == "auto"@),
        !info.is_live ==> (step matches CheckStep::Settle(plan) && plan.setting is None
            && plan.queue == (QueueMove::CheckSucceeded {
            interval_secs: settings.auto_check_interval_secs,
        }) && (plan.announce matches Some(told) && told.reason@ == "enabled"@
            && told.message is None)),
{
    if let CheckStep::Settle(plan) = step {
        assert(step@ == CheckStep::<LiveInfoView, Seq<char>>::Settle(plan@));
        if plan.announce is Some {
            assert(plan@.announce == Some(plan.announce->0@));
        }
    }
}

/// Once the recording has begun, the room leaves the queue and the user is told.
pub proof fn law_what_a_begun_recording_leads_to(
    begun: CheckStep<LiveInfo, String>,
    error: String,
    refused: CheckStep<LiveInfo, String>,
)
    requires
        call_ensures(recording_begun, (), begun),
        call_ensures(recording_refused, (error,), refused),
    ensures
        begun matches CheckStep::Recording { queue, announce } && queue == QueueMove::Clear
            && plan::says(
            Some(announce),
            "auto_started"@,
            "检测到主播开播，已开始自动录制"@,
        ),
        refused matches CheckStep::ReadAfterRefusal(why) && why@ == error@,
{
    if let CheckStep::Recording { queue, announce } = begun {
        assert(begun@ == (CheckStep::<LiveInfoView, Seq<char>>::Recording {
            queue,
            announce: announce@,
        }));
    }
}

/// Where the recording of a room could not start, watching is paused and the user is told why,
/// unless the room is being recorded, is not watched any more, or its window is over.
pub proof fn law_what_a_refused_recording_leads_to(
    error: &str,
    running: bool,
    room: LiveRoom,
    now: Instant,
    step: CheckStep<LiveInfo, String>,
)
    requires
        call_ensures(room_after_refusal, (error, running, &room, now), step),
    ensures
        ({
            let over = schedule::is_expired(text::opt_view(room.auto_record_until), now);
            &&& step matches CheckStep::Settle(plan)
            &&& running || !room.auto_record_enabled ==> plan::only_moves(plan, QueueMove::Clear)
            &&& !running && room.auto_record_enabled && over ==> plan::switches_off(
                plan,
                "window_expired"@,
                "自动录制监控时间已结束"@,
            )
            &&& !running && room.auto_record_enabled && !over ==> plan::switches_off(
                plan,
                "paused"@,
                "自动录制启动失败，已暂停监控: "@ + error@,
            )
        }),
{
    if let CheckStep::Settle(plan) = step {
        assert(step@ == CheckStep::<LiveInfoView, Seq<char>>::Settle(plan@));
        if plan.setting is Some {
            assert(plan@.setting == Some(plan.setting->0@));
        }
        if plan.announce is Some {
            assert(plan@.announce == Some(plan.announce->0@));
        }
    }
}

/// A check that broke down puts the room off by the interval that is set.
pub proof fn law_what_a_broken_check_leads_to(settings: AppSettings, queue: QueueMove)
    requires
        call_ensures(check_broke_down, (&settings,), queue),
    ensures
        queue matches QueueMove::CheckFailed { interval_secs, rate_limited } && interval_secs
            == settings.auto_check_interval_secs && !rate_limited,
{
}

/// Time ends the watching of a room exactly where its window is over and it is not being recorded,
/// and a schedule opens a window exactly where it is due: one of the hours that are set, marked
/// with the date.
pub proof fn law_what_is_done_as_time_passes(
    room: LiveRoom,
    running: bool,
    settings: AppSettings,
    now: Instant,
    local: LocalMoment,
    tick: RoomTick<String>,
)
    requires
        call_ensures(
            process_auto_deadlines_and_schedules,
            (&room, running, &settings, now, local),
            tick,
        ),
    ensures
        ({
            let over = schedule::is_expired(text::opt_view(room.auto_record_until), now);
            let due = schedule::room_is_due(room, local);
            &&& tick.expire is Some == (room.auto_record_enabled && over && !running)
            &&& tick.expire matches Some(plan) ==> plan::switches_off(
                plan,
                "window_expired"@,
                "自动录制监控时间已结束"@,
            )
            &&& tick.trigger is Some == due
            &&& tick.queue == (if due {
                QueueMove::Immediate
            } else {
                QueueMove::Keep
            })
            &&& tick.announce is Some == due
            &&& due ==> plan::says(
                tick.announce,
                "schedule_triggered"@,
                "每日定时已触发，开始监控直播状态"@,
            )
            &&& tick.trigger matches Some(trigger) ==> {
                &&& trigger.date@ == clock::date_text(local)
                &&& settings.auto_monitor_window_hours <= 0x7fff_ffff_ffff_ffff && -62167219200
                    <= now.secs + settings.auto_monitor_window_hours * 3600 <= 253402300799
                    ==> clock::parsed_rfc3339(trigger.until@) == Some(
                    ((now.secs + settings.auto_monitor_window_hours * 3600) as i64, now.nanos),
                )
            }
        }),
{
    if let Some(plan) = tick.expire {
        assert(tick@.expire == Some(plan@));
        assert(plan@.setting == plan::window_expired().setting);
        assert(plan@.announce == plan::window_expired().announce);
        assert(plan@.setting == Some(plan.setting->0@));
        assert(plan@.announce == Some(plan.announce->0@));
    }
    if tick.announce is Some {
        assert(tick@.announce == Some(tick.announce->0@));
    }
    if tick.trigger is Some {
        assert(tick@.trigger == Some(tick.trigger->0@));
    }
}

/// When the program starts, a room that is watched without a window gets one of the hours that are
/// set, one whose window is over is not watched any more, and a schedule that is due opens a window
/// and is marked with the date. Nothing else changes.
pub proof fn law_what_is_done_at_startup(
    room: LiveRoom,
    settings: AppSettings,
    now: Instant,
    local: LocalMoment,
    fix: StartupFix<String>,
)
    requires
        call_ensures(reconcile_auto_state_on_startup, (&room, &settings, now, local), fix),
    ensures
        ({
            let over = schedule::is_expired(text::opt_view(room.auto_record_until), now);
            let due = schedule::room_is_due(room, local);
            let in_range = settings.auto_monitor_window_hours <= 0x7fff_ffff_ffff_ffff
                && -62167219200 <= now.secs + settings.auto_monitor_window_hours * 3600
                <= 253402300799;
            let end = ((now.secs + settings.auto_monitor_window_hours * 3600) as i64, now.nanos);
            &&& fix.setting is Some == (room.auto_record_enabled && over)
            &&& fix.setting matches Some(setting) ==> setting.enabled
                == room.auto_record_until is None && setting.until is Some == setting.enabled
            &&& in_range ==> (fix.setting matches Some(AutoSetting { until: Some(until), .. })
                ==> clock::parsed_rfc3339(until@) == Some(end))
            &&& fix.trigger is Some == due
            &&& fix.trigger matches Some(trigger) ==> trigger.date@ == clock::date_text(local)
            &&& in_range ==> (fix.trigger matches Some(trigger) ==> clock::parsed_rfc3339(
                trigger.until@,
            ) == Some(end))
        }),
{
    if fix.setting is Some {
        assert(fix@.setting == Some(fix.setting->0@));
    }
    if fix.trigger is Some {
        assert(fix@.trigger == Some(fix.trigger->0@));
    }
}

/// The rooms are looked at every second.
pub proof fn law_how_often_rooms_are_looked_at()
    ensures
        TICK_SECS == 1,
{
}

} // verus!
