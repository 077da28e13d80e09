//! What is to be done about a room, as a value: the stored setting, the polling queue, and what
//! the user is told.

use vstd::prelude::*;

use crate::text;

verus! {

/// The name of the event by which the window learns of a recording.
pub const RECORDING_EVENT: &'static str = "recording-status-changed";

/// The name of the event by which the window learns of watching a room.
pub const AUTO_RECORDING_EVENT: &'static str = "room-auto-recording-changed";

/// What happens to a room in the polling queue.
#[derive(Debug, Clone, Copy, PartialEq, Eq, Structural)]
pub enum QueueMove {
    Keep,
    /// Check the room at once.
    Immediate,
    /// Forget when the room was to be checked.
    Clear,
    /// The room was checked; checks are so many seconds apart.
    CheckSucceeded { interval_secs: u64 },
    /// The room could not be checked, perhaps because there were too many requests.
    CheckFailed { interval_secs: u64, rate_limited: bool },
}

/// The stored setting for automatic recording. `S` is the kind of text.
#[derive(Debug)]
pub struct AutoSetting<S> {
    pub enabled: bool,
    pub until: Option<S>,
}

/// What the user is told of a change. `S` is the kind of text.
#[derive(Debug)]
pub struct Announcement<S> {
    pub reason: S,
    pub message: Option<S>,
}

/// What is to be done about a room, in this order: the setting is stored, the room moves in the
/// queue, and the user is told. `S` is the kind of text.
#[derive(Debug)]
pub struct RoomPlan<S> {
    pub setting: Option<AutoSetting<S>>,
    pub queue: QueueMove,
    pub announce: Option<Announcement<S>>,
}

impl View for AutoSetting<String> {
    type V = AutoSetting<Seq<char>>;

    open spec fn view(&self) -> AutoSetting<Seq<char>> {
        AutoSetting { enabled: self.enabled, until: text::opt_view(self.until) }
    }
}

impl View for Announcement<String> {
    type V = Announcement<Seq<char>>;

    open spec fn view(&self) -> Announcement<Seq<char>> {
        Announcement { reason: self.reason@, message: text::opt_view(self.message) }
    }
}

impl View for RoomPlan<String> {
    type V = RoomPlan<Seq<char>>;

    open spec fn view(&self) -> RoomPlan<Seq<char>> {
        RoomPlan {
            setting: match self.setting {
                Some(setting) => Some(setting@),
                None => None,
            },
            queue: self.queue,
            announce: match self.announce {
                Some(announcement) => Some(announcement@),
                None => None,
            },
        }
    }
}

/// A change of the setting goes with the queue and is told: a room that is watched has a window
/// and is checked at once, and one that is not has neither a window nor a place in the queue.
pub open spec fn is_consistent(plan: RoomPlan<Seq<char>>) -> bool {
    plan.setting matches Some(setting) ==> {
        &&& setting.until is Some == setting.enabled
        &&& plan.queue == (if setting.enabled {
            QueueMove::Immediate
        } else {
            QueueMove::Clear
        })
        &&& plan.announce is Some
    }
}

/// An announcement with a message.
pub open spec fn told(reason: Seq<char>, message: Seq<char>) -> Option<Announcement<Seq<char>>> {
    Some(Announcement { reason, message: Some(message) })
}

pub(crate) fn tell(reason: &str, message: String) -> (announcement: Option<Announcement<String>>)
    ensures
        (match announcement {
            Some(announcement) => Some(announcement@),
            None => None,
        }) == told(reason@, message@),
{
    Some(Announcement { reason: reason.to_owned(), message: Some(message) })
}

/// Watching the room ends, for a reason that the user is told.
pub open spec fn watching_ends(reason: Seq<char>, message: Seq<char>) -> RoomPlan<Seq<char>> {
    RoomPlan {
        setting: Some(AutoSetting { enabled: false, until: None }),
        queue: QueueMove::Clear,
        announce: told(reason, message),
    }
}

/// The monitoring window of the room is over.
pub open spec fn window_expired() -> RoomPlan<Seq<char>> {
    watching_ends("window_expired"@, "自动录制监控时间已结束"@)
}

/// The room moves in the queue, and nothing else happens.
pub open spec fn only_queue(queue: QueueMove) -> RoomPlan<Seq<char>> {
    RoomPlan { setting: None, queue, announce: None }
}

pub(crate) fn end_watching(reason: &str, message: String) -> (plan: RoomPlan<String>)
    ensures
        plan@ == watching_ends(reason@, message@),
{
    RoomPlan {
        setting: Some(AutoSetting { enabled: false, until: None }),
        queue: QueueMove::Clear,
        announce: tell(reason, message),
    }
}

pub(crate) fn expire_window() -> (plan: RoomPlan<String>)
    ensures
        plan@ == window_expired(),
{
    end_watching("window_expired", "自动录制监控时间已结束".to_owned())
}

/// Automatic recording of a room is paused, for a reason that the user is told.
pub fn pause_auto_recording(message: String) -> (plan: RoomPlan<String>)
    ensures
        plan@ == watching_ends("paused"@, message@),
{
    end_watching("paused", message)
}

pub(crate) fn move_only(queue: QueueMove) -> (plan: RoomPlan<String>)
    ensures
        plan@ == only_queue(queue),
{
    RoomPlan { setting: None, queue, announce: None }
}

/// The user is told that message, for that reason.
pub open spec fn says(
    announcement: Option<Announcement<String>>,
    reason: Seq<char>,
    message: Seq<char>,
) -> bool {
    announcement matches Some(told) && told.reason@ == reason && (told.message matches Some(text)
        && text@ == message)
}

/// Watching is switched off, the room leaves the queue, and the user is told why.
pub open spec fn switches_off(
    plan: RoomPlan<String>,
    reason: Seq<char>,
    message: Seq<char>,
) -> bool {
    &&& plan.setting matches Some(setting) && !setting.enabled && setting.until is None
    &&& plan.queue == QueueMove::Clear
    &&& says(plan.announce, reason, message)
}

/// Only the place in the queue changes; nobody is told.
pub open spec fn only_moves(plan: RoomPlan<String>, queue: QueueMove) -> bool {
    &&& plan.setting is None
    &&& plan.queue == queue
    &&& plan.announce is None
}

/// To pause a room is to switch watching off, with the given message.
pub proof fn law_pausing_switches_off(message: String, plan: RoomPlan<String>)
    requires
        call_ensures(pause_auto_recording, (message,), plan),
    ensures
        switches_off(plan, "paused"@, message@),
{
    assert(plan@.setting == Some(plan.setting->0@));
    assert(plan@.announce == Some(plan.announce->0@));
}

/// The window learns of recordings and of watching by two different events.
pub proof fn law_events_are_told_apart()
    ensures
        RECORDING_EVENT@ == "recording-status-changed"@,
        AUTO_RECORDING_EVENT@ == "room-auto-recording-changed"@,
        RECORDING_EVENT@ != AUTO_RECORDING_EVENT@,
{
    reveal_strlit("recording-status-changed");
    reveal_strlit("room-auto-recording-changed");
    assert(RECORDING_EVENT@.len() == 24);
    assert(AUTO_RECORDING_EVENT@.len() == 27);
}

} // verus!
