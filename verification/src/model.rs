//! Rooms, recording tasks and settings, as they are stored.

use vstd::prelude::*;

use crate::parser::LiveInfo;
use crate::text;

verus! {

/// A room that the user follows.
#[derive(Debug)]
pub struct LiveRoom {
    pub id: i64,
    pub platform: String,
    pub room_id: String,
    pub short_id: Option<String>,
    pub uid: i64,
    pub anchor_name: String,
    pub room_title: String,
    pub cover_url: String,
    pub avatar_url: String,
    pub is_live: bool,
    pub created_at: String,
    pub auto_record_enabled: bool,
    pub auto_record_daily_time: Option<String>,
    pub auto_record_until: Option<String>,
    pub last_schedule_trigger_date: Option<String>,
}

/// One recording of a room.
#[derive(Debug)]
pub struct RecordTask {
    pub id: i64,
    pub room_id: i64,
    pub trigger: String,
    pub status: String,
    pub file_path: Option<String>,
}

/// The user's settings.
#[derive(Debug)]
pub struct AppSettings {
    pub quality: String,
    pub proxy: String,
    pub cookie: String,
    pub recordings_dir: String,
    pub auto_disable_after_record: bool,
    pub auto_monitor_window_hours: u64,
    pub auto_check_interval_secs: u64,
    pub auto_convert_mp4: bool,
    pub preserve_source_after_convert: bool,
}

// ---------------------------------------------------------------------------
// Keeping a room up to date
// ---------------------------------------------------------------------------

/// What is written back to a room after the platform described it.
#[derive(Debug)]
pub struct RoomUpdate {
    pub short_id: Option<String>,
    pub uid: i64,
    pub anchor_name: String,
    pub room_title: String,
    pub cover_url: String,
    pub avatar_url: String,
    pub is_live: bool,
}

/// The new text, unless it is empty: what is known is not lost.
pub open spec fn unless_empty(new: Seq<char>, known: Seq<char>) -> Seq<char> {
    if new.len() == 0 {
        known
    } else {
        new
    }
}

fn newer(new: &String, known: &String) -> (kept: String)
    ensures
        kept@ == unless_empty(new@, known@),
{
    if new.as_str().is_empty() {
        known.clone()
    } else {
        new.clone()
    }
}

/// What is written back to `room` after the platform described it as `info`.
pub fn apply_live_info(room: &LiveRoom, info: &LiveInfo) -> (update: RoomUpdate)
    ensures
        text::opt_view(update.short_id) == text::opt_view(info.short_id),
        update.uid == info.uid,
        update.anchor_name@ == unless_empty(info.anchor_name@, room.anchor_name@),
        update.room_title@ == unless_empty(info.room_title@, room.room_title@),
        update.cover_url@ == unless_empty(info.cover_url@, room.cover_url@),
        update.avatar_url@ == unless_empty(info.avatar_url@, room.avatar_url@),
        update.is_live == info.is_live,
{
    RoomUpdate {
        short_id: text::copy_opt(&info.short_id),
        uid: info.uid,
        anchor_name: newer(&info.anchor_name, &room.anchor_name),
        room_title: newer(&info.room_title, &room.room_title),
        cover_url: newer(&info.cover_url, &room.cover_url),
        avatar_url: newer(&info.avatar_url, &room.avatar_url),
        is_live: info.is_live,
    }
}

/// What is known of a room is never lost to an empty text, and the same description given twice
/// comes to the same as once.
pub proof fn law_known_texts_are_kept(new: Seq<char>, known: Seq<char>)
    ensures
        unless_empty(new, known).len() == 0 ==> new.len() == 0 && known.len() == 0,
        unless_empty(new, unless_empty(new, known)) == unless_empty(new, known),
{
}

// ---------------------------------------------------------------------------
// The states of a task
// ---------------------------------------------------------------------------

/// The recording has not ended: its process still has to be dealt with.
pub open spec fn is_pending(status: Seq<char>) -> bool {
    status == "preparing"@ || status == "recording"@
}

/// The task is still at work on its file.
pub open spec fn is_busy(status: Seq<char>) -> bool {
    is_pending(status) || status == "finalizing"@
}

/// Whether the recording has not ended.
pub fn status_is_pending(status: &str) -> (pending: bool)
    ensures
        pending == is_pending(status@),
{
    text::same_text(status, "preparing") || text::same_text(status, "recording")
}

/// Whether the task is still at work on its file.
pub fn status_is_busy(status: &str) -> (busy: bool)
    ensures
        busy == is_busy(status@),
{
    status_is_pending(status) || text::same_text(status, "finalizing")
}

/// What the platform says of a room replaces what was known, except that an empty text replaces
/// nothing.
pub proof fn law_what_is_written_back(room: LiveRoom, info: LiveInfo, update: RoomUpdate)
    requires
        call_ensures(apply_live_info, (&room, &info), update),
    ensures
        update.is_live == info.is_live,
        update.uid == info.uid,
        update.short_id is Some == info.short_id is Some,
        update.short_id matches Some(id) ==> id@ == info.short_id->0@,
        update.anchor_name@ == info.anchor_name@ || info.anchor_name@.len() == 0
            && update.anchor_name@ == room.anchor_name@,
        update.room_title@ == info.room_title@ || info.room_title@.len() == 0
            && update.room_title@ == room.room_title@,
        update.cover_url@ == info.cover_url@ || info.cover_url@.len() == 0 && update.cover_url@
            == room.cover_url@,
        update.avatar_url@ == info.avatar_url@ || info.avatar_url@.len() == 0 && update.avatar_url@
            == room.avatar_url@,
        update.anchor_name@.len() == 0 ==> room.anchor_name@.len() == 0,
        update.room_title@.len() == 0 ==> room.room_title@.len() == 0,
        update.cover_url@.len() == 0 ==> room.cover_url@.len() == 0,
        update.avatar_url@.len() == 0 ==> room.avatar_url@.len() == 0,
{
}

/// A recording that is prepared or runs has not ended; one that is being finalized has ended, and
/// is at work on its file all the same. In any other state nothing is left to be done.
pub proof fn law_states_of_a_task(status: &str, pending: bool, busy: bool)
    requires
        call_ensures(status_is_pending, (status,), pending),
        call_ensures(status_is_busy, (status,), busy),
    ensures
        pending == (status@ == "preparing"@ || status@ == "recording"@),
        busy == (status@ == "preparing"@ || status@ == "recording"@ || status@ == "finalizing"@),
{
}

} // verus!
