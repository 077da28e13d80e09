//! When a room is watched: the monitoring window, and the daily schedule that opens it.

use vstd::prelude::*;

use crate::clock;
use crate::clock::{Instant, LocalMoment, TimeOfDay};
use crate::model::LiveRoom;
use crate::text;

verus! {

// ---------------------------------------------------------------------------
// The monitoring window
// ---------------------------------------------------------------------------

/// The length of a window in hours, read as a signed number of 64 bits.
pub open spec fn window_length(window_hours: u64) -> int {
    if window_hours <= i64::MAX {
        window_hours as int
    } else {
        window_hours - 0x1_0000_0000_0000_0000
    }
}

/// The calendar reaches to the end of the window.
pub open spec fn window_fits(now: Instant, window_hours: u64) -> bool {
    clock::FIRST_SECOND <= now.secs + window_length(window_hours) * 3600 <= clock::LAST_SECOND
}

/// The end of a window that is opened now.
pub open spec fn window_end(now: Instant, window_hours: u64) -> Instant {
    now.plus_hours(window_length(window_hours))
}

/// How the end of a window that is opened now is stored.
pub open spec fn window_text(now: Instant, window_hours: u64) -> Seq<char> {
    let end = window_end(now, window_hours);
    clock::rfc3339_text(end.secs, end.nanos)
}

/// The stored end of a window that is opened now reads back as that end, as long as it falls within
/// the years 0 to 9999.
pub open spec fn reads_back(until: Seq<char>, window_hours: u64, now: Instant) -> bool {
    let end = window_end(now, window_hours);
    clock::FIRST_FOUR_DIGIT_SECOND <= end.secs <= clock::LAST_FOUR_DIGIT_SECOND
        ==> clock::parsed_rfc3339(until) == Some((end.secs, end.nanos))
}

/// The window is over: it has no end that can be read, or the end has been reached.
pub open spec fn is_over(end: Option<(i64, u32)>, now: Instant) -> bool {
    match end {
        None => true,
        Some(end) => Instant { secs: end.0, nanos: end.1 }.no_later_than(now),
    }
}

/// The window that is stored as ending at `until` is over.
pub open spec fn is_expired(until: Option<Seq<char>>, now: Instant) -> bool {
    match until {
        None => true,
        Some(until) => is_over(clock::parsed_rfc3339(until), now),
    }
}

fn signed_hours(window_hours: u64) -> (hours: i64)
    ensures
        hours == window_length(window_hours),
{
    if window_hours <= 0x7fff_ffff_ffff_ffff {
        window_hours as i64
    } else {
        -((0xffff_ffff_ffff_ffff - window_hours) as i64) - 1
    }
}

/// Whether the calendar reaches to the end of the window.
pub fn window_can_open(now: Instant, window_hours: u64) -> (fits: bool)
    requires
        now.valid(),
    ensures
        fits == window_fits(now, window_hours),
{
    let end: i128 = now.secs as i128 + signed_hours(window_hours) as i128 * 3600;
    clock::FIRST_SECOND as i128 <= end && end <= clock::LAST_SECOND as i128
}

/// How the end of a window that is opened at `now` is stored.
pub fn monitor_until_at(now: Instant, window_hours: u64) -> (until: String)
    requires
        now.valid(),
        window_fits(now, window_hours),
    ensures
        until@ == window_text(now, window_hours),
        reads_back(until@, window_hours, now),
{
    let end: i128 = now.secs as i128 + signed_hours(window_hours) as i128 * 3600;
    Instant { secs: end as i64, nanos: now.nanos }.to_rfc3339()
}

/// How the end of a window that is opened at `now` is stored. There is none where the calendar does
/// not reach that far.
pub fn monitor_until_if_it_fits(now: Instant, window_hours: u64) -> (until: Option<String>)
    requires
        now.valid(),
    ensures
        text::opt_view(until) == (if window_fits(now, window_hours) {
            Some(window_text(now, window_hours))
        } else {
            None
        }),
        until matches Some(until) ==> reads_back(until@, window_hours, now),
{
    if window_can_open(now, window_hours) {
        Some(monitor_until_at(now, window_hours))
    } else {
        None
    }
}

/// How the end of a window that is opened at the current time is stored. There is none where the
/// calendar does not reach that far.
pub fn monitor_until(window_hours: u64) -> (until: Option<String>)
    ensures
        exists|now: Instant|
            {
                &&& #[trigger] now.valid()
                &&& text::opt_view(until) == (if window_fits(now, window_hours) {
                    Some(window_text(now, window_hours))
                } else {
                    None
                })
                &&& until matches Some(until) ==> reads_back(until@, window_hours, now)
            },
        window_hours == 0 ==> until is Some,
{
    let now = Instant::now();
    monitor_until_if_it_fits(now, window_hours)
}

/// Whether a window with that end is over.
pub fn window_is_over(end: Option<Instant>, now: Instant) -> (over: bool)
    ensures
        over == is_over(clock::instant_view(end), now),
{
    match end {
        None => true,
        Some(end) => end.is_no_later_than(now),
    }
}

/// Whether the window that is stored as ending at `until` is over at `now`.
pub fn monitor_is_expired_at(until: Option<&str>, now: Instant) -> (expired: bool)
    ensures
        expired == is_expired(text::opt_str(until), now),
{
    match until {
        None => true,
        Some(until) => window_is_over(Instant::parse_rfc3339(until), now),
    }
}

/// Whether the window that is stored as ending at `until` is over at the current time.
pub fn monitor_is_expired(until: Option<&str>) -> (expired: bool)
    ensures
        exists|now: Instant| #[trigger]
            now.valid() && expired == is_expired(text::opt_str(until), now),
        until is None ==> expired,
{
    let now = Instant::now();
    monitor_is_expired_at(until, now)
}

/// The stored end of a room's window, borrowed.
pub(crate) fn until_of(room: &LiveRoom) -> (until: Option<&str>)
    ensures
        text::opt_str(until) == text::opt_view(room.auto_record_until),
{
    match &room.auto_record_until {
        Some(until) => Some(until.as_str()),
        None => None,
    }
}

/// A window that is opened for some hours is over exactly from its end on, as long as that falls
/// within the years 0 to 9999.
pub proof fn law_window_lasts(opened: Instant, window_hours: u64, stored: String, later: Instant)
    requires
        opened.valid(),
        window_fits(opened, window_hours),
        call_ensures(monitor_until_at, (opened, window_hours), stored),
        clock::FIRST_FOUR_DIGIT_SECOND <= window_end(opened, window_hours).secs
            <= clock::LAST_FOUR_DIGIT_SECOND,
    ensures
        is_expired(Some(stored@), later) == window_end(opened, window_hours).no_later_than(later),
{
}

/// The end of a window that was opened at some time is stored: it is over exactly from that end on,
/// as long as that falls within the years 0 to 9999.
pub open spec fn is_stored_end(until: Seq<char>, window_hours: u64, opened: Instant) -> bool {
    let end = window_end(opened, window_hours);
    clock::FIRST_FOUR_DIGIT_SECOND <= end.secs <= clock::LAST_FOUR_DIGIT_SECOND ==> forall|
        later: Instant,
    |
        #[trigger] is_expired(Some(until), later) == end.no_later_than(later)
}

/// A stored end that reads back says when the window is over.
pub proof fn law_windows_that_read_back_last(until: Seq<char>, window_hours: u64, opened: Instant)
    requires
        reads_back(until, window_hours, opened),
    ensures
        is_stored_end(until, window_hours, opened),
{
}

/// A window that is opened at the current time lasts its hours from some moment on.
pub proof fn law_current_window_lasts(window_hours: u64, stored: String)
    requires
        call_ensures(monitor_until, (window_hours,), Some(stored)),
    ensures
        exists|opened: Instant| #[trigger]
            opened.valid() && is_stored_end(stored@, window_hours, opened),
{
    let opened = choose|now: Instant|
        {
            &&& #[trigger] now.valid()
            &&& reads_back(stored@, window_hours, now)
        };
    law_windows_that_read_back_last(stored@, window_hours, opened);
}

/// Once over, a window stays over.
pub proof fn law_window_stays_over(until: Option<Seq<char>>, now: Instant, later: Instant)
    requires
        is_expired(until, now),
        now.no_later_than(later),
    ensures
        is_expired(until, later),
{
}

// ---------------------------------------------------------------------------
// The daily schedule
// ---------------------------------------------------------------------------

/// The schedule is due: its time has come, and it was not yet triggered on that date.
pub open spec fn schedule_due(
    daily_time: Option<Seq<char>>,
    last_date: Option<Seq<char>>,
    now: LocalMoment,
) -> bool {
    match daily_time {
        None => false,
        Some(daily_time) => match clock::clock_time(daily_time) {
            None => false,
            Some(time) => last_date != Some(clock::date_text(now)) && time.no_later_than(now.time),
        },
    }
}

/// The room's schedule is due.
pub open spec fn room_is_due(room: LiveRoom, now: LocalMoment) -> bool {
    schedule_due(
        text::opt_view(room.auto_record_daily_time),
        text::opt_view(room.last_schedule_trigger_date),
        now,
    )
}

/// The date that a new schedule starts out with as handled: today, where its time has passed.
pub open spec fn first_marker(daily_time: TimeOfDay, now: LocalMoment) -> Option<Seq<char>> {
    if daily_time.no_later_than(now.time) {
        Some(clock::date_text(now))
    } else {
        None
    }
}

/// Whether the room's schedule is due.
pub fn daily_schedule_is_due(room: &LiveRoom, now: LocalMoment) -> (due: bool)
    requires
        now.valid(),
    ensures
        due == room_is_due(*room, now),
{
    let daily_time = match &room.auto_record_daily_time {
        Some(daily_time) => daily_time,
        None => return false,
    };
    let time = match TimeOfDay::parse(daily_time.as_str()) {
        Some(time) => time,
        None => return false,
    };
    let today = now.date();
    !text::opt_is(&room.last_schedule_trigger_date, today.as_str()) && time.is_no_later_than(
        now.time,
    )
}

/// The date that a new schedule starts out with as handled: today, where its time has passed.
pub fn initial_schedule_marker(daily_time: TimeOfDay, now: LocalMoment) -> (marker: Option<String>)
    requires
        now.valid(),
    ensures
        text::opt_view(marker) == first_marker(daily_time, now),
{
    if daily_time.is_no_later_than(now.time) {
        Some(now.date())
    } else {
        None
    }
}

/// A schedule that was triggered is not due again on the same date.
pub proof fn law_triggers_once_a_day(
    daily_time: Option<Seq<char>>,
    triggered: LocalMoment,
    later: LocalMoment,
)
    requires
        later.same_date(triggered),
    ensures
        !schedule_due(daily_time, Some(clock::date_text(triggered)), later),
{
}

/// A schedule that was triggered on one date is due on any other, as soon as its time has come.
pub proof fn law_triggers_on_other_days(
    daily_time: Seq<char>,
    time: TimeOfDay,
    triggered: LocalMoment,
    later: LocalMoment,
)
    requires
        triggered.valid(),
        later.valid(),
        !later.same_date(triggered),
        clock::clock_time(daily_time) == Some(time),
    ensures
        schedule_due(Some(daily_time), Some(clock::date_text(triggered)), later)
            == time.no_later_than(later.time),
{
    if clock::date_text(triggered) == clock::date_text(later) {
        clock::lemma_date_text_injective(triggered, later);
    }
}

/// A schedule that is set at `now` is due later on the same date exactly where its time was still
/// to come and has come by then.
pub proof fn law_new_schedule(
    daily_time: Seq<char>,
    time: TimeOfDay,
    now: LocalMoment,
    later: LocalMoment,
)
    requires
        now.valid(),
        later.valid(),
        later.same_date(now),
        clock::clock_time(daily_time) == Some(time),
    ensures
        schedule_due(Some(daily_time), first_marker(time, now), later) == (!time.no_later_than(
            now.time,
        ) && time.no_later_than(later.time)),
{
}

// ---------------------------------------------------------------------------
// Laws over hours, seconds and dates
// ---------------------------------------------------------------------------

/// A window of some hours ends so many times 3600 seconds later: within the years 0 to 9999 its
/// stored end denotes that instant, to the nanosecond.
pub proof fn law_a_window_lasts_its_hours(now: Instant, window_hours: u64, stored: String)
    requires
        call_ensures(monitor_until_at, (now, window_hours), stored),
        window_hours <= 0x7fff_ffff_ffff_ffff,
        -62167219200 <= now.secs + window_hours * 3600 <= 253402300799,
    ensures
        clock::parsed_rfc3339(stored@) == Some(
            ((now.secs + window_hours * 3600) as i64, now.nanos),
        ),
{
}

/// A window is open until its hours have passed, and over from then on.
pub proof fn law_a_window_is_over_after_its_hours(
    now: Instant,
    window_hours: u64,
    stored: String,
    until: &str,
    later: Instant,
    expired: bool,
)
    requires
        call_ensures(monitor_until_at, (now, window_hours), stored),
        window_hours <= 0x7fff_ffff_ffff_ffff,
        -62167219200 <= now.secs + window_hours * 3600 <= 253402300799,
        until@ == stored@,
        call_ensures(monitor_is_expired_at, (Some(until), later), expired),
        now.nanos < 1_000_000_000,
        later.nanos < 1_000_000_000,
    ensures
        expired == ((later.secs - now.secs) * 1_000_000_000 + later.nanos - now.nanos
            >= window_hours * 3600 * 1_000_000_000),
{
    law_a_window_lasts_its_hours(now, window_hours, stored);
    let end = Instant { secs: (now.secs + window_hours * 3600) as i64, nanos: now.nanos };
    clock::law_order_of_instants(end, later);
}

/// More hours than 63 bits hold count as negative: such a window ends before it begins.
pub proof fn law_a_window_of_too_many_hours(now: Instant, window_hours: u64, stored: String)
    requires
        call_ensures(monitor_until_at, (now, window_hours), stored),
        window_hours > 0x7fff_ffff_ffff_ffff,
        -62167219200 <= now.secs + (window_hours - 0x1_0000_0000_0000_0000) * 3600
            <= 253402300799,
    ensures
        clock::parsed_rfc3339(stored@) == Some(
            (
                (now.secs + (window_hours - 0x1_0000_0000_0000_0000) * 3600) as i64,
                now.nanos,
            ),
        ),
{
}

/// A window can be opened exactly where the calendar, which reaches from the year -262143 to the
/// year 262142, holds its end.
pub proof fn law_windows_end_within_the_calendar(
    now: Instant,
    window_hours: u64,
    fits: bool,
    until: Option<String>,
)
    requires
        call_ensures(window_can_open, (now, window_hours), fits),
        call_ensures(monitor_until_if_it_fits, (now, window_hours), until),
        window_hours <= 0x7fff_ffff_ffff_ffff,
    ensures
        fits == (-8334601228800 <= now.secs + window_hours * 3600 <= 8210266876799),
        until is Some == fits,
        until matches Some(stored) ==> (-62167219200 <= now.secs + window_hours * 3600
            <= 253402300799 ==> clock::parsed_rfc3339(stored@) == Some(
            ((now.secs + window_hours * 3600) as i64, now.nanos),
        )),
{
}

/// A window that is opened at the current time ends so many times 3600 seconds later.
pub proof fn law_a_window_from_now_lasts_its_hours(window_hours: u64, until: Option<String>)
    requires
        call_ensures(monitor_until, (window_hours,), until),
        window_hours <= 0x7fff_ffff_ffff_ffff,
    ensures
        exists|now: Instant|
            {
                &&& #[trigger] now.valid()
                &&& until is Some == (-8334601228800 <= now.secs + window_hours * 3600
                    <= 8210266876799)
                &&& until matches Some(stored) ==> (-62167219200 <= now.secs + window_hours * 3600
                    <= 253402300799 ==> clock::parsed_rfc3339(stored@) == Some(
                    ((now.secs + window_hours * 3600) as i64, now.nanos),
                ))
            },
{
    let now = choose|now: Instant|
        {
            &&& #[trigger] now.valid()
            &&& text::opt_view(until) == (if window_fits(now, window_hours) {
                Some(window_text(now, window_hours))
            } else {
                None
            })
            &&& until matches Some(until) ==> reads_back(until@, window_hours, now)
        };
    assert(now.valid());
}

/// A window without an end, or with one that cannot be read, is over; any other is over once its
/// end has come.
pub proof fn law_when_a_window_is_over(until: Option<&str>, now: Instant, expired: bool)
    requires
        call_ensures(monitor_is_expired_at, (until, now), expired),
    ensures
        until is None ==> expired,
        until matches Some(until) ==> (match clock::parsed_rfc3339(until@) {
            None => expired,
            Some((secs, nanos)) => expired == (secs < now.secs || secs == now.secs && nanos
                <= now.nanos),
        }),
{
}

/// A schedule is due exactly where it has a time that can be read, that time of day has come, and
/// the date is not the one on which it was last triggered.
pub proof fn law_when_a_schedule_is_due(room: LiveRoom, now: LocalMoment, due: bool)
    requires
        call_ensures(daily_schedule_is_due, (&room, now), due),
    ensures
        due ==> room.auto_record_daily_time is Some,
        room.auto_record_daily_time matches Some(daily_time) ==> due == (clock::clock_time(
            daily_time@,
        ) matches Some(time) && (time.secs < now.time.secs || time.secs == now.time.secs
            && time.nanos <= now.time.nanos) && !(room.last_schedule_trigger_date matches Some(date)
            && date@ == clock::date_text(now))),
{
}

/// A new schedule counts as triggered today exactly where its time of day has come.
pub proof fn law_when_a_new_schedule_is_marked(
    time: TimeOfDay,
    now: LocalMoment,
    marker: Option<String>,
)
    requires
        call_ensures(initial_schedule_marker, (time, now), marker),
    ensures
        marker is Some == (time.secs < now.time.secs || time.secs == now.time.secs && time.nanos
            <= now.time.nanos),
        marker matches Some(date) ==> date@ == clock::date_text(now),
{
}

/// A window is over at the current time as it is at that time.
pub proof fn law_when_a_window_is_over_now(until: Option<&str>, expired: bool)
    requires
        call_ensures(monitor_is_expired, (until,), expired),
    ensures
        until is None ==> expired,
        until matches Some(until) ==> (clock::parsed_rfc3339(until@) is None ==> expired),
        until matches Some(until) ==> (clock::parsed_rfc3339(until@) matches Some(end) ==> exists|
            now: Instant,
        |
            #[trigger] now.valid() && expired == (end.0 < now.secs || end.0 == now.secs && end.1
                <= now.nanos)),
{
}

/// A window that has an end is over once the end has come; one without is over.
pub proof fn law_when_an_end_has_come(end: Option<Instant>, now: Instant, over: bool)
    requires
        call_ensures(window_is_over, (end, now), over),
    ensures
        end is None ==> over,
        end matches Some(end) ==> over == (end.secs < now.secs || end.secs == now.secs && end.nanos
            <= now.nanos),
{
}

} // verus!
