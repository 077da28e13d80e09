use bilibili_recorder::clock::{Instant, LocalMoment, TimeOfDay};
use bilibili_recorder::model::LiveRoom;
use bilibili_recorder::schedule::{
    daily_schedule_is_due, initial_schedule_marker, monitor_is_expired, monitor_is_expired_at,
    monitor_until, monitor_until_at, monitor_until_if_it_fits, window_can_open, window_is_over,
};
use chrono::{Datelike, Local, TimeZone, Timelike, Utc};

fn scheduled_room(time: &str, last_date: Option<&str>) -> LiveRoom {
    LiveRoom {
        id: 1,
        platform: "bilibili".to_string(),
        room_id: "123".to_string(),
        short_id: Some("6".to_string()),
        uid: 456,
        anchor_name: String::new(),
        room_title: String::new(),
        cover_url: String::new(),
        avatar_url: String::new(),
        is_live: false,
        created_at: String::new(),
        auto_record_enabled: false,
        auto_record_daily_time: Some(time.to_string()),
        auto_record_until: None,
        last_schedule_trigger_date: last_date.map(str::to_string),
    }
}

fn local(year: i32, month: u32, day: u32, hour: u32, minute: u32, second: u32) -> LocalMoment {
    let at = Local.with_ymd_and_hms(year, month, day, hour, minute, second).unwrap();
    LocalMoment {
        year: at.year(),
        month: at.month(),
        day: at.day(),
        time: TimeOfDay { secs: at.num_seconds_from_midnight(), nanos: at.nanosecond() },
    }
}

fn instant(year: i32, month: u32, day: u32, hour: u32) -> Instant {
    let at = Utc.with_ymd_and_hms(year, month, day, hour, 0, 0).unwrap();
    Instant { secs: at.timestamp(), nanos: 5 }
}

#[test]
fn daily_schedule_triggers_once_after_local_time() {
    let now = local(2026, 8, 21, 9, 30, 0);
    assert!(daily_schedule_is_due(&scheduled_room("09:00", None), now));
    assert!(!daily_schedule_is_due(
        &scheduled_room("09:00", Some("2026-08-21")),
        now
    ));
    assert!(!daily_schedule_is_due(&scheduled_room("10:00", None), now));
}

#[test]
fn saving_past_schedule_marks_today_as_already_handled() {
    let now = local(2026, 8, 21, 9, 30, 0);
    let past = TimeOfDay::parse("09:00").unwrap();
    let future = TimeOfDay::parse("10:00").unwrap();
    assert_eq!(
        initial_schedule_marker(past, now),
        Some("2026-08-21".to_string())
    );
    assert_eq!(initial_schedule_marker(future, now), None);
}

#[test]
fn a_schedule_is_due_from_its_minute_on() {
    let room = scheduled_room("09:30", Some("2026-08-20"));
    assert!(!daily_schedule_is_due(&room, local(2026, 8, 21, 9, 29, 59)));
    assert!(daily_schedule_is_due(&room, local(2026, 8, 21, 9, 30, 0)));
    assert!(daily_schedule_is_due(&room, local(2026, 8, 22, 23, 59, 59)));
    let mut room = scheduled_room("9点", None);
    assert!(!daily_schedule_is_due(&room, local(2026, 8, 21, 9, 30, 0)));
    room.auto_record_daily_time = None;
    assert!(!daily_schedule_is_due(&room, local(2026, 8, 21, 9, 30, 0)));
}

#[test]
fn times_of_day_are_hours_and_minutes() {
    for (s, expected) in [
        ("00:00", Some(0)),
        ("23:59", Some(86340)),
        ("9:05", Some(32700)),
        (" 9: 5", Some(32700)),
        ("\u{3000}9:5", Some(32700)),
        ("24:00", None),
        ("12:60", None),
        ("12:00 ", None),
        ("12 :00", None),
        ("12:00:00", None),
        ("123:00", None),
        ("12:000", None),
        ("+1:00", None),
        ("１:00", None),
        ("1200", None),
        (":", None),
        ("", None),
    ] {
        let found = TimeOfDay::parse(s);
        assert_eq!(found.map(|time| time.secs), expected, "{:?}", s);
        assert!(found.is_none_or(|time| time.nanos == 0));
    }
}

#[test]
fn dates_and_times_are_written_with_leading_zeros() {
    let at = LocalMoment {
        year: 2026,
        month: 2,
        day: 3,
        time: TimeOfDay { secs: 4 * 3600 + 5 * 60 + 6, nanos: 999_999_999 },
    };
    assert_eq!(at.date(), "2026-02-03");
    assert_eq!(at.stamp(), "20260203_040506");
    let ancient = LocalMoment { year: 7, ..at };
    assert_eq!(ancient.date(), "0007-02-03");
    assert_eq!(LocalMoment { year: -12, ..at }.date(), "-0012-02-03");
    assert_eq!(LocalMoment { year: 12345, ..at }.date(), "+12345-02-03");
    let leap = LocalMoment {
        time: TimeOfDay { secs: 86399, nanos: 1_500_000_000 },
        ..at
    };
    assert_eq!(leap.stamp(), "20260203_235960");
}

#[test]
fn instants_are_written_and_read_back() {
    let at = Instant { secs: 1_787_304_600, nanos: 0 };
    assert_eq!(at.to_rfc3339(), "2026-08-21T09:30:00+00:00");
    for at in [
        at,
        Instant { secs: -62167219200, nanos: 1 },
        Instant { secs: 253402300799, nanos: 999_999_999 },
        Instant { secs: -1, nanos: 500_000_000 },
    ] {
        assert_eq!(Instant::parse_rfc3339(&at.to_rfc3339()), Some(at));
    }
    assert_eq!(Instant::parse_rfc3339("2026-08-21T17:30:00+08:00"), Some(at));
    assert_eq!(Instant::parse_rfc3339("2026-08-21"), None);
    assert_eq!(at.timestamp_millis(), 1_787_304_600_000);
    assert_eq!(Instant { secs: -1, nanos: 500_000_000 }.timestamp_millis(), -500);
}

#[test]
fn a_window_is_over_from_its_end_on() {
    let opened = instant(2026, 8, 21, 9);
    let until = monitor_until_at(opened, 6);
    assert_eq!(until, "2026-08-21T15:00:00.000000005+00:00");
    let before = Instant { nanos: 4, ..instant(2026, 8, 21, 15) };
    assert!(!monitor_is_expired_at(Some(&until), opened));
    assert!(!monitor_is_expired_at(Some(&until), before));
    assert!(monitor_is_expired_at(Some(&until), instant(2026, 8, 21, 15)));
    assert!(monitor_is_expired_at(Some(&until), instant(2026, 8, 22, 0)));
    assert!(monitor_is_expired_at(None, opened));
    assert!(monitor_is_expired_at(Some("soon"), opened));
    assert!(window_is_over(None, opened));
    assert!(!window_is_over(Some(instant(2026, 8, 21, 10)), opened));
}

#[test]
fn windows_reach_no_further_than_the_calendar() {
    let now = instant(2026, 8, 21, 9);
    assert!(window_can_open(now, 24));
    assert!(window_can_open(now, u64::MAX));
    assert!(!window_can_open(now, i64::MAX as u64));
    assert!(!window_can_open(now, 1 << 63));
    assert_eq!(monitor_until_if_it_fits(now, 1 << 63), None);
    assert_eq!(
        monitor_until_if_it_fits(now, 6).as_deref(),
        Some("2026-08-21T15:00:00.000000005+00:00")
    );
    assert_eq!(
        monitor_until_at(now, u64::MAX),
        "2026-08-21T08:00:00.000000005+00:00"
    );
}

#[test]
fn windows_are_opened_at_the_current_time() {
    let before = Utc::now().timestamp();
    let until = Instant::parse_rfc3339(&monitor_until(2).unwrap()).unwrap();
    let after = Utc::now().timestamp();
    assert!(before + 7200 <= until.secs && until.secs <= after + 7200);
    assert!(monitor_until(i64::MAX as u64).is_none());
    assert!(!monitor_is_expired(Some(&monitor_until(2).unwrap())));
    assert!(monitor_is_expired(Some(&monitor_until(0).unwrap())));
    assert!(monitor_is_expired(None));
}

#[test]
fn clocks_show_the_current_time() {
    let before = Utc::now().timestamp_millis();
    let now = Instant::now().timestamp_millis();
    let after = Utc::now().timestamp_millis();
    assert!(before <= now && now <= after);
    let dates = [Local::now().format("%Y-%m-%d").to_string(), LocalMoment::now().date()];
    let later = Local::now().format("%Y-%m-%d").to_string();
    assert!(dates[1] == dates[0] || dates[1] == later);
}
