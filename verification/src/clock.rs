//! Points in time, and how they are written.

use chrono::{Datelike, Timelike};
use vstd::prelude::*;

use crate::number;
use crate::text;

verus! {

// ---------------------------------------------------------------------------
// Instants
// ---------------------------------------------------------------------------

/// The seconds since 1970 of the first and last instant of the calendar, which ends with the
/// years -262143 and 262142.
pub const FIRST_SECOND: i64 = -8334601228800;

pub const LAST_SECOND: i64 = 8210266876799;

/// The seconds since 1970 of the first and last instant of the years 0 to 9999.
pub const FIRST_FOUR_DIGIT_SECOND: i64 = -62167219200;

pub const LAST_FOUR_DIGIT_SECOND: i64 = 253402300799;

/// A point in time: seconds since 1970 in UTC, and nanoseconds within the second. In a leap
/// second the nanoseconds go on to count past one second.
#[derive(Debug, Clone, Copy, PartialEq, Eq, Structural)]
pub struct Instant {
    pub secs: i64,
    pub nanos: u32,
}

impl Instant {
    /// An instant of the calendar, outside a leap second.
    pub open spec fn valid(self) -> bool {
        FIRST_SECOND <= self.secs <= LAST_SECOND && self.nanos < 1_000_000_000
    }

    /// This instant comes no later than the other.
    pub open spec fn no_later_than(self, other: Instant) -> bool {
        self.secs < other.secs || self.secs == other.secs && self.nanos <= other.nanos
    }

    /// The instant `hours` later; earlier, where they are negative.
    pub open spec fn plus_hours(self, hours: int) -> Instant {
        Instant { secs: (self.secs + hours * 3600) as i64, nanos: self.nanos }
    }

    /// Milliseconds since 1970.
    pub open spec fn millis(self) -> int {
        self.secs * 1000 + self.nanos / 1_000_000
    }

    /// Whether this instant comes no later than the other.
    pub fn is_no_later_than(self, other: Instant) -> (result: bool)
        ensures
            result == self.no_later_than(other),
    {
        self.secs < other.secs || self.secs == other.secs && self.nanos <= other.nanos
    }

    /// The current time.
    pub fn now() -> (now: Instant)
        ensures
            now.valid(),
    {
        utc_now()
    }

    /// Milliseconds since 1970.
    pub fn timestamp_millis(self) -> (millis: i64)
        requires
            self.valid(),
        ensures
            millis == self.millis(),
    {
        self.secs * 1000 + (self.nanos / 1_000_000) as i64
    }
}

/// `chrono::Utc::now`. The current time, which is some instant of the calendar; the system clock
/// counts no leap seconds. It panics where that clock stands before 1970.
#[verifier::external_body]
fn utc_now() -> (now: Instant)
    ensures
        now.valid(),
{
    let now = chrono::Utc::now();
    Instant { secs: now.timestamp(), nanos: now.timestamp_subsec_nanos() }
}

/// An instant in the notation of RFC 3339.
pub uninterp spec fn rfc3339_text(secs: i64, nanos: u32) -> Seq<char>;

/// The instant that a text in the notation of RFC 3339 denotes.
pub uninterp spec fn parsed_rfc3339(s: Seq<char>) -> Option<(i64, u32)>;

/// What an optional instant is, as seconds and nanoseconds.
pub open spec fn instant_view(at: Option<Instant>) -> Option<(i64, u32)> {
    match at {
        Some(at) => Some((at.secs, at.nanos)),
        None => None,
    }
}

/// `chrono::DateTime::<Utc>::to_rfc3339`. In the years 0 to 9999 the text denotes the instant, to
/// the nanosecond; outside them nothing is said of reading it back.
#[verifier::external_body]
fn write_rfc3339(at: Instant) -> (written: String)
    requires
        at.valid(),
    ensures
        written@ == rfc3339_text(at.secs, at.nanos),
        FIRST_FOUR_DIGIT_SECOND <= at.secs <= LAST_FOUR_DIGIT_SECOND ==> parsed_rfc3339(written@)
            == Some((at.secs, at.nanos)),
{
    chrono::DateTime::from_timestamp(at.secs, at.nanos).expect("an instant").to_rfc3339()
}

/// `chrono::DateTime::parse_from_rfc3339`, in UTC. Nothing is said of which texts it accepts.
#[verifier::external_body]
fn read_rfc3339(s: &str) -> (at: Option<Instant>)
    ensures
        instant_view(at) == parsed_rfc3339(s@),
{
    let at = chrono::DateTime::parse_from_rfc3339(s).ok()?;
    Some(Instant { secs: at.timestamp(), nanos: at.timestamp_subsec_nanos() })
}

impl Instant {
    /// The instant in the notation of RFC 3339, from which it can be read back in the years 0 to
    /// 9999.
    pub fn to_rfc3339(self) -> (written: String)
        requires
            self.valid(),
        ensures
            written@ == rfc3339_text(self.secs, self.nanos),
            FIRST_FOUR_DIGIT_SECOND <= self.secs <= LAST_FOUR_DIGIT_SECOND ==> parsed_rfc3339(
                written@,
            ) == Some((self.secs, self.nanos)),
    {
        write_rfc3339(self)
    }

    /// The instant that a text in the notation of RFC 3339 denotes.
    pub fn parse_rfc3339(s: &str) -> (at: Option<Instant>)
        ensures
            instant_view(at) == parsed_rfc3339(s@),
    {
        read_rfc3339(s)
    }
}

// ---------------------------------------------------------------------------
// Times of day
// ---------------------------------------------------------------------------

/// A time of day: seconds since midnight, and nanoseconds within the second.
#[derive(Debug, Clone, Copy, PartialEq, Eq, Structural)]
pub struct TimeOfDay {
    pub secs: u32,
    pub nanos: u32,
}

/// A text of one or two digits.
pub open spec fn is_short_number(s: Seq<char>) -> bool {
    1 <= s.len() <= 2 && number::all_digits(s)
}

/// The time of day that a text of the form `hours:minutes` denotes. White space before either
/// number does not count.
pub open spec fn clock_time(s: Seq<char>) -> Option<TimeOfDay> {
    match text::find_from(s, seq![':'], 0) {
        None => None,
        Some(colon) => {
            let hours = text::without_leading(s.take(colon), text::white());
            let minutes = text::without_leading(s.skip(colon + 1), text::white());
            let h = number::digits_value(hours);
            let m = number::digits_value(minutes);
            if is_short_number(hours) && is_short_number(minutes) && h <= 23 && m <= 59 {
                Some(TimeOfDay { secs: (h * 3600 + m * 60) as u32, nanos: 0 })
            } else {
                None
            }
        },
    }
}

/// `chrono::NaiveTime::parse_from_str` with the format `%H:%M`: white space, one or two digits up
/// to 23, a colon, white space, one or two digits up to 59, and nothing more.
#[verifier::external_body]
fn read_time(s: &str, format: &str) -> (time: Option<TimeOfDay>)
    requires
        format@ == "%H:%M"@,
    ensures
        time == clock_time(s@),
{
    let time = chrono::NaiveTime::parse_from_str(s, format).ok()?;
    Some(TimeOfDay { secs: time.num_seconds_from_midnight(), nanos: time.nanosecond() })
}

impl TimeOfDay {
    /// This time comes no later in the day than the other.
    pub open spec fn no_later_than(self, other: TimeOfDay) -> bool {
        self.secs < other.secs || self.secs == other.secs && self.nanos <= other.nanos
    }

    /// Whether this time comes no later in the day than the other.
    pub fn is_no_later_than(self, other: TimeOfDay) -> (result: bool)
        ensures
            result == self.no_later_than(other),
    {
        self.secs < other.secs || self.secs == other.secs && self.nanos <= other.nanos
    }

    /// The time of day that a text of the form `hours:minutes` denotes.
    pub fn parse(s: &str) -> (time: Option<TimeOfDay>)
        ensures
            time == clock_time(s@),
    {
        read_time(s, "%H:%M")
    }
}

// ---------------------------------------------------------------------------
// Local date and time
// ---------------------------------------------------------------------------

/// A date and a time of day as the clocks on the wall show them.
#[derive(Debug, Clone, Copy, PartialEq, Eq, Structural)]
pub struct LocalMoment {
    pub year: i32,
    pub month: u32,
    pub day: u32,
    pub time: TimeOfDay,
}

/// The year has a 29th of February.
pub open spec fn is_leap_year(year: int) -> bool {
    year % 4 == 0 && (year % 100 != 0 || year % 400 == 0)
}

/// How many days the month has.
pub open spec fn days_in_month(year: int, month: int) -> int {
    if month == 2 {
        if is_leap_year(year) {
            29
        } else {
            28
        }
    } else if month == 4 || month == 6 || month == 9 || month == 11 {
        30
    } else {
        31
    }
}

impl LocalMoment {
    /// A date of the calendar and a time of that day.
    pub open spec fn valid(self) -> bool {
        &&& -262143 <= self.year <= 262142
        &&& 1 <= self.month <= 12
        &&& 1 <= self.day <= days_in_month(self.year as int, self.month as int)
        &&& self.time.secs < 86400
        &&& self.time.nanos < 2_000_000_000
        &&& self.time.nanos >= 1_000_000_000 ==> self.time.secs % 60 == 59
    }

    /// Both moments fall on the same date.
    pub open spec fn same_date(self, other: LocalMoment) -> bool {
        self.year == other.year && self.month == other.month && self.day == other.day
    }
}

/// `n` in decimal, filled up with zeros on the left to `width` digits.
pub open spec fn padded(n: nat, width: nat) -> Seq<char>
    decreases width,
{
    if width == 0 {
        if n == 0 {
            Seq::empty()
        } else {
            number::decimal(n)
        }
    } else {
        padded(n / 10, (width - 1) as nat).push(number::digit_char(n % 10))
    }
}

/// A year in at least four digits. One outside 0 to 9999 carries its sign.
pub open spec fn year_text(year: int) -> Seq<char> {
    if year < 0 {
        seq!['-'] + padded((-year) as nat, 4)
    } else if year > 9999 {
        seq!['+'] + padded(year as nat, 4)
    } else {
        padded(year as nat, 4)
    }
}

/// A date as year, month and day with hyphens between them.
pub open spec fn date_text(at: LocalMoment) -> Seq<char> {
    year_text(at.year as int) + seq!['-'] + padded(at.month as nat, 2) + seq!['-'] + padded(
        at.day as nat,
        2,
    )
}

/// Date and time in digits, with an underscore between them. A leap second is the 61st.
pub open spec fn stamp_text(at: LocalMoment) -> Seq<char> {
    year_text(at.year as int) + padded(at.month as nat, 2) + padded(at.day as nat, 2) + seq!['_']
        + padded((at.time.secs / 3600) as nat, 2) + padded((at.time.secs / 60 % 60) as nat, 2)
        + padded((at.time.secs % 60 + at.time.nanos / 1_000_000_000) as nat, 2)
}

/// `chrono::NaiveDateTime::format` with the format `%Y-%m-%d` or `%Y%m%d_%H%M%S`.
#[verifier::external_body]
fn format_moment(at: LocalMoment, format: &str) -> (written: String)
    requires
        at.valid(),
        format@ == "%Y-%m-%d"@ || format@ == "%Y%m%d_%H%M%S"@,
    ensures
        format@ == "%Y-%m-%d"@ ==> written@ == date_text(at),
        format@ == "%Y%m%d_%H%M%S"@ ==> written@ == stamp_text(at),
{
    let date = chrono::NaiveDate::from_ymd_opt(at.year, at.month, at.day);
    let time = chrono::NaiveTime::from_num_seconds_from_midnight_opt(at.time.secs, at.time.nanos);
    date.expect("a date").and_time(time.expect("a time")).format(format).to_string()
}

/// `chrono::Local::now`. What the local clocks show: some valid date and time. It panics where the
/// system clock stands before 1970.
#[verifier::external_body]
fn local_now() -> (now: LocalMoment)
    ensures
        now.valid(),
{
    let now = chrono::Local::now().naive_local();
    let time = TimeOfDay { secs: now.num_seconds_from_midnight(), nanos: now.nanosecond() };
    LocalMoment { year: now.year(), month: now.month(), day: now.day(), time }
}

impl LocalMoment {
    /// What the local clocks show.
    pub fn now() -> (now: LocalMoment)
        ensures
            now.valid(),
    {
        local_now()
    }

    /// The date as year, month and day with hyphens between them.
    pub fn date(self) -> (written: String)
        requires
            self.valid(),
        ensures
            written@ == date_text(self),
    {
        format_moment(self, "%Y-%m-%d")
    }

    /// Date and time in digits, with an underscore between them.
    pub fn stamp(self) -> (written: String)
        requires
            self.valid(),
        ensures
            written@ == stamp_text(self),
    {
        format_moment(self, "%Y%m%d_%H%M%S")
    }
}

// ---------------------------------------------------------------------------
// Different dates are written differently
// ---------------------------------------------------------------------------

/// A padded number consists of digits, and denotes the number.
pub proof fn lemma_padded(n: nat, width: nat)
    ensures
        number::all_digits(padded(n, width)),
        number::digits_value(padded(n, width)) == n,
        padded(n, width).len() >= width,
    decreases width,
{
    if width == 0 {
        if n > 0 {
            number::lemma_decimal_digits(n);
        }
    } else {
        lemma_padded(n / 10, (width - 1) as nat);
        let head = padded(n / 10, (width - 1) as nat);
        assert(padded(n, width).drop_last() =~= head);
        assert forall|i: int| 0 <= i < padded(n, width).len() implies text::is_digit(
            #[trigger] padded(n, width)[i],
        ) by {
            if i < head.len() {
                assert(padded(n, width)[i] == head[i]);
            }
        }
    }
}

/// Months and days take two digits.
proof fn lemma_two_digits(n: nat)
    requires
        n < 100,
    ensures
        padded(n, 2).len() == 2,
{
    reveal_with_fuel(padded, 3);
}

proof fn lemma_year_text_injective(a: int, b: int)
    requires
        year_text(a) == year_text(b),
    ensures
        a == b,
{
    let ma = if a < 0 {
        (-a) as nat
    } else {
        a as nat
    };
    let mb = if b < 0 {
        (-b) as nat
    } else {
        b as nat
    };
    lemma_padded(ma, 4);
    lemma_padded(mb, 4);
    let ta = year_text(a);
    let tb = year_text(b);
    assert(text::is_digit(padded(ma, 4)[0]));
    assert(text::is_digit(padded(mb, 4)[0]));
    assert(a < 0 ==> ta[0] == '-');
    assert(b < 0 ==> tb[0] == '-');
    assert(a > 9999 ==> ta[0] == '+');
    assert(b > 9999 ==> tb[0] == '+');
    assert(ta[0] == tb[0]);
    assert(!(0 <= a <= 9999) ==> padded(ma, 4) =~= ta.skip(1));
    assert(!(0 <= b <= 9999) ==> padded(mb, 4) =~= tb.skip(1));
}

/// Different dates are written differently.
pub proof fn lemma_date_text_injective(a: LocalMoment, b: LocalMoment)
    requires
        a.valid(),
        b.valid(),
        date_text(a) == date_text(b),
    ensures
        a.same_date(b),
{
    lemma_two_digits(a.month as nat);
    lemma_two_digits(a.day as nat);
    lemma_two_digits(b.month as nat);
    lemma_two_digits(b.day as nat);
    lemma_padded(a.month as nat, 2);
    lemma_padded(a.day as nat, 2);
    lemma_padded(b.month as nat, 2);
    lemma_padded(b.day as nat, 2);
    let ta = date_text(a);
    let tb = date_text(b);
    let n = ta.len() as int;
    assert(ta.take(n - 6) =~= year_text(a.year as int));
    assert(tb.take(n - 6) =~= year_text(b.year as int));
    lemma_year_text_injective(a.year as int, b.year as int);
    assert(ta.subrange(n - 5, n - 3) =~= padded(a.month as nat, 2));
    assert(tb.subrange(n - 5, n - 3) =~= padded(b.month as nat, 2));
    assert(ta.subrange(n - 2, n) =~= padded(a.day as nat, 2));
    assert(tb.subrange(n - 2, n) =~= padded(b.day as nat, 2));
}

// ---------------------------------------------------------------------------
// Laws
// ---------------------------------------------------------------------------

/// Instants come in the order of the nanoseconds that have passed until then.
pub proof fn law_order_of_instants(a: Instant, b: Instant)
    requires
        a.nanos < 1_000_000_000,
        b.nanos < 1_000_000_000,
    ensures
        a.no_later_than(b) == (a.secs * 1_000_000_000 + a.nanos <= b.secs * 1_000_000_000
            + b.nanos),
{
}

/// The order of instants holds in leap seconds, too: of two instants one is no later than the
/// other, both are only where they are the same, and it carries over.
pub proof fn law_instants_are_ordered(a: Instant, b: Instant, c: Instant)
    ensures
        a.no_later_than(b) || b.no_later_than(a),
        a.no_later_than(b) && b.no_later_than(a) ==> a == b,
        a.no_later_than(b) && b.no_later_than(c) ==> a.no_later_than(c),
        a.secs < b.secs ==> a.no_later_than(b),
{
}

/// Times of day come in the order of the nanoseconds since midnight, and a leap second comes after
/// the second that it follows and before the next one.
pub proof fn law_order_of_times(a: TimeOfDay, b: TimeOfDay)
    ensures
        a.nanos < 1_000_000_000 && b.nanos < 1_000_000_000 ==> a.no_later_than(b) == (a.secs
            * 1_000_000_000 + a.nanos <= b.secs * 1_000_000_000 + b.nanos),
        a.secs < b.secs ==> a.no_later_than(b) && !b.no_later_than(a),
        a.secs == b.secs ==> a.no_later_than(b) == (a.nanos <= b.nanos),
{
}

/// The milliseconds of an instant are the whole ones that have passed until then.
pub proof fn law_milliseconds(at: Instant)
    ensures
        at.millis() * 1_000_000 <= at.secs * 1_000_000_000 + at.nanos < (at.millis() + 1)
            * 1_000_000,
{
}

proof fn lemma_white_then(w: Seq<char>, rest: Seq<char>)
    requires
        forall|i: int| 0 <= i < w.len() ==> text::is_white_space(#[trigger] w[i]),
        rest.len() > 0 ==> !text::is_white_space(rest[0]),
    ensures
        text::without_leading(w + rest, text::white()) == rest,
    decreases w.len(),
{
    if w.len() > 0 {
        assert((w + rest).first() == w[0]);
        assert((w + rest).drop_first() =~= w.skip(1) + rest);
        assert forall|i: int| 0 <= i < w.skip(1).len() implies text::is_white_space(
            #[trigger] w.skip(1)[i],
        ) by {
            assert(w.skip(1)[i] == w[i + 1]);
        }
        lemma_white_then(w.skip(1), rest);
    } else {
        assert(w + rest =~= rest);
    }
}

/// A time of day is read from one or two digits for the hours, a colon, and one or two digits for
/// the minutes, with white space before either number; hours end with 23 and minutes with 59.
pub proof fn law_times_are_read(before: Seq<char>, h: Seq<char>, between: Seq<char>, m: Seq<char>)
    requires
        forall|i: int| 0 <= i < before.len() ==> text::is_white_space(#[trigger] before[i]),
        forall|i: int| 0 <= i < between.len() ==> text::is_white_space(#[trigger] between[i]),
        1 <= h.len() <= 2,
        1 <= m.len() <= 2,
        forall|i: int| 0 <= i < h.len() ==> '0' <= #[trigger] h[i] <= '9',
        forall|i: int| 0 <= i < m.len() ==> '0' <= #[trigger] m[i] <= '9',
    ensures
        ({
            let hours = number::digits_value(h);
            let minutes = number::digits_value(m);
            clock_time(before + h + seq![':'] + between + m) == (if hours <= 23 && minutes <= 59 {
                Some(TimeOfDay { secs: (hours * 3600 + minutes * 60) as u32, nanos: 0 })
            } else {
                None
            })
        }),
{
    let s = before + h + seq![':'] + between + m;
    let at = (before + h).len() as int;
    text::lemma_find_from(s, seq![':'], 0);
    assert(s.subrange(at, at + 1) =~= seq![':']);
    assert(text::occurs_at(s, seq![':'], at));
    assert forall|j: int| 0 <= j < at implies !text::occurs_at(s, seq![':'], j) by {
        if j < before.len() {
            assert(s[j] == before[j]);
        } else {
            assert(s[j] == h[j - before.len()]);
        }
        assert(s.subrange(j, j + 1)[0] == s[j]);
    }
    assert(text::find_from(s, seq![':'], 0) == Some(at));
    assert(s.take(at) =~= before + h);
    assert(s.skip(at + 1) =~= between + m);
    lemma_white_then(before, h);
    lemma_white_then(between, m);
    assert(number::all_digits(h));
    assert(number::all_digits(m));
}

/// Nothing else is read as a time of day.
pub proof fn law_only_times_are_read(s: Seq<char>)
    requires
        clock_time(s) is Some,
    ensures
        exists|before: Seq<char>, h: Seq<char>, between: Seq<char>, m: Seq<char>|
            {
                &&& s == #[trigger] (before + h + seq![':'] + between + m)
                &&& forall|i: int| 0 <= i < before.len() ==> text::is_white_space(#[trigger] before[i])
                &&& forall|i: int| 0 <= i < between.len() ==> text::is_white_space(#[trigger] between[i])
                &&& 1 <= h.len() <= 2
                &&& 1 <= m.len() <= 2
                &&& forall|i: int| 0 <= i < h.len() ==> '0' <= #[trigger] h[i] <= '9'
                &&& forall|i: int| 0 <= i < m.len() ==> '0' <= #[trigger] m[i] <= '9'
            },
{
    text::lemma_find_from(s, seq![':'], 0);
    let at = text::find_from(s, seq![':'], 0)->0;
    let left = s.take(at);
    let right = s.skip(at + 1);
    let h = text::without_leading(left, text::white());
    let m = text::without_leading(right, text::white());
    text::lemma_without_leading(left, text::white());
    text::lemma_without_leading(right, text::white());
    text::lemma_without_leading_drops(left, text::white());
    text::lemma_without_leading_drops(right, text::white());
    let before = left.take(left.len() - h.len());
    let between = right.take(right.len() - m.len());
    assert(s[at] == s.subrange(at, at + 1)[0]);
    assert(s =~= before + h + seq![':'] + between + m);
    assert forall|i: int| 0 <= i < before.len() implies text::is_white_space(#[trigger] before[i]) by {
        assert(before[i] == left[i]);
    }
    assert forall|i: int| 0 <= i < between.len() implies text::is_white_space(#[trigger] between[i]) by {
        assert(between[i] == right[i]);
    }
    assert forall|i: int| 0 <= i < h.len() implies '0' <= #[trigger] h[i] <= '9' by {
        assert(text::is_digit(h[i]));
    }
    assert forall|i: int| 0 <= i < m.len() implies '0' <= #[trigger] m[i] <= '9' by {
        assert(text::is_digit(m[i]));
    }
}

/// The digit of a number below ten.
pub open spec fn numeral(n: int) -> char {
    (n + 48) as char
}

/// Dates in the years 0 to 9999 are written as four, two and two digits with hyphens between them.
pub proof fn law_dates_are_written(at: LocalMoment)
    requires
        at.valid(),
        0 <= at.year <= 9999,
    ensures
        date_text(at) == seq![
            numeral(at.year as int / 1000),
            numeral(at.year as int / 100 % 10),
            numeral(at.year as int / 10 % 10),
            numeral(at.year as int % 10),
            '-',
            numeral(at.month as int / 10),
            numeral(at.month as int % 10),
            '-',
            numeral(at.day as int / 10),
            numeral(at.day as int % 10),
        ],
{
    reveal_with_fuel(padded, 5);
    assert(date_text(at) =~= seq![
        numeral(at.year as int / 1000),
        numeral(at.year as int / 100 % 10),
        numeral(at.year as int / 10 % 10),
        numeral(at.year as int % 10),
        '-',
        numeral(at.month as int / 10),
        numeral(at.month as int % 10),
        '-',
        numeral(at.day as int / 10),
        numeral(at.day as int % 10),
    ]);
}

/// Dates and times in the years 0 to 9999 are written as eight digits, an underscore, and six
/// digits for hours, minutes and seconds.
pub proof fn law_stamps_are_written(at: LocalMoment)
    requires
        at.valid(),
        0 <= at.year <= 9999,
        at.time.nanos < 1_000_000_000,
    ensures
        ({
            let hour = at.time.secs as int / 3600;
            let minute = at.time.secs as int / 60 % 60;
            let second = at.time.secs as int % 60;
            stamp_text(at) == seq![
                numeral(at.year as int / 1000),
                numeral(at.year as int / 100 % 10),
                numeral(at.year as int / 10 % 10),
                numeral(at.year as int % 10),
                numeral(at.month as int / 10),
                numeral(at.month as int % 10),
                numeral(at.day as int / 10),
                numeral(at.day as int % 10),
                '_',
                numeral(hour / 10),
                numeral(hour % 10),
                numeral(minute / 10),
                numeral(minute % 10),
                numeral(second / 10),
                numeral(second % 10),
            ]
        }),
{
    reveal_with_fuel(padded, 5);
    let hour = at.time.secs as int / 3600;
    let minute = at.time.secs as int / 60 % 60;
    let second = at.time.secs as int % 60;
    assert(stamp_text(at) =~= seq![
        numeral(at.year as int / 1000),
        numeral(at.year as int / 100 % 10),
        numeral(at.year as int / 10 % 10),
        numeral(at.year as int % 10),
        numeral(at.month as int / 10),
        numeral(at.month as int % 10),
        numeral(at.day as int / 10),
        numeral(at.day as int % 10),
        '_',
        numeral(hour / 10),
        numeral(hour % 10),
        numeral(minute / 10),
        numeral(minute % 10),
        numeral(second / 10),
        numeral(second % 10),
    ]);
}

/// Instants and times of day are compared by their seconds, and by their nanoseconds where the
/// seconds are the same; milliseconds are counted from 1970 on.
pub proof fn law_comparing(
    a: Instant,
    b: Instant,
    earlier: bool,
    s: TimeOfDay,
    t: TimeOfDay,
    sooner: bool,
    millis: i64,
)
    requires
        call_ensures(Instant::is_no_later_than, (a, b), earlier),
        call_ensures(TimeOfDay::is_no_later_than, (s, t), sooner),
        call_ensures(Instant::timestamp_millis, (a,), millis),
    ensures
        earlier <==> a.secs < b.secs || a.secs == b.secs && a.nanos <= b.nanos,
        sooner <==> s.secs < t.secs || s.secs == t.secs && s.nanos <= t.nanos,
        millis * 1_000_000 <= a.secs * 1_000_000_000 + a.nanos < (millis + 1) * 1_000_000,
{
}

/// Times are read, and instants written and read back, as the outside calendar does it.
pub proof fn law_reading_times_and_instants(
    s: &str,
    time: Option<TimeOfDay>,
    at: Option<Instant>,
    instant: Instant,
    written: String,
)
    requires
        call_ensures(TimeOfDay::parse, (s,), time),
        call_ensures(Instant::parse_rfc3339, (s,), at),
        call_ensures(Instant::to_rfc3339, (instant,), written),
    ensures
        time == clock_time(s@),
        at is Some == parsed_rfc3339(s@) is Some,
        at matches Some(at) ==> parsed_rfc3339(s@) == Some((at.secs, at.nanos)),
        -62167219200 <= instant.secs <= 253402300799 ==> parsed_rfc3339(written@) == Some(
            (instant.secs, instant.nanos),
        ),
{
}

} // verus!
