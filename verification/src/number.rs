//! Decimal numbers in text.

use vstd::prelude::*;

use crate::text;

verus! {

/// The digit of a number below ten.
pub open spec fn digit_char(d: nat) -> char {
    (d + 48) as char
}

/// `n` in decimal digits, without leading zeros.
pub open spec fn decimal(n: nat) -> Seq<char>
    decreases n,
{
    if n < 10 {
        seq![digit_char(n)]
    } else {
        decimal(n / 10).push(digit_char(n % 10))
    }
}

/// `n` in decimal digits, with a minus sign where it is negative.
pub open spec fn signed_decimal(n: int) -> Seq<char> {
    if n < 0 {
        seq!['-'] + decimal((-n) as nat)
    } else {
        decimal(n as nat)
    }
}

/// The number that a sequence of digits denotes.
pub open spec fn digits_value(s: Seq<char>) -> nat
    decreases s.len(),
{
    if s.len() == 0 {
        0
    } else {
        digits_value(s.drop_last()) * 10 + (s.last() as nat - '0' as nat) as nat
    }
}

/// Every character of `s` is an ASCII digit.
pub open spec fn all_digits(s: Seq<char>) -> bool {
    forall|i: int| 0 <= i < s.len() ==> text::is_digit(#[trigger] s[i])
}

/// What `s` denotes as a 64-bit integer: an optional sign, then at least one digit.
pub open spec fn parsed_i64(s: Seq<char>) -> Option<i64> {
    let signed = s.len() > 0 && (s[0] == '-' || s[0] == '+');
    let digits = if signed {
        s.skip(1)
    } else {
        s
    };
    let value = if signed && s[0] == '-' {
        -(digits_value(digits) as int)
    } else {
        digits_value(digits) as int
    };
    if digits.len() > 0 && all_digits(digits) && i64::MIN <= value <= i64::MAX {
        Some(value as i64)
    } else {
        None
    }
}

/// The text of a number is never empty and consists of digits only.
pub proof fn lemma_decimal_digits(n: nat)
    ensures
        decimal(n).len() > 0,
        all_digits(decimal(n)),
        digits_value(decimal(n)) == n,
    decreases n,
{
    if n < 10 {
        assert(decimal(n).drop_last() =~= Seq::empty());
        assert(digits_value(Seq::<char>::empty()) == 0);
    } else {
        lemma_decimal_digits(n / 10);
        let d = digit_char(n % 10);
        assert(decimal(n).drop_last() =~= decimal(n / 10));
        assert forall|i: int| 0 <= i < decimal(n).len() implies text::is_digit(
            #[trigger] decimal(n)[i],
        ) by {
            if i < decimal(n / 10).len() {
                assert(decimal(n)[i] == decimal(n / 10)[i]);
            }
        }
    }
}

/// Different numbers have different texts.
pub proof fn lemma_decimal_injective(a: nat, b: nat)
    requires
        decimal(a) == decimal(b),
    ensures
        a == b,
{
    lemma_decimal_digits(a);
    lemma_decimal_digits(b);
}

/// The text of a number denotes that number.
pub proof fn law_numbers_read_back(n: i64)
    ensures
        parsed_i64(signed_decimal(n as int)) == Some(n),
{
    if n < 0 {
        lemma_decimal_digits((-n) as nat);
        assert(signed_decimal(n as int).skip(1) =~= decimal((-n) as nat));
    } else {
        lemma_decimal_digits(n as nat);
        assert(text::is_digit(decimal(n as nat)[0]));
    }
}

/// More digits denote no smaller number.
proof fn lemma_digits_value_grows(s: Seq<char>, n: int)
    requires
        0 <= n <= s.len(),
        all_digits(s),
    ensures
        digits_value(s.take(n)) <= digits_value(s),
    decreases s.len() - n,
{
    if n < s.len() {
        lemma_digits_value_grows(s, n + 1);
        assert(s.take(n + 1).drop_last() =~= s.take(n));
    } else {
        assert(s.take(n) =~= s);
    }
}

fn digit(d: u64) -> (c: char)
    requires
        d < 10,
    ensures
        c == digit_char(d as nat),
{
    (d as u8 + 48) as char
}

/// `n` in decimal.
pub fn u64_text(n: u64) -> (text: String)
    ensures
        text@ == decimal(n as nat),
    decreases n,
{
    let mut text = if n < 10 {
        String::new()
    } else {
        u64_text(n / 10)
    };
    text.push(digit(n % 10));
    proof {
        if n < 10 {
            assert(text@ =~= decimal(n as nat));
        }
    }
    text
}

/// `n` in decimal, with a minus sign where it is negative.
pub fn i64_text(n: i64) -> (text: String)
    ensures
        text@ == signed_decimal(n as int),
{
    if n < 0 {
        let magnitude: u64 = (-(n + 1)) as u64 + 1;
        let mut text = String::new();
        text.push('-');
        text.append(u64_text(magnitude).as_str());
        assert(text@ =~= signed_decimal(n as int));
        text
    } else {
        u64_text(n as u64)
    }
}

/// The 64-bit integer that `text` denotes.
pub fn parse_i64(text: &str) -> (value: Option<i64>)
    ensures
        value == parsed_i64(text@),
{
    let chars = text::chars_of(text);
    let negative = chars.len() > 0 && chars[0] == '-';
    let signed = chars.len() > 0 && (chars[0] == '-' || chars[0] == '+');
    let start: usize = if signed {
        1
    } else {
        0
    };
    let ghost digits = chars@.skip(start as int);
    assert(chars@.skip(0) =~= chars@);
    if start == chars.len() {
        return None;
    }
    let limit: i128 = 9223372036854775808;
    let mut value: i128 = 0;
    let mut i: usize = start;
    while i < chars.len()
        invariant
            chars@ == text@,
            start <= i <= chars@.len(),
            start < chars@.len(),
            signed == (chars@.len() > 0 && (chars@[0] == '-' || chars@[0] == '+')),
            start == (if signed {
                1int
            } else {
                0int
            }),
            digits == chars@.skip(start as int),
            digits == (if signed {
                text@.skip(1)
            } else {
                text@
            }),
            0 <= value <= limit,
            limit == 9223372036854775808,
            value == digits_value(digits.take(i - start)),
            forall|k: int| start <= k < i ==> text::is_digit(#[trigger] chars@[k]),
        decreases chars@.len() - i,
    {
        let c = chars[i];
        if !text::char_is_digit(c) {
            assert(digits[i - start] == c);
            return None;
        }
        value = value * 10 + (c as u32 - 48) as i128;
        assert(digits.take(i + 1 - start).drop_last() =~= digits.take(i - start));
        if value > limit {
            proof {
                if all_digits(digits) {
                    lemma_digits_value_grows(digits, i + 1 - start);
                }
            }
            return None;
        }
        i += 1;
    }
    assert(digits.take(i - start) =~= digits);
    assert(all_digits(digits)) by {
        assert forall|k: int| 0 <= k < digits.len() implies text::is_digit(#[trigger] digits[k]) by {
            assert(digits[k] == chars@[start + k]);
        }
    }
    if negative {
        Some((-value) as i64)
    } else if value == limit {
        None
    } else {
        Some(value as i64)
    }
}

// ---------------------------------------------------------------------------
// Laws
// ---------------------------------------------------------------------------

/// Each digit counts ten times as much as the one after it.
pub proof fn law_place_values(s: Seq<char>, c: char)
    requires
        '0' <= c <= '9',
    ensures
        digits_value(s.push(c)) == digits_value(s) * 10 + (c as int - 48),
        digits_value(Seq::empty()) == 0,
{
    assert(s.push(c).drop_last() =~= s);
}

/// A number is written in digits that denote it, without a zero in front unless it is zero itself,
/// and with a minus sign exactly where it is negative.
pub proof fn law_numbers_are_written_in_decimal(n: int)
    ensures
        ({
            let digits = if n < 0 {
                signed_decimal(n).skip(1)
            } else {
                signed_decimal(n)
            };
            &&& n < 0 ==> signed_decimal(n).len() > 0 && signed_decimal(n)[0] == '-'
            &&& digits.len() > 0
            &&& forall|i: int| 0 <= i < digits.len() ==> '0' <= #[trigger] digits[i] <= '9'
            &&& digits_value(digits) == (if n < 0 {
                -n
            } else {
                n
            })
            &&& digits[0] == '0' ==> n == 0
        }),
{
    let magnitude = (if n < 0 {
        -n
    } else {
        n
    }) as nat;
    lemma_decimal_digits(magnitude);
    lemma_no_leading_zero(magnitude);
    if n < 0 {
        assert(signed_decimal(n).skip(1) =~= decimal(magnitude));
    }
    assert forall|i: int| 0 <= i < decimal(magnitude).len() implies '0' <= #[trigger] decimal(
        magnitude,
    )[i] <= '9' by {
        assert(text::is_digit(decimal(magnitude)[i]));
    }
}

proof fn lemma_no_leading_zero(n: nat)
    ensures
        decimal(n).len() > 0,
        decimal(n)[0] == '0' ==> n == 0,
    decreases n,
{
    if n >= 10 {
        lemma_no_leading_zero(n / 10);
    }
}

/// Digits, with or without a plus sign, are read as the number they denote, and with a minus sign
/// as its negative; a number that 64 bits cannot hold is not read.
pub proof fn law_numbers_are_read(digits: Seq<char>)
    requires
        digits.len() > 0,
        forall|i: int| 0 <= i < digits.len() ==> '0' <= #[trigger] digits[i] <= '9',
    ensures
        ({
            let value = digits_value(digits) as int;
            let read = if value <= 0x7fff_ffff_ffff_ffff {
                Some(value as i64)
            } else {
                None
            };
            &&& parsed_i64(digits) == read
            &&& parsed_i64(seq!['+'] + digits) == read
            &&& parsed_i64(seq!['-'] + digits) == (if value <= 0x8000_0000_0000_0000 {
                Some((-value) as i64)
            } else {
                None
            })
        }),
{
    assert((seq!['+'] + digits).skip(1) =~= digits);
    assert((seq!['-'] + digits).skip(1) =~= digits);
    assert(all_digits(digits));
}

/// Nothing but an optional sign and digits is read as a number.
pub proof fn law_only_numbers_are_read(s: Seq<char>)
    requires
        parsed_i64(s) is Some,
    ensures
        exists|digits: Seq<char>|
            {
                &&& digits.len() > 0
                &&& forall|i: int| 0 <= i < digits.len() ==> '0' <= #[trigger] digits[i] <= '9'
                &&& s == digits || s == #[trigger] (seq!['+'] + digits) || s == seq!['-'] + digits
            },
{
    if s[0] == '-' || s[0] == '+' {
        let digits = s.skip(1);
        assert(s =~= seq![s[0]] + digits);
        assert(all_digits(digits));
        assert(seq!['+'] + digits == seq!['+'] + digits);
        assert forall|i: int| 0 <= i < digits.len() implies '0' <= #[trigger] digits[i] <= '9' by {
            assert(text::is_digit(digits[i]));
        }
    } else {
        assert(all_digits(s));
        assert(seq!['+'] + s == seq!['+'] + s);
        assert forall|i: int| 0 <= i < s.len() implies '0' <= #[trigger] s[i] <= '9' by {
            assert(text::is_digit(s[i]));
        }
    }
}

/// Numbers are written and read as the laws above say.
pub proof fn law_writing_and_reading(
    n: u64,
    m: i64,
    unsigned: String,
    signed: String,
    text: &str,
    value: Option<i64>,
)
    requires
        call_ensures(u64_text, (n,), unsigned),
        call_ensures(i64_text, (m,), signed),
        text@ == signed@,
        call_ensures(parse_i64, (text,), value),
    ensures
        unsigned@ == signed_decimal(n as int),
        signed@ == signed_decimal(m as int),
        value == Some(m),
{
    law_numbers_read_back(m);
}

} // verus!
