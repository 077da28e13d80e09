//! Text: what the recorder needs of strings, stated over their characters.

use vstd::prelude::*;

verus! {

/// `String::push` appends the character at the end of the string.
pub assume_specification[ String::push ](s: &mut String, c: char)
    ensures
        final(s)@ == old(s)@.push(c),
;

// ---------------------------------------------------------------------------
// Characters
// ---------------------------------------------------------------------------

/// The characters with the Unicode property `White_Space`.
pub open spec fn is_white_space(c: char) -> bool {
    ||| '\u{9}' <= c <= '\u{d}'
    ||| c == ' '
    ||| c == '\u{85}'
    ||| c == '\u{a0}'
    ||| c == '\u{1680}'
    ||| '\u{2000}' <= c <= '\u{200a}'
    ||| c == '\u{2028}'
    ||| c == '\u{2029}'
    ||| c == '\u{202f}'
    ||| c == '\u{205f}'
    ||| c == '\u{3000}'
}

/// The characters of the Unicode general category `Cc`.
pub open spec fn is_control(c: char) -> bool {
    c <= '\u{1f}' || '\u{7f}' <= c <= '\u{9f}'
}

/// The ASCII digits.
pub open spec fn is_digit(c: char) -> bool {
    '0' <= c <= '9'
}

/// `c` with `A` to `Z` replaced by `a` to `z`.
pub open spec fn ascii_lower(c: char) -> char {
    if 'A' <= c <= 'Z' {
        (c as u32 + 32) as char
    } else {
        c
    }
}

/// Whether `c` has the Unicode property `White_Space`.
pub fn char_is_white_space(c: char) -> (white: bool)
    ensures
        white == is_white_space(c),
{
    ('\u{9}' <= c && c <= '\u{d}') || c == ' ' || c == '\u{85}' || c == '\u{a0}' || c == '\u{1680}'
        || ('\u{2000}' <= c && c <= '\u{200a}') || c == '\u{2028}' || c == '\u{2029}' || c
        == '\u{202f}' || c == '\u{205f}' || c == '\u{3000}'
}

/// Whether `c` is of the Unicode general category `Cc`.
pub fn char_is_control(c: char) -> (control: bool)
    ensures
        control == is_control(c),
{
    c <= '\u{1f}' || ('\u{7f}' <= c && c <= '\u{9f}')
}

/// Whether `c` is an ASCII digit.
pub fn char_is_digit(c: char) -> (digit: bool)
    ensures
        digit == is_digit(c),
{
    '0' <= c && c <= '9'
}

fn char_ascii_lower(c: char) -> (lower: char)
    ensures
        lower == ascii_lower(c),
{
    if 'A' <= c && c <= 'Z' {
        (c as u8 + 32) as char
    } else {
        c
    }
}

// ---------------------------------------------------------------------------
// Strings and their characters
// ---------------------------------------------------------------------------

/// The characters of `text`, in order.
pub(crate) fn chars_of(text: &str) -> (chars: Vec<char>)
    ensures
        chars@ == text@,
{
    let mut chars: Vec<char> = Vec::new();
    for c in it: text.chars()
        invariant
            chars@ == it.seq().take(it.index() as int),
            it.seq() == text@,
    {
        chars.push(c);
    }
    chars
}

/// Whether two texts hold the same characters.
pub(crate) fn same_text(a: &str, b: &str) -> (same: bool)
    ensures
        same == (a@ == b@),
{
    let xs = chars_of(a);
    let ys = chars_of(b);
    if xs.len() != ys.len() {
        return false;
    }
    let mut i: usize = 0;
    while i < xs.len()
        invariant
            i <= xs@.len(),
            xs@ == a@,
            ys@ == b@,
            xs@.len() == ys@.len(),
            forall|k: int| 0 <= k < i ==> xs@[k] == ys@[k],
        decreases xs@.len() - i,
    {
        if xs[i] != ys[i] {
            return false;
        }
        i += 1;
    }
    assert(xs@ =~= ys@);
    true
}

/// What an optional string holds.
pub open spec fn opt_view(text: Option<String>) -> Option<Seq<char>> {
    match text {
        Some(text) => Some(text@),
        None => None,
    }
}

/// What an optional borrowed text holds.
pub open spec fn opt_str(text: Option<&str>) -> Option<Seq<char>> {
    match text {
        Some(text) => Some(text@),
        None => None,
    }
}

/// What each of the strings holds.
pub open spec fn texts_view(texts: Seq<String>) -> Seq<Seq<char>> {
    texts.map_values(|text: String| text@)
}

/// A copy of an optional string.
pub(crate) fn copy_opt(text: &Option<String>) -> (copy: Option<String>)
    ensures
        opt_view(copy) == opt_view(*text),
{
    match text {
        Some(text) => Some(text.clone()),
        None => None,
    }
}

/// Whether `text` holds exactly `expected`.
pub(crate) fn opt_is(text: &Option<String>, expected: &str) -> (same: bool)
    ensures
        same == (opt_view(*text) == Some(expected@)),
{
    match text {
        Some(text) => same_text(text.as_str(), expected),
        None => false,
    }
}

pub(crate) fn cat2(a: &str, b: &str) -> (whole: String)
    ensures
        whole@ == a@ + b@,
{
    a.to_owned().concat(b)
}

pub(crate) fn cat3(a: &str, b: &str, c: &str) -> (whole: String)
    ensures
        whole@ == a@ + b@ + c@,
{
    a.to_owned().concat(b).concat(c)
}

pub(crate) fn cat4(a: &str, b: &str, c: &str, d: &str) -> (whole: String)
    ensures
        whole@ == a@ + b@ + c@ + d@,
{
    a.to_owned().concat(b).concat(c).concat(d)
}

pub(crate) fn cat5(a: &str, b: &str, c: &str, d: &str, e: &str) -> (whole: String)
    ensures
        whole@ == a@ + b@ + c@ + d@ + e@,
{
    a.to_owned().concat(b).concat(c).concat(d).concat(e)
}

pub(crate) fn cat6(a: &str, b: &str, c: &str, d: &str, e: &str, f: &str) -> (whole: String)
    ensures
        whole@ == a@ + b@ + c@ + d@ + e@ + f@,
{
    a.to_owned().concat(b).concat(c).concat(d).concat(e).concat(f)
}

/// The first `n` characters of `s`, or all of it where it has fewer.
pub open spec fn first_n(s: Seq<char>, n: nat) -> Seq<char> {
    if s.len() <= n {
        s
    } else {
        s.take(n as int)
    }
}

/// The first `n` characters of `text`, or all of it where it has fewer.
pub(crate) fn first_chars(text: &str, n: usize) -> (head: String)
    ensures
        head@ == first_n(text@, n as nat),
{
    let chars = chars_of(text);
    if chars.len() <= n {
        text.to_owned()
    } else {
        text.substring_char(0, n).to_owned()
    }
}

// ---------------------------------------------------------------------------
// Searching
// ---------------------------------------------------------------------------

/// `needle` stands in `s` at position `i`.
pub open spec fn occurs_at(s: Seq<char>, needle: Seq<char>, i: int) -> bool {
    &&& 0 <= i
    &&& i + needle.len() <= s.len()
    &&& s.subrange(i, i + needle.len()) == needle
}

/// `s` begins with `prefix`.
pub open spec fn has_prefix(s: Seq<char>, prefix: Seq<char>) -> bool {
    occurs_at(s, prefix, 0)
}

/// `s` ends with `suffix`.
pub open spec fn has_suffix(s: Seq<char>, suffix: Seq<char>) -> bool {
    occurs_at(s, suffix, s.len() - suffix.len())
}

/// The first position from `from` on at which `needle` stands in `s`.
pub open spec fn find_from(s: Seq<char>, needle: Seq<char>, from: int) -> Option<int>
    decreases s.len() + 1 - from,
{
    if from < 0 || from + needle.len() > s.len() {
        None
    } else if occurs_at(s, needle, from) {
        Some(from)
    } else {
        find_from(s, needle, from + 1)
    }
}

/// The first position from `from` on that holds white space, or the end of `s`.
pub open spec fn white_space_from(s: Seq<char>, from: int) -> int
    decreases s.len() - from,
{
    if from < 0 || from >= s.len() {
        s.len() as int
    } else if is_white_space(s[from]) {
        from
    } else {
        white_space_from(s, from + 1)
    }
}

/// `find_from` finds an occurrence, the first one, wherever there is one.
pub proof fn lemma_find_from(s: Seq<char>, needle: Seq<char>, from: int)
    requires
        0 <= from,
    ensures
        find_from(s, needle, from) matches Some(i) ==> from <= i && occurs_at(s, needle, i) && (
        forall|j: int| from <= j < i ==> !occurs_at(s, needle, j)),
        find_from(s, needle, from) is None ==> forall|j: int|
            from <= j ==> !occurs_at(s, needle, j),
    decreases s.len() + 1 - from,
{
    if from + needle.len() > s.len() {
    } else if occurs_at(s, needle, from) {
    } else {
        lemma_find_from(s, needle, from + 1);
    }
}

/// `white_space_from` gives the first white space, wherever there is one.
pub proof fn lemma_white_space_from(s: Seq<char>, from: int)
    requires
        0 <= from <= s.len(),
    ensures
        from <= white_space_from(s, from) <= s.len(),
        white_space_from(s, from) < s.len() ==> is_white_space(s[white_space_from(s, from)]),
        forall|j: int| from <= j < white_space_from(s, from) ==> !is_white_space(#[trigger] s[j]),
    decreases s.len() - from,
{
    if from < s.len() && !is_white_space(s[from]) {
        lemma_white_space_from(s, from + 1);
    }
}

/// Whether `needle` stands in `chars` at `at`.
fn stands_at(chars: &Vec<char>, needle: &Vec<char>, at: usize) -> (stands: bool)
    requires
        at <= chars@.len(),
    ensures
        stands == occurs_at(chars@, needle@, at as int),
{
    if needle.len() > chars.len() - at {
        return false;
    }
    let mut i: usize = 0;
    while i < needle.len()
        invariant
            i <= needle@.len(),
            at + needle@.len() <= chars@.len() <= usize::MAX,
            forall|k: int| 0 <= k < i ==> chars@[at + k] == needle@[k],
        decreases needle@.len() - i,
    {
        if chars[at + i] != needle[i] {
            assert(chars@.subrange(at as int, at + needle@.len())[i as int] != needle@[i as int]);
            return false;
        }
        i += 1;
    }
    assert(chars@.subrange(at as int, at + needle@.len()) =~= needle@);
    true
}

/// The first position at which `needle` stands in `chars`.
pub(crate) fn find_text(chars: &Vec<char>, needle: &str) -> (found: Option<usize>)
    ensures
        (match found {
            Some(i) => Some(i as int),
            None => None,
        }) == find_from(chars@, needle@, 0),
        found matches Some(i) ==> i + needle@.len() <= chars@.len(),
{
    let wanted = chars_of(needle);
    let mut i: usize = 0;
    while i <= chars.len() && wanted.len() <= chars.len() - i
        invariant
            wanted@ == needle@,
            i <= chars@.len() + 1,
            i <= chars@.len() ==> find_from(chars@, needle@, 0) == find_from(
                chars@,
                needle@,
                i as int,
            ),
            i > chars@.len() ==> find_from(chars@, needle@, 0) is None,
        decreases chars@.len() + 1 - i,
    {
        if stands_at(chars, &wanted, i) {
            return Some(i);
        }
        if i == chars.len() {
            assert(find_from(chars@, needle@, i + 1) is None);
            return None;
        }
        i += 1;
    }
    None
}

/// The first position from `from` on that holds white space, or the end.
pub(crate) fn find_white_space(chars: &Vec<char>, from: usize) -> (at: usize)
    requires
        from <= chars@.len(),
    ensures
        at == white_space_from(chars@, from as int),
        from <= at <= chars@.len(),
{
    let mut i: usize = from;
    while i < chars.len() && !char_is_white_space(chars[i])
        invariant
            from <= i <= chars@.len(),
            white_space_from(chars@, from as int) == white_space_from(chars@, i as int),
        decreases chars@.len() - i,
    {
        i += 1;
    }
    i
}

/// Whether `text` begins with `prefix`.
pub(crate) fn starts_with(text: &str, prefix: &str) -> (starts: bool)
    ensures
        starts == has_prefix(text@, prefix@),
{
    stands_at(&chars_of(text), &chars_of(prefix), 0)
}

/// Whether `text` ends with `suffix`.
pub(crate) fn ends_with(text: &str, suffix: &str) -> (ends: bool)
    ensures
        ends == has_suffix(text@, suffix@),
{
    let chars = chars_of(text);
    let wanted = chars_of(suffix);
    if wanted.len() > chars.len() {
        return false;
    }
    stands_at(&chars, &wanted, chars.len() - wanted.len())
}

// ---------------------------------------------------------------------------
// Trimming
// ---------------------------------------------------------------------------

/// `s` without the characters at its start that `drop` accepts.
pub open spec fn without_leading(s: Seq<char>, drop: spec_fn(char) -> bool) -> Seq<char>
    decreases s.len(),
{
    if s.len() > 0 && drop(s.first()) {
        without_leading(s.drop_first(), drop)
    } else {
        s
    }
}

/// `s` without the characters at its end that `drop` accepts.
pub open spec fn without_trailing(s: Seq<char>, drop: spec_fn(char) -> bool) -> Seq<char>
    decreases s.len(),
{
    if s.len() > 0 && drop(s.last()) {
        without_trailing(s.drop_last(), drop)
    } else {
        s
    }
}

/// White space.
pub open spec fn white() -> spec_fn(char) -> bool {
    |c: char| is_white_space(c)
}

/// Full stops and spaces.
pub open spec fn dot_or_space() -> spec_fn(char) -> bool {
    |c: char| c == '.' || c == ' '
}

/// `s` without the white space at its ends.
pub open spec fn trimmed(s: Seq<char>) -> Seq<char> {
    without_trailing(without_leading(s, white()), white())
}

/// `s` without the full stops and spaces at its ends.
pub open spec fn stripped(s: Seq<char>) -> Seq<char> {
    without_trailing(without_leading(s, dot_or_space()), dot_or_space())
}

/// Dropping at the start leaves a final part of `s`, which does not begin with a dropped
/// character.
pub proof fn lemma_without_leading(s: Seq<char>, drop: spec_fn(char) -> bool)
    ensures
        without_leading(s, drop).len() <= s.len(),
        without_leading(s, drop) == s.skip(s.len() - without_leading(s, drop).len()),
        without_leading(s, drop).len() > 0 ==> !drop(without_leading(s, drop).first()),
    decreases s.len(),
{
    if s.len() > 0 && drop(s.first()) {
        lemma_without_leading(s.drop_first(), drop);
        let rest = without_leading(s.drop_first(), drop);
        assert(s.drop_first().skip(s.drop_first().len() - rest.len()) =~= s.skip(
            s.len() - rest.len(),
        ));
    } else {
        assert(s.skip(0) =~= s);
    }
}

/// Dropping at the end leaves an initial part of `s`, which does not end with a dropped
/// character.
pub proof fn lemma_without_trailing(s: Seq<char>, drop: spec_fn(char) -> bool)
    ensures
        without_trailing(s, drop).len() <= s.len(),
        without_trailing(s, drop) == s.take(without_trailing(s, drop).len() as int),
        without_trailing(s, drop).len() > 0 ==> !drop(without_trailing(s, drop).last()),
    decreases s.len(),
{
    if s.len() > 0 && drop(s.last()) {
        lemma_without_trailing(s.drop_last(), drop);
        let rest = without_trailing(s.drop_last(), drop);
        assert(s.drop_last().take(rest.len() as int) =~= s.take(rest.len() as int));
    } else {
        assert(s.take(s.len() as int) =~= s);
    }
}

/// What is dropped at the ends: full stops and spaces, or white space.
pub open spec fn dropped(dots: bool) -> spec_fn(char) -> bool {
    if dots {
        dot_or_space()
    } else {
        white()
    }
}

fn is_dropped(c: char, dots: bool) -> (drop: bool)
    ensures
        drop == dropped(dots)(c),
{
    if dots {
        c == '.' || c == ' '
    } else {
        char_is_white_space(c)
    }
}

/// The range that is left of `chars` once its ends are gone.
fn trim_range(chars: &Vec<char>, dots: bool) -> (range: (usize, usize))
    ensures
        range.0 <= range.1 <= chars@.len(),
        chars@.subrange(range.0 as int, range.1 as int) == without_trailing(
            without_leading(chars@, dropped(dots)),
            dropped(dots),
        ),
{
    let ghost drop = dropped(dots);
    let mut from: usize = 0;
    assert(chars@.skip(0) =~= chars@);
    while from < chars.len() && is_dropped(chars[from], dots)
        invariant
            from <= chars@.len(),
            drop == dropped(dots),
            without_leading(chars@, drop) == without_leading(chars@.skip(from as int), drop),
        decreases chars@.len() - from,
    {
        assert(chars@.skip(from as int).drop_first() =~= chars@.skip(from + 1));
        from += 1;
    }
    let mut to: usize = chars.len();
    assert(without_leading(chars@, drop) == chars@.skip(from as int));
    assert(chars@.skip(from as int) =~= chars@.subrange(from as int, to as int));
    while from < to && is_dropped(chars[to - 1], dots)
        invariant
            from <= to <= chars@.len(),
            drop == dropped(dots),
            without_trailing(chars@.skip(from as int), drop) == without_trailing(
                chars@.subrange(from as int, to as int),
                drop,
            ),
        decreases to,
    {
        assert(chars@.subrange(from as int, to as int).drop_last() =~= chars@.subrange(
            from as int,
            to - 1,
        ));
        to -= 1;
    }
    (from, to)
}

/// `text` without the white space at its ends.
pub fn trim(text: &str) -> (inner: &str)
    ensures
        inner@ == trimmed(text@),
{
    let chars = chars_of(text);
    let (from, to) = trim_range(&chars, false);
    text.substring_char(from, to)
}

/// `text` without the full stops and spaces at its ends.
pub(crate) fn strip_dots(text: &str) -> (inner: &str)
    ensures
        inner@ == stripped(text@),
{
    let chars = chars_of(text);
    let (from, to) = trim_range(&chars, true);
    text.substring_char(from, to)
}

/// Whether two texts agree once `A` to `Z` is read as `a` to `z`.
pub open spec fn same_ignoring_ascii_case(a: Seq<char>, b: Seq<char>) -> bool {
    &&& a.len() == b.len()
    &&& forall|i: int| 0 <= i < a.len() ==> ascii_lower(#[trigger] a[i]) == ascii_lower(b[i])
}

/// Whether two texts agree once `A` to `Z` is read as `a` to `z`.
pub fn eq_ignore_ascii_case(a: &str, b: &str) -> (same: bool)
    ensures
        same == same_ignoring_ascii_case(a@, b@),
{
    let xs = chars_of(a);
    let ys = chars_of(b);
    if xs.len() != ys.len() {
        return false;
    }
    let mut i: usize = 0;
    while i < xs.len()
        invariant
            i <= xs@.len(),
            xs@ == a@,
            ys@ == b@,
            xs@.len() == ys@.len(),
            forall|k: int| 0 <= k < i ==> ascii_lower(#[trigger] xs@[k]) == ascii_lower(ys@[k]),
        decreases xs@.len() - i,
    {
        if char_ascii_lower(xs[i]) != char_ascii_lower(ys[i]) {
            return false;
        }
        i += 1;
    }
    true
}

// ---------------------------------------------------------------------------
// Lists
// ---------------------------------------------------------------------------

/// `parts`, one after the other, with `separator` between them.
pub open spec fn joined(parts: Seq<Seq<char>>, separator: Seq<char>) -> Seq<char>
    decreases parts.len(),
{
    if parts.len() == 0 {
        Seq::empty()
    } else if parts.len() == 1 {
        parts[0]
    } else {
        joined(parts.drop_last(), separator) + separator + parts.last()
    }
}

/// `parts`, one after the other, with `separator` between them.
pub(crate) fn join_texts(parts: &Vec<String>, separator: &str) -> (whole: String)
    ensures
        whole@ == joined(texts_view(parts@), separator@),
{
    let mut whole = String::new();
    let mut i: usize = 0;
    let ghost views = texts_view(parts@);
    while i < parts.len()
        invariant
            i <= parts@.len(),
            views == texts_view(parts@),
            whole@ == joined(views.take(i as int), separator@),
        decreases parts@.len() - i,
    {
        if i > 0 {
            whole.append(separator);
        }
        whole.append(parts[i].as_str());
        assert(views.take(i + 1).drop_last() =~= views.take(i as int));
        i += 1;
    }
    assert(views.take(i as int) =~= views);
    whole
}

// ---------------------------------------------------------------------------
// Laws
// ---------------------------------------------------------------------------

/// `part` is what is left of `s` once all characters at its two ends that `drop` accepts are gone.
pub open spec fn is_left_of(part: Seq<char>, s: Seq<char>, drop: spec_fn(char) -> bool) -> bool {
    exists|from: int, to: int|
        {
            &&& 0 <= from <= to <= s.len()
            &&& part == #[trigger] s.subrange(from, to)
            &&& forall|i: int| 0 <= i < from ==> drop(#[trigger] s[i])
            &&& forall|i: int| to <= i < s.len() ==> drop(#[trigger] s[i])
            &&& from < to ==> !drop(s[from]) && !drop(s[to - 1])
        }
}

/// What is dropped at the start is accepted by `drop`.
pub proof fn lemma_without_leading_drops(s: Seq<char>, drop: spec_fn(char) -> bool)
    ensures
        forall|i: int|
            0 <= i < s.len() - without_leading(s, drop).len() ==> drop(#[trigger] s[i]),
    decreases s.len(),
{
    if s.len() > 0 && drop(s.first()) {
        let rest = s.drop_first();
        lemma_without_leading_drops(rest, drop);
        assert forall|i: int| 0 <= i < s.len() - without_leading(s, drop).len() implies drop(
            #[trigger] s[i],
        ) by {
            if i > 0 {
                assert(rest[i - 1] == s[i]);
            }
        }
    }
}

proof fn lemma_without_trailing_drops(s: Seq<char>, drop: spec_fn(char) -> bool)
    ensures
        forall|i: int| without_trailing(s, drop).len() <= i < s.len() ==> drop(#[trigger] s[i]),
    decreases s.len(),
{
    if s.len() > 0 && drop(s.last()) {
        let rest = s.drop_last();
        lemma_without_trailing_drops(rest, drop);
        assert forall|i: int| without_trailing(s, drop).len() <= i < s.len() implies drop(
            #[trigger] s[i],
        ) by {
            if i < rest.len() {
                assert(rest[i] == s[i]);
            }
        }
    }
}

proof fn lemma_left_of(s: Seq<char>, drop: spec_fn(char) -> bool)
    ensures
        is_left_of(without_trailing(without_leading(s, drop), drop), s, drop),
{
    let tail = without_leading(s, drop);
    let part = without_trailing(tail, drop);
    lemma_without_leading(s, drop);
    lemma_without_leading_drops(s, drop);
    lemma_without_trailing(tail, drop);
    lemma_without_trailing_drops(tail, drop);
    let from = s.len() - tail.len();
    let to = from + part.len();
    assert(part =~= s.subrange(from, to));
    assert forall|i: int| to <= i < s.len() implies drop(#[trigger] s[i]) by {
        assert(tail[i - from] == s[i]);
    }
    if from < to {
        assert(tail.first() == s[from]);
        assert(part.last() == s[to - 1]);
    }
}

/// Trimming takes away the white space at the two ends, all of it and nothing else.
pub proof fn law_trimming(s: Seq<char>)
    ensures
        is_left_of(trimmed(s), s, |c: char| is_white_space(c)),
{
    lemma_left_of(s, white());
    assert(white() =~= (|c: char| is_white_space(c)));
}

/// Stripping takes away the full stops and spaces at the two ends, all of them and nothing else.
pub proof fn law_stripping(s: Seq<char>)
    ensures
        is_left_of(stripped(s), s, |c: char| c == '.' || c == ' '),
{
    lemma_left_of(s, dot_or_space());
    assert(dot_or_space() =~= (|c: char| c == '.' || c == ' '));
}

/// A text begins with another exactly where it is that text and something after it, and likewise
/// at the end.
pub proof fn law_beginnings_and_ends(s: Seq<char>, part: Seq<char>)
    ensures
        has_prefix(s, part) <==> exists|rest: Seq<char>| s == #[trigger] (part + rest),
        has_suffix(s, part) <==> exists|rest: Seq<char>| s == #[trigger] (rest + part),
{
    if has_prefix(s, part) {
        assert(s =~= part + s.skip(part.len() as int));
    }
    if exists|rest: Seq<char>| s == #[trigger] (part + rest) {
        let rest = choose|rest: Seq<char>| s == #[trigger] (part + rest);
        assert(s.subrange(0, part.len() as int) =~= part);
    }
    if has_suffix(s, part) {
        assert(s =~= s.take(s.len() - part.len()) + part);
    }
    if exists|rest: Seq<char>| s == #[trigger] (rest + part) {
        let rest = choose|rest: Seq<char>| s == #[trigger] (rest + part);
        assert(s.subrange(rest.len() as int, s.len() as int) =~= part);
    }
}

/// The head of a text is its beginning, as long as asked for where the text is that long.
pub proof fn law_heads(s: Seq<char>, n: nat)
    ensures
        first_n(s, n).len() == (if s.len() < n {
            s.len()
        } else {
            n
        }),
        forall|i: int| 0 <= i < first_n(s, n).len() ==> #[trigger] first_n(s, n)[i] == s[i],
{
}

/// Two characters agree without regard to case exactly where they are the same, or are the capital
/// and the small form of one ASCII letter.
pub proof fn law_case_of_ascii_letters(a: char, b: char)
    ensures
        same_ignoring_ascii_case(seq![a], seq![b]) <==> {
            ||| a == b
            ||| 'A' <= a <= 'Z' && b as int == a as int + 32
            ||| 'A' <= b <= 'Z' && a as int == b as int + 32
        },
{
    let x = seq![a];
    let y = seq![b];
    assert(x[0] == a && y[0] == b);
    if ascii_lower(a) == ascii_lower(b) {
        assert(same_ignoring_ascii_case(x, y));
    }
}

/// Agreement without regard to case is agreement character by character.
pub proof fn law_case_is_judged_one_by_one(a: Seq<char>, b: Seq<char>, x: char, y: char)
    ensures
        same_ignoring_ascii_case(a.push(x), b.push(y)) <==> same_ignoring_ascii_case(a, b)
            && same_ignoring_ascii_case(seq![x], seq![y]),
        same_ignoring_ascii_case(Seq::empty(), Seq::empty()),
        same_ignoring_ascii_case(a, b) ==> a.len() == b.len(),
{
    let s = a.push(x);
    let t = b.push(y);
    let u = seq![x];
    let v = seq![y];
    assert(u[0] == x && v[0] == y);
    if same_ignoring_ascii_case(s, t) {
        assert forall|i: int| 0 <= i < a.len() implies ascii_lower(#[trigger] a[i]) == ascii_lower(
            b[i],
        ) by {
            assert(s[i] == a[i] && t[i] == b[i]);
        }
        assert(s[a.len() as int] == x && t[b.len() as int] == y);
        assert(same_ignoring_ascii_case(u, v));
    }
    if same_ignoring_ascii_case(a, b) && same_ignoring_ascii_case(u, v) {
        assert(ascii_lower(u[0]) == ascii_lower(v[0]));
        assert forall|i: int| 0 <= i < s.len() implies ascii_lower(#[trigger] s[i]) == ascii_lower(
            t[i],
        ) by {
            if i < a.len() {
                assert(s[i] == a[i] && t[i] == b[i]);
            }
        }
    }
}

/// Joining puts the separator between any two parts, and nowhere else.
pub proof fn law_joining(parts: Seq<Seq<char>>, part: Seq<char>, separator: Seq<char>)
    ensures
        joined(Seq::empty(), separator) == Seq::<char>::empty(),
        joined(seq![part], separator) == part,
        parts.len() > 0 ==> joined(parts.push(part), separator) == joined(parts, separator)
            + separator + part,
{
    assert(parts.push(part).drop_last() =~= parts);
}

/// White space, control characters and digits, by their numbers.
pub proof fn law_kinds_of_characters(c: char, white: bool, control: bool, digit: bool)
    requires
        call_ensures(char_is_white_space, (c,), white),
        call_ensures(char_is_control, (c,), control),
        call_ensures(char_is_digit, (c,), digit),
    ensures
        white <==> {
            let n = c as int;
            ||| 9 <= n <= 13
            ||| n == 32
            ||| n == 0x85
            ||| n == 0xa0
            ||| n == 0x1680
            ||| 0x2000 <= n <= 0x200a
            ||| n == 0x2028
            ||| n == 0x2029
            ||| n == 0x202f
            ||| n == 0x205f
            ||| n == 0x3000
        },
        control <==> c as int <= 31 || 127 <= c as int <= 159,
        digit <==> 48 <= c as int <= 57,
{
}

/// What trimming gives back is the text without the white space at its ends.
pub proof fn law_what_trimming_gives(text: &str, inner: &str)
    requires
        call_ensures(trim, (text,), inner),
    ensures
        is_left_of(inner@, text@, |c: char| is_white_space(c)),
{
    law_trimming(text@);
}

} // verus!
