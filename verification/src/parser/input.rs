//! Which room the user means: by its number, by its address, or by a share link.

use vstd::prelude::*;

use crate::number;
use crate::parser::error;
use crate::parser::error::{Failure, ParseError};
use crate::parser::http;
use crate::text;

verus! {

// ---------------------------------------------------------------------------
// URLs
// ---------------------------------------------------------------------------

/// What is read of a URL: its host, and the segments of its path.
#[derive(Debug)]
pub struct UrlParts {
    pub host: Option<String>,
    pub segments: Option<Vec<String>>,
}

/// What [`UrlParts`] holds: the host and the segments.
pub open spec fn parts_view(parts: UrlParts) -> (Option<Seq<char>>, Option<Seq<Seq<char>>>) {
    (
        text::opt_view(parts.host),
        match parts.segments {
            Some(segments) => Some(text::texts_view(segments@)),
            None => None,
        },
    )
}

/// What optional [`UrlParts`] hold.
pub open spec fn opt_parts_view(parts: Option<UrlParts>) -> Option<
    (Option<Seq<char>>, Option<Seq<Seq<char>>>),
> {
    match parts {
        Some(parts) => Some(parts_view(parts)),
        None => None,
    }
}

/// The host and the path segments of the absolute URL that a text is, if it is one.
pub uninterp spec fn parsed_url(url: Seq<char>) -> Option<
    (Option<Seq<char>>, Option<Seq<Seq<char>>>),
>;

/// `reqwest::Url::parse`, read by `host_str` and `path_segments`. Nothing is said of how a URL is
/// taken apart.
#[verifier::external_body]
fn parse_url(url: &str) -> (parts: Option<UrlParts>)
    ensures
        opt_parts_view(parts) == parsed_url(url@),
{
    let url = reqwest::Url::parse(url).ok()?;
    let host = url.host_str().map(str::to_string);
    let segments = url.path_segments().map(|segments| segments.map(str::to_string).collect());
    Some(UrlParts { host, segments })
}

impl UrlParts {
    /// The host and the path segments of `url`, if it is an absolute URL.
    pub fn parse(url: &str) -> (parts: Option<UrlParts>)
        ensures
            opt_parts_view(parts) == parsed_url(url@),
    {
        parse_url(url)
    }
}

/// A text of at least one ASCII digit and nothing else.
pub open spec fn is_number(s: Seq<char>) -> bool {
    s.len() > 0 && number::all_digits(s)
}

pub(crate) fn text_is_number(s: &str) -> (numeric: bool)
    ensures
        numeric == is_number(s@),
{
    let chars = text::chars_of(s);
    let mut i: usize = 0;
    while i < chars.len()
        invariant
            chars@ == s@,
            i <= chars@.len(),
            forall|k: int| 0 <= k < i ==> text::is_digit(#[trigger] chars@[k]),
        decreases chars@.len() - i,
    {
        if !text::char_is_digit(chars[i]) {
            return false;
        }
        i += 1;
    }
    chars.len() > 0
}

/// The first segment from `from` on that is a number.
pub open spec fn number_from(segments: Seq<Seq<char>>, from: int) -> Option<Seq<char>>
    decreases segments.len() - from,
{
    if from < 0 || from >= segments.len() {
        None
    } else if is_number(segments[from]) {
        Some(segments[from])
    } else {
        number_from(segments, from + 1)
    }
}

/// The first number among the segments of a path.
pub open spec fn numeric_segment(segments: Option<Seq<Seq<char>>>) -> Option<Seq<char>> {
    match segments {
        Some(segments) => number_from(segments, 0),
        None => None,
    }
}

/// The first number among the segments of the path.
pub fn extract_numeric_path_segment(url: &UrlParts) -> (segment: Option<String>)
    ensures
        text::opt_view(segment) == numeric_segment(parts_view(*url).1),
{
    let segments = match &url.segments {
        Some(segments) => segments,
        None => return None,
    };
    let ghost views = text::texts_view(segments@);
    let mut i: usize = 0;
    while i < segments.len()
        invariant
            i <= segments@.len(),
            views == text::texts_view(segments@),
            parts_view(*url).1 == Some(views),
            number_from(views, 0) == number_from(views, i as int),
        decreases segments@.len() - i,
    {
        if text_is_number(segments[i].as_str()) {
            return Some(segments[i].clone());
        }
        i += 1;
    }
    None
}

// ---------------------------------------------------------------------------
// The room that is meant
// ---------------------------------------------------------------------------

/// What the user's text leads to: a room, or a share link that has to be followed first.
#[derive(Debug)]
pub enum Target {
    Room(String),
    ShareLink(String),
}

/// What a [`Target`] says.
pub enum TargetView {
    Room(Seq<char>),
    ShareLink(Seq<char>),
}

impl View for Target {
    type V = TargetView;

    open spec fn view(&self) -> TargetView {
        match self {
            Target::Room(id) => TargetView::Room(id@),
            Target::ShareLink(url) => TargetView::ShareLink(url@),
        }
    }
}

/// What the outcome of reading the user's text says.
pub open spec fn target_outcome(outcome: Result<Target, ParseError>) -> Result<
    TargetView,
    Failure,
> {
    match outcome {
        Ok(target) => Ok(target@),
        Err(error) => Err(error@),
    }
}

/// What the outcome of looking for a room number says.
pub open spec fn room_outcome(outcome: Result<String, ParseError>) -> Result<Seq<char>, Failure> {
    match outcome {
        Ok(id) => Ok(id@),
        Err(error) => Err(error@),
    }
}

/// The room that the address of a live page names.
pub open spec fn room_at(url: (Option<Seq<char>>, Option<Seq<Seq<char>>>)) -> Result<
    Seq<char>,
    Failure,
> {
    if url.0 != Some("live.bilibili.com"@) {
        Err(error::failure("链接不是 Bilibili 直播间地址"@))
    } else {
        match numeric_segment(url.1) {
            Some(id) => Ok(id),
            None => Err(error::failure("无法从链接中解析直播间号"@)),
        }
    }
}

/// The room that the address of a live page names.
pub fn room_of_url(url: &UrlParts) -> (outcome: Result<String, ParseError>)
    ensures
        room_outcome(outcome) == room_at(parts_view(*url)),
{
    if !text::opt_is(&url.host, "live.bilibili.com") {
        return Err(ParseError::new("链接不是 Bilibili 直播间地址".to_owned()));
    }
    match extract_numeric_path_segment(url) {
        Some(id) => Ok(id),
        None => Err(ParseError::new("无法从链接中解析直播间号".to_owned())),
    }
}

/// The URL that a text stands for: the two known hosts may come without a scheme.
pub open spec fn as_url(input: Seq<char>) -> Seq<char> {
    if text::has_prefix(input, "live.bilibili.com/"@) || text::has_prefix(input, "b23.tv/"@) {
        "https://"@ + input
    } else {
        input
    }
}

/// Where a URL leads, given what it was taken apart into.
pub open spec fn target_at(
    url: Seq<char>,
    parts: Option<(Option<Seq<char>>, Option<Seq<Seq<char>>>)>,
) -> Result<TargetView, Failure> {
    match parts {
        None => Err(error::failure("请输入 Bilibili 直播间链接或数字房间号"@)),
        Some(parts) => if parts.0 == Some("b23.tv"@) || parts.0 == Some("www.b23.tv"@) {
            Ok(TargetView::ShareLink(url))
        } else {
            match room_at(parts) {
                Ok(id) => Ok(TargetView::Room(id)),
                Err(error) => Err(error),
            }
        },
    }
}

/// Where the user's text leads.
pub open spec fn target_in(input: Seq<char>) -> Result<TargetView, Failure> {
    let inner = text::trimmed(input);
    if is_number(inner) {
        Ok(TargetView::Room(inner))
    } else {
        target_at(as_url(inner), parsed_url(as_url(inner)))
    }
}

/// Where a URL leads, given what it was taken apart into.
pub fn target_of_url(url: String, parts: Option<UrlParts>) -> (outcome: Result<
    Target,
    ParseError,
>)
    ensures
        target_outcome(outcome) == target_at(url@, opt_parts_view(parts)),
{
    match parts {
        None => Err(ParseError::new("请输入 Bilibili 直播间链接或数字房间号".to_owned())),
        Some(parts) => {
            if text::opt_is(&parts.host, "b23.tv") || text::opt_is(&parts.host, "www.b23.tv") {
                return Ok(Target::ShareLink(url));
            }
            match room_of_url(&parts) {
                Ok(id) => Ok(Target::Room(id)),
                Err(error) => Err(error),
            }
        },
    }
}

/// Where the user's text leads.
pub fn resolve_input_room_id(input: &str) -> (outcome: Result<Target, ParseError>)
    ensures
        target_outcome(outcome) == target_in(input@),
{
    let inner = text::trim(input);
    if text_is_number(inner) {
        return Ok(Target::Room(inner.to_owned()));
    }
    let url = if text::starts_with(inner, "live.bilibili.com/") || text::starts_with(
        inner,
        "b23.tv/",
    ) {
        text::cat2("https://", inner)
    } else {
        inner.to_owned()
    };
    let parts = UrlParts::parse(url.as_str());
    target_of_url(url, parts)
}

/// How following a share link ended: without an answer, or with a status at some URL.
#[derive(Debug)]
pub enum LinkReply {
    NoResponse(String),
    Response { status: u16, url: UrlParts },
}

/// The room that a share link led to.
pub open spec fn linked_room(reply: LinkReply) -> Result<Seq<char>, Failure> {
    match reply {
        LinkReply::NoResponse(detail) => Err(
            error::failure("解析 Bilibili 分享链接失败: "@ + detail@),
        ),
        LinkReply::Response { status, url } => if !http::is_success(status) {
            Err(http::refusal(status))
        } else {
            room_at(parts_view(url))
        },
    }
}

/// The room that a share link led to.
pub fn resolve_share_link(reply: LinkReply) -> (outcome: Result<String, ParseError>)
    requires
        reply matches LinkReply::Response { status, .. } ==> 100 <= status <= 999,
    ensures
        room_outcome(outcome) == linked_room(reply),
{
    match reply {
        LinkReply::NoResponse(detail) => Err(
            ParseError::new(text::cat2("解析 Bilibili 分享链接失败: ", detail.as_str())),
        ),
        LinkReply::Response { status, url } => {
            if !http::wants_body(status) {
                return Err(ParseError::http(status));
            }
            room_of_url(&url)
        },
    }
}

// ---------------------------------------------------------------------------
// Laws
// ---------------------------------------------------------------------------

/// At least one character, and each from `0` to `9`.
pub open spec fn only_digits(s: Seq<char>) -> bool {
    &&& s.len() >= 1
    &&& forall|i: int| 0 <= i < s.len() ==> '0' <= #[trigger] s[i] && s[i] <= '9'
}

proof fn lemma_numbers(s: Seq<char>)
    ensures
        is_number(s) == only_digits(s),
{
    if is_number(s) {
        assert forall|i: int| 0 <= i < s.len() implies '0' <= #[trigger] s[i] && s[i] <= '9' by {
            assert(text::is_digit(s[i]));
        }
    }
    if only_digits(s) {
        assert forall|i: int| 0 <= i < s.len() implies text::is_digit(#[trigger] s[i]) by {}
    }
}

proof fn lemma_number_from(segments: Seq<Seq<char>>, from: int)
    requires
        0 <= from,
    ensures
        number_from(segments, from) is None <==> forall|i: int|
            from <= i < segments.len() ==> !only_digits(#[trigger] segments[i]),
        number_from(segments, from) matches Some(id) ==> exists|i: int|
            {
                &&& from <= i < segments.len()
                &&& #[trigger] segments[i] == id
                &&& only_digits(id)
                &&& forall|j: int| from <= j < i ==> !only_digits(#[trigger] segments[j])
            },
    decreases segments.len() - from,
{
    if from < segments.len() {
        lemma_numbers(segments[from]);
        if !is_number(segments[from]) {
            lemma_number_from(segments, from + 1);
            if let Some(id) = number_from(segments, from) {
                let i = choose|i: int|
                    {
                        &&& from + 1 <= i < segments.len()
                        &&& #[trigger] segments[i] == id
                        &&& only_digits(id)
                        &&& forall|j: int|
                            from + 1 <= j < i ==> !only_digits(#[trigger] segments[j])
                    };
                assert(segments[i] == id);
            }
        } else {
            assert(segments[from] == number_from(segments, from)->0);
        }
    }
}

/// The number that is taken from a path is the first of its segments that is nothing but digits;
/// there is none exactly where no segment is.
pub proof fn law_the_first_number_is_taken(
    host: Option<String>,
    segments: Vec<String>,
    segment: Option<String>,
)
    requires
        call_ensures(
            extract_numeric_path_segment,
            (&UrlParts { host, segments: Some(segments) },),
            segment,
        ),
    ensures
        segment is None <==> forall|i: int|
            0 <= i < segments@.len() ==> !only_digits((#[trigger] segments@[i])@),
        segment matches Some(id) ==> exists|i: int|
            {
                &&& 0 <= i < segments@.len()
                &&& (#[trigger] segments@[i])@ == id@
                &&& only_digits(id@)
                &&& forall|j: int| 0 <= j < i ==> !only_digits((#[trigger] segments@[j])@)
            },
{
    let views = text::texts_view(segments@);
    lemma_number_from(views, 0);
    assert(views.len() == segments@.len());
    assert forall|i: int| 0 <= i < segments@.len() implies #[trigger] views[i] == segments@[i]@ by {}
    assert(text::opt_view(segment) == number_from(views, 0));
    if segment is None {
        assert forall|i: int| 0 <= i < segments@.len() implies !only_digits(
            (#[trigger] segments@[i])@,
        ) by {
            assert(!only_digits(views[i]));
        }
    } else {
        let id = segment->0@;
        let i = choose|i: int|
            {
                &&& 0 <= i < views.len()
                &&& #[trigger] views[i] == id
                &&& only_digits(id)
                &&& forall|j: int| 0 <= j < i ==> !only_digits(#[trigger] views[j])
            };
        assert(segments@[i]@ == id);
        assert forall|j: int| 0 <= j < i implies !only_digits((#[trigger] segments@[j])@) by {
            assert(!only_digits(views[j]));
        }
    }
}

/// An address names a room exactly where its host is that of the live pages and a segment of its
/// path is a number. The failure tells which of these is missing.
pub proof fn law_rooms_by_address(
    url: UrlParts,
    segment: Option<String>,
    outcome: Result<String, ParseError>,
)
    requires
        call_ensures(extract_numeric_path_segment, (&url,), segment),
        call_ensures(room_of_url, (&url,), outcome),
    ensures
        ({
            let is_live_page = url.host matches Some(host) && host@ == "live.bilibili.com"@;
            &&& outcome is Ok == (is_live_page && segment is Some)
            &&& outcome matches Ok(id) ==> id@ == segment->0@
            &&& outcome matches Err(error) ==> !error@.rate_limited && error@.message == (
            if is_live_page {
                "无法从链接中解析直播间号"@
            } else {
                "链接不是 Bilibili 直播间地址"@
            })
        }),
{
}

/// An address on one of the two hosts of share links has to be followed, as it stands; any other
/// one is that of a live page, or of none.
pub proof fn law_where_an_address_leads(
    url: String,
    parts: Option<UrlParts>,
    outcome: Result<Target, ParseError>,
)
    requires
        call_ensures(target_of_url, (url, parts), outcome),
    ensures
        parts is None ==> (outcome matches Err(error) && !error@.rate_limited && error@.message
            == "请输入 Bilibili 直播间链接或数字房间号"@),
        parts matches Some(at) ==> {
            let is_share = at.host matches Some(host) && (host@ == "b23.tv"@ || host@
                == "www.b23.tv"@);
            &&& is_share ==> (outcome matches Ok(Target::ShareLink(link)) && link@ == url@)
            &&& !is_share ==> !(outcome matches Ok(Target::ShareLink(_)))
            &&& forall|room: Result<String, ParseError>|
                #![trigger call_ensures(room_of_url, (&at,), room)]
                !is_share && call_ensures(room_of_url, (&at,), room) ==> {
                    &&& room matches Ok(id) ==> (outcome matches Ok(Target::Room(found)) && found@
                        == id@)
                    &&& room matches Err(error) ==> (outcome matches Err(same) && same@ == error@)
                }
        },
{
}

/// A text of digits is a room number, whatever white space is around it. Any other text is an
/// address; one that begins with a known host lacks only the scheme.
pub proof fn law_where_a_text_leads(
    input: &str,
    outcome: Result<Target, ParseError>,
    url: String,
    parts: Option<UrlParts>,
    leads: Result<Target, ParseError>,
)
    requires
        call_ensures(resolve_input_room_id, (input,), outcome),
        url@ == ({
            let inner = text::trimmed(input@);
            if (exists|rest: Seq<char>| inner == #[trigger] ("live.bilibili.com/"@ + rest)) || (
            exists|rest: Seq<char>| inner == #[trigger] ("b23.tv/"@ + rest)) {
                "https://"@ + inner
            } else {
                inner
            }
        }),
        opt_parts_view(parts) == parsed_url(url@),
        call_ensures(target_of_url, (url, parts), leads),
    ensures
        only_digits(text::trimmed(input@)) ==> (outcome matches Ok(Target::Room(id)) && id@
            == text::trimmed(input@)),
        !only_digits(text::trimmed(input@)) ==> target_outcome(outcome) == target_outcome(leads),
{
    let inner = text::trimmed(input@);
    lemma_numbers(inner);
    text::law_beginnings_and_ends(inner, "live.bilibili.com/"@);
    text::law_beginnings_and_ends(inner, "b23.tv/"@);
}

/// A share link leads to the room at whose address it ended, where the answer was accepted. A
/// refusal tells its status.
pub proof fn law_where_a_share_link_leads(
    reply: LinkReply,
    outcome: Result<String, ParseError>,
)
    requires
        call_ensures(resolve_share_link, (reply,), outcome),
    ensures
        reply matches LinkReply::NoResponse(detail) ==> (outcome matches Err(error)
            && !error@.rate_limited && error@.message == "解析 Bilibili 分享链接失败: "@ + detail@),
        reply matches LinkReply::Response { status, url } ==> {
            &&& !(200 <= status <= 299) ==> (outcome matches Err(error) && error@.rate_limited == (
            status == 403 || status == 429) && error@.message == "Bilibili API 返回错误: HTTP "@
                + http::http_status_text(status))
            &&& 200 <= status <= 299 ==> forall|room: Result<String, ParseError>|
                #![trigger call_ensures(room_of_url, (&url,), room)]
                call_ensures(room_of_url, (&url,), room) ==> room_outcome(outcome) == room_outcome(
                    room,
                )
        },
{
}

} // verus!
