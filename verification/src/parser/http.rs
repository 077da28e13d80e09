//! What is sent to the platform's API, and what its answers mean.

use vstd::prelude::*;

use crate::json;
use crate::json::Json;
use crate::number;
use crate::parser::error;
use crate::parser::error::{Failure, ParseError};
use crate::text;

verus! {

/// The browser that requests are sent as.
pub const BILIBILI_UA: &'static str = "Mozilla/5.0 (Windows NT 10.0; Win64; x64) AppleWebKit/537.36 (KHTML, like Gecko) Chrome/120.0.0.0 Safari/537.36";

// ---------------------------------------------------------------------------
// Status codes
// ---------------------------------------------------------------------------

/// The text by which an HTTP status code is shown.
pub uninterp spec fn http_status_text(code: u16) -> Seq<char>;

/// `reqwest::StatusCode::to_string` on the status of that code. The text begins with the code in
/// decimal and a space; the reason that follows is left to the outside crate.
#[verifier::external_body]
fn status_text(code: u16) -> (shown: String)
    requires
        100 <= code <= 999,
    ensures
        shown@ == http_status_text(code),
        text::has_prefix(shown@, number::decimal(code as nat) + seq![' ']),
{
    reqwest::StatusCode::from_u16(code).expect("a status code").to_string()
}

/// The status codes by which a server accepts a request.
pub open spec fn is_success(code: u16) -> bool {
    200 <= code < 300
}

/// What a refused request is answered with: 403 and 429 ask to slow down.
pub open spec fn refusal(code: u16) -> Failure {
    Failure {
        message: "Bilibili API 返回错误: HTTP "@ + http_status_text(code),
        rate_limited: code == 403 || code == 429,
    }
}

impl ParseError {
    /// The failure of a request that was answered with the status `code`.
    pub fn http(code: u16) -> (error: Self)
        requires
            100 <= code <= 999,
        ensures
            error@ == refusal(code),
    {
        let message = text::cat2("Bilibili API 返回错误: HTTP ", status_text(code).as_str());
        if code == 403 || code == 429 {
            ParseError::rate_limited(message)
        } else {
            ParseError::new(message)
        }
    }
}

// ---------------------------------------------------------------------------
// Requests
// ---------------------------------------------------------------------------

/// The headers that a request can carry.
#[derive(Debug, Clone, Copy, PartialEq, Eq, Structural)]
pub enum Header {
    UserAgent,
    Referer,
    Cookie,
}

/// The text can be sent as the value of a header: it holds no control character but the tab.
pub open spec fn is_header_value(s: Seq<char>) -> bool {
    forall|i: int| 0 <= i < s.len() ==> #[trigger] s[i] == '\t' || s[i] >= ' ' && s[i] != '\u{7f}'
}

/// `reqwest::header::HeaderValue::from_str` accepts a text whose bytes are all tabs, or from 32
/// on and not 127: in characters, what [`is_header_value`] states.
#[verifier::external_body]
fn can_be_sent(value: &str) -> (sendable: bool)
    ensures
        sendable == is_header_value(value@),
{
    reqwest::header::HeaderValue::from_str(value).is_ok()
}

/// What a list of headers says.
pub open spec fn headers_view(headers: Seq<(Header, String)>) -> Seq<(Header, Seq<char>)> {
    headers.map_values(|header: (Header, String)| (header.0, header.1@))
}

/// The headers of a request: the browser, the page it comes from, and the cookie if there is one.
pub open spec fn headers_for(cookie: Seq<char>, referer: Option<Seq<char>>) -> Result<
    Seq<(Header, Seq<char>)>,
    Failure,
> {
    let agent = seq![(Header::UserAgent, BILIBILI_UA@)];
    let page = match referer {
        Some(referer) => seq![(Header::Referer, referer)],
        None => Seq::empty(),
    };
    let session = if text::trimmed(cookie).len() > 0 {
        seq![(Header::Cookie, text::trimmed(cookie))]
    } else {
        Seq::empty()
    };
    if referer is Some && !is_header_value(referer->0) {
        Err(error::failure("构建 Referer 失败"@))
    } else if !is_header_value(text::trimmed(cookie)) {
        Err(error::failure("Cookie 包含非法字符"@))
    } else {
        Ok(agent + page + session)
    }
}

/// The headers of a request: the browser, the page it comes from, and the cookie if there is one.
pub fn request_headers(cookie: &str, referer: Option<&str>) -> (headers: Result<
    Vec<(Header, String)>,
    ParseError,
>)
    ensures
        (match headers {
            Ok(headers) => Ok(headers_view(headers@)),
            Err(error) => Err(error@),
        }) == headers_for(cookie@, text::opt_str(referer)),
{
    let mut headers: Vec<(Header, String)> = Vec::new();
    headers.push((Header::UserAgent, BILIBILI_UA.to_owned()));
    if let Some(referer) = referer {
        if !can_be_sent(referer) {
            return Err(ParseError::new("构建 Referer 失败".to_owned()));
        }
        headers.push((Header::Referer, referer.to_owned()));
    }
    let session = text::trim(cookie);
    if !session.is_empty() {
        if !can_be_sent(session) {
            return Err(ParseError::new("Cookie 包含非法字符".to_owned()));
        }
        headers.push((Header::Cookie, session.to_owned()));
    }
    assert(headers_view(headers@) =~= headers_for(cookie@, text::opt_str(referer))->Ok_0);
    Ok(headers)
}

/// The headers with which a share link is followed.
pub open spec fn link_headers_for(cookie: Seq<char>) -> Seq<(Header, Seq<char>)> {
    let agent = seq![(Header::UserAgent, BILIBILI_UA@)];
    if text::trimmed(cookie).len() > 0 {
        agent.push((Header::Cookie, text::trimmed(cookie)))
    } else {
        agent
    }
}

/// The headers with which a share link is followed. Whether they can be sent shows when they are.
pub fn link_headers(cookie: &str) -> (headers: Vec<(Header, String)>)
    ensures
        headers_view(headers@) == link_headers_for(cookie@),
{
    let mut headers: Vec<(Header, String)> = Vec::new();
    headers.push((Header::UserAgent, BILIBILI_UA.to_owned()));
    let session = text::trim(cookie);
    if !session.is_empty() {
        headers.push((Header::Cookie, session.to_owned()));
    }
    assert(headers_view(headers@) =~= link_headers_for(cookie@));
    headers
}

// ---------------------------------------------------------------------------
// Answers
// ---------------------------------------------------------------------------

/// How a request ended: without an answer, or with a status and a body that may be no JSON.
#[derive(Debug)]
pub enum ApiReply {
    NoResponse(String),
    Response { status: u16, body: Result<Json, String> },
}

/// Whether the body of an answer with that status is read: that of a refusal is not.
pub fn wants_body(status: u16) -> (wanted: bool)
    ensures
        wanted == is_success(status),
{
    200 <= status && status < 300
}

/// The JSON value that a request was answered with, or why there is none. The body of a refusal
/// does not matter.
pub open spec fn reply_json(reply: ApiReply) -> Result<Json, Failure> {
    match reply {
        ApiReply::NoResponse(detail) => Err(
            error::failure("请求 Bilibili API 失败: "@ + detail@),
        ),
        ApiReply::Response { status, body } => if !is_success(status) {
            Err(refusal(status))
        } else {
            match body {
                Ok(value) => Ok(value),
                Err(detail) => Err(error::failure("解析 Bilibili API 响应失败: "@ + detail@)),
            }
        },
    }
}

/// What the outcome of a request says.
pub open spec fn json_outcome(outcome: Result<Json, ParseError>) -> Result<Json, Failure> {
    match outcome {
        Ok(value) => Ok(value),
        Err(error) => Err(error@),
    }
}

/// The JSON value that a request was answered with, or why there is none.
pub fn request_json(reply: ApiReply) -> (outcome: Result<Json, ParseError>)
    requires
        reply matches ApiReply::Response { status, .. } ==> 100 <= status <= 999,
    ensures
        json_outcome(outcome) == reply_json(reply),
{
    match reply {
        ApiReply::NoResponse(detail) => Err(
            ParseError::new(text::cat2("请求 Bilibili API 失败: ", detail.as_str())),
        ),
        ApiReply::Response { status, body } => {
            if !wants_body(status) {
                return Err(ParseError::http(status));
            }
            match body {
                Ok(value) => Ok(value),
                Err(detail) => Err(
                    ParseError::new(text::cat2("解析 Bilibili API 响应失败: ", detail.as_str())),
                ),
            }
        },
    }
}

/// The code by which the API says whether it did what it was asked to.
pub open spec fn code_of(value: Json) -> i64 {
    match json::integer_in(value.field("code"@)) {
        Some(code) => code,
        None => (-1) as i64,
    }
}

/// The code by which the API says whether it did what it was asked to.
pub fn api_code(value: &Json) -> (code: i64)
    ensures
        code == code_of(*value),
{
    match value.get("code") {
        Some(code) => match code.as_i64() {
            Some(code) => code,
            None => -1,
        },
        None => -1,
    }
}

/// What the API says of a failure: its `message`, or its `msg` where there is no `message`.
pub open spec fn api_message(value: Json) -> Seq<char> {
    let said = if value.field("message"@) is Some {
        value.field("message"@)
    } else {
        value.field("msg"@)
    };
    match json::text_in(said) {
        Some(message) => message,
        None => "未知错误"@,
    }
}

/// The failure of `operation`, where the API says that there was one: three of its codes ask to
/// slow down.
pub open spec fn api_failure(value: Json, operation: Seq<char>) -> Option<Failure> {
    let code = code_of(value);
    if code == 0 {
        None
    } else {
        Some(
            Failure {
                message: operation + "失败: "@ + api_message(value) + " ("@
                    + number::signed_decimal(code as int) + ")"@,
                rate_limited: code == -352 || code == -412 || code == -509,
            },
        )
    }
}

/// Fails with what the API says went wrong in `operation`.
pub fn ensure_api_success(value: &Json, operation: &str) -> (outcome: Result<(), ParseError>)
    ensures
        (match outcome {
            Ok(_) => None,
            Err(error) => Some(error@),
        }) == api_failure(*value, operation@),
{
    let code = api_code(value);
    if code == 0 {
        return Ok(());
    }
    let said = match value.get("message") {
        Some(message) => Some(message),
        None => value.get("msg"),
    };
    let message = match said {
        Some(said) => match said.as_str() {
            Some(message) => message,
            None => "未知错误",
        },
        None => "未知错误",
    };
    let full = text::cat6(
        operation,
        "失败: ",
        message,
        " (",
        number::i64_text(code).as_str(),
        ")",
    );
    if code == -352 || code == -412 || code == -509 {
        Err(ParseError::rate_limited(full))
    } else {
        Err(ParseError::new(full))
    }
}

// ---------------------------------------------------------------------------
// Laws
// ---------------------------------------------------------------------------

/// The failure of a refused request names its status; 403 and 429, and no other status, ask to
/// slow down.
pub proof fn law_refusals(code: u16, error: ParseError)
    requires
        call_ensures(ParseError::http, (code,), error),
    ensures
        error@.message == "Bilibili API 返回错误: HTTP "@ + http_status_text(code),
        error@.rate_limited <==> code == 403 || code == 429,
{
}

/// The body is read exactly where the status is one of the two hundreds.
pub proof fn law_when_a_body_is_read(status: u16, wanted: bool)
    requires
        call_ensures(wants_body, (status,), wanted),
    ensures
        wanted <==> 200 <= status <= 299,
{
}

/// A request comes to the JSON value of its answer exactly where the status is one of the two
/// hundreds and the body is JSON; otherwise the failure tells which of these went wrong, and only a
/// status can ask to slow down.
pub proof fn law_what_a_request_comes_to(reply: ApiReply, outcome: Result<Json, ParseError>)
    requires
        call_ensures(request_json, (reply,), outcome),
    ensures
        reply matches ApiReply::NoResponse(detail) ==> (outcome matches Err(error)
            && error@.message == "请求 Bilibili API 失败: "@ + detail@ && !error@.rate_limited),
        reply matches ApiReply::Response { status, body } ==> {
            &&& !(200 <= status <= 299) ==> (outcome matches Err(error) && error@.message
                == "Bilibili API 返回错误: HTTP "@ + http_status_text(status)
                && error@.rate_limited == (status == 403 || status == 429))
            &&& 200 <= status <= 299 ==> {
                &&& body matches Ok(value) ==> outcome == Ok::<Json, ParseError>(value)
                &&& body matches Err(detail) ==> (outcome matches Err(error) && error@.message
                    == "解析 Bilibili API 响应失败: "@ + detail@ && !error@.rate_limited)
            }
        },
{
}

/// A request carries the browser, the page it comes from where there is one, and the cookie
/// without the white space around it where something is left of it. It is not sent where one of
/// these cannot be.
pub proof fn law_what_a_request_carries(
    cookie: &str,
    referer: Option<&str>,
    headers: Result<Vec<(Header, String)>, ParseError>,
)
    requires
        call_ensures(request_headers, (cookie, referer), headers),
    ensures
        ({
            let session = text::trimmed(cookie@);
            let page: int = if referer is Some {
                1
            } else {
                0
            };
            let unfit_page = referer matches Some(referer) && !is_header_value(referer@);
            &&& headers is Ok == (!unfit_page && is_header_value(session))
            &&& headers matches Err(error) ==> !error@.rate_limited && error@.message == (
            if unfit_page {
                "构建 Referer 失败"@
            } else {
                "Cookie 包含非法字符"@
            })
            &&& headers matches Ok(sent) ==> {
                &&& sent@.len() == 1 + page + (if session.len() > 0 {
                    1int
                } else {
                    0int
                })
                &&& sent@[0].0 == Header::UserAgent
                &&& sent@[0].1@
                    == "Mozilla/5.0 (Windows NT 10.0; Win64; x64) AppleWebKit/537.36 (KHTML, like Gecko) Chrome/120.0.0.0 Safari/537.36"@
                &&& referer matches Some(referer) ==> sent@[1].0 == Header::Referer && sent@[1].1@
                    == referer@
                &&& session.len() > 0 ==> sent@[1 + page].0 == Header::Cookie && sent@[1
                    + page].1@ == session
            }
        }),
{
    if let Ok(sent) = headers {
        let views = headers_view(sent@);
        assert(Ok::<Seq<(Header, Seq<char>)>, Failure>(views) == headers_for(
            cookie@,
            text::opt_str(referer),
        ));
        assert(views.len() == sent@.len());
        assert forall|i: int| 0 <= i < sent@.len() implies views[i] == (
            (#[trigger] sent@[i]).0,
            sent@[i].1@,
        ) by {}
        assert(views[0] == (sent@[0].0, sent@[0].1@));
    }
}

/// A share link is followed as that browser, with the cookie where there is one.
pub proof fn law_what_a_share_link_is_followed_with(
    cookie: &str,
    headers: Vec<(Header, String)>,
)
    requires
        call_ensures(link_headers, (cookie,), headers),
    ensures
        ({
            let session = text::trimmed(cookie@);
            &&& headers@.len() == (if session.len() > 0 {
                2int
            } else {
                1int
            })
            &&& headers@[0].0 == Header::UserAgent
            &&& headers@[0].1@
                == "Mozilla/5.0 (Windows NT 10.0; Win64; x64) AppleWebKit/537.36 (KHTML, like Gecko) Chrome/120.0.0.0 Safari/537.36"@
            &&& session.len() > 0 ==> headers@[1].0 == Header::Cookie && headers@[1].1@ == session
        }),
{
    let views = headers_view(headers@);
    assert(views.len() == headers@.len());
    assert(views[0] == (headers@[0].0, headers@[0].1@));
    if headers@.len() > 1 {
        assert(views[1] == (headers@[1].0, headers@[1].1@));
    }
}

/// The code of an answer is its member `code` where that is an integer, and -1 otherwise.
pub proof fn law_codes(value: Json, code: i64)
    requires
        call_ensures(api_code, (&value,), code),
    ensures
        value.field("code"@) matches Some(Json::Number(Some(n))) ==> code == n,
        !(value.field("code"@) matches Some(Json::Number(Some(_)))) ==> code == -1,
{
}

/// An operation succeeded exactly where the answer has the code 0. A failure names the operation,
/// what the API says of it and the code; -352, -412 and -509, and no other code, ask to slow down.
pub proof fn law_what_the_api_refuses(
    value: Json,
    operation: &str,
    code: i64,
    outcome: Result<(), ParseError>,
)
    requires
        call_ensures(api_code, (&value,), code),
        call_ensures(ensure_api_success, (&value, operation), outcome),
    ensures
        outcome is Ok <==> value.field("code"@) == Some(Json::Number(Some(0i64))),
        outcome matches Err(error) ==> {
            let said = if value.field("message"@) is Some {
                value.field("message"@)
            } else {
                value.field("msg"@)
            };
            let words = if let Some(Json::Text(words)) = said {
                words@
            } else {
                "未知错误"@
            };
            &&& error@.message == operation@ + "失败: "@ + words + " ("@ + number::signed_decimal(
                code as int,
            ) + ")"@
            &&& error@.rate_limited <==> code == -352 || code == -412 || code == -509
        },
{
}

} // verus!
