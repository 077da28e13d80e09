//! The questions that are put to the platform about a room, and what the answers say.

use vstd::prelude::*;

use crate::json;
use crate::json::Json;
use crate::number;
use crate::parser::error;
use crate::parser::error::{Failure, ParseError};
use crate::parser::http;
use crate::parser::input;
use crate::parser::input::{LinkReply, Target, TargetView};
use crate::parser::streams;
use crate::parser::streams::{SelectionView, StreamSelection};
use crate::text;

verus! {

/// A room as the platform describes it.
#[derive(Debug)]
pub struct LiveInfo {
    pub platform: String,
    pub room_id: String,
    pub short_id: Option<String>,
    pub uid: i64,
    pub anchor_name: String,
    pub room_title: String,
    pub cover_url: String,
    pub avatar_url: String,
    pub is_live: bool,
}

/// What a [`LiveInfo`] says.
pub struct LiveInfoView {
    pub platform: Seq<char>,
    pub room_id: Seq<char>,
    pub short_id: Option<Seq<char>>,
    pub uid: i64,
    pub anchor_name: Seq<char>,
    pub room_title: Seq<char>,
    pub cover_url: Seq<char>,
    pub avatar_url: Seq<char>,
    pub is_live: bool,
}

impl View for LiveInfo {
    type V = LiveInfoView;

    open spec fn view(&self) -> LiveInfoView {
        LiveInfoView {
            platform: self.platform@,
            room_id: self.room_id@,
            short_id: text::opt_view(self.short_id),
            uid: self.uid,
            anchor_name: self.anchor_name@,
            room_title: self.room_title@,
            cover_url: self.cover_url@,
            avatar_url: self.avatar_url@,
            is_live: self.is_live,
        }
    }
}

impl Clone for LiveInfo {
    fn clone(&self) -> (copy: Self)
        ensures
            copy@ == self@,
    {
        LiveInfo {
            platform: self.platform.clone(),
            room_id: self.room_id.clone(),
            short_id: text::copy_opt(&self.short_id),
            uid: self.uid,
            anchor_name: self.anchor_name.clone(),
            room_title: self.room_title.clone(),
            cover_url: self.cover_url.clone(),
            avatar_url: self.avatar_url.clone(),
            is_live: self.is_live,
        }
    }
}

/// The page of a room.
pub open spec fn room_page(room_id: Seq<char>) -> Seq<char> {
    "https://live.bilibili.com/"@ + room_id
}

/// The page of a room.
pub fn live_page(room_id: &str) -> (url: String)
    ensures
        url@ == room_page(room_id@),
{
    text::cat2("https://live.bilibili.com/", room_id)
}

/// The platform's code 1 means that the room is live; 2 means a rerun, which does not count.
pub fn is_real_live_status(status: Option<i64>) -> (live: bool)
    ensures
        live == (status == Some(1i64)),
{
    match status {
        Some(code) => code == 1,
        None => false,
    }
}

// ---------------------------------------------------------------------------
// The first answer: the room's numbers and its state
// ---------------------------------------------------------------------------

/// What the first answer says of a room.
#[derive(Debug, Clone, Copy)]
pub struct RoomInit {
    pub room_id: i64,
    pub uid: i64,
    /// The short number, where the room has one.
    pub short_id: Option<i64>,
    pub is_live: bool,
}

/// The member `key` of `value` is the truth value true.
pub open spec fn is_set(value: Json, key: Seq<char>) -> bool {
    json::bool_in(value.field(key)) == Some(true)
}

fn flag(value: &Json, key: &str) -> (set: bool)
    ensures
        set == is_set(*value, key@),
{
    match value.get(key) {
        Some(Json::Bool(set)) => *set,
        _ => false,
    }
}

fn integer(value: &Json, key: &str) -> (n: Option<i64>)
    ensures
        n == json::integer_in(value.field(key@)),
{
    match value.get(key) {
        Some(member) => member.as_i64(),
        None => None,
    }
}

/// The integer, or zero.
pub open spec fn or_zero(n: Option<i64>) -> i64 {
    match n {
        Some(n) => n,
        None => 0,
    }
}

/// The number, where it is positive.
pub open spec fn if_positive(n: Option<i64>) -> Option<i64> {
    if n is Some && n->0 > 0 {
        n
    } else {
        None
    }
}

/// The room that the members of `data` describe. Hidden, locked and encrypted rooms cannot be
/// recorded.
pub open spec fn room_in_data(data: Json) -> Result<RoomInit, Failure> {
    if is_set(data, "is_hidden"@) {
        Err(error::failure("该直播间已隐藏，无法录制"@))
    } else if is_set(data, "is_locked"@) {
        Err(error::failure("该直播间已锁定，无法录制"@))
    } else if is_set(data, "encrypted"@) {
        Err(error::failure("暂不支持需要密码的直播间"@))
    } else {
        match json::integer_in(data.field("room_id"@)) {
            None => Err(error::failure("无法获取真实房间号"@)),
            Some(room_id) => Ok(
                RoomInit {
                    room_id,
                    uid: or_zero(json::integer_in(data.field("uid"@))),
                    short_id: if_positive(json::integer_in(data.field("short_id"@))),
                    is_live: json::integer_in(data.field("live_status"@)) == Some(1i64),
                },
            ),
        }
    }
}

/// What the first answer says of a room, or why the room cannot be recorded.
pub open spec fn room_init(init: Json) -> Result<RoomInit, Failure> {
    match http::api_failure(init, "解析直播间"@) {
        Some(failure) => Err(failure),
        None => match init.field("data"@) {
            Some(Json::Object(members)) => room_in_data(Json::Object(members)),
            _ => Err(error::failure("Bilibili 返回的房间数据为空"@)),
        },
    }
}

/// What the first answer says of a room, or why the room cannot be recorded.
pub fn read_room_init(init: &Json) -> (outcome: Result<RoomInit, ParseError>)
    ensures
        (match outcome {
            Ok(room) => Ok(room),
            Err(error) => Err(error@),
        }) == room_init(*init),
{
    if let Err(error) = http::ensure_api_success(init, "解析直播间") {
        return Err(error);
    }
    let data = match init.get("data") {
        Some(data) => data,
        None => return Err(ParseError::new("Bilibili 返回的房间数据为空".to_owned())),
    };
    match data {
        Json::Object(_) => {},
        _ => return Err(ParseError::new("Bilibili 返回的房间数据为空".to_owned())),
    }
    if flag(data, "is_hidden") {
        return Err(ParseError::new("该直播间已隐藏，无法录制".to_owned()));
    }
    if flag(data, "is_locked") {
        return Err(ParseError::new("该直播间已锁定，无法录制".to_owned()));
    }
    if flag(data, "encrypted") {
        return Err(ParseError::new("暂不支持需要密码的直播间".to_owned()));
    }
    let room_id = match integer(data, "room_id") {
        Some(room_id) => room_id,
        None => return Err(ParseError::new("无法获取真实房间号".to_owned())),
    };
    let uid: i64 = match integer(data, "uid") {
        Some(uid) => uid,
        None => 0,
    };
    let short_id = match integer(data, "short_id") {
        Some(id) => if id > 0 {
            Some(id)
        } else {
            None
        },
        None => None,
    };
    let is_live = is_real_live_status(integer(data, "live_status"));
    Ok(RoomInit { room_id, uid, short_id, is_live })
}

// ---------------------------------------------------------------------------
// The second and third answers: title, cover, and who is on air
// ---------------------------------------------------------------------------

/// The text of the member `key` of a value that may be absent, or the empty text.
pub open spec fn text_of_member(value: Option<Json>, key: Seq<char>) -> Seq<char> {
    json::or_empty(json::text_in(json::field_of(value, key)))
}

fn member_text(value: Option<&Json>, key: &str) -> (member: String)
    ensures
        member@ == text_of_member(json::referred(value), key@),
{
    match value {
        Some(value) => streams::json_string(value, key),
        None => String::new(),
    }
}

/// The title that the second answer gives.
pub open spec fn room_title(info: Json) -> Seq<char> {
    text_of_member(info.field("data"@), "title"@)
}

/// The cover that the second answer gives: the user's own, or else a frame of the stream.
pub open spec fn room_cover(info: Json) -> Seq<char> {
    let own = text_of_member(info.field("data"@), "user_cover"@);
    if own.len() == 0 {
        text_of_member(info.field("data"@), "keyframe"@)
    } else {
        own
    }
}

/// The member `key` of what the third answer says of the user, where it was given.
pub open spec fn master_text(master: Result<Json, Failure>, key: Seq<char>) -> Seq<char> {
    match master {
        Ok(master) => if http::code_of(master) == 0 {
            text_of_member(json::field_of(master.field("data"@), "info"@), key)
        } else {
            Seq::empty()
        },
        Err(_) => Seq::empty(),
    }
}

// ---------------------------------------------------------------------------
// The questions in turn
// ---------------------------------------------------------------------------

/// How far the questions about a room have come.
#[derive(Debug)]
pub enum RoomQuery {
    /// The room's numbers and state were asked for.
    Init,
    /// Title and cover were asked for.
    Info(RoomInit),
    /// The user was asked for.
    Master { room: RoomInit, title: String, cover: String },
}

/// What a [`RoomQuery`] says.
pub enum RoomQueryView {
    Init,
    Info(RoomInit),
    Master { room: RoomInit, title: Seq<char>, cover: Seq<char> },
}

impl View for RoomQuery {
    type V = RoomQueryView;

    open spec fn view(&self) -> RoomQueryView {
        match self {
            RoomQuery::Init => RoomQueryView::Init,
            RoomQuery::Info(room) => RoomQueryView::Info(*room),
            RoomQuery::Master { room, title, cover } => RoomQueryView::Master {
                room: *room,
                title: title@,
                cover: cover@,
            },
        }
    }
}

/// What to do next about a room.
#[derive(Debug)]
pub enum RoomStep {
    /// Follow the share link.
    Follow { url: String },
    /// Put a question to the API.
    Ask { url: String, referer: Option<String>, query: RoomQuery },
    /// All is known.
    Found(LiveInfo),
    /// The room cannot be read.
    Failed(ParseError),
}

/// What a [`RoomStep`] says.
pub enum RoomStepView {
    Follow { url: Seq<char> },
    Ask { url: Seq<char>, referer: Option<Seq<char>>, query: RoomQueryView },
    Found(LiveInfoView),
    Failed(Failure),
}

impl View for RoomStep {
    type V = RoomStepView;

    open spec fn view(&self) -> RoomStepView {
        match self {
            RoomStep::Follow { url } => RoomStepView::Follow { url: url@ },
            RoomStep::Ask { url, referer, query } => RoomStepView::Ask {
                url: url@,
                referer: text::opt_view(*referer),
                query: query@,
            },
            RoomStep::Found(info) => RoomStepView::Found(info@),
            RoomStep::Failed(error) => RoomStepView::Failed(error@),
        }
    }
}

/// The question for the numbers and the state of a room.
pub open spec fn ask_init(room_id: Seq<char>) -> RoomStepView {
    RoomStepView::Ask {
        url: "https://api.live.bilibili.com/room/v1/Room/room_init?id="@ + room_id,
        referer: None,
        query: RoomQueryView::Init,
    }
}

/// The question for title and cover.
pub open spec fn ask_info(room: RoomInit) -> RoomStepView {
    let id = number::signed_decimal(room.room_id as int);
    RoomStepView::Ask {
        url: "https://api.live.bilibili.com/room/v1/Room/get_info?room_id="@ + id + "&from=room"@,
        referer: Some(room_page(id)),
        query: RoomQueryView::Info(room),
    }
}

/// The question for the user.
pub open spec fn ask_master(room: RoomInit, title: Seq<char>, cover: Seq<char>) -> RoomStepView {
    RoomStepView::Ask {
        url: "https://api.live.bilibili.com/live_user/v1/Master/info?uid="@
            + number::signed_decimal(room.uid as int),
        referer: None,
        query: RoomQueryView::Master { room, title, cover },
    }
}

/// All that is known of a room.
pub open spec fn live_info(
    room: RoomInit,
    title: Seq<char>,
    cover: Seq<char>,
    name: Seq<char>,
    avatar: Seq<char>,
) -> LiveInfoView {
    LiveInfoView {
        platform: "bilibili"@,
        room_id: number::signed_decimal(room.room_id as int),
        short_id: match room.short_id {
            Some(id) => Some(number::signed_decimal(id as int)),
            None => None,
        },
        uid: room.uid,
        anchor_name: name,
        room_title: title,
        cover_url: cover,
        avatar_url: avatar,
        is_live: room.is_live,
    }
}

/// The first step for the user's text.
pub open spec fn first_step(target: Result<TargetView, Failure>) -> RoomStepView {
    match target {
        Err(failure) => RoomStepView::Failed(failure),
        Ok(TargetView::ShareLink(url)) => RoomStepView::Follow { url },
        Ok(TargetView::Room(id)) => ask_init(id),
    }
}

/// The step after a share link was followed.
pub open spec fn step_after_link(room: Result<Seq<char>, Failure>) -> RoomStepView {
    match room {
        Ok(id) => ask_init(id),
        Err(failure) => RoomStepView::Failed(failure),
    }
}

/// The step after an answer of the API. The user's name and picture are not insisted on: where
/// the room has no user, or the answer fails, they stay empty.
pub open spec fn step_after(query: RoomQueryView, answer: Result<Json, Failure>) -> RoomStepView {
    match (query, answer) {
        (RoomQueryView::Master { room, title, cover }, _) => RoomStepView::Found(
            live_info(
                room,
                title,
                cover,
                master_text(answer, "uname"@),
                master_text(answer, "face"@),
            ),
        ),
        (_, Err(failure)) => RoomStepView::Failed(failure),
        (RoomQueryView::Info(room), Ok(info)) => match http::api_failure(
            info,
            "读取直播间信息"@,
        ) {
            Some(failure) => RoomStepView::Failed(failure),
            None => if room.uid > 0 {
                ask_master(room, room_title(info), room_cover(info))
            } else {
                RoomStepView::Found(
                    live_info(
                        room,
                        room_title(info),
                        room_cover(info),
                        Seq::empty(),
                        Seq::empty(),
                    ),
                )
            },
        },
        (_, Ok(init)) => match room_init(init) {
            Ok(room) => ask_info(room),
            Err(failure) => RoomStepView::Failed(failure),
        },
    }
}

fn begin_init(room_id: &str) -> (step: RoomStep)
    ensures
        step@ == ask_init(room_id@),
{
    RoomStep::Ask {
        url: text::cat2("https://api.live.bilibili.com/room/v1/Room/room_init?id=", room_id),
        referer: None,
        query: RoomQuery::Init,
    }
}

fn found(room: RoomInit, title: String, cover: String, name: String, avatar: String) -> (info:
    LiveInfo)
    ensures
        info@ == live_info(room, title@, cover@, name@, avatar@),
{
    LiveInfo {
        platform: "bilibili".to_owned(),
        room_id: number::i64_text(room.room_id),
        short_id: match room.short_id {
            Some(id) => Some(number::i64_text(id)),
            None => None,
        },
        uid: room.uid,
        anchor_name: name,
        room_title: title,
        cover_url: cover,
        avatar_url: avatar,
        is_live: room.is_live,
    }
}

/// The first step for what the user's text leads to.
pub fn begin_query(target: Result<Target, ParseError>) -> (step: RoomStep)
    ensures
        step@ == first_step(input::target_outcome(target)),
{
    match target {
        Ok(Target::Room(id)) => begin_init(id.as_str()),
        Ok(Target::ShareLink(url)) => RoomStep::Follow { url },
        Err(error) => RoomStep::Failed(error),
    }
}

/// The step after a share link was followed.
pub fn resume_link(reply: LinkReply) -> (step: RoomStep)
    requires
        reply matches LinkReply::Response { status, .. } ==> 100 <= status <= 999,
    ensures
        step@ == step_after_link(input::linked_room(reply)),
{
    match input::resolve_share_link(reply) {
        Ok(id) => begin_init(id.as_str()),
        Err(error) => RoomStep::Failed(error),
    }
}

/// The step after an answer of the API.
pub fn resume_query(query: RoomQuery, answer: Result<Json, ParseError>) -> (step: RoomStep)
    ensures
        step@ == step_after(query@, http::json_outcome(answer)),
{
    match query {
        RoomQuery::Init => {
            let init = match answer {
                Ok(init) => init,
                Err(error) => return RoomStep::Failed(error),
            };
            let room = match read_room_init(&init) {
                Ok(room) => room,
                Err(error) => return RoomStep::Failed(error),
            };
            let id = number::i64_text(room.room_id);
            RoomStep::Ask {
                url: text::cat3(
                    "https://api.live.bilibili.com/room/v1/Room/get_info?room_id=",
                    id.as_str(),
                    "&from=room",
                ),
                referer: Some(live_page(id.as_str())),
                query: RoomQuery::Info(room),
            }
        },
        RoomQuery::Info(room) => {
            let info = match answer {
                Ok(info) => info,
                Err(error) => return RoomStep::Failed(error),
            };
            if let Err(error) = http::ensure_api_success(&info, "读取直播间信息") {
                return RoomStep::Failed(error);
            }
            let data = info.get("data");
            let title = member_text(data, "title");
            let own = member_text(data, "user_cover");
            let cover = if own.as_str().is_empty() {
                member_text(data, "keyframe")
            } else {
                own
            };
            if room.uid > 0 {
                RoomStep::Ask {
                    url: text::cat2(
                        "https://api.live.bilibili.com/live_user/v1/Master/info?uid=",
                        number::i64_text(room.uid).as_str(),
                    ),
                    referer: None,
                    query: RoomQuery::Master { room, title, cover },
                }
            } else {
                RoomStep::Found(found(room, title, cover, String::new(), String::new()))
            }
        },
        RoomQuery::Master { room, title, cover } => {
            let (name, avatar) = match answer {
                Ok(master) => {
                    if http::api_code(&master) == 0 {
                        let user = json::get_in(master.get("data"), "info");
                        (member_text(user, "uname"), member_text(user, "face"))
                    } else {
                        (String::new(), String::new())
                    }
                },
                Err(_) => (String::new(), String::new()),
            };
            RoomStep::Found(found(room, title, cover, name, avatar))
        },
    }
}

// ---------------------------------------------------------------------------
// The questions as a whole
// ---------------------------------------------------------------------------

/// What the questions about a room are answered with.
pub struct RoomWorld {
    pub link: LinkReply,
    pub init: Result<Json, Failure>,
    pub info: Result<Json, Failure>,
    pub master: Result<Json, Failure>,
}

/// The step that follows.
pub open spec fn next_step(step: RoomStepView, world: RoomWorld) -> Option<RoomStepView> {
    match step {
        RoomStepView::Follow { .. } => Some(step_after_link(input::linked_room(world.link))),
        RoomStepView::Ask { query, .. } => match query {
            RoomQueryView::Init => Some(step_after(query, world.init)),
            RoomQueryView::Info(_) => Some(step_after(query, world.info)),
            RoomQueryView::Master { .. } => Some(step_after(query, world.master)),
        },
        RoomStepView::Found(_) => None,
        RoomStepView::Failed(_) => None,
    }
}

/// How many steps can still follow.
pub open spec fn steps_left(step: RoomStepView) -> nat {
    match step {
        RoomStepView::Follow { .. } => 4,
        RoomStepView::Ask { query, .. } => match query {
            RoomQueryView::Init => 3,
            RoomQueryView::Info(_) => 2,
            RoomQueryView::Master { .. } => 1,
        },
        RoomStepView::Found(_) => 0,
        RoomStepView::Failed(_) => 0,
    }
}

/// Where the steps from `step` on end.
pub open spec fn ending(step: RoomStepView, world: RoomWorld) -> RoomStepView
    decreases steps_left(step),
{
    match next_step(step, world) {
        None => step,
        Some(next) => ending(next, world),
    }
}

/// The number of the room that is asked for, once a share link was followed.
pub open spec fn asked_room(target: Result<TargetView, Failure>, link: LinkReply) -> Result<
    Seq<char>,
    Failure,
> {
    match target {
        Err(failure) => Err(failure),
        Ok(TargetView::Room(id)) => Ok(id),
        Ok(TargetView::ShareLink(_)) => input::linked_room(link),
    }
}

/// Why a room cannot be read, where it cannot: the first thing that goes wrong in finding its
/// number, in its numbers and state, or in its title and cover.
pub open spec fn room_failure(target: Result<TargetView, Failure>, world: RoomWorld) -> Option<
    Failure,
> {
    match asked_room(target, world.link) {
        Err(failure) => Some(failure),
        Ok(_) => match world.init {
            Err(failure) => Some(failure),
            Ok(init) => match room_init(init) {
                Err(failure) => Some(failure),
                Ok(_) => match world.info {
                    Err(failure) => Some(failure),
                    Ok(info) => http::api_failure(info, "读取直播间信息"@),
                },
            },
        },
    }
}

/// The questions end: with the first thing that goes wrong, or with what the answers say of the
/// room. The user is asked for only where the room has one, and a failure of that answer does not
/// count.
pub proof fn law_what_is_found(target: Result<TargetView, Failure>, world: RoomWorld)
    ensures
        ({
            let last = ending(first_step(target), world);
            let failure = room_failure(target, world);
            let room = room_init(world.init->Ok_0)->Ok_0;
            let info = world.info->Ok_0;
            &&& failure is Some ==> last == RoomStepView::Failed(failure->0)
            &&& failure is None ==> last == RoomStepView::Found(
                live_info(
                    room,
                    room_title(info),
                    room_cover(info),
                    if room.uid > 0 {
                        master_text(world.master, "uname"@)
                    } else {
                        Seq::empty()
                    },
                    if room.uid > 0 {
                        master_text(world.master, "face"@)
                    } else {
                        Seq::empty()
                    },
                ),
            )
        }),
{
    reveal_with_fuel(ending, 6);
}

/// A room that is hidden, locked or encrypted is never found.
pub proof fn law_closed_rooms_are_not_found(
    target: Result<TargetView, Failure>,
    world: RoomWorld,
)
    requires
        world.init matches Ok(init) && (init.field("data"@) matches Some(data) && (is_set(
            data,
            "is_hidden"@,
        ) || is_set(data, "is_locked"@) || is_set(data, "encrypted"@))),
    ensures
        ending(first_step(target), world) is Failed,
{
    law_what_is_found(target, world);
}

/// A room number is asked for as it is, however much white space is around it; no address is taken
/// apart for that.
pub proof fn law_room_numbers_are_asked_for(s: Seq<char>)
    requires
        input::is_number(text::trimmed(s)),
    ensures
        first_step(input::target_in(s)) == ask_init(text::trimmed(s)),
{
}

// ---------------------------------------------------------------------------
// Streams
// ---------------------------------------------------------------------------

/// The qualities that the platform knows by number.
pub open spec fn is_known_quality(qn: i64) -> bool {
    qn == 10000 || qn == 400 || qn == 250 || qn == 150 || qn == 80
}

/// The quality that a setting stands for: the best one, unless it names another known one.
pub open spec fn quality_number(quality: Seq<char>) -> i64 {
    match number::parsed_i64(quality) {
        Some(qn) => if is_known_quality(qn) {
            qn
        } else {
            10000
        },
        None => 10000,
    }
}

/// The quality that a setting stands for: the best one, unless it names another known one.
pub fn normalize_quality(quality: &str) -> (qn: i64)
    ensures
        qn == quality_number(quality@),
        is_known_quality(qn),
{
    let parsed: i64 = match number::parse_i64(quality) {
        Some(parsed) => parsed,
        None => 10000,
    };
    if parsed == 10000 || parsed == 400 || parsed == 250 || parsed == 150 || parsed == 80 {
        parsed
    } else {
        10000
    }
}

/// The question for the streams of a room.
#[derive(Debug)]
pub struct StreamQuestion {
    pub url: String,
    pub referer: String,
    pub requested_qn: i64,
}

/// The address of the question for the streams of a room in the quality `qn`.
pub open spec fn play_url(room_id: Seq<char>, qn: i64) -> Seq<char> {
    "https://api.live.bilibili.com/xlive/web-room/v2/index/getRoomPlayInfo?room_id="@ + room_id
        + "&protocol=0,1&format=0,1,2&codec=0&qn="@ + number::signed_decimal(qn as int)
        + "&platform=web&ptype=8"@
}

/// The stream that the answer offers, where the room is live.
pub open spec fn offered_stream(answer: Result<Json, Failure>, requested_qn: i64) -> Result<
    SelectionView,
    Failure,
> {
    match answer {
        Err(failure) => Err(failure),
        Ok(response) => match http::api_failure(response, "获取直播流"@) {
            Some(failure) => Err(failure),
            None => if json::integer_in(json::field_of(response.field("data"@), "live_status"@))
                != Some(1i64) {
                Err(error::failure("主播未开播"@))
            } else {
                streams::selected(response, requested_qn)
            },
        },
    }
}

/// The stream that the answer offers, where the room is live.
pub fn read_stream_selection(answer: Result<Json, ParseError>, requested_qn: i64) -> (outcome:
    Result<StreamSelection, ParseError>)
    ensures
        streams::selection_view(outcome) == offered_stream(
            http::json_outcome(answer),
            requested_qn,
        ),
{
    let response = match answer {
        Ok(response) => response,
        Err(error) => return Err(error),
    };
    if let Err(error) = http::ensure_api_success(&response, "获取直播流") {
        return Err(error);
    }
    let status = match json::get_in(response.get("data"), "live_status") {
        Some(status) => status.as_i64(),
        None => None,
    };
    if !is_real_live_status(status) {
        return Err(ParseError::new("主播未开播".to_owned()));
    }
    streams::select_streams(&response, requested_qn)
}

// ---------------------------------------------------------------------------
// The session
// ---------------------------------------------------------------------------

/// How the HTTP client is set up.
#[derive(Debug)]
pub struct ClientSetup {
    pub user_agent: &'static str,
    pub connect_timeout_secs: u64,
    pub timeout_secs: u64,
    pub max_redirects: usize,
    pub proxy: Option<String>,
}

/// The proxy that a setting names: none where it is blank.
pub open spec fn proxy_in(setting: Seq<char>) -> Option<Seq<char>> {
    if text::trimmed(setting).len() == 0 {
        None
    } else {
        Some(text::trimmed(setting))
    }
}

/// How the HTTP client is set up for the proxy that the setting names.
pub fn build_client(proxy: &str) -> (setup: ClientSetup)
    ensures
        setup.user_agent@ == http::BILIBILI_UA@,
        setup.connect_timeout_secs == 10,
        setup.timeout_secs == 20,
        setup.max_redirects == 5,
        text::opt_view(setup.proxy) == proxy_in(proxy@),
{
    let inner = text::trim(proxy);
    ClientSetup {
        user_agent: http::BILIBILI_UA,
        connect_timeout_secs: 10,
        timeout_secs: 20,
        max_redirects: 5,
        proxy: if inner.is_empty() {
            None
        } else {
            Some(inner.to_owned())
        },
    }
}

/// Why there is no HTTP client.
#[derive(Debug)]
pub enum ClientFault {
    Proxy(String),
    Client(String),
}

/// The failure of a query for which no HTTP client could be had.
pub fn client_error(fault: ClientFault) -> (error: ParseError)
    ensures
        fault matches ClientFault::Proxy(detail) ==> error@ == error::failure(
            "代理配置无效: "@ + detail@,
        ),
        fault matches ClientFault::Client(detail) ==> error@ == error::failure(
            "创建 HTTP 客户端失败: "@ + detail@,
        ),
{
    match fault {
        ClientFault::Proxy(detail) => ParseError::new(
            text::cat2("代理配置无效: ", detail.as_str()),
        ),
        ClientFault::Client(detail) => ParseError::new(
            text::cat2("创建 HTTP 客户端失败: ", detail.as_str()),
        ),
    }
}

/// The queries to the platform. They share one HTTP client for as long as the proxy setting
/// stays the same.
#[derive(Debug)]
pub struct BilibiliParser {
    session: Option<String>,
}

impl View for BilibiliParser {
    /// The proxy setting of the current client, if there is one.
    type V = Option<Seq<char>>;

    closed spec fn view(&self) -> Option<Seq<char>> {
        text::opt_view(self.session)
    }
}

/// A client has to be built before a query.
pub open spec fn client_is_needed(current: Option<Seq<char>>, proxy: Seq<char>) -> bool {
    current != Some(proxy)
}

/// Once a client was built for a proxy setting, another one is needed exactly where the setting
/// changes.
pub proof fn law_client_follows_the_proxy(built: Seq<char>, proxy: Seq<char>)
    ensures
        client_is_needed(Some(built), proxy) == (proxy != built),
        client_is_needed(None, proxy),
{
}

impl BilibiliParser {
    /// No client yet.
    pub fn new() -> (parser: Self)
        ensures
            parser@ is None,
    {
        Self { session: None }
    }

    /// Whether a client has to be built before a query under this proxy setting.
    pub fn needs_client(&self, proxy: &str) -> (needed: bool)
        ensures
            needed == client_is_needed(self@, proxy@),
    {
        !text::opt_is(&self.session, proxy)
    }

    /// A client was built for this proxy setting.
    pub fn client_built(&mut self, proxy: &str)
        ensures
            final(self)@ == Some(proxy@),
    {
        self.session = Some(proxy.to_owned());
    }

    /// The first step of finding out about the room that the user's text leads to.
    pub fn parse_bilibili_url(&self, input: &str) -> (step: RoomStep)
        ensures
            step@ == first_step(input::target_in(input@)),
    {
        begin_query(input::resolve_input_room_id(input))
    }

    /// The question for the streams of a room. [`read_stream_selection`] reads the answer.
    pub fn get_stream_selection(&self, room_id: &str, quality: &str) -> (question: StreamQuestion)
        ensures
            question.requested_qn == quality_number(quality@),
            question.url@ == play_url(room_id@, question.requested_qn),
            question.referer@ == room_page(room_id@),
    {
        let requested_qn = normalize_quality(quality);
        let url = text::cat5(
            "https://api.live.bilibili.com/xlive/web-room/v2/index/getRoomPlayInfo?room_id=",
            room_id,
            "&protocol=0,1&format=0,1,2&codec=0&qn=",
            number::i64_text(requested_qn).as_str(),
            "&platform=web&ptype=8",
        );
        StreamQuestion { url, referer: live_page(room_id), requested_qn }
    }
}

// ---------------------------------------------------------------------------
// Laws over the members of the answers
// ---------------------------------------------------------------------------

/// The member is the integer `n`.
pub open spec fn is_integer(member: Option<Json>, n: i64) -> bool {
    member matches Some(Json::Number(Some(m))) && m == n
}

/// The member is a text, and these are its words; or it is no text, and there are none.
pub open spec fn is_wording(member: Option<Json>, words: Seq<char>) -> bool {
    match member {
        Some(Json::Text(text)) => words == text@,
        _ => words.len() == 0,
    }
}

/// A room is read exactly where the code is 0, the data are an object that has none of the three
/// flags set, and its number is an integer. The room is live exactly where its status is the
/// integer 1: neither 0 nor 2 nor a missing status counts.
pub proof fn law_what_the_first_answer_says(init: Json, outcome: Result<RoomInit, ParseError>)
    requires
        call_ensures(read_room_init, (&init,), outcome),
    ensures
        ({
            let data = init.field("data"@);
            let hidden = data->0.field("is_hidden"@) == Some(Json::Bool(true));
            let locked = data->0.field("is_locked"@) == Some(Json::Bool(true));
            let encrypted = data->0.field("encrypted"@) == Some(Json::Bool(true));
            let accepted = is_integer(init.field("code"@), 0);
            let has_data = data matches Some(Json::Object(_));
            let numbered = data->0.field("room_id"@) matches Some(Json::Number(Some(_)));
            &&& outcome is Ok == (accepted && has_data && !hidden && !locked && !encrypted
                && numbered)
            &&& outcome matches Ok(room) ==> {
                &&& room.is_live == is_integer(data->0.field("live_status"@), 1)
                &&& is_integer(data->0.field("room_id"@), room.room_id)
                &&& is_integer(data->0.field("uid"@), room.uid) || room.uid == 0 && !(
                data->0.field("uid"@) matches Some(Json::Number(Some(_))))
                &&& room.short_id matches Some(id) ==> id > 0 && is_integer(
                    data->0.field("short_id"@),
                    id,
                )
                &&& room.short_id is None ==> forall|id: i64|
                    id > 0 ==> !#[trigger] is_integer(data->0.field("short_id"@), id)
            }
            &&& accepted ==> (outcome matches Err(error) ==> !error@.rate_limited && error@.message
                == (if !has_data {
                "Bilibili 返回的房间数据为空"@
            } else if hidden {
                "该直播间已隐藏，无法录制"@
            } else if locked {
                "该直播间已锁定，无法录制"@
            } else if encrypted {
                "暂不支持需要密码的直播间"@
            } else {
                "无法获取真实房间号"@
            }))
        }),
{
    if let Ok(room) = outcome {
        let data = init.field("data"@)->0;
        assert(Ok::<RoomInit, Failure>(room) == room_in_data(data));
        if room.short_id is None {
            assert forall|id: i64| id > 0 implies !#[trigger] is_integer(
                data.field("short_id"@),
                id,
            ) by {}
        }
    }
}

/// A room that is found in the end is live exactly where the status in the first answer is the
/// integer 1, and its numbers are those of that answer.
pub proof fn law_a_found_room_is_live_by_its_status(
    target: Result<TargetView, Failure>,
    world: RoomWorld,
)
    ensures
        ending(first_step(target), world) matches RoomStepView::Found(info) ==> {
            &&& world.init matches Ok(init)
            &&& is_integer(init.field("code"@), 0)
            &&& init.field("data"@) matches Some(data)
            &&& info.is_live == is_integer(data.field("live_status"@), 1)
            &&& data.field("room_id"@) matches Some(Json::Number(Some(room_id))) && info.room_id
                == number::signed_decimal(room_id as int)
            &&& info.uid == (match data.field("uid"@) {
                Some(Json::Number(Some(uid))) => uid,
                _ => 0,
            })
            &&& info.short_id == (match data.field("short_id"@) {
                Some(Json::Number(Some(id))) if id > 0 => Some(number::signed_decimal(id as int)),
                _ => None,
            })
            &&& info.platform == "bilibili"@
        },
{
    law_what_is_found(target, world);
}

/// A room is found exactly where its number is known, the first answer can be read, and the second
/// one has the code 0; whatever the third answer is.
pub proof fn law_when_a_room_is_found(target: Result<TargetView, Failure>, world: RoomWorld)
    ensures
        ({
            let named = match target {
                Ok(TargetView::Room(_)) => true,
                Ok(TargetView::ShareLink(_)) => input::linked_room(world.link) is Ok,
                Err(_) => false,
            };
            (ending(first_step(target), world) is Found) == (named && (world.init matches Ok(
                init,
            ) && room_init(init) is Ok) && (world.info matches Ok(info) && is_integer(
                info.field("code"@),
                0,
            )))
        }),
{
    law_what_is_found(target, world);
}

/// Title and cover of a room that is found are those of the second answer: the cover is the user's
/// own, or a frame of the stream where there is none. Name and picture are those of the third
/// answer where the room has a user and that answer has the code 0, and are empty otherwise.
pub proof fn law_who_is_found(target: Result<TargetView, Failure>, world: RoomWorld)
    ensures
        ending(first_step(target), world) matches RoomStepView::Found(info) ==> {
            let data = json::field_of(Some(world.info->Ok_0), "data"@);
            let own = json::field_of(data, "user_cover"@);
            let answered = info.uid > 0 && (world.master matches Ok(master) && is_integer(
                master.field("code"@),
                0,
            ));
            let user = json::field_of(world.master->Ok_0.field("data"@), "info"@);
            &&& is_wording(json::field_of(data, "title"@), info.room_title)
            &&& (own matches Some(Json::Text(words)) && words@.len() > 0) ==> is_wording(
                own,
                info.cover_url,
            )
            &&& !(own matches Some(Json::Text(words)) && words@.len() > 0) ==> is_wording(
                json::field_of(data, "keyframe"@),
                info.cover_url,
            )
            &&& answered ==> is_wording(json::field_of(user, "uname"@), info.anchor_name)
            &&& answered ==> is_wording(json::field_of(user, "face"@), info.avatar_url)
            &&& !answered ==> info.anchor_name.len() == 0 && info.avatar_url.len() == 0
        },
{
    law_what_is_found(target, world);
}

/// Finding out about a room begins with the question for its numbers, or with the share link.
pub proof fn law_what_is_asked_first(target: Target, step: RoomStep)
    requires
        call_ensures(begin_query, (Ok::<Target, ParseError>(target),), step),
    ensures
        target matches Target::Room(id) ==> (step matches RoomStep::Ask { url, referer, query }
            && url@ == "https://api.live.bilibili.com/room/v1/Room/room_init?id="@ + id@
            && referer is None && query is Init),
        target matches Target::ShareLink(link) ==> (step matches RoomStep::Follow { url } && url@
            == link@),
{
    if let RoomStep::Ask { url, referer, query } = step {
        assert(step@ == (RoomStepView::Ask {
            url: url@,
            referer: text::opt_view(referer),
            query: query@,
        }));
    }
}

/// Once the numbers of a room are known, its title and cover are asked for from its page.
pub proof fn law_what_is_asked_second(
    init: Json,
    room: RoomInit,
    step: RoomStep,
)
    requires
        call_ensures(read_room_init, (&init,), Ok::<RoomInit, ParseError>(room)),
        call_ensures(resume_query, (RoomQuery::Init, Ok::<Json, ParseError>(init)), step),
    ensures
        step matches RoomStep::Ask { url, referer, query } && url@
            == "https://api.live.bilibili.com/room/v1/Room/get_info?room_id="@
            + number::signed_decimal(room.room_id as int) + "&from=room"@ && (referer matches Some(
            page,
        ) && page@ == "https://live.bilibili.com/"@ + number::signed_decimal(room.room_id as int))
            && query == RoomQuery::Info(room),
{
    if let RoomStep::Ask { url, referer, query } = step {
        assert(step@ == (RoomStepView::Ask {
            url: url@,
            referer: text::opt_view(referer),
            query: query@,
        }));
    }
}

/// The user is asked for exactly where the room has one.
pub proof fn law_what_is_asked_third(room: RoomInit, info: Json, step: RoomStep)
    requires
        is_integer(info.field("code"@), 0),
        call_ensures(resume_query, (RoomQuery::Info(room), Ok::<Json, ParseError>(info)), step),
    ensures
        (step is Ask) == (room.uid > 0),
        (step is Found) == (room.uid <= 0),
        step matches RoomStep::Ask { url, referer, query } ==> url@
            == "https://api.live.bilibili.com/live_user/v1/Master/info?uid="@
            + number::signed_decimal(room.uid as int) && referer is None && (
        query matches RoomQuery::Master { room: same, .. } && same == room),
{
    if let RoomStep::Ask { url, referer, query } = step {
        assert(step@ == (RoomStepView::Ask {
            url: url@,
            referer: text::opt_view(referer),
            query: query@,
        }));
    }
}

/// The five qualities that the platform knows are asked for as they are set; anything else stands
/// for the best one.
pub proof fn law_qualities(quality: &str, qn: i64)
    requires
        call_ensures(normalize_quality, (quality,), qn),
    ensures
        ({
            let set = number::parsed_i64(quality@);
            if set == Some(400i64) || set == Some(250i64) || set == Some(150i64) || set == Some(
                80i64,
            ) {
                Some(qn) == set
            } else {
                qn == 10000
            }
        }),
{
}

/// The streams of a room are asked for in the quality that is set, from the page of the room.
pub proof fn law_what_is_asked_for_streams(
    parser: BilibiliParser,
    room_id: &str,
    quality: &str,
    qn: i64,
    question: StreamQuestion,
)
    requires
        call_ensures(normalize_quality, (quality,), qn),
        call_ensures(
            BilibiliParser::get_stream_selection,
            (&parser, room_id, quality),
            question,
        ),
    ensures
        question.requested_qn == qn,
        question.url@
            == "https://api.live.bilibili.com/xlive/web-room/v2/index/getRoomPlayInfo?room_id="@
            + room_id@ + "&protocol=0,1&format=0,1,2&codec=0&qn="@ + number::signed_decimal(
            qn as int,
        ) + "&platform=web&ptype=8"@,
        question.referer@ == "https://live.bilibili.com/"@ + room_id@,
{
}

/// A stream is selected from an answer only where the code is 0 and the room is live, which it is
/// exactly where its status is the integer 1.
pub proof fn law_only_live_rooms_have_streams(
    response: Json,
    requested_qn: i64,
    outcome: Result<StreamSelection, ParseError>,
    chosen: Result<StreamSelection, ParseError>,
)
    requires
        call_ensures(
            read_stream_selection,
            (Ok::<Json, ParseError>(response), requested_qn),
            outcome,
        ),
        call_ensures(streams::select_streams, (&response, requested_qn), chosen),
    ensures
        ({
            let live = is_integer(
                json::field_of(response.field("data"@), "live_status"@),
                1,
            );
            &&& is_integer(response.field("code"@), 0) && live ==> streams::selection_view(outcome)
                == streams::selection_view(chosen)
            &&& is_integer(response.field("code"@), 0) && !live ==> (outcome matches Err(error)
                && error@.message == "主播未开播"@ && !error@.rate_limited)
            &&& !is_integer(response.field("code"@), 0) ==> outcome is Err
        }),
{
}

/// The status 1 is live, and no other one is.
pub proof fn law_live_statuses(status: Option<i64>, live: bool)
    requires
        call_ensures(is_real_live_status, (status,), live),
    ensures
        live <==> status == Some(1i64),
{
}

/// The client is that browser, gives up after its times, and goes through the proxy that is set
/// without the white space around it; through none where nothing is left of it.
pub proof fn law_how_the_client_is_set_up(proxy: &str, setup: ClientSetup)
    requires
        call_ensures(build_client, (proxy,), setup),
    ensures
        setup.user_agent@
            == "Mozilla/5.0 (Windows NT 10.0; Win64; x64) AppleWebKit/537.36 (KHTML, like Gecko) Chrome/120.0.0.0 Safari/537.36"@,
        setup.connect_timeout_secs == 10 && setup.timeout_secs == 20 && setup.max_redirects == 5,
        setup.proxy is None <==> text::trimmed(proxy@).len() == 0,
        setup.proxy matches Some(through) ==> through@ == text::trimmed(proxy@),
{
}

/// A client is needed exactly where there is none for the proxy that is set.
pub proof fn law_when_a_client_is_needed(parser: BilibiliParser, proxy: &str, needed: bool)
    requires
        call_ensures(BilibiliParser::needs_client, (&parser, proxy), needed),
    ensures
        parser@ is None ==> needed,
        parser@ matches Some(built) ==> needed == (built != proxy@),
{
}

/// The two failures of a client are told apart.
pub proof fn law_why_there_is_no_client(detail: String, proxy: ParseError, client: ParseError)
    requires
        call_ensures(client_error, (ClientFault::Proxy(detail),), proxy),
        call_ensures(client_error, (ClientFault::Client(detail),), client),
    ensures
        proxy@.message == "代理配置无效: "@ + detail@,
        client@.message == "创建 HTTP 客户端失败: "@ + detail@,
        !proxy@.rate_limited && !client@.rate_limited,
{
}

/// A share link leads to the question for the room at whose address it ended, or to its failure.
pub proof fn law_what_a_share_link_leads_to(
    reply: LinkReply,
    room: Result<String, ParseError>,
    step: RoomStep,
)
    requires
        call_ensures(input::resolve_share_link, (reply,), room),
        call_ensures(resume_link, (reply,), step),
    ensures
        room matches Ok(id) ==> (step matches RoomStep::Ask { url, referer, query } && url@
            == "https://api.live.bilibili.com/room/v1/Room/room_init?id="@ + id@ && referer is None
            && query is Init),
        room matches Err(error) ==> (step matches RoomStep::Failed(same) && same@ == error@),
{
    if let RoomStep::Ask { url, referer, query } = step {
        assert(step@ == (RoomStepView::Ask {
            url: url@,
            referer: text::opt_view(referer),
            query: query@,
        }));
    }
}

/// What the user typed is resolved, and then asked about.
pub proof fn law_what_the_user_asks_for(
    parser: BilibiliParser,
    input: &str,
    target: Result<Target, ParseError>,
    first: RoomStep,
    step: RoomStep,
)
    requires
        call_ensures(input::resolve_input_room_id, (input,), target),
        call_ensures(begin_query, (target,), first),
        call_ensures(BilibiliParser::parse_bilibili_url, (&parser, input), step),
    ensures
        step@ == first@,
        target matches Err(error) ==> (step matches RoomStep::Failed(same) && same@ == error@),
{
}

/// A question without an answer about the numbers or the title ends the search with that failure;
/// one about the user does not.
pub proof fn law_what_a_missing_answer_leads_to(
    room: RoomInit,
    title: String,
    cover: String,
    error: ParseError,
    first: RoomStep,
    second: RoomStep,
    third: RoomStep,
)
    requires
        call_ensures(resume_query, (RoomQuery::Init, Err::<Json, ParseError>(error)), first),
        call_ensures(resume_query, (RoomQuery::Info(room), Err::<Json, ParseError>(error)), second),
        call_ensures(
            resume_query,
            (RoomQuery::Master { room, title, cover }, Err::<Json, ParseError>(error)),
            third,
        ),
    ensures
        first matches RoomStep::Failed(same) && same@ == error@,
        second matches RoomStep::Failed(same) && same@ == error@,
        third matches RoomStep::Found(info) && info.is_live == room.is_live && info.room_title@
            == title@ && info.cover_url@ == cover@ && info.anchor_name@.len() == 0
            && info.avatar_url@.len() == 0 && info.uid == room.uid && info.room_id@
            == number::signed_decimal(room.room_id as int) && info.platform@ == "bilibili"@,
{
    if let RoomStep::Found(info) = third {
        assert(third@ == RoomStepView::Found(info@));
    }
}

/// At first there is no client; once one was built for a proxy, it is the one for that proxy.
pub proof fn law_which_client_there_is(
    fresh: BilibiliParser,
    parser: &mut BilibiliParser,
    proxy: &str,
)
    requires
        call_ensures(BilibiliParser::new, (), fresh),
        call_ensures(BilibiliParser::client_built, (parser, proxy), ()),
    ensures
        fresh@ is None,
        final(parser)@ == Some(proxy@),
{
}

/// The page of a room ends with its number.
pub proof fn law_pages_of_rooms(room_id: &str, url: String)
    requires
        call_ensures(live_page, (room_id,), url),
    ensures
        url@ == "https://live.bilibili.com/"@ + room_id@,
{
}

/// A copy of what is known of a room says the same.
pub proof fn law_copies_of_rooms(info: LiveInfo, copy: LiveInfo)
    requires
        call_ensures(LiveInfo::clone, (&info,), copy),
    ensures
        copy.platform@ == info.platform@,
        copy.room_id@ == info.room_id@,
        text::opt_view(copy.short_id) == text::opt_view(info.short_id),
        copy.uid == info.uid,
        copy.anchor_name@ == info.anchor_name@,
        copy.room_title@ == info.room_title@,
        copy.cover_url@ == info.cover_url@,
        copy.avatar_url@ == info.avatar_url@,
        copy.is_live == info.is_live,
{
    assert(copy@ == info@);
    assert(copy@.is_live == copy.is_live);
}

} // verus!
