use bilibili_recorder::json::Json;
use bilibili_recorder::parser::http::{
    api_code, ensure_api_success, link_headers, request_headers, request_json, wants_body, ApiReply,
    Header,
};
use bilibili_recorder::parser::input::{
    extract_numeric_path_segment, resolve_input_room_id, resolve_share_link, target_of_url,
    LinkReply, Target, UrlParts,
};
use bilibili_recorder::parser::room::{
    build_client, client_error, is_real_live_status, normalize_quality, read_room_init,
    read_stream_selection, resume_link, resume_query, ClientFault, RoomQuery, RoomStep,
};
use bilibili_recorder::parser::streams::{json_string, select_streams};
use bilibili_recorder::parser::{BilibiliParser, LiveInfo, ParseError, BILIBILI_UA};

fn text(s: &str) -> Json {
    Json::Text(s.to_string())
}

fn integer(n: i64) -> Json {
    Json::Number(Some(n))
}

fn object(members: Vec<(&str, Json)>) -> Json {
    Json::Object(
        members
            .into_iter()
            .map(|(name, value)| (name.to_string(), value))
            .collect(),
    )
}

fn host(host: &str, extra: &str) -> Json {
    object(vec![("host", text(host)), ("extra", text(extra))])
}

fn stream(protocol: &str, format: &str, codecs: Vec<Json>) -> Json {
    object(vec![
        ("protocol_name", text(protocol)),
        (
            "format",
            Json::Array(vec![object(vec![
                ("format_name", text(format)),
                ("codec", Json::Array(codecs)),
            ])]),
        ),
    ])
}

fn codec(name: &str, qn: Option<i64>, base: &str, hosts: Vec<Json>) -> Json {
    let mut members = vec![
        ("codec_name", text(name)),
        ("base_url", text(base)),
        ("url_info", Json::Array(hosts)),
    ];
    if let Some(qn) = qn {
        members.push(("current_qn", integer(qn)));
    }
    object(members)
}

fn playing(streams: Vec<Json>) -> Json {
    object(vec![
        ("code", integer(0)),
        (
            "data",
            object(vec![
                ("live_status", integer(1)),
                (
                    "playurl_info",
                    object(vec![(
                        "playurl",
                        object(vec![("stream", Json::Array(streams))]),
                    )]),
                ),
            ]),
        ),
    ])
}

fn answered(data: Json) -> Json {
    object(vec![("code", integer(0)), ("data", data)])
}

fn failure_of(step: RoomStep) -> String {
    match step {
        RoomStep::Failed(error) => error.message().to_string(),
        other => panic!("{:?}", other),
    }
}

fn ask_of(step: RoomStep) -> (String, Option<String>, RoomQuery) {
    match step {
        RoomStep::Ask { url, referer, query } => (url, referer, query),
        other => panic!("{:?}", other),
    }
}

fn found_of(step: RoomStep) -> LiveInfo {
    match step {
        RoomStep::Found(info) => info,
        other => panic!("{:?}", other),
    }
}

fn room_of(input: &str) -> String {
    match resolve_input_room_id(input) {
        Ok(Target::Room(id)) => id,
        other => panic!("{:?}", other),
    }
}

#[test]
fn extracts_room_id_from_supported_live_urls() {
    for (url, expected) in [
        ("https://live.bilibili.com/6", "6"),
        ("https://live.bilibili.com/blanc/12345?live_from=1", "12345"),
    ] {
        let url = UrlParts::parse(url).unwrap();
        assert_eq!(
            extract_numeric_path_segment(&url).as_deref(),
            Some(expected)
        );
    }
}

#[test]
fn quality_uses_known_qn_values_only() {
    assert_eq!(normalize_quality("400"), 400);
    assert_eq!(normalize_quality("invalid"), 10000);
}

#[test]
fn stream_selection_prefers_flv_avc_and_preserves_cdn_order() {
    let response = object(vec![(
        "data",
        object(vec![(
            "playurl_info",
            object(vec![(
                "playurl",
                object(vec![(
                    "stream",
                    Json::Array(vec![object(vec![
                        ("protocol_name", text("http_stream")),
                        (
                            "format",
                            Json::Array(vec![object(vec![
                                ("format_name", text("flv")),
                                (
                                    "codec",
                                    Json::Array(vec![object(vec![
                                        ("codec_name", text("avc")),
                                        ("current_qn", integer(250)),
                                        ("base_url", text("/live.flv?")),
                                        (
                                            "url_info",
                                            Json::Array(vec![
                                                host("https://cdn-a.example", "token=a"),
                                                host("https://cdn-b.example", "token=b"),
                                            ]),
                                        ),
                                    ])]),
                                ),
                            ])]),
                        ),
                    ])]),
                )]),
            )]),
        )]),
    )]);
    let selected = select_streams(&response, 10000).unwrap();
    assert_eq!(selected.actual_qn, 250);
    assert_eq!(selected.stream_type, "FLV");
    assert_eq!(selected.candidates.len(), 2);
    assert!(selected.candidates[0]
        .url
        .starts_with("https://cdn-a.example"));
}

#[test]
fn missing_playurl_is_not_recordable() {
    let response = object(vec![(
        "data",
        object(vec![("live_status", integer(2)), ("playurl_info", Json::Null)]),
    )]);
    assert!(select_streams(&response, 10000).is_err());
}

#[test]
fn only_real_live_status_is_recordable() {
    assert!(!is_real_live_status(Some(0)));
    assert!(is_real_live_status(Some(1)));
    assert!(!is_real_live_status(Some(2)));
    assert!(!is_real_live_status(None));
}

#[test]
fn every_known_quality_is_kept() {
    for (setting, expected) in [
        ("10000", 10000),
        ("400", 400),
        ("250", 250),
        ("150", 150),
        ("80", 80),
        ("+80", 80),
        ("81", 10000),
        ("", 10000),
        (" 80", 10000),
        ("99999999999999999999", 10000),
    ] {
        assert_eq!(normalize_quality(setting), expected, "{}", setting);
    }
}

#[test]
fn addresses_are_put_together_in_order() {
    let response = playing(vec![
        stream(
            "http_stream",
            "flv",
            vec![
                codec("hevc", Some(10000), "/h.flv?", vec![host("https://h", "x")]),
                codec("avc", Some(400), "/a.flv?", vec![host("https://a", "1"), host("", "2")]),
            ],
        ),
        stream("http_hls", "ts", vec![codec("avc", Some(80), "/t.ts?", vec![host("https://t", "3")])]),
        stream(
            "http_stream",
            "flv",
            vec![codec("avc", None, "/b.flv?", vec![host("https://b", "4")])],
        ),
    ]);
    let selected = select_streams(&response, 150).unwrap();
    assert_eq!(selected.requested_qn, 150);
    assert_eq!(selected.actual_qn, 150);
    assert_eq!(selected.stream_type, "FLV");
    let urls: Vec<&str> = selected.candidates.iter().map(|c| c.url.as_str()).collect();
    assert_eq!(urls, ["https://a/a.flv?1", "https://b/b.flv?4"]);
    let copy = selected.clone();
    assert_eq!(copy.candidates[1].url, "https://b/b.flv?4");
}

#[test]
fn ts_over_hls_is_taken_where_flv_has_no_address() {
    let response = playing(vec![
        stream("http_stream", "flv", vec![codec("avc", Some(400), "", vec![host("https://a", "1")])]),
        stream("http_hls", "ts", vec![codec("avc", Some(80), "/t.ts?", vec![host("https://t", "3")])]),
    ]);
    let selected = select_streams(&response, 10000).unwrap();
    assert_eq!(selected.stream_type, "HLS-TS");
    assert_eq!(selected.actual_qn, 80);
    assert_eq!(selected.candidates[0].url, "https://t/t.ts?3");
}

#[test]
fn streams_without_avc_are_refused() {
    let response = playing(vec![stream(
        "http_stream",
        "flv",
        vec![codec("hevc", Some(400), "/h.flv", vec![host("https://h", "")])],
    )]);
    let error = select_streams(&response, 10000).unwrap_err();
    assert_eq!(error.message(), "未找到兼容的 AVC 直播流");
    let error = select_streams(&Json::Null, 10000).unwrap_err();
    assert_eq!(error.message(), "Bilibili 未返回可用直播流");
    assert!(!error.is_rate_limited());
}

#[test]
fn texts_in_answers_may_be_missing() {
    let value = object(vec![("a", text("x")), ("b", integer(1))]);
    assert_eq!(json_string(&value, "a"), "x");
    assert_eq!(json_string(&value, "b"), "");
    assert_eq!(json_string(&value, "c"), "");
    assert_eq!(json_string(&Json::Array(vec![]), "a"), "");
}

#[test]
fn numbers_and_addresses_lead_to_rooms() {
    assert_eq!(room_of(" 6 "), "6");
    assert_eq!(room_of("live.bilibili.com/22"), "22");
    assert_eq!(room_of("https://live.bilibili.com/h5/33?x=44"), "33");
    assert_eq!(room_of("HTTPS://LIVE.BILIBILI.COM/55/66"), "55");
}

#[test]
fn share_links_have_to_be_followed() {
    for (input, expected) in [
        ("b23.tv/abc", "https://b23.tv/abc"),
        (" https://www.b23.tv/x ", "https://www.b23.tv/x"),
    ] {
        match resolve_input_room_id(input) {
            Ok(Target::ShareLink(url)) => assert_eq!(url, expected),
            other => panic!("{:?}", other),
        }
    }
}

#[test]
fn other_texts_lead_nowhere() {
    for (input, expected) in [
        ("", "请输入 Bilibili 直播间链接或数字房间号"),
        ("主播", "请输入 Bilibili 直播间链接或数字房间号"),
        ("１２", "请输入 Bilibili 直播间链接或数字房间号"),
        ("https://www.bilibili.com/1", "链接不是 Bilibili 直播间地址"),
        ("mailto:x@y.z", "链接不是 Bilibili 直播间地址"),
        ("https://live.bilibili.com/", "无法从链接中解析直播间号"),
        ("https://live.bilibili.com/a1", "无法从链接中解析直播间号"),
    ] {
        match resolve_input_room_id(input) {
            Err(error) => assert_eq!(error.message(), expected, "{}", input),
            other => panic!("{:?}", other),
        }
    }
}

#[test]
fn urls_are_judged_by_their_parts() {
    let parts = UrlParts {
        host: Some("live.bilibili.com".to_string()),
        segments: Some(vec!["".to_string(), "x".to_string(), "9".to_string(), "8".to_string()]),
    };
    match target_of_url("any".to_string(), Some(parts)) {
        Ok(Target::Room(id)) => assert_eq!(id, "9"),
        other => panic!("{:?}", other),
    }
    let parts = UrlParts { host: Some("live.bilibili.com".to_string()), segments: None };
    let error = target_of_url("any".to_string(), Some(parts)).unwrap_err();
    assert_eq!(error.message(), "无法从链接中解析直播间号");
    assert!(target_of_url("any".to_string(), None).is_err());
}

#[test]
fn followed_links_lead_to_rooms() {
    let url = UrlParts::parse("https://live.bilibili.com/77?broadcast=1").unwrap();
    assert_eq!(resolve_share_link(LinkReply::Response { status: 200, url }).unwrap(), "77");
    let url = UrlParts::parse("https://www.bilibili.com/video/1").unwrap();
    let error = resolve_share_link(LinkReply::Response { status: 200, url }).unwrap_err();
    assert_eq!(error.message(), "链接不是 Bilibili 直播间地址");
    let url = UrlParts::parse("https://b23.tv/1").unwrap();
    let error = resolve_share_link(LinkReply::Response { status: 404, url }).unwrap_err();
    assert_eq!(error.message(), "Bilibili API 返回错误: HTTP 404 Not Found");
    let error = resolve_share_link(LinkReply::NoResponse("超时".to_string())).unwrap_err();
    assert_eq!(error.message(), "解析 Bilibili 分享链接失败: 超时");
}

#[test]
fn refusals_by_status_may_ask_to_slow_down() {
    for (code, shown, limited) in [
        (403, "403 Forbidden", true),
        (429, "429 Too Many Requests", true),
        (500, "500 Internal Server Error", false),
        (100, "100 Continue", false),
        (999, "999 <unknown status code>", false),
    ] {
        let error = ParseError::http(code);
        assert_eq!(error.message(), format!("Bilibili API 返回错误: HTTP {}", shown));
        assert_eq!(error.is_rate_limited(), limited);
        assert_eq!(error.clone().is_rate_limited(), limited);
    }
}

#[test]
fn requests_carry_headers_that_can_be_sent() {
    let headers = request_headers(" SESSDATA=1; 甲 ", Some("https://live.bilibili.com/6")).unwrap();
    assert_eq!(
        headers,
        [
            (Header::UserAgent, BILIBILI_UA.to_string()),
            (Header::Referer, "https://live.bilibili.com/6".to_string()),
            (Header::Cookie, "SESSDATA=1; 甲".to_string()),
        ]
    );
    let headers = request_headers("  ", None).unwrap();
    assert_eq!(headers, [(Header::UserAgent, BILIBILI_UA.to_string())]);
    let error = request_headers("a\nb", None).unwrap_err();
    assert_eq!(error.message(), "Cookie 包含非法字符");
    let error = request_headers("a\u{7f}b", Some("x")).unwrap_err();
    assert_eq!(error.message(), "Cookie 包含非法字符");
    let error = request_headers("a\nb", Some("x\r\n")).unwrap_err();
    assert_eq!(error.message(), "构建 Referer 失败");
    assert!(request_headers("a\tb\u{80}", None).is_ok());
}

#[test]
fn share_links_are_followed_with_the_cookie() {
    assert_eq!(
        link_headers(" a\nb "),
        [
            (Header::UserAgent, BILIBILI_UA.to_string()),
            (Header::Cookie, "a\nb".to_string()),
        ]
    );
    assert_eq!(link_headers(""), [(Header::UserAgent, BILIBILI_UA.to_string())]);
}

#[test]
fn replies_are_json_or_failures() {
    let reply = ApiReply::Response { status: 204, body: Ok(integer(5)) };
    assert!(matches!(request_json(reply), Ok(Json::Number(Some(5)))));
    let reply = ApiReply::Response { status: 200, body: Err("坏".to_string()) };
    assert_eq!(request_json(reply).unwrap_err().message(), "解析 Bilibili API 响应失败: 坏");
    let reply = ApiReply::NoResponse("断".to_string());
    assert_eq!(request_json(reply).unwrap_err().message(), "请求 Bilibili API 失败: 断");
    let reply = ApiReply::Response { status: 300, body: Ok(Json::Null) };
    assert_eq!(
        request_json(reply).unwrap_err().message(),
        "Bilibili API 返回错误: HTTP 300 Multiple Choices"
    );
    let reply = ApiReply::Response { status: 429, body: Ok(Json::Null) };
    assert!(request_json(reply).unwrap_err().is_rate_limited());
}

#[test]
fn bodies_of_refusals_are_not_read() {
    for (status, wanted) in [(199, false), (200, true), (299, true), (300, false), (404, false)] {
        assert_eq!(wants_body(status), wanted);
    }
}

#[test]
fn api_codes_tell_failures() {
    assert_eq!(api_code(&object(vec![("code", integer(3))])), 3);
    assert_eq!(api_code(&object(vec![("code", text("0"))])), -1);
    assert_eq!(api_code(&Json::Null), -1);
    assert!(ensure_api_success(&object(vec![("code", integer(0))]), "x").is_ok());
    let value = object(vec![("code", integer(-412)), ("message", text("慢")), ("msg", text("n"))]);
    let error = ensure_api_success(&value, "解析直播间").unwrap_err();
    assert_eq!(error.message(), "解析直播间失败: 慢 (-412)");
    assert!(error.is_rate_limited());
    let value = object(vec![("code", integer(7)), ("msg", text("没有"))]);
    let error = ensure_api_success(&value, "获取直播流").unwrap_err();
    assert_eq!(error.message(), "获取直播流失败: 没有 (7)");
    assert!(!error.is_rate_limited());
    let value = object(vec![("code", integer(7)), ("message", Json::Null), ("msg", text("m"))]);
    let error = ensure_api_success(&value, "读").unwrap_err();
    assert_eq!(error.message(), "读失败: 未知错误 (7)");
    for code in [-352, -509] {
        let value = object(vec![("code", integer(code))]);
        assert!(ensure_api_success(&value, "读").unwrap_err().is_rate_limited());
    }
}

#[test]
fn closed_rooms_cannot_be_recorded() {
    for (flag, expected) in [
        ("is_hidden", "该直播间已隐藏，无法录制"),
        ("is_locked", "该直播间已锁定，无法录制"),
        ("encrypted", "暂不支持需要密码的直播间"),
    ] {
        let init = answered(object(vec![(flag, Json::Bool(true)), ("room_id", integer(1))]));
        assert_eq!(read_room_init(&init).unwrap_err().message(), expected);
    }
    let init = answered(object(vec![]));
    assert_eq!(read_room_init(&init).unwrap_err().message(), "无法获取真实房间号");
    let init = answered(Json::Array(vec![]));
    assert_eq!(read_room_init(&init).unwrap_err().message(), "Bilibili 返回的房间数据为空");
    let init = object(vec![("code", integer(0))]);
    assert_eq!(read_room_init(&init).unwrap_err().message(), "Bilibili 返回的房间数据为空");
    let init = object(vec![("code", integer(60004))]);
    assert_eq!(
        read_room_init(&init).unwrap_err().message(),
        "解析直播间失败: 未知错误 (60004)"
    );
}

#[test]
fn a_room_is_read_by_three_questions() {
    let parser = BilibiliParser::new();
    let (url, referer, query) = ask_of(parser.parse_bilibili_url(" 6 "));
    assert_eq!(url, "https://api.live.bilibili.com/room/v1/Room/room_init?id=6");
    assert_eq!(referer, None);
    let init = answered(object(vec![
        ("room_id", integer(7734200)),
        ("short_id", integer(6)),
        ("uid", integer(50329118)),
        ("live_status", integer(1)),
        ("is_hidden", Json::Bool(false)),
    ]));
    let (url, referer, query) = ask_of(resume_query(query, Ok(init)));
    assert_eq!(
        url,
        "https://api.live.bilibili.com/room/v1/Room/get_info?room_id=7734200&from=room"
    );
    assert_eq!(referer.as_deref(), Some("https://live.bilibili.com/7734200"));
    let info = answered(object(vec![
        ("title", text("标题")),
        ("user_cover", text("")),
        ("keyframe", text("k.jpg")),
    ]));
    let (url, referer, query) = ask_of(resume_query(query, Ok(info)));
    assert_eq!(url, "https://api.live.bilibili.com/live_user/v1/Master/info?uid=50329118");
    assert_eq!(referer, None);
    let master = answered(object(vec![(
        "info",
        object(vec![("uname", text("主播")), ("face", text("f.jpg"))]),
    )]));
    let info = found_of(resume_query(query, Ok(master)));
    assert_eq!(info.platform, "bilibili");
    assert_eq!(info.room_id, "7734200");
    assert_eq!(info.short_id.as_deref(), Some("6"));
    assert_eq!(info.uid, 50329118);
    assert_eq!(info.anchor_name, "主播");
    assert_eq!(info.room_title, "标题");
    assert_eq!(info.cover_url, "k.jpg");
    assert_eq!(info.avatar_url, "f.jpg");
    assert!(info.is_live);
    assert_eq!(info.clone().room_title, "标题");
}

#[test]
fn a_room_without_user_is_read_by_two_questions() {
    let init = answered(object(vec![("room_id", integer(8)), ("live_status", integer(2))]));
    let (_, _, query) = ask_of(resume_query(RoomQuery::Init, Ok(init)));
    let info = answered(object(vec![("user_cover", text("c")), ("keyframe", text("k"))]));
    let info = found_of(resume_query(query, Ok(info)));
    assert_eq!(info.cover_url, "c");
    assert_eq!(info.short_id, None);
    assert_eq!(info.anchor_name, "");
    assert!(!info.is_live);
}

#[test]
fn a_missing_user_does_not_count_as_a_failure() {
    let answers = vec![
        Err(ParseError::new("断".to_string())),
        Ok(object(vec![("code", integer(-1))])),
        Ok(answered(Json::Null)),
    ];
    for answer in answers {
        let init = answered(object(vec![("room_id", integer(8)), ("uid", integer(9))]));
        let (_, _, query) = ask_of(resume_query(RoomQuery::Init, Ok(init)));
        let (_, _, query) = ask_of(resume_query(query, Ok(answered(Json::Null))));
        let info = found_of(resume_query(query, answer));
        assert_eq!(info.uid, 9);
        assert_eq!(info.anchor_name, "");
        assert_eq!(info.room_title, "");
    }
}

#[test]
fn the_first_failure_ends_the_questions() {
    let step = resume_query(RoomQuery::Init, Err(ParseError::new("断".to_string())));
    assert_eq!(failure_of(step), "断");
    let init = answered(object(vec![("room_id", integer(8))]));
    let (_, _, query) = ask_of(resume_query(RoomQuery::Init, Ok(init)));
    let step = resume_query(query, Ok(object(vec![("code", integer(-352))])));
    assert_eq!(failure_of(step), "读取直播间信息失败: 未知错误 (-352)");
    let step = BilibiliParser::new().parse_bilibili_url("x");
    assert_eq!(failure_of(step), "请输入 Bilibili 直播间链接或数字房间号");
    let step = resume_link(LinkReply::NoResponse("断".to_string()));
    assert_eq!(failure_of(step), "解析 Bilibili 分享链接失败: 断");
}

#[test]
fn a_followed_link_goes_on_with_the_room() {
    match BilibiliParser::new().parse_bilibili_url("b23.tv/q") {
        RoomStep::Follow { url } => assert_eq!(url, "https://b23.tv/q"),
        other => panic!("{:?}", other),
    }
    let url = UrlParts::parse("https://live.bilibili.com/5").unwrap();
    let (url, _, _) = ask_of(resume_link(LinkReply::Response { status: 200, url }));
    assert_eq!(url, "https://api.live.bilibili.com/room/v1/Room/room_init?id=5");
}

#[test]
fn streams_are_asked_for_in_the_wanted_quality() {
    let question = BilibiliParser::new().get_stream_selection("7734200", "250");
    assert_eq!(question.requested_qn, 250);
    assert_eq!(
        question.url,
        "https://api.live.bilibili.com/xlive/web-room/v2/index/getRoomPlayInfo?room_id=7734200&protocol=0,1&format=0,1,2&codec=0&qn=250&platform=web&ptype=8"
    );
    assert_eq!(question.referer, "https://live.bilibili.com/7734200");
}

#[test]
fn only_live_rooms_have_streams() {
    let response = playing(vec![stream(
        "http_stream",
        "flv",
        vec![codec("avc", None, "/a", vec![host("https://a", "")])],
    )]);
    assert_eq!(read_stream_selection(Ok(response), 400).unwrap().actual_qn, 400);
    let response = answered(object(vec![("live_status", integer(2))]));
    assert_eq!(read_stream_selection(Ok(response), 400).unwrap_err().message(), "主播未开播");
    let response = object(vec![("code", integer(-509)), ("message", text("慢"))]);
    let error = read_stream_selection(Ok(response), 400).unwrap_err();
    assert_eq!(error.message(), "获取直播流失败: 慢 (-509)");
    assert!(error.is_rate_limited());
    let error = read_stream_selection(Err(ParseError::new("断".to_string())), 400).unwrap_err();
    assert_eq!(error.message(), "断");
}

#[test]
fn the_client_is_shared_while_the_proxy_stays() {
    let mut parser = BilibiliParser::new();
    assert!(parser.needs_client(""));
    parser.client_built("");
    assert!(!parser.needs_client(""));
    assert!(parser.needs_client("http://p"));
    parser.client_built("http://p");
    assert!(!parser.needs_client("http://p"));
    assert!(parser.needs_client(" http://p"));
}

#[test]
fn the_client_is_set_up_as_a_browser() {
    let setup = build_client(" http://127.0.0.1:7890 ");
    assert_eq!(setup.user_agent, BILIBILI_UA);
    assert_eq!(setup.connect_timeout_secs, 10);
    assert_eq!(setup.timeout_secs, 20);
    assert_eq!(setup.max_redirects, 5);
    assert_eq!(setup.proxy.as_deref(), Some("http://127.0.0.1:7890"));
    assert_eq!(build_client(" \t").proxy, None);
    let error = client_error(ClientFault::Proxy("坏".to_string()));
    assert_eq!(error.message(), "代理配置无效: 坏");
    let error = client_error(ClientFault::Client("坏".to_string()));
    assert_eq!(error.message(), "创建 HTTP 客户端失败: 坏");
}
