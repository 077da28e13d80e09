//! Choosing the stream to record among those that the platform offers.

use vstd::prelude::*;

use crate::json;
use crate::json::Json;
use crate::parser::error;
use crate::parser::error::{Failure, ParseError};
use crate::text;

verus! {

/// One address under which the chosen stream can be fetched.
#[derive(Debug)]
pub struct StreamCandidate {
    pub url: String,
}

/// The chosen stream: its quality, its kind, and the addresses to try in turn.
#[derive(Debug)]
pub struct StreamSelection {
    pub requested_qn: i64,
    pub actual_qn: i64,
    pub stream_type: String,
    pub candidates: Vec<StreamCandidate>,
}

/// What a [`StreamSelection`] says.
pub struct SelectionView {
    pub requested_qn: i64,
    pub actual_qn: i64,
    pub stream_type: Seq<char>,
    pub urls: Seq<Seq<char>>,
}

/// The addresses of the candidates, in order.
pub open spec fn urls_of(candidates: Seq<StreamCandidate>) -> Seq<Seq<char>> {
    candidates.map_values(|candidate: StreamCandidate| candidate.url@)
}

impl View for StreamSelection {
    type V = SelectionView;

    open spec fn view(&self) -> SelectionView {
        SelectionView {
            requested_qn: self.requested_qn,
            actual_qn: self.actual_qn,
            stream_type: self.stream_type@,
            urls: urls_of(self.candidates@),
        }
    }
}

impl Clone for StreamCandidate {
    fn clone(&self) -> (copy: Self)
        ensures
            copy.url@ == self.url@,
    {
        StreamCandidate { url: self.url.clone() }
    }
}

impl Clone for StreamSelection {
    fn clone(&self) -> (copy: Self)
        ensures
            copy@ == self@,
    {
        let mut candidates: Vec<StreamCandidate> = Vec::new();
        let mut i: usize = 0;
        while i < self.candidates.len()
            invariant
                i <= self.candidates@.len(),
                urls_of(candidates@) == urls_of(self.candidates@).take(i as int),
            decreases self.candidates@.len() - i,
        {
            let ghost before = candidates@;
            candidates.push(self.candidates[i].clone());
            assert(urls_of(candidates@) =~= urls_of(before).push(self.candidates@[i as int].url@));
            assert(urls_of(self.candidates@).take(i + 1) =~= urls_of(self.candidates@).take(
                i as int,
            ).push(self.candidates@[i as int].url@));
            i += 1;
        }
        assert(urls_of(self.candidates@).take(i as int) =~= urls_of(self.candidates@));
        StreamSelection {
            requested_qn: self.requested_qn,
            actual_qn: self.actual_qn,
            stream_type: self.stream_type.clone(),
            candidates,
        }
    }
}

// ---------------------------------------------------------------------------
// What the answer offers
// ---------------------------------------------------------------------------

/// The streams that the answer lists, where it lists any.
pub open spec fn stream_list(response: Json) -> Option<Seq<Json>> {
    let streams = json::field_of(
        json::field_of(
            json::field_of(response.field("data"@), "playurl_info"@),
            "playurl"@,
        ),
        "stream"@,
    );
    match streams {
        Some(Json::Array(items)) => Some(items@),
        _ => None,
    }
}

/// The member `key` of `value` is the text `expected`.
pub open spec fn says(value: Json, key: Seq<char>, expected: Seq<char>) -> bool {
    json::text_in(value.field(key)) == Some(expected)
}

/// The parts, one after the other.
pub open spec fn flat<A>(parts: Seq<Seq<A>>) -> Seq<A>
    decreases parts.len(),
{
    if parts.len() == 0 {
        Seq::empty()
    } else {
        flat(parts.drop_last()) + parts.last()
    }
}

/// The AVC codecs of a format, where it is called `format_name`.
pub open spec fn format_codecs(format: Json, format_name: Seq<char>) -> Seq<Json> {
    if says(format, "format_name"@, format_name) {
        json::elements_in(format.field("codec"@)).filter(
            |codec: Json| says(codec, "codec_name"@, "avc"@),
        )
    } else {
        Seq::empty()
    }
}

/// The AVC codecs in the formats of a stream, where its protocol is `protocol`.
pub open spec fn stream_codecs(stream: Json, protocol: Seq<char>, format_name: Seq<char>) -> Seq<
    Json,
> {
    if says(stream, "protocol_name"@, protocol) {
        flat(
            json::elements_in(stream.field("format"@)).map_values(
                |format: Json| format_codecs(format, format_name),
            ),
        )
    } else {
        Seq::empty()
    }
}

/// The AVC codecs that are offered over `protocol` in the format `format_name`, in the order in
/// which the answer lists them.
pub open spec fn offered_codecs(
    streams: Seq<Json>,
    protocol: Seq<char>,
    format_name: Seq<char>,
) -> Seq<Json> {
    flat(streams.map_values(|stream: Json| stream_codecs(stream, protocol, format_name)))
}

/// The addresses that a host gives for the path `base`: none unless both are there.
pub open spec fn host_urls(info: Json, base: Seq<char>) -> Seq<Seq<char>> {
    let host = json::or_empty(json::text_in(info.field("host"@)));
    let extra = json::or_empty(json::text_in(info.field("extra"@)));
    if host.len() > 0 && base.len() > 0 {
        seq![host + base + extra]
    } else {
        Seq::empty()
    }
}

/// The addresses of a codec, in the order of its hosts.
pub open spec fn codec_urls(codec: Json) -> Seq<Seq<char>> {
    let base = json::or_empty(json::text_in(codec.field("base_url"@)));
    flat(
        json::elements_in(codec.field("url_info"@)).map_values(|info: Json| host_urls(info, base)),
    )
}

/// The addresses of all the codecs, in order.
pub open spec fn all_urls(codecs: Seq<Json>) -> Seq<Seq<char>> {
    flat(codecs.map_values(|codec: Json| codec_urls(codec)))
}

/// The quality of the last of the codecs; where it does not say, the one asked for.
pub open spec fn quality_of(codecs: Seq<Json>, requested_qn: i64) -> i64 {
    if codecs.len() == 0 {
        0
    } else {
        match json::integer_in(codecs.last().field("current_qn"@)) {
            Some(qn) => qn,
            None => requested_qn,
        }
    }
}

/// The selection among the streams offered over `protocol` as `format_name`, if they have an
/// address.
pub open spec fn selection_by(
    streams: Seq<Json>,
    protocol: Seq<char>,
    format_name: Seq<char>,
    stream_type: Seq<char>,
    requested_qn: i64,
) -> Option<SelectionView> {
    let codecs = offered_codecs(streams, protocol, format_name);
    if all_urls(codecs).len() > 0 {
        Some(
            SelectionView {
                requested_qn,
                actual_qn: quality_of(codecs, requested_qn),
                stream_type,
                urls: all_urls(codecs),
            },
        )
    } else {
        None
    }
}

/// The stream to record: FLV over HTTP, or else TS over HLS.
pub open spec fn selected(response: Json, requested_qn: i64) -> Result<SelectionView, Failure> {
    match stream_list(response) {
        None => Err(error::failure("Bilibili 未返回可用直播流"@)),
        Some(streams) => {
            let flv = selection_by(streams, "http_stream"@, "flv"@, "FLV"@, requested_qn);
            let ts = selection_by(streams, "http_hls"@, "ts"@, "HLS-TS"@, requested_qn);
            match (flv, ts) {
                (Some(selection), _) => Ok(selection),
                (None, Some(selection)) => Ok(selection),
                (None, None) => Err(error::failure("未找到兼容的 AVC 直播流"@)),
            }
        },
    }
}

/// What the outcome of a selection says.
pub open spec fn selection_view(outcome: Result<StreamSelection, ParseError>) -> Result<
    SelectionView,
    Failure,
> {
    match outcome {
        Ok(selection) => Ok(selection@),
        Err(error) => Err(error@),
    }
}

// ---------------------------------------------------------------------------
// Reading the answer
// ---------------------------------------------------------------------------

/// The values that the references refer to.
pub open spec fn values(items: Seq<&Json>) -> Seq<Json> {
    items.map_values(|item: &Json| *item)
}

proof fn lemma_flat_step<A>(parts: Seq<Seq<A>>, n: int)
    requires
        0 <= n < parts.len(),
    ensures
        flat(parts.take(n + 1)) == flat(parts.take(n)) + parts[n],
{
    assert(parts.take(n + 1).drop_last() =~= parts.take(n));
}

fn member_says(value: &Json, key: &str, expected: &str) -> (same: bool)
    ensures
        same == says(*value, key@, expected@),
{
    match value.get(key) {
        Some(member) => match member.as_str() {
            Some(found) => text::same_text(found, expected),
            None => false,
        },
        None => false,
    }
}

/// Adds the AVC codecs of `format`.
fn collect_format<'a>(format: &'a Json, format_name: &str, codecs: &mut Vec<&'a Json>)
    ensures
        values(final(codecs)@) == values(old(codecs)@) + format_codecs(*format, format_name@),
{
    if !member_says(format, "format_name", format_name) {
        assert(values(codecs@) =~= values(codecs@) + Seq::<Json>::empty());
        return ;
    }
    let ghost avc = |codec: Json| says(codec, "codec_name"@, "avc"@);
    match format.get("codec") {
        Some(Json::Array(items)) => {
            let mut i: usize = 0;
            assert(values(codecs@) =~= values(old(codecs)@) + items@.take(0).filter(avc)) by {
                reveal_with_fuel(Seq::filter, 1);
                assert(items@.take(0) =~= Seq::empty());
            }
            while i < items.len()
                invariant
                    i <= items@.len(),
                    avc == (|codec: Json| says(codec, "codec_name"@, "avc"@)),
                    values(codecs@) == values(old(codecs)@) + items@.take(i as int).filter(avc),
                decreases items@.len() - i,
            {
                let codec = &items[i];
                proof {
                    assert(items@.take(i + 1) =~= items@.take(i as int).push(items@[i as int]));
                    reveal_with_fuel(Seq::filter, 2);
                    assert(items@.take(i + 1).drop_last() =~= items@.take(i as int));
                }
                let ghost before = codecs@;
                if member_says(codec, "codec_name", "avc") {
                    codecs.push(codec);
                    assert(values(codecs@) =~= values(before).push(*codec));
                    assert(items@.take(i + 1).filter(avc) =~= items@.take(i as int).filter(
                        avc,
                    ).push(*codec));
                }
                i += 1;
            }
            assert(items@.take(i as int) =~= items@);
        },
        _ => {
            assert(Seq::<Json>::empty().filter(avc) =~= Seq::empty()) by {
                reveal_with_fuel(Seq::filter, 1);
            }
            assert(values(codecs@) =~= values(codecs@) + Seq::<Json>::empty());
        },
    }
}

/// Adds the AVC codecs in the formats of `stream`.
fn collect_stream<'a>(
    stream: &'a Json,
    protocol: &str,
    format_name: &str,
    codecs: &mut Vec<&'a Json>,
)
    ensures
        values(final(codecs)@) == values(old(codecs)@) + stream_codecs(
            *stream,
            protocol@,
            format_name@,
        ),
{
    if !member_says(stream, "protocol_name", protocol) {
        assert(values(codecs@) =~= values(codecs@) + Seq::<Json>::empty());
        return ;
    }
    let ghost formats = json::elements_in(stream.field("format"@));
    let ghost parts = formats.map_values(|format: Json| format_codecs(format, format_name@));
    match stream.get("format") {
        Some(Json::Array(items)) => {
            let mut i: usize = 0;
            assert(values(codecs@) =~= values(old(codecs)@) + flat(parts.take(0)));
            while i < items.len()
                invariant
                    i <= items@.len(),
                    parts == items@.map_values(
                        |format: Json| format_codecs(format, format_name@),
                    ),
                    values(codecs@) == values(old(codecs)@) + flat(parts.take(i as int)),
                decreases items@.len() - i,
            {
                collect_format(&items[i], format_name, codecs);
                proof {
                    lemma_flat_step(parts, i as int);
                }
                assert(values(codecs@) =~= values(old(codecs)@) + flat(parts.take(i + 1)));
                i += 1;
            }
            assert(parts.take(i as int) =~= parts);
        },
        _ => {
            assert(values(codecs@) =~= values(codecs@) + flat(parts));
        },
    }
}

/// The AVC codecs that are offered over `protocol` in the format `format_name`.
fn collect_codecs<'a>(streams: &'a Vec<Json>, protocol: &str, format_name: &str) -> (codecs: Vec<
    &'a Json,
>)
    ensures
        values(codecs@) == offered_codecs(streams@, protocol@, format_name@),
{
    let mut codecs: Vec<&'a Json> = Vec::new();
    let ghost parts = streams@.map_values(
        |stream: Json| stream_codecs(stream, protocol@, format_name@),
    );
    let mut i: usize = 0;
    assert(values(codecs@) =~= flat(parts.take(0)));
    while i < streams.len()
        invariant
            i <= streams@.len(),
            parts == streams@.map_values(
                |stream: Json| stream_codecs(stream, protocol@, format_name@),
            ),
            values(codecs@) == flat(parts.take(i as int)),
        decreases streams@.len() - i,
    {
        collect_stream(&streams[i], protocol, format_name, &mut codecs);
        proof {
            lemma_flat_step(parts, i as int);
        }
        i += 1;
    }
    assert(parts.take(i as int) =~= parts);
    codecs
}

/// The text of the member `key`, or the empty text.
pub fn json_string(value: &Json, key: &str) -> (member: String)
    ensures
        member@ == json::or_empty(json::text_in(value.field(key@))),
{
    match value.get(key) {
        Some(member) => match member.as_str() {
            Some(found) => found.to_owned(),
            None => String::new(),
        },
        None => String::new(),
    }
}

/// Adds the addresses of `codec`.
fn collect_urls(codec: &Json, candidates: &mut Vec<StreamCandidate>)
    ensures
        urls_of(final(candidates)@) == urls_of(old(candidates)@) + codec_urls(*codec),
{
    let base = json_string(codec, "base_url");
    let ghost infos = json::elements_in(codec.field("url_info"@));
    let ghost parts = infos.map_values(|info: Json| host_urls(info, base@));
    match codec.get("url_info") {
        Some(Json::Array(items)) => {
            let mut i: usize = 0;
            assert(urls_of(candidates@) =~= urls_of(old(candidates)@) + flat(parts.take(0)));
            while i < items.len()
                invariant
                    i <= items@.len(),
                    parts == items@.map_values(|info: Json| host_urls(info, base@)),
                    urls_of(candidates@) == urls_of(old(candidates)@) + flat(parts.take(i as int)),
                decreases items@.len() - i,
            {
                let host = json_string(&items[i], "host");
                let extra = json_string(&items[i], "extra");
                let ghost before = candidates@;
                if !host.as_str().is_empty() && !base.as_str().is_empty() {
                    let url = text::cat3(host.as_str(), base.as_str(), extra.as_str());
                    candidates.push(StreamCandidate { url });
                }
                assert(urls_of(candidates@) =~= urls_of(before) + parts[i as int]);
                proof {
                    lemma_flat_step(parts, i as int);
                }
                assert(urls_of(candidates@) =~= urls_of(old(candidates)@) + flat(parts.take(i + 1)));
                i += 1;
            }
            assert(parts.take(i as int) =~= parts);
        },
        _ => {
            assert(urls_of(candidates@) =~= urls_of(candidates@) + flat(parts));
        },
    }
}

/// The selection among the streams offered over `protocol` as `format_name`, if they have an
/// address.
fn select_by(
    streams: &Vec<Json>,
    protocol: &str,
    format_name: &str,
    stream_type: &str,
    requested_qn: i64,
) -> (selection: Option<StreamSelection>)
    ensures
        (match selection {
            Some(selection) => Some(selection@),
            None => None,
        }) == selection_by(streams@, protocol@, format_name@, stream_type@, requested_qn),
{
    let codecs = collect_codecs(streams, protocol, format_name);
    let ghost offered = offered_codecs(streams@, protocol@, format_name@);
    let ghost parts = offered.map_values(|codec: Json| codec_urls(codec));
    let mut candidates: Vec<StreamCandidate> = Vec::new();
    let mut actual_qn: i64 = 0;
    let mut i: usize = 0;
    assert(urls_of(candidates@) =~= flat(parts.take(0)));
    while i < codecs.len()
        invariant
            i <= codecs@.len(),
            values(codecs@) == offered,
            parts == offered.map_values(|codec: Json| codec_urls(codec)),
            urls_of(candidates@) == flat(parts.take(i as int)),
            actual_qn == quality_of(offered.take(i as int), requested_qn),
        decreases codecs@.len() - i,
    {
        let codec = codecs[i];
        assert(offered[i as int] == *codec);
        assert(offered.take(i + 1).last() == *codec);
        actual_qn = match codec.get("current_qn") {
            Some(qn) => match qn.as_i64() {
                Some(qn) => qn,
                None => requested_qn,
            },
            None => requested_qn,
        };
        collect_urls(codec, &mut candidates);
        proof {
            lemma_flat_step(parts, i as int);
        }
        i += 1;
    }
    assert(parts.take(i as int) =~= parts);
    assert(offered.take(i as int) =~= offered);
    if candidates.is_empty() {
        assert(urls_of(candidates@).len() == 0);
        None
    } else {
        assert(urls_of(candidates@).len() == candidates@.len());
        Some(
            StreamSelection {
                requested_qn,
                actual_qn,
                stream_type: stream_type.to_owned(),
                candidates,
            },
        )
    }
}

/// The stream to record: FLV over HTTP, or else TS over HLS. Its addresses keep the order in
/// which the answer lists them.
pub fn select_streams(response: &Json, requested_qn: i64) -> (outcome: Result<
    StreamSelection,
    ParseError,
>)
    ensures
        selection_view(outcome) == selected(*response, requested_qn),
{
    let data = response.get("data");
    let play = json::get_in(json::get_in(data, "playurl_info"), "playurl");
    match json::get_in(play, "stream") {
        Some(Json::Array(streams)) => {
            match select_by(streams, "http_stream", "flv", "FLV", requested_qn) {
                Some(selection) => Ok(selection),
                None => match select_by(streams, "http_hls", "ts", "HLS-TS", requested_qn) {
                    Some(selection) => Ok(selection),
                    None => Err(ParseError::new("未找到兼容的 AVC 直播流".to_owned())),
                },
            }
        },
        _ => Err(ParseError::new("Bilibili 未返回可用直播流".to_owned())),
    }
}

// ---------------------------------------------------------------------------
// Laws
// ---------------------------------------------------------------------------

/// FLV is preferred: where it has an address, what is offered otherwise does not matter.
pub proof fn law_flv_is_preferred(response: Json, requested_qn: i64)
    requires
        stream_list(response) is Some,
    ensures
        ({
            let streams = stream_list(response)->0;
            let flv = selection_by(streams, "http_stream"@, "flv"@, "FLV"@, requested_qn);
            let ts = selection_by(streams, "http_hls"@, "ts"@, "HLS-TS"@, requested_qn);
            &&& flv is Some ==> selected(response, requested_qn) == Ok::<SelectionView, Failure>(
                flv->0,
            )
            &&& flv is None && ts is Some ==> selected(response, requested_qn) == Ok::<
                SelectionView,
                Failure,
            >(ts->0)
        }),
{
}

/// A selection has an address to try.
pub proof fn law_selection_has_an_address(response: Json, requested_qn: i64)
    requires
        selected(response, requested_qn) is Ok,
    ensures
        selected(response, requested_qn)->Ok_0.urls.len() > 0,
        selected(response, requested_qn)->Ok_0.requested_qn == requested_qn,
{
}

/// The hosts of a codec are kept in their order: each one gives the address that starts with it.
pub proof fn law_host_order_is_kept(codec: Json)
    requires
        json::or_empty(json::text_in(codec.field("base_url"@))).len() > 0,
        forall|i: int|
            0 <= i < json::elements_in(codec.field("url_info"@)).len() ==> json::or_empty(
                json::text_in(
                    (#[trigger] json::elements_in(codec.field("url_info"@))[i]).field("host"@),
                ),
            ).len() > 0,
    ensures
        ({
            let base = json::or_empty(json::text_in(codec.field("base_url"@)));
            let hosts = json::elements_in(codec.field("url_info"@));
            &&& codec_urls(codec).len() == hosts.len()
            &&& forall|i: int|
                0 <= i < hosts.len() ==> #[trigger] codec_urls(codec)[i] == json::or_empty(
                    json::text_in(hosts[i].field("host"@)),
                ) + base + json::or_empty(json::text_in(hosts[i].field("extra"@)))
        }),
{
    let base = json::or_empty(json::text_in(codec.field("base_url"@)));
    let hosts = json::elements_in(codec.field("url_info"@));
    let parts = hosts.map_values(|info: Json| host_urls(info, base));
    let urls = Seq::new(
        hosts.len(),
        |i: int|
            json::or_empty(json::text_in(hosts[i].field("host"@))) + base + json::or_empty(
                json::text_in(hosts[i].field("extra"@)),
            ),
    );
    assert forall|i: int| 0 <= i < parts.len() implies #[trigger] parts[i] == seq![urls[i]] by {
        assert(json::or_empty(json::text_in(hosts[i].field("host"@))).len() > 0);
    }
    lemma_flat_singletons(parts, urls);
}

proof fn lemma_flat_singletons<A>(parts: Seq<Seq<A>>, items: Seq<A>)
    requires
        parts.len() == items.len(),
        forall|i: int| 0 <= i < parts.len() ==> #[trigger] parts[i] == seq![items[i]],
    ensures
        flat(parts) == items,
    decreases parts.len(),
{
    if parts.len() > 0 {
        lemma_flat_singletons(parts.drop_last(), items.drop_last());
        assert(items =~= items.drop_last() + seq![items.last()]);
    } else {
        assert(items =~= Seq::empty());
    }
}

// ---------------------------------------------------------------------------
// Laws over the members of the answer
// ---------------------------------------------------------------------------

/// Where an address stands in an answer: the indexes of its stream, format, codec and host.
pub struct Entry {
    pub stream: int,
    pub format: int,
    pub codec: int,
    pub host: int,
}

impl Entry {
    /// This entry comes before the other.
    pub open spec fn precedes(self, other: Entry) -> bool {
        ||| self.stream < other.stream
        ||| self.stream == other.stream && self.format < other.format
        ||| self.stream == other.stream && self.format == other.format && self.codec < other.codec
        ||| self.stream == other.stream && self.format == other.format && self.codec == other.codec
            && self.host < other.host
    }
}

/// The elements of the member `key`.
pub open spec fn items(value: Json, key: Seq<char>) -> Seq<Json> {
    match value.field(key) {
        Some(Json::Array(items)) => items@,
        _ => Seq::empty(),
    }
}

/// The text of the member `key`, or the empty text.
pub open spec fn words(value: Json, key: Seq<char>) -> Seq<char> {
    match value.field(key) {
        Some(Json::Text(words)) => words@,
        _ => Seq::empty(),
    }
}

/// The streams that an answer lists.
pub open spec fn listed(response: Json) -> Seq<Json> {
    match response.field("data"@) {
        Some(data) => match data.field("playurl_info"@) {
            Some(info) => match info.field("playurl"@) {
                Some(play) => items(play, "stream"@),
                None => Seq::empty(),
            },
            None => Seq::empty(),
        },
        None => Seq::empty(),
    }
}

/// The codec of an entry.
pub open spec fn codec_at(streams: Seq<Json>, e: Entry) -> Json {
    items(items(streams[e.stream], "format"@)[e.format], "codec"@)[e.codec]
}

/// There is a stream of that protocol, with a format of that name, with an AVC codec, at those
/// indexes.
pub open spec fn is_avc_at(
    streams: Seq<Json>,
    protocol: Seq<char>,
    format_name: Seq<char>,
    e: Entry,
) -> bool {
    let formats = items(streams[e.stream], "format"@);
    let codecs = items(formats[e.format], "codec"@);
    &&& 0 <= e.stream < streams.len()
    &&& streams[e.stream].field("protocol_name"@) matches Some(Json::Text(name)) && name@ == protocol
    &&& 0 <= e.format < formats.len()
    &&& formats[e.format].field("format_name"@) matches Some(Json::Text(name)) && name@
        == format_name
    &&& 0 <= e.codec < codecs.len()
    &&& codecs[e.codec].field("codec_name"@) matches Some(Json::Text(name)) && name@ == "avc"@
}

/// There is an address at those indexes: an AVC codec with a path, and a host.
pub open spec fn is_address_at(
    streams: Seq<Json>,
    protocol: Seq<char>,
    format_name: Seq<char>,
    e: Entry,
) -> bool {
    let codec = codec_at(streams, e);
    &&& is_avc_at(streams, protocol, format_name, e)
    &&& 0 <= e.host < items(codec, "url_info"@).len()
    &&& words(codec, "base_url"@).len() > 0
    &&& words(items(codec, "url_info"@)[e.host], "host"@).len() > 0
}

/// The address at those indexes: host, path and parameters.
pub open spec fn address_at(streams: Seq<Json>, e: Entry) -> Seq<char> {
    let codec = codec_at(streams, e);
    let info = items(codec, "url_info"@)[e.host];
    words(info, "host"@) + words(codec, "base_url"@) + words(info, "extra"@)
}

/// The answer holds an address of FLV over HTTP.
pub open spec fn has_flv(response: Json) -> bool {
    exists|e: Entry| #[trigger]
        is_address_at(listed(response), "http_stream"@, "flv"@, e)
}

/// The answer holds an address of TS over HLS.
pub open spec fn has_ts(response: Json) -> bool {
    exists|e: Entry| #[trigger] is_address_at(listed(response), "http_hls"@, "ts"@, e)
}

/// `x` comes before `y`.
pub open spec fn in_order<A>(s: Seq<A>, x: A, y: A) -> bool {
    exists|i: int, j: int|
        0 <= i < j < s.len() && #[trigger] s[i] == x && #[trigger] s[j] == y
}

proof fn lemma_flat_contains<A>(parts: Seq<Seq<A>>, x: A)
    ensures
        flat(parts).contains(x) <==> exists|i: int|
            0 <= i < parts.len() && #[trigger] parts[i].contains(x),
    decreases parts.len(),
{
    if parts.len() > 0 {
        let init = parts.drop_last();
        lemma_flat_contains(init, x);
        let whole = flat(parts);
        assert(whole == flat(init) + parts.last());
        if whole.contains(x) {
            let k = choose|k: int| 0 <= k < whole.len() && whole[k] == x;
            if k < flat(init).len() {
                assert(flat(init)[k] == x);
                let i = choose|i: int| 0 <= i < init.len() && #[trigger] init[i].contains(x);
                assert(parts[i].contains(x));
            } else {
                assert(parts.last()[k - flat(init).len()] == x);
                assert(parts[parts.len() - 1].contains(x));
            }
        }
        if exists|i: int| 0 <= i < parts.len() && #[trigger] parts[i].contains(x) {
            let i = choose|i: int| 0 <= i < parts.len() && #[trigger] parts[i].contains(x);
            if i < init.len() {
                assert(init[i].contains(x));
                let k = choose|k: int| 0 <= k < flat(init).len() && flat(init)[k] == x;
                assert(whole[k] == x);
            } else {
                let k = choose|k: int| 0 <= k < parts[i].len() && parts[i][k] == x;
                assert(whole[flat(init).len() + k] == x);
            }
        }
    }
}

proof fn lemma_flat_in_order<A>(parts: Seq<Seq<A>>, i: int, j: int, x: A, y: A)
    requires
        0 <= i <= j < parts.len(),
        i < j ==> parts[i].contains(x) && parts[j].contains(y),
        i == j ==> in_order(parts[i], x, y),
    ensures
        in_order(flat(parts), x, y),
    decreases parts.len(),
{
    let init = parts.drop_last();
    let whole = flat(parts);
    assert(whole == flat(init) + parts.last());
    if j < init.len() {
        assert(init[i] == parts[i] && init[j] == parts[j]);
        lemma_flat_in_order(init, i, j, x, y);
        let (a, b) = choose|a: int, b: int|
            0 <= a < b < flat(init).len() && #[trigger] flat(init)[a] == x && #[trigger] flat(
                init,
            )[b] == y;
        assert(whole[a] == x && whole[b] == y);
    } else if i < j {
        lemma_flat_contains(init, x);
        assert(init[i].contains(x));
        let a = choose|a: int| 0 <= a < flat(init).len() && flat(init)[a] == x;
        let b = choose|b: int| 0 <= b < parts[j].len() && parts[j][b] == y;
        assert(whole[a] == x && whole[flat(init).len() + b] == y);
    } else {
        let (a, b) = choose|a: int, b: int|
            0 <= a < b < parts[i].len() && #[trigger] parts[i][a] == x && #[trigger] parts[i][b]
                == y;
        assert(whole[flat(init).len() + a] == x && whole[flat(init).len() + b] == y);
    }
}

proof fn lemma_filter_members<A>(s: Seq<A>, keep: spec_fn(A) -> bool, x: A)
    ensures
        s.filter(keep).contains(x) <==> s.contains(x) && keep(x),
    decreases s.len(),
{
    reveal(Seq::filter);
    if s.len() > 0 {
        let init = s.drop_last();
        lemma_filter_members(init, keep, x);
        let kept = init.filter(keep);
        let last = s.last();
        assert(s.contains(x) <==> init.contains(x) || x == last) by {
            if s.contains(x) {
                let k = choose|k: int| 0 <= k < s.len() && s[k] == x;
                if k < init.len() {
                    assert(init[k] == x);
                }
            }
            if init.contains(x) {
                let k = choose|k: int| 0 <= k < init.len() && init[k] == x;
                assert(s[k] == x);
            }
            assert(s[s.len() - 1] == last);
        }
        if keep(last) {
            assert(kept.push(last).contains(x) <==> kept.contains(x) || x == last) by {
                if kept.push(last).contains(x) {
                    let k = choose|k: int|
                        0 <= k < kept.push(last).len() && kept.push(last)[k] == x;
                    if k < kept.len() {
                        assert(kept[k] == x);
                    }
                }
                if kept.contains(x) {
                    let k = choose|k: int| 0 <= k < kept.len() && kept[k] == x;
                    assert(kept.push(last)[k] == x);
                }
                assert(kept.push(last)[kept.len() as int] == last);
            }
        }
    }
}

proof fn lemma_filter_in_order<A>(s: Seq<A>, keep: spec_fn(A) -> bool, i: int, j: int)
    requires
        0 <= i < j < s.len(),
        keep(s[i]),
        keep(s[j]),
    ensures
        in_order(s.filter(keep), s[i], s[j]),
    decreases s.len(),
{
    reveal(Seq::filter);
    let init = s.drop_last();
    let kept = init.filter(keep);
    if j < init.len() {
        lemma_filter_in_order(init, keep, i, j);
        let (a, b) = choose|a: int, b: int|
            0 <= a < b < kept.len() && #[trigger] kept[a] == s[i] && #[trigger] kept[b] == s[j];
        let out = s.filter(keep);
        assert(out[a] == s[i] && out[b] == s[j]);
    } else {
        assert(init[i] == s[i]);
        lemma_filter_members(init, keep, s[i]);
        assert(init.contains(s[i]));
        let a = choose|a: int| 0 <= a < kept.len() && kept[a] == s[i];
        let out = s.filter(keep);
        assert(out[a] == s[i] && out[kept.len() as int] == s[j]);
    }
}

/// The codec at those indexes is among the offered ones.
proof fn lemma_offered(
    streams: Seq<Json>,
    protocol: Seq<char>,
    format_name: Seq<char>,
    codec: Json,
)
    ensures
        offered_codecs(streams, protocol, format_name).contains(codec) <==> exists|e: Entry|
            #[trigger] is_avc_at(streams, protocol, format_name, e) && codec == codec_at(
                streams,
                e,
            ),
{
    let parts = streams.map_values(|stream: Json| stream_codecs(stream, protocol, format_name));
    lemma_flat_contains(parts, codec);
    if offered_codecs(streams, protocol, format_name).contains(codec) {
        let s = choose|s: int| 0 <= s < parts.len() && #[trigger] parts[s].contains(codec);
        let e = lemma_avc_in_stream(streams, protocol, format_name, s, codec);
        assert(is_avc_at(streams, protocol, format_name, e));
    }
    if exists|e: Entry| #[trigger]
        is_avc_at(streams, protocol, format_name, e) && codec == codec_at(streams, e) {
        let e = choose|e: Entry| #[trigger]
            is_avc_at(streams, protocol, format_name, e) && codec == codec_at(streams, e);
        lemma_avc_is_in(streams, protocol, format_name, e);
        assert(parts[e.stream].contains(codec));
    }
}

proof fn lemma_avc_is_in(
    streams: Seq<Json>,
    protocol: Seq<char>,
    format_name: Seq<char>,
    e: Entry,
)
    requires
        is_avc_at(streams, protocol, format_name, e),
    ensures
        format_codecs(items(streams[e.stream], "format"@)[e.format], format_name).contains(
            codec_at(streams, e),
        ),
        stream_codecs(streams[e.stream], protocol, format_name).contains(codec_at(streams, e)),
{
    let codec = codec_at(streams, e);
    let avc = |codec: Json| says(codec, "codec_name"@, "avc"@);
    let formats = items(streams[e.stream], "format"@);
    let codecs = items(formats[e.format], "codec"@);
    assert(formats == json::elements_in(streams[e.stream].field("format"@)));
    assert(codecs == json::elements_in(formats[e.format].field("codec"@)));
    assert(codecs[e.codec] == codec);
    lemma_filter_members(codecs, avc, codec);
    let inner = formats.map_values(|format: Json| format_codecs(format, format_name));
    assert(inner[e.format].contains(codec));
    lemma_flat_contains(inner, codec);
}

/// The addresses of a codec are those of its hosts.
proof fn lemma_codec_addresses(codec: Json, url: Seq<char>)
    ensures
        codec_urls(codec).contains(url) <==> exists|h: int|
            {
                let info = #[trigger] items(codec, "url_info"@)[h];
                &&& 0 <= h < items(codec, "url_info"@).len()
                &&& words(codec, "base_url"@).len() > 0
                &&& words(info, "host"@).len() > 0
                &&& url == words(info, "host"@) + words(codec, "base_url"@) + words(info, "extra"@)
            },
{
    let base = json::or_empty(json::text_in(codec.field("base_url"@)));
    let infos = items(codec, "url_info"@);
    assert(base == words(codec, "base_url"@));
    assert(infos == json::elements_in(codec.field("url_info"@)));
    let parts = infos.map_values(|info: Json| host_urls(info, base));
    lemma_flat_contains(parts, url);
    if codec_urls(codec).contains(url) {
        let h = choose|h: int| 0 <= h < parts.len() && #[trigger] parts[h].contains(url);
        let info = infos[h];
        assert(json::or_empty(json::text_in(info.field("host"@))) == words(info, "host"@));
        assert(json::or_empty(json::text_in(info.field("extra"@))) == words(info, "extra"@));
        assert(parts[h].len() > 0);
    }
    if exists|h: int|
        {
            let info = #[trigger] infos[h];
            &&& 0 <= h < infos.len()
            &&& words(codec, "base_url"@).len() > 0
            &&& words(info, "host"@).len() > 0
            &&& url == words(info, "host"@) + words(codec, "base_url"@) + words(info, "extra"@)
        } {
        let h = choose|h: int|
            {
                let info = #[trigger] infos[h];
                &&& 0 <= h < infos.len()
                &&& words(codec, "base_url"@).len() > 0
                &&& words(info, "host"@).len() > 0
                &&& url == words(info, "host"@) + words(codec, "base_url"@) + words(info, "extra"@)
            };
        let info = infos[h];
        assert(json::or_empty(json::text_in(info.field("host"@))) == words(info, "host"@));
        assert(json::or_empty(json::text_in(info.field("extra"@))) == words(info, "extra"@));
        assert(parts[h] == seq![url]);
        assert(parts[h][0] == url);
        assert(parts[h].contains(url));
    }
}

/// The addresses that are offered over a protocol in a format are those of the entries.
proof fn lemma_offered_addresses(
    streams: Seq<Json>,
    protocol: Seq<char>,
    format_name: Seq<char>,
    url: Seq<char>,
)
    ensures
        all_urls(offered_codecs(streams, protocol, format_name)).contains(url) <==> exists|
            e: Entry,
        |
            #[trigger] is_address_at(streams, protocol, format_name, e) && url == address_at(
                streams,
                e,
            ),
{
    let codecs = offered_codecs(streams, protocol, format_name);
    let parts = codecs.map_values(|codec: Json| codec_urls(codec));
    lemma_flat_contains(parts, url);
    if all_urls(codecs).contains(url) {
        let k = choose|k: int| 0 <= k < parts.len() && #[trigger] parts[k].contains(url);
        let codec = codecs[k];
        lemma_codec_addresses(codec, url);
        let h = choose|h: int|
            {
                let info = #[trigger] items(codec, "url_info"@)[h];
                &&& 0 <= h < items(codec, "url_info"@).len()
                &&& words(codec, "base_url"@).len() > 0
                &&& words(info, "host"@).len() > 0
                &&& url == words(info, "host"@) + words(codec, "base_url"@) + words(info, "extra"@)
            };
        lemma_offered(streams, protocol, format_name, codec);
        assert(codecs.contains(codec));
        let at = choose|e: Entry| #[trigger]
            is_avc_at(streams, protocol, format_name, e) && codec == codec_at(streams, e);
        let e = Entry { host: h, ..at };
        assert(is_address_at(streams, protocol, format_name, e));
    }
    if exists|e: Entry| #[trigger]
        is_address_at(streams, protocol, format_name, e) && url == address_at(streams, e) {
        let e = choose|e: Entry| #[trigger]
            is_address_at(streams, protocol, format_name, e) && url == address_at(streams, e);
        let codec = codec_at(streams, e);
        lemma_offered(streams, protocol, format_name, codec);
        assert(is_avc_at(streams, protocol, format_name, e));
        let k = choose|k: int| 0 <= k < codecs.len() && codecs[k] == codec;
        lemma_codec_addresses(codec, url);
        let info = items(codec, "url_info"@)[e.host];
        assert(codec_urls(codec).contains(url));
        assert(parts[k].contains(url));
    }
}

/// The answer offers an address over a protocol in a format exactly where it has such an entry.
proof fn lemma_offers(streams: Seq<Json>, protocol: Seq<char>, format_name: Seq<char>)
    ensures
        all_urls(offered_codecs(streams, protocol, format_name)).len() > 0 <==> exists|e: Entry|
            #[trigger] is_address_at(streams, protocol, format_name, e),
{
    let urls = all_urls(offered_codecs(streams, protocol, format_name));
    if urls.len() > 0 {
        lemma_offered_addresses(streams, protocol, format_name, urls[0]);
        assert(urls.contains(urls[0]));
    }
    if exists|e: Entry| #[trigger] is_address_at(streams, protocol, format_name, e) {
        let e = choose|e: Entry| #[trigger] is_address_at(streams, protocol, format_name, e);
        lemma_offered_addresses(streams, protocol, format_name, address_at(streams, e));
    }
}

/// A stream is selected exactly where the answer holds an address: an AVC codec of an FLV stream
/// over HTTP or a TS stream over HLS, with a path and a host. The quality that is asked for and the
/// one that is offered do not matter for that.
pub proof fn law_a_stream_with_an_address_is_selected(
    response: Json,
    requested_qn: i64,
    outcome: Result<StreamSelection, ParseError>,
)
    requires
        call_ensures(select_streams, (&response, requested_qn), outcome),
    ensures
        outcome is Ok <==> has_flv(response) || has_ts(response),
        outcome matches Ok(selection) ==> selection.stream_type@ == (if has_flv(response) {
            "FLV"@
        } else {
            "HLS-TS"@
        }),
        outcome matches Ok(selection) ==> selection.requested_qn == requested_qn,
{
    let streams = listed(response);
    lemma_offers(streams, "http_stream"@, "flv"@);
    lemma_offers(streams, "http_hls"@, "ts"@);
    lemma_listed(response);
    let view = selection_view(outcome);
    assert(view == selected(response, requested_qn));
    if let Ok(selection) = outcome {
        assert(view == Ok::<SelectionView, Failure>(selection@));
    }
}

proof fn lemma_listed(response: Json)
    ensures
        stream_list(response) matches Some(streams) ==> streams == listed(response),
        stream_list(response) is None ==> listed(response).len() == 0,
{
}

/// The entries of the chosen kind.
pub open spec fn is_chosen_address(response: Json, e: Entry) -> bool {
    if has_flv(response) {
        is_address_at(listed(response), "http_stream"@, "flv"@, e)
    } else {
        is_address_at(listed(response), "http_hls"@, "ts"@, e)
    }
}

/// The candidates are the addresses that the answer holds of the chosen kind: all of them, and no
/// others, each as host, path and parameters.
pub proof fn law_candidates_are_the_addresses(
    response: Json,
    requested_qn: i64,
    selection: StreamSelection,
    url: Seq<char>,
)
    requires
        call_ensures(
            select_streams,
            (&response, requested_qn),
            Ok::<StreamSelection, ParseError>(selection),
        ),
    ensures
        (exists|k: int|
            0 <= k < selection.candidates@.len() && (#[trigger] selection.candidates@[k]).url@
                == url) <==> exists|e: Entry| #[trigger]
            is_chosen_address(response, e) && url == address_at(listed(response), e),
{
    let streams = listed(response);
    let outcome = Ok::<StreamSelection, ParseError>(selection);
    law_a_stream_with_an_address_is_selected(response, requested_qn, outcome);
    lemma_listed(response);
    lemma_offers(streams, "http_stream"@, "flv"@);
    lemma_offered_addresses(streams, "http_stream"@, "flv"@, url);
    lemma_offered_addresses(streams, "http_hls"@, "ts"@, url);
    let urls = urls_of(selection.candidates@);
    assert(selection_view(outcome) == Ok::<SelectionView, Failure>(selection@));
    let (protocol, format_name) = if has_flv(response) {
        ("http_stream"@, "flv"@)
    } else {
        ("http_hls"@, "ts"@)
    };
    assert(urls == all_urls(offered_codecs(streams, protocol, format_name)));
    if urls.contains(url) {
        let e = choose|e: Entry| #[trigger]
            is_address_at(streams, protocol, format_name, e) && url == address_at(streams, e);
        assert(is_chosen_address(response, e));
    }
    if exists|e: Entry| #[trigger]
        is_chosen_address(response, e) && url == address_at(streams, e) {
        let e = choose|e: Entry| #[trigger]
            is_chosen_address(response, e) && url == address_at(streams, e);
        assert(is_address_at(streams, protocol, format_name, e));
    }
    if urls.contains(url) {
        let k = choose|k: int| 0 <= k < urls.len() && urls[k] == url;
        assert(selection.candidates@[k].url@ == url);
    }
    if exists|k: int|
        0 <= k < selection.candidates@.len() && (#[trigger] selection.candidates@[k]).url@ == url {
        let k = choose|k: int|
            0 <= k < selection.candidates@.len() && (#[trigger] selection.candidates@[k]).url@
                == url;
        assert(urls[k] == url);
    }
}

/// The candidates keep the order of the answer.
pub proof fn law_candidates_keep_their_order(
    response: Json,
    requested_qn: i64,
    selection: StreamSelection,
    first: Entry,
    second: Entry,
)
    requires
        call_ensures(
            select_streams,
            (&response, requested_qn),
            Ok::<StreamSelection, ParseError>(selection),
        ),
        is_chosen_address(response, first),
        is_chosen_address(response, second),
        first.precedes(second),
    ensures
        exists|i: int, j: int|
            0 <= i < j < selection.candidates@.len() && (#[trigger] selection.candidates@[i]).url@
                == address_at(listed(response), first) && (#[trigger] selection.candidates@[j]).url@
                == address_at(listed(response), second),
{
    let streams = listed(response);
    let outcome = Ok::<StreamSelection, ParseError>(selection);
    law_a_stream_with_an_address_is_selected(response, requested_qn, outcome);
    lemma_listed(response);
    lemma_offers(streams, "http_stream"@, "flv"@);
    let urls = urls_of(selection.candidates@);
    assert(selection_view(outcome) == Ok::<SelectionView, Failure>(selection@));
    let x = address_at(streams, first);
    let y = address_at(streams, second);
    if has_flv(response) {
        lemma_addresses_in_order(streams, "http_stream"@, "flv"@, first, second);
        assert(urls == all_urls(offered_codecs(streams, "http_stream"@, "flv"@)));
    } else {
        lemma_addresses_in_order(streams, "http_hls"@, "ts"@, first, second);
        assert(urls == all_urls(offered_codecs(streams, "http_hls"@, "ts"@)));
    }
    let (i, j) = choose|i: int, j: int|
        0 <= i < j < urls.len() && #[trigger] urls[i] == x && #[trigger] urls[j] == y;
    assert(selection.candidates@[i].url@ == x && selection.candidates@[j].url@ == y);
}

proof fn lemma_addresses_in_order(
    streams: Seq<Json>,
    protocol: Seq<char>,
    format_name: Seq<char>,
    first: Entry,
    second: Entry,
)
    requires
        is_address_at(streams, protocol, format_name, first),
        is_address_at(streams, protocol, format_name, second),
        first.precedes(second),
    ensures
        in_order(
            all_urls(offered_codecs(streams, protocol, format_name)),
            address_at(streams, first),
            address_at(streams, second),
        ),
{
    let codecs = offered_codecs(streams, protocol, format_name);
    let parts = codecs.map_values(|codec: Json| codec_urls(codec));
    let a = codec_at(streams, first);
    let b = codec_at(streams, second);
    let x = address_at(streams, first);
    let y = address_at(streams, second);
    lemma_codec_addresses(a, x);
    lemma_codec_addresses(b, y);
    assert(items(a, "url_info"@)[first.host] == items(a, "url_info"@)[first.host]);
    assert(items(b, "url_info"@)[second.host] == items(b, "url_info"@)[second.host]);
    assert(codec_urls(a).contains(x));
    assert(codec_urls(b).contains(y));
    if first.stream == second.stream && first.format == second.format && first.codec
        == second.codec {
        lemma_hosts_in_order(a, first.host, second.host);
        lemma_offered(streams, protocol, format_name, a);
        assert(is_avc_at(streams, protocol, format_name, first));
        let k = choose|k: int| 0 <= k < codecs.len() && codecs[k] == a;
        assert(parts[k] == codec_urls(a));
        lemma_flat_in_order(parts, k, k, x, y);
    } else {
        lemma_codecs_in_order(streams, protocol, format_name, first, second);
        let (i, j) = choose|i: int, j: int|
            0 <= i < j < codecs.len() && #[trigger] codecs[i] == a && #[trigger] codecs[j] == b;
        assert(parts[i] == codec_urls(a) && parts[j] == codec_urls(b));
        lemma_flat_in_order(parts, i, j, x, y);
    }
}

proof fn lemma_hosts_in_order(codec: Json, h: int, k: int)
    requires
        0 <= h < k < items(codec, "url_info"@).len(),
        words(codec, "base_url"@).len() > 0,
        words(items(codec, "url_info"@)[h], "host"@).len() > 0,
        words(items(codec, "url_info"@)[k], "host"@).len() > 0,
    ensures
        in_order(
            codec_urls(codec),
            words(items(codec, "url_info"@)[h], "host"@) + words(codec, "base_url"@) + words(
                items(codec, "url_info"@)[h],
                "extra"@,
            ),
            words(items(codec, "url_info"@)[k], "host"@) + words(codec, "base_url"@) + words(
                items(codec, "url_info"@)[k],
                "extra"@,
            ),
        ),
{
    let base = json::or_empty(json::text_in(codec.field("base_url"@)));
    let infos = items(codec, "url_info"@);
    assert(base == words(codec, "base_url"@));
    assert(infos == json::elements_in(codec.field("url_info"@)));
    let parts = infos.map_values(|info: Json| host_urls(info, base));
    let x = words(infos[h], "host"@) + base + words(infos[h], "extra"@);
    let y = words(infos[k], "host"@) + base + words(infos[k], "extra"@);
    assert(json::or_empty(json::text_in(infos[h].field("host"@))) == words(infos[h], "host"@));
    assert(json::or_empty(json::text_in(infos[h].field("extra"@))) == words(infos[h], "extra"@));
    assert(json::or_empty(json::text_in(infos[k].field("host"@))) == words(infos[k], "host"@));
    assert(json::or_empty(json::text_in(infos[k].field("extra"@))) == words(infos[k], "extra"@));
    assert(parts[h] == seq![x] && parts[k] == seq![y]);
    assert(parts[h][0] == x && parts[k][0] == y);
    lemma_flat_in_order(parts, h, k, x, y);
}

proof fn lemma_codecs_in_order(
    streams: Seq<Json>,
    protocol: Seq<char>,
    format_name: Seq<char>,
    first: Entry,
    second: Entry,
)
    requires
        is_avc_at(streams, protocol, format_name, first),
        is_avc_at(streams, protocol, format_name, second),
        first.stream < second.stream || first.stream == second.stream && (first.format
            < second.format || first.format == second.format && first.codec < second.codec),
    ensures
        in_order(
            offered_codecs(streams, protocol, format_name),
            codec_at(streams, first),
            codec_at(streams, second),
        ),
{
    let a = codec_at(streams, first);
    let b = codec_at(streams, second);
    let parts = streams.map_values(|stream: Json| stream_codecs(stream, protocol, format_name));
    lemma_avc_is_in(streams, protocol, format_name, first);
    lemma_avc_is_in(streams, protocol, format_name, second);
    if first.stream < second.stream {
        assert(parts[first.stream].contains(a) && parts[second.stream].contains(b));
        lemma_flat_in_order(parts, first.stream, second.stream, a, b);
    } else {
        let stream = streams[first.stream];
        let formats = items(stream, "format"@);
        assert(formats == json::elements_in(stream.field("format"@)));
        let inner = formats.map_values(|format: Json| format_codecs(format, format_name));
        if first.format < second.format {
            assert(inner[first.format].contains(a) && inner[second.format].contains(b));
            lemma_flat_in_order(inner, first.format, second.format, a, b);
        } else {
            let codecs = items(formats[first.format], "codec"@);
            assert(codecs == json::elements_in(formats[first.format].field("codec"@)));
            let avc = |codec: Json| says(codec, "codec_name"@, "avc"@);
            lemma_filter_in_order(codecs, avc, first.codec, second.codec);
            assert(in_order(inner[first.format], a, b));
            lemma_flat_in_order(inner, first.format, first.format, a, b);
        }
        assert(parts[first.stream] == flat(inner));
        lemma_flat_in_order(parts, first.stream, first.stream, a, b);
    }
}

/// The AVC codecs of the chosen kind, with or without an address.
pub open spec fn is_chosen_codec(response: Json, e: Entry) -> bool {
    if has_flv(response) {
        is_avc_at(listed(response), "http_stream"@, "flv"@, e)
    } else {
        is_avc_at(listed(response), "http_hls"@, "ts"@, e)
    }
}

/// The quality that is told is the one of the last AVC codec of the chosen kind; where that one does
/// not say, it is the one asked for.
pub proof fn law_the_last_codec_tells_the_quality(
    response: Json,
    requested_qn: i64,
    selection: StreamSelection,
    e: Entry,
)
    requires
        call_ensures(
            select_streams,
            (&response, requested_qn),
            Ok::<StreamSelection, ParseError>(selection),
        ),
        is_chosen_codec(response, e),
        forall|other: Entry| #[trigger]
            is_chosen_codec(response, other) ==> !(e.stream < other.stream || e.stream
                == other.stream && (e.format < other.format || e.format == other.format && e.codec
                < other.codec)),
    ensures
        selection.actual_qn == (match codec_at(listed(response), e).field("current_qn"@) {
            Some(Json::Number(Some(qn))) => qn,
            _ => requested_qn,
        }),
{
    let streams = listed(response);
    let outcome = Ok::<StreamSelection, ParseError>(selection);
    law_a_stream_with_an_address_is_selected(response, requested_qn, outcome);
    lemma_listed(response);
    lemma_offers(streams, "http_stream"@, "flv"@);
    assert(selection_view(outcome) == Ok::<SelectionView, Failure>(selection@));
    let (protocol, format_name) = if has_flv(response) {
        ("http_stream"@, "flv"@)
    } else {
        ("http_hls"@, "ts"@)
    };
    assert forall|other: Entry| #[trigger]
        is_avc_at(streams, protocol, format_name, other) implies !(e.stream < other.stream
        || e.stream == other.stream && (e.format < other.format || e.format == other.format
        && e.codec < other.codec)) by {
        assert(is_chosen_codec(response, other));
    }
    lemma_last_codec(streams, protocol, format_name, e);
}

proof fn lemma_flat_last<A>(parts: Seq<Seq<A>>, i: int)
    requires
        0 <= i < parts.len(),
        parts[i].len() > 0,
        forall|j: int| i < j < parts.len() ==> (#[trigger] parts[j]).len() == 0,
    ensures
        flat(parts).len() > 0,
        flat(parts).last() == parts[i].last(),
    decreases parts.len(),
{
    let init = parts.drop_last();
    assert(flat(parts) == flat(init) + parts.last());
    if i < init.len() {
        assert(parts.last() == parts[parts.len() - 1]);
        assert(parts[parts.len() - 1].len() == 0);
        assert forall|j: int| i < j < init.len() implies (#[trigger] init[j]).len() == 0 by {
            assert(parts[j].len() == 0);
        }
        assert(init[i] == parts[i]);
        lemma_flat_last(init, i);
        assert(flat(parts) =~= flat(init));
    }
}

proof fn lemma_filter_last<A>(s: Seq<A>, keep: spec_fn(A) -> bool, i: int)
    requires
        0 <= i < s.len(),
        keep(s[i]),
        forall|j: int| i < j < s.len() ==> !keep(#[trigger] s[j]),
    ensures
        s.filter(keep).len() > 0,
        s.filter(keep).last() == s[i],
    decreases s.len(),
{
    reveal(Seq::filter);
    let init = s.drop_last();
    if i < init.len() {
        assert(s.last() == s[s.len() - 1]);
        assert(!keep(s[s.len() - 1]));
        assert forall|j: int| i < j < init.len() implies !keep(#[trigger] init[j]) by {
            assert(!keep(s[j]));
        }
        lemma_filter_last(init, keep, i);
    }
}

proof fn lemma_last_codec(
    streams: Seq<Json>,
    protocol: Seq<char>,
    format_name: Seq<char>,
    e: Entry,
)
    requires
        is_avc_at(streams, protocol, format_name, e),
        forall|other: Entry| #[trigger]
            is_avc_at(streams, protocol, format_name, other) ==> !(e.stream < other.stream
                || e.stream == other.stream && (e.format < other.format || e.format == other.format
                && e.codec < other.codec)),
    ensures
        offered_codecs(streams, protocol, format_name).len() > 0,
        offered_codecs(streams, protocol, format_name).last() == codec_at(streams, e),
{
    let parts = streams.map_values(|stream: Json| stream_codecs(stream, protocol, format_name));
    let avc = |codec: Json| says(codec, "codec_name"@, "avc"@);
    let stream = streams[e.stream];
    let formats = items(stream, "format"@);
    assert(formats == json::elements_in(stream.field("format"@)));
    let inner = formats.map_values(|format: Json| format_codecs(format, format_name));
    let codecs = items(formats[e.format], "codec"@);
    assert(codecs == json::elements_in(formats[e.format].field("codec"@)));
    assert forall|j: int| e.codec < j < codecs.len() implies !avc(#[trigger] codecs[j]) by {
        if avc(codecs[j]) {
            assert(is_avc_at(streams, protocol, format_name, Entry { codec: j, ..e }));
        }
    }
    lemma_filter_last(codecs, avc, e.codec);
    assert(inner[e.format].len() > 0);
    assert forall|j: int| e.format < j < inner.len() implies (#[trigger] inner[j]).len() == 0 by {
        if inner[j].len() > 0 {
            let codec = inner[j][0];
            let others = items(formats[j], "codec"@);
            assert(others == json::elements_in(formats[j].field("codec"@)));
            assert(inner[j].contains(codec));
            lemma_filter_members(others, avc, codec);
            let c = choose|c: int| 0 <= c < others.len() && others[c] == codec;
            let other = Entry { format: j, codec: c, ..e };
            assert(is_avc_at(streams, protocol, format_name, other));
        }
    }
    lemma_flat_last(inner, e.format);
    assert(parts[e.stream] == flat(inner));
    assert forall|j: int| e.stream < j < parts.len() implies (#[trigger] parts[j]).len() == 0 by {
        if parts[j].len() > 0 {
            let codec = parts[j][0];
            assert(parts[j].contains(codec));
            let found = lemma_avc_in_stream(streams, protocol, format_name, j, codec);
            assert(is_avc_at(streams, protocol, format_name, found));
        }
    }
    lemma_flat_last(parts, e.stream);
}

proof fn lemma_avc_in_stream(
    streams: Seq<Json>,
    protocol: Seq<char>,
    format_name: Seq<char>,
    s: int,
    codec: Json,
) -> (e: Entry)
    requires
        0 <= s < streams.len(),
        stream_codecs(streams[s], protocol, format_name).contains(codec),
    ensures
        e.stream == s,
        is_avc_at(streams, protocol, format_name, e),
        codec_at(streams, e) == codec,
{
    let avc = |codec: Json| says(codec, "codec_name"@, "avc"@);
    let formats = items(streams[s], "format"@);
    assert(formats == json::elements_in(streams[s].field("format"@)));
    let inner = formats.map_values(|format: Json| format_codecs(format, format_name));
    lemma_flat_contains(inner, codec);
    let f = choose|f: int| 0 <= f < inner.len() && #[trigger] inner[f].contains(codec);
    let codecs = items(formats[f], "codec"@);
    assert(codecs == json::elements_in(formats[f].field("codec"@)));
    lemma_filter_members(codecs, avc, codec);
    let c = choose|c: int| 0 <= c < codecs.len() && codecs[c] == codec;
    Entry { stream: s, format: f, codec: c, host: 0 }
}

/// Where nothing can be recorded, the user is told whether the answer lists no streams at all, or
/// none that fits.
pub proof fn law_why_no_stream_is_selected(
    response: Json,
    requested_qn: i64,
    outcome: Result<StreamSelection, ParseError>,
)
    requires
        call_ensures(select_streams, (&response, requested_qn), outcome),
    ensures
        outcome matches Err(error) ==> {
            let data = response.field("data"@);
            let info = json::field_of(data, "playurl_info"@);
            let play = json::field_of(info, "playurl"@);
            &&& !error@.rate_limited
            &&& error@.message == (if json::field_of(play, "stream"@) matches Some(Json::Array(_)) {
                "未找到兼容的 AVC 直播流"@
            } else {
                "Bilibili 未返回可用直播流"@
            })
        },
{
}

/// The text of a member is its text where it is one, and empty otherwise.
pub proof fn law_texts_of_members(value: Json, key: &str, member: String)
    requires
        call_ensures(json_string, (&value, key), member),
    ensures
        value.field(key@) matches Some(Json::Text(words)) ==> member@ == words@,
        !(value.field(key@) matches Some(Json::Text(_))) ==> member@.len() == 0,
{
}

// ---------------------------------------------------------------------------
// Each address once
// ---------------------------------------------------------------------------

/// The entries are exactly those that `belongs` accepts, each once and in their order, and the
/// addresses are theirs.
pub open spec fn lists_all(
    urls: Seq<Seq<char>>,
    entries: Seq<Entry>,
    streams: Seq<Json>,
    belongs: spec_fn(Entry) -> bool,
) -> bool {
    &&& entries.len() == urls.len()
    &&& forall|k: int|
        0 <= k < entries.len() ==> belongs(#[trigger] entries[k]) && urls[k] == address_at(
            streams,
            entries[k],
        )
    &&& forall|i: int, j: int|
        0 <= i < j < entries.len() ==> (#[trigger] entries[i]).precedes(#[trigger] entries[j])
    &&& forall|e: Entry| #[trigger] belongs(e) ==> entries.contains(e)
}

spec fn keyed(
    belongs: spec_fn(Entry) -> bool,
    key: spec_fn(Entry) -> int,
    i: int,
) -> spec_fn(Entry) -> bool {
    |e: Entry| belongs(e) && key(e) == i
}

proof fn lemma_lists_join(
    parts: Seq<Seq<Seq<char>>>,
    lists: Seq<Seq<Entry>>,
    streams: Seq<Json>,
    belongs: spec_fn(Entry) -> bool,
    key: spec_fn(Entry) -> int,
    n: int,
)
    requires
        0 <= n <= parts.len(),
        parts.len() == lists.len(),
        forall|i: int|
            0 <= i < parts.len() ==> lists_all(
                #[trigger] parts[i],
                lists[i],
                streams,
                keyed(belongs, key, i),
            ),
        forall|e: Entry| #[trigger] belongs(e) ==> 0 <= key(e),
        forall|a: Entry, b: Entry|
            #[trigger] belongs(a) && #[trigger] belongs(b) && key(a) < key(b) ==> a.precedes(b),
    ensures
        lists_all(
            flat(parts.take(n)),
            flat(lists.take(n)),
            streams,
            |e: Entry| belongs(e) && key(e) < n,
        ),
    decreases n,
{
    let all = |e: Entry| belongs(e) && key(e) < n;
    let urls = flat(parts.take(n));
    let entries = flat(lists.take(n));
    if n == 0 {
        assert(parts.take(0).len() == 0 && lists.take(0).len() == 0);
        assert forall|e: Entry| #[trigger] all(e) implies entries.contains(e) by {
            assert(belongs(e));
        }
    } else {
        lemma_lists_join(parts, lists, streams, belongs, key, n - 1);
        lemma_flat_step(parts, n - 1);
        lemma_flat_step(lists, n - 1);
        let fewer = |e: Entry| belongs(e) && key(e) < n - 1;
        let i = n - 1;
        let one = keyed(belongs, key, i);
        let before = flat(lists.take(n - 1));
        let last = lists[n - 1];
        assert(lists_all(parts[i], lists[i], streams, one));
        assert(lists_all(flat(parts.take(n - 1)), before, streams, fewer));
        assert(entries == before + last);
        assert(urls == flat(parts.take(n - 1)) + parts[n - 1]);
        assert forall|k: int| 0 <= k < entries.len() implies all(#[trigger] entries[k]) && urls[k]
            == address_at(streams, entries[k]) by {
            if k < before.len() {
                assert(fewer(before[k]));
            } else {
                assert(one(last[k - before.len()]));
            }
        }
        assert forall|i: int, j: int| 0 <= i < j < entries.len() implies (
        #[trigger] entries[i]).precedes(#[trigger] entries[j]) by {
            if j < before.len() {
                assert(before[i].precedes(before[j]));
            } else if i >= before.len() {
                assert(last[i - before.len()].precedes(last[j - before.len()]));
            } else {
                assert(fewer(before[i]));
                assert(one(last[j - before.len()]));
                assert(belongs(entries[i]) && belongs(entries[j]));
            }
        }
        assert forall|e: Entry| #[trigger] all(e) implies entries.contains(e) by {
            if key(e) < n - 1 {
                assert(fewer(e));
                assert(before.contains(e));
                let k = choose|k: int| 0 <= k < before.len() && before[k] == e;
                assert(entries[k] == e);
            } else {
                assert(one(e));
                assert(last.contains(e));
                let k = choose|k: int| 0 <= k < last.len() && last[k] == e;
                assert(entries[before.len() + k] == e);
            }
        }
    }
}

proof fn lemma_lists_join_all(
    parts: Seq<Seq<Seq<char>>>,
    lists: Seq<Seq<Entry>>,
    streams: Seq<Json>,
    belongs: spec_fn(Entry) -> bool,
    key: spec_fn(Entry) -> int,
)
    requires
        parts.len() == lists.len(),
        forall|i: int|
            0 <= i < parts.len() ==> lists_all(
                #[trigger] parts[i],
                lists[i],
                streams,
                keyed(belongs, key, i),
            ),
        forall|e: Entry| #[trigger] belongs(e) ==> 0 <= key(e) < parts.len(),
        forall|a: Entry, b: Entry|
            #[trigger] belongs(a) && #[trigger] belongs(b) && key(a) < key(b) ==> a.precedes(b),
    ensures
        lists_all(flat(parts), flat(lists), streams, belongs),
{
    let n = parts.len() as int;
    lemma_lists_join(parts, lists, streams, belongs, key, n);
    assert(parts.take(n) =~= parts);
    assert(lists.take(n) =~= lists);
    let all = |e: Entry| belongs(e) && key(e) < n;
    assert(lists_all(flat(parts), flat(lists), streams, all));
    let entries = flat(lists);
    assert forall|k: int| 0 <= k < entries.len() implies belongs(#[trigger] entries[k]) by {
        assert(all(entries[k]));
    }
    assert forall|e: Entry| #[trigger] belongs(e) implies entries.contains(e) by {
        assert(all(e));
    }
}

spec fn codec_entries(streams: Seq<Json>, s: int, f: int, c: int) -> Seq<Entry> {
    let codec = items(items(streams[s], "format"@)[f], "codec"@)[c];
    let infos = items(codec, "url_info"@);
    flat(
        Seq::new(
            infos.len(),
            |h: int|
                if words(codec, "base_url"@).len() > 0 && words(infos[h], "host"@).len() > 0 {
                    seq![Entry { stream: s, format: f, codec: c, host: h }]
                } else {
                    Seq::empty()
                },
        ),
    )
}

spec fn format_entries(
    streams: Seq<Json>,
    protocol: Seq<char>,
    format_name: Seq<char>,
    s: int,
    f: int,
) -> Seq<Entry> {
    flat(
        Seq::new(
            items(items(streams[s], "format"@)[f], "codec"@).len(),
            |c: int|
                if is_avc_at(
                    streams,
                    protocol,
                    format_name,
                    Entry { stream: s, format: f, codec: c, host: 0 },
                ) {
                    codec_entries(streams, s, f, c)
                } else {
                    Seq::empty()
                },
        ),
    )
}

spec fn stream_entries(
    streams: Seq<Json>,
    protocol: Seq<char>,
    format_name: Seq<char>,
    s: int,
) -> Seq<Entry> {
    flat(
        Seq::new(
            items(streams[s], "format"@).len(),
            |f: int| format_entries(streams, protocol, format_name, s, f),
        ),
    )
}

proof fn lemma_codec_lists(
    streams: Seq<Json>,
    protocol: Seq<char>,
    format_name: Seq<char>,
    s: int,
    f: int,
    c: int,
)
    requires
        is_avc_at(
            streams,
            protocol,
            format_name,
            Entry { stream: s, format: f, codec: c, host: 0 },
        ),
    ensures
        lists_all(
            codec_urls(items(items(streams[s], "format"@)[f], "codec"@)[c]),
            codec_entries(streams, s, f, c),
            streams,
            |e: Entry|
                is_address_at(streams, protocol, format_name, e) && e.stream == s && e.format == f
                    && e.codec == c,
        ),
{
    let codec = items(items(streams[s], "format"@)[f], "codec"@)[c];
    let infos = items(codec, "url_info"@);
    let base = json::or_empty(json::text_in(codec.field("base_url"@)));
    assert(base == words(codec, "base_url"@));
    assert(infos == json::elements_in(codec.field("url_info"@)));
    let parts = infos.map_values(|info: Json| host_urls(info, base));
    let lists = Seq::new(
        infos.len(),
        |h: int|
            if words(codec, "base_url"@).len() > 0 && words(infos[h], "host"@).len() > 0 {
                seq![Entry { stream: s, format: f, codec: c, host: h }]
            } else {
                Seq::empty()
            },
    );
    let belongs = |e: Entry|
        is_address_at(streams, protocol, format_name, e) && e.stream == s && e.format == f
            && e.codec == c;
    let key = |e: Entry| e.host;
    assert forall|h: int| 0 <= h < parts.len() implies lists_all(
        #[trigger] parts[h],
        lists[h],
        streams,
        keyed(belongs, key, h),
    ) by {
        let here = keyed(belongs, key, h);
        let info = infos[h];
        let entry = Entry { stream: s, format: f, codec: c, host: h };
        assert(json::or_empty(json::text_in(info.field("host"@))) == words(info, "host"@));
        assert(json::or_empty(json::text_in(info.field("extra"@))) == words(info, "extra"@));
        assert(codec_at(streams, entry) == codec);
        assert(belongs(entry) == (base.len() > 0 && words(info, "host"@).len() > 0));
        assert forall|e: Entry| #[trigger] here(e) implies lists[h].contains(e) by {
            assert(e == entry);
            assert(lists[h][0] == entry);
        }
    }
    lemma_lists_join_all(parts, lists, streams, belongs, key);
}

proof fn lemma_empty_list(streams: Seq<Json>, belongs: spec_fn(Entry) -> bool)
    requires
        forall|e: Entry| !#[trigger] belongs(e),
    ensures
        lists_all(Seq::empty(), Seq::empty(), streams, belongs),
{
}

proof fn lemma_flat_add<A>(a: Seq<Seq<A>>, b: Seq<Seq<A>>)
    ensures
        flat(a + b) == flat(a) + flat(b),
    decreases b.len(),
{
    if b.len() == 0 {
        assert(a + b =~= a);
        assert(flat(a) + flat(b) =~= flat(a));
    } else {
        lemma_flat_add(a, b.drop_last());
        assert((a + b).drop_last() =~= a + b.drop_last());
        assert(flat(a + b) =~= flat(a) + flat(b));
    }
}

proof fn lemma_urls_of_parts(parts: Seq<Seq<Json>>)
    ensures
        all_urls(flat(parts)) == flat(parts.map_values(|codecs: Seq<Json>| all_urls(codecs))),
    decreases parts.len(),
{
    let f = |codec: Json| codec_urls(codec);
    let g = |codecs: Seq<Json>| all_urls(codecs);
    if parts.len() > 0 {
        let init = parts.drop_last();
        lemma_urls_of_parts(init);
        assert(flat(parts).map_values(f) =~= flat(init).map_values(f) + parts.last().map_values(f));
        lemma_flat_add(flat(init).map_values(f), parts.last().map_values(f));
        assert(parts.map_values(g).drop_last() =~= init.map_values(g));
        assert(parts.map_values(g).last() == all_urls(parts.last()));
    }
}

proof fn lemma_urls_of_filtered(codecs: Seq<Json>, keep: spec_fn(Json) -> bool)
    ensures
        all_urls(codecs.filter(keep)) == flat(
            Seq::new(
                codecs.len(),
                |c: int|
                    if keep(codecs[c]) {
                        codec_urls(codecs[c])
                    } else {
                        Seq::empty()
                    },
            ),
        ),
    decreases codecs.len(),
{
    reveal(Seq::filter);
    let f = |codec: Json| codec_urls(codec);
    let parts = Seq::new(
        codecs.len(),
        |c: int|
            if keep(codecs[c]) {
                codec_urls(codecs[c])
            } else {
                Seq::empty()
            },
    );
    if codecs.len() > 0 {
        let init = codecs.drop_last();
        lemma_urls_of_filtered(init, keep);
        let fewer = Seq::new(
            init.len(),
            |c: int|
                if keep(init[c]) {
                    codec_urls(init[c])
                } else {
                    Seq::empty()
                },
        );
        assert(parts.drop_last() =~= fewer);
        let kept = init.filter(keep);
        if keep(codecs.last()) {
            let whole = kept.push(codecs.last());
            assert(whole.map_values(f).drop_last() =~= kept.map_values(f));
            assert(whole.map_values(f).last() == codec_urls(codecs.last()));
        } else {
            assert(flat(parts) =~= flat(fewer));
        }
    }
}

proof fn lemma_format_lists(
    streams: Seq<Json>,
    protocol: Seq<char>,
    format_name: Seq<char>,
    s: int,
    f: int,
)
    requires
        0 <= s < streams.len(),
        0 <= f < items(streams[s], "format"@).len(),
        says(streams[s], "protocol_name"@, protocol),
    ensures
        lists_all(
            all_urls(format_codecs(items(streams[s], "format"@)[f], format_name)),
            format_entries(streams, protocol, format_name, s, f),
            streams,
            |e: Entry|
                is_address_at(streams, protocol, format_name, e) && e.stream == s && e.format == f,
        ),
{
    let format = items(streams[s], "format"@)[f];
    let codecs = items(format, "codec"@);
    assert(codecs == json::elements_in(format.field("codec"@)));
    let avc = |codec: Json| says(codec, "codec_name"@, "avc"@);
    let belongs = |e: Entry|
        is_address_at(streams, protocol, format_name, e) && e.stream == s && e.format == f;
    let lists = Seq::new(
        codecs.len(),
        |c: int|
            if is_avc_at(
                streams,
                protocol,
                format_name,
                Entry { stream: s, format: f, codec: c, host: 0 },
            ) {
                codec_entries(streams, s, f, c)
            } else {
                Seq::empty()
            },
    );
    if says(format, "format_name"@, format_name) {
        let parts = Seq::new(
            codecs.len(),
            |c: int|
                if avc(codecs[c]) {
                    codec_urls(codecs[c])
                } else {
                    Seq::empty()
                },
        );
        let key = |e: Entry| e.codec;
        lemma_urls_of_filtered(codecs, avc);
        assert forall|c: int| 0 <= c < parts.len() implies lists_all(
            #[trigger] parts[c],
            lists[c],
            streams,
            keyed(belongs, key, c),
        ) by {
            let here = keyed(belongs, key, c);
            let entry = Entry { stream: s, format: f, codec: c, host: 0 };
            assert(is_avc_at(streams, protocol, format_name, entry) == avc(codecs[c]));
            if avc(codecs[c]) {
                lemma_codec_lists(streams, protocol, format_name, s, f, c);
                let there = |e: Entry|
                    is_address_at(streams, protocol, format_name, e) && e.stream == s && e.format
                        == f && e.codec == c;
                assert(here =~= there);
            } else {
                assert forall|e: Entry| !#[trigger] here(e) by {
                    if here(e) {
                        assert(is_avc_at(streams, protocol, format_name, e));
                    }
                }
                lemma_empty_list(streams, here);
            }
        }
        lemma_lists_join_all(parts, lists, streams, belongs, key);
    } else {
        assert forall|e: Entry| !#[trigger] belongs(e) by {
            if belongs(e) {
                assert(is_avc_at(streams, protocol, format_name, e));
            }
        }
        lemma_no_entries(lists);
        lemma_empty_list(streams, belongs);
        assert(all_urls(Seq::empty()) =~= Seq::empty());
    }
}

proof fn lemma_no_entries<A>(lists: Seq<Seq<A>>)
    requires
        forall|i: int| 0 <= i < lists.len() ==> (#[trigger] lists[i]).len() == 0,
    ensures
        flat(lists) == Seq::<A>::empty(),
    decreases lists.len(),
{
    if lists.len() > 0 {
        let init = lists.drop_last();
        assert forall|i: int| 0 <= i < init.len() implies (#[trigger] init[i]).len() == 0 by {
            assert(lists[i].len() == 0);
        }
        lemma_no_entries(init);
        assert(lists[lists.len() - 1].len() == 0);
        assert(flat(lists) =~= Seq::<A>::empty());
    }
}

proof fn lemma_stream_lists(
    streams: Seq<Json>,
    protocol: Seq<char>,
    format_name: Seq<char>,
    s: int,
)
    requires
        0 <= s < streams.len(),
    ensures
        lists_all(
            all_urls(stream_codecs(streams[s], protocol, format_name)),
            if says(streams[s], "protocol_name"@, protocol) {
                stream_entries(streams, protocol, format_name, s)
            } else {
                Seq::empty()
            },
            streams,
            |e: Entry| is_address_at(streams, protocol, format_name, e) && e.stream == s,
        ),
{
    let belongs = |e: Entry| is_address_at(streams, protocol, format_name, e) && e.stream == s;
    if says(streams[s], "protocol_name"@, protocol) {
        let formats = items(streams[s], "format"@);
        assert(formats == json::elements_in(streams[s].field("format"@)));
        let inner = formats.map_values(|format: Json| format_codecs(format, format_name));
        let parts = inner.map_values(|codecs: Seq<Json>| all_urls(codecs));
        let lists = Seq::new(
            formats.len(),
            |f: int| format_entries(streams, protocol, format_name, s, f),
        );
        let key = |e: Entry| e.format;
        lemma_urls_of_parts(inner);
        assert forall|f: int| 0 <= f < parts.len() implies lists_all(
            #[trigger] parts[f],
            lists[f],
            streams,
            keyed(belongs, key, f),
        ) by {
            lemma_format_lists(streams, protocol, format_name, s, f);
            let here = keyed(belongs, key, f);
            let there = |e: Entry|
                is_address_at(streams, protocol, format_name, e) && e.stream == s && e.format == f;
            assert(here =~= there);
        }
        lemma_lists_join_all(parts, lists, streams, belongs, key);
    } else {
        assert forall|e: Entry| !#[trigger] belongs(e) by {
            if belongs(e) {
                assert(is_avc_at(streams, protocol, format_name, e));
            }
        }
        lemma_empty_list(streams, belongs);
        assert(all_urls(Seq::empty()) =~= Seq::empty());
    }
}

proof fn lemma_offered_lists(
    streams: Seq<Json>,
    protocol: Seq<char>,
    format_name: Seq<char>,
) -> (entries: Seq<Entry>)
    ensures
        lists_all(
            all_urls(offered_codecs(streams, protocol, format_name)),
            entries,
            streams,
            |e: Entry| is_address_at(streams, protocol, format_name, e),
        ),
{
    let belongs = |e: Entry| is_address_at(streams, protocol, format_name, e);
    let inner = streams.map_values(|stream: Json| stream_codecs(stream, protocol, format_name));
    let parts = inner.map_values(|codecs: Seq<Json>| all_urls(codecs));
    let lists = Seq::new(
        streams.len(),
        |s: int|
            if says(streams[s], "protocol_name"@, protocol) {
                stream_entries(streams, protocol, format_name, s)
            } else {
                Seq::empty()
            },
    );
    let key = |e: Entry| e.stream;
    lemma_urls_of_parts(inner);
    assert forall|s: int| 0 <= s < parts.len() implies lists_all(
        #[trigger] parts[s],
        lists[s],
        streams,
        keyed(belongs, key, s),
    ) by {
        lemma_stream_lists(streams, protocol, format_name, s);
        let here = keyed(belongs, key, s);
        let there = |e: Entry| is_address_at(streams, protocol, format_name, e) && e.stream == s;
        assert(here =~= there);
    }
    lemma_lists_join_all(parts, lists, streams, belongs, key);
    flat(lists)
}

/// The candidates are the addresses that the answer holds of the chosen kind, one for each entry
/// that has one, and in the order of the entries. Nothing is left out, repeated or moved.
pub proof fn law_each_address_is_a_candidate_once(
    response: Json,
    requested_qn: i64,
    selection: StreamSelection,
) -> (entries: Seq<Entry>)
    requires
        call_ensures(
            select_streams,
            (&response, requested_qn),
            Ok::<StreamSelection, ParseError>(selection),
        ),
    ensures
        entries.len() == selection.candidates@.len(),
        forall|k: int|
            0 <= k < entries.len() ==> is_chosen_address(response, #[trigger] entries[k])
                && selection.candidates@[k].url@ == address_at(listed(response), entries[k]),
        forall|i: int, j: int|
            0 <= i < j < entries.len() ==> (#[trigger] entries[i]).precedes(#[trigger] entries[j]),
        forall|e: Entry| #[trigger] is_chosen_address(response, e) ==> entries.contains(e),
{
    let streams = listed(response);
    let outcome = Ok::<StreamSelection, ParseError>(selection);
    law_a_stream_with_an_address_is_selected(response, requested_qn, outcome);
    lemma_listed(response);
    lemma_offers(streams, "http_stream"@, "flv"@);
    let urls = urls_of(selection.candidates@);
    assert(selection_view(outcome) == Ok::<SelectionView, Failure>(selection@));
    let (protocol, format_name) = if has_flv(response) {
        ("http_stream"@, "flv"@)
    } else {
        ("http_hls"@, "ts"@)
    };
    assert(urls == all_urls(offered_codecs(streams, protocol, format_name)));
    let entries = lemma_offered_lists(streams, protocol, format_name);
    let belongs = |e: Entry| is_address_at(streams, protocol, format_name, e);
    assert(lists_all(urls, entries, streams, belongs));
    assert(urls.len() == selection.candidates@.len());
    assert forall|k: int| 0 <= k < entries.len() implies is_chosen_address(
        response,
        #[trigger] entries[k],
    ) && selection.candidates@[k].url@ == address_at(streams, entries[k]) by {
        assert(belongs(entries[k]));
        assert(urls[k] == selection.candidates@[k].url@);
    }
    assert forall|e: Entry| #[trigger] is_chosen_address(response, e) implies entries.contains(
        e,
    ) by {
        assert(belongs(e));
    }
    entries
}

/// A copy of a selection says the same, with the same addresses in the same order.
pub proof fn law_copies_of_selections(selection: StreamSelection, copy: StreamSelection)
    requires
        call_ensures(StreamSelection::clone, (&selection,), copy),
    ensures
        copy.requested_qn == selection.requested_qn,
        copy.actual_qn == selection.actual_qn,
        copy.stream_type@ == selection.stream_type@,
        copy.candidates@.len() == selection.candidates@.len(),
        forall|i: int|
            0 <= i < copy.candidates@.len() ==> (#[trigger] copy.candidates@[i]).url@
                == selection.candidates@[i].url@,
{
    assert(copy@ == selection@);
    let urls = urls_of(copy.candidates@);
    let same = urls_of(selection.candidates@);
    assert(copy@.urls == urls && selection@.urls == same);
    assert(urls.len() == copy.candidates@.len());
    assert(same.len() == selection.candidates@.len());
    assert forall|i: int| 0 <= i < copy.candidates@.len() implies (
    #[trigger] copy.candidates@[i]).url@ == selection.candidates@[i].url@ by {
        assert(urls[i] == copy.candidates@[i].url@);
        assert(same[i] == selection.candidates@[i].url@);
    }
}

} // verus!
