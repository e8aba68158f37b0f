//! The protocol client: from a video identifier to a resolved video.
//!
//! The client words the request to the playback endpoint in the voice of its
//! persona and reads the answer. It does not touch the network: sending the
//! request and receiving the answer is the caller's part.

use crate::downloader::error::{check_status, is_success, status_failure, YtdlError, YtdlFailure};
use crate::downloader::headers::header_view;
use crate::downloader::json;
use crate::downloader::json::{json_parse, json_view, JsonView};
use crate::downloader::pattern::{capture, occurs_in, regex_capture};
use crate::downloader::persona::{AndroidClient, ClientStrategy};
use crate::downloader::response::{
    decoded_format, decoded_formats, document_details, fault, format_entries,
    lemma_decoded_formats_pointwise, outcome_view, read_document_details, read_format_entries,
    read_formats, text_view, PlayerResponse, PlayerResponseView, StreamFormatView, StreamingData,
    VideoDetailsView, VideoInfo, VideoInfoView,
};
use crate::text::{parse_u32, parsed_u32};
use reqwest::header::HeaderMap;
use serde_json::Value;
use vstd::prelude::*;

verus! {

/// The playback endpoint.
pub const API_YOUTUBE_URL: &'static str = "https://www.youtube.com/youtubei/v1/player";

/// The site's root, sent as the request's origin.
pub const YOUTUBE_URL: &'static str = "https://www.youtube.com";

/// A request to the playback endpoint, to be sent with the method POST and
/// the body as JSON.
#[derive(Debug)]
pub struct PlayerRequest {
    pub url: String,
    pub query: Vec<(String, String)>,
    pub headers: HeaderMap,
    pub body: Value,
}

/// The mathematical value of a [`PlayerRequest`].
pub struct PlayerRequestView {
    pub url: Seq<char>,
    pub query: Seq<(Seq<char>, Seq<char>)>,
    /// The headers, by lower-case name.
    pub headers: Map<Seq<char>, Seq<char>>,
    pub body: JsonView,
}

impl View for PlayerRequest {
    type V = PlayerRequestView;

    open spec fn view(&self) -> PlayerRequestView {
        PlayerRequestView {
            url: self.url@,
            query: query_view(self.query@),
            headers: header_view(self.headers),
            body: json_view(self.body),
        }
    }
}

/// The query of every request: pretty-printing is switched off.
pub open spec fn player_query() -> Seq<(Seq<char>, Seq<char>)> {
    seq![("prettyPrint"@, "false"@)]
}

/// The views of a query's pairs.
pub open spec fn query_view(query: Seq<(String, String)>) -> Seq<(Seq<char>, Seq<char>)> {
    Seq::new(query.len(), |i: int| (query[i].0@, query[i].1@))
}

/// The duration that a details section states: its text as a number of
/// seconds, and 0 where the text is no such number.
pub open spec fn duration_seconds(text: Seq<char>) -> u32 {
    match parsed_u32(text) {
        Some(seconds) => seconds,
        None => 0,
    }
}

/// The video that a details section and a list of formats describe.
pub open spec fn video_of(details: VideoDetailsView, formats: Seq<StreamFormatView>) -> VideoInfoView {
    VideoInfoView {
        video_id: details.video_id,
        title: details.title,
        author: details.author,
        length_seconds: duration_seconds(details.length_seconds),
        formats,
    }
}

/// What a response in raw shape resolves to.
pub open spec fn payload_outcome(response: PlayerResponseView, video_id: Seq<char>) -> Result<
    VideoInfoView,
    YtdlFailure,
> {
    match response.video_details {
        None => Err(YtdlFailure::VideoNotFound(video_id)),
        Some(details) => if response.formats.len() == 0 {
            Err(YtdlFailure::NoSuitableFormat)
        } else {
            Ok(video_of(details, response.formats))
        },
    }
}

/// The name under which a fault of the document as a whole is reported.
pub const DOCUMENT: &'static str = "document";

/// What a JSON document resolves to.
///
/// First the shape: the document is an object; its details section, if it
/// has one, reads without fault; its streaming section, if it has one, is an
/// object, and the format list in it, if it has one, an array. Anything else
/// is a parse error that names what is at fault. Then the sections: a
/// document without details is an unknown video, and one without formats
/// has no suitable format. Then the format entries are read, and a fault in
/// one of them is a parse error too.
pub open spec fn document_outcome(document: JsonView, video_id: Seq<char>) -> Result<
    VideoInfoView,
    YtdlFailure,
> {
    if !(document is Object) {
        Err(fault(DOCUMENT@))
    } else {
        match document_details(document) {
            Err(key) => Err(fault(key)),
            Ok(details) => match format_entries(document) {
                Err(key) => Err(fault(key)),
                Ok(entries) => match details {
                    None => Err(YtdlFailure::VideoNotFound(video_id)),
                    Some(details) => if entries.len() == 0 {
                        Err(YtdlFailure::NoSuitableFormat)
                    } else {
                        match decoded_formats(entries) {
                            Err(key) => Err(fault(key)),
                            Ok(formats) => Ok(video_of(details, formats)),
                        }
                    },
                },
            },
        }
    }
}

/// What the body of a successful answer resolves to.
pub open spec fn body_outcome(body: Seq<u8>, video_id: Seq<char>) -> Result<VideoInfoView, YtdlFailure> {
    match json_parse(body) {
        Ok(document) => document_outcome(document, video_id),
        Err(complaint) => Err(YtdlFailure::Json(complaint)),
    }
}

/// What an answer resolves to: its status is judged first, and only the
/// body of a successful answer counts.
pub open spec fn answer_outcome(status: u16, body: Seq<u8>, video_id: Seq<char>) -> Result<
    VideoInfoView,
    YtdlFailure,
> {
    if is_success(status) {
        body_outcome(body, video_id)
    } else {
        Err(status_failure(status))
    }
}

/// An answer whose status does not report success is a failed request,
/// whatever its body holds.
pub proof fn lemma_bad_status_is_failed_request(status: u16, body: Seq<u8>, video_id: Seq<char>)
    requires
        !is_success(status),
    ensures
        answer_outcome(status, body, video_id) == Err::<VideoInfoView, YtdlFailure>(
            status_failure(status),
        ),
{
}

/// A body that is no JSON document is a failure of parsing, with the
/// parser's complaint.
pub proof fn lemma_unreadable_body_is_json_failure(status: u16, body: Seq<u8>, video_id: Seq<char>)
    requires
        is_success(status),
        json_parse(body) is Err,
    ensures
        answer_outcome(status, body, video_id) == Err::<VideoInfoView, YtdlFailure>(
            YtdlFailure::Json(json_parse(body)->Err_0),
        ),
{
}

/// A document of another shape than expected is a parse error that names
/// what is at fault: a document that is no object, a details section with a
/// fault, a streaming section that is no object, a format list that is no
/// array. None of them is taken for a missing video or for missing formats.
pub proof fn lemma_misshapen_document_is_parse_error(document: JsonView, video_id: Seq<char>)
    requires
        !(document is Object) || document_details(document) is Err || format_entries(document) is Err,
    ensures
        document_outcome(document, video_id) matches Err(YtdlFailure::ParseError(_)),
        !(document is Object) ==> document_outcome(document, video_id) == Err::<
            VideoInfoView,
            YtdlFailure,
        >(fault(DOCUMENT@)),
        document is Object && document_details(document) is Err ==> document_outcome(
            document,
            video_id,
        ) == Err::<VideoInfoView, YtdlFailure>(fault(document_details(document)->Err_0)),
        document is Object && document_details(document) is Ok && format_entries(document) is Err
            ==> document_outcome(document, video_id) == Err::<VideoInfoView, YtdlFailure>(
            fault(format_entries(document)->Err_0),
        ),
{
}

/// A fault in a format entry is a parse error that names the member at
/// fault, where the document has details and its shape is in order.
pub proof fn lemma_faulty_entry_is_parse_error(document: JsonView, video_id: Seq<char>)
    requires
        document is Object,
        document_details(document) matches Ok(Some(_)),
        format_entries(document) is Ok,
        decoded_formats(format_entries(document)->Ok_0) is Err,
    ensures
        document_outcome(document, video_id) == Err::<VideoInfoView, YtdlFailure>(
            fault(decoded_formats(format_entries(document)->Ok_0)->Err_0),
        ),
{
    let entries = format_entries(document)->Ok_0;
    assert(entries.len() > 0);
}

/// The outcomes of a document are told apart by its shape alone: an unknown
/// video is a document in order that lacks its details, and a video without
/// suitable format is a document in order that has details and lists no
/// format.
pub proof fn lemma_outcomes_follow_shape(document: JsonView, video_id: Seq<char>)
    ensures
        (document_outcome(document, video_id) matches Err(YtdlFailure::VideoNotFound(_))) <==> (
        document is Object && document_details(document) == Ok::<Option<VideoDetailsView>, Seq<char>>(
            None,
        ) && format_entries(document) is Ok),
        (document_outcome(document, video_id) matches Err(YtdlFailure::NoSuitableFormat)) <==> (
        document is Object && (document_details(document) matches Ok(Some(_))) && format_entries(
            document,
        ) is Ok && format_entries(document)->Ok_0.len() == 0),
{
}

/// A response in raw shape with details and with at least one format that
/// carries a URL resolves to a video, and the video's formats are the
/// response's formats in the response's order.
pub proof fn lemma_payload_keeps_formats(response: PlayerResponseView, video_id: Seq<char>)
    requires
        response.video_details is Some,
        exists|i: int| 0 <= i < response.formats.len() && (#[trigger] response.formats[i]).url is Some,
    ensures
        payload_outcome(response, video_id) is Ok,
        payload_outcome(response, video_id)->Ok_0.formats == response.formats,
        payload_outcome(response, video_id)->Ok_0.formats.len() > 0,
{
}

/// A response in raw shape without details is an unknown video, whatever
/// its formats are.
pub proof fn lemma_payload_without_details(response: PlayerResponseView, video_id: Seq<char>)
    requires
        response.video_details is None,
    ensures
        payload_outcome(response, video_id) == Err::<VideoInfoView, YtdlFailure>(
            YtdlFailure::VideoNotFound(video_id),
        ),
{
}

/// A response in raw shape with details and without formats has no suitable
/// format.
pub proof fn lemma_payload_without_formats(response: PlayerResponseView, video_id: Seq<char>)
    requires
        response.video_details is Some,
        response.formats.len() == 0,
    ensures
        payload_outcome(response, video_id) == Err::<VideoInfoView, YtdlFailure>(
            YtdlFailure::NoSuitableFormat,
        ),
{
}

/// A document whose details and format entries all read without fault, with
/// at least one format that carries a URL, resolves to a video. The video
/// has one format per entry, in the order of the entries.
pub proof fn lemma_document_keeps_formats(document: JsonView, video_id: Seq<char>)
    requires
        document is Object,
        document_details(document) matches Ok(Some(_)),
        format_entries(document) is Ok,
        decoded_formats(format_entries(document)->Ok_0) is Ok,
        exists|i: int|
            0 <= i < decoded_formats(format_entries(document)->Ok_0)->Ok_0.len() && (
            #[trigger] decoded_formats(format_entries(document)->Ok_0)->Ok_0[i]).url is Some,
    ensures
        document_outcome(document, video_id) is Ok,
        document_outcome(document, video_id)->Ok_0.formats.len() > 0,
        document_outcome(document, video_id)->Ok_0.formats.len() == format_entries(document)->Ok_0.len(),
        forall|i: int|
            0 <= i < format_entries(document)->Ok_0.len() ==> decoded_format(
                #[trigger] format_entries(document)->Ok_0[i],
            ) == Ok::<StreamFormatView, Seq<char>>(document_outcome(document, video_id)->Ok_0.formats[i]),
{
    lemma_decoded_formats_pointwise(format_entries(document)->Ok_0);
}

/// A document in order without a details section is an unknown video,
/// whatever its format list holds: the missing section is no fault of
/// reading. The document is in order when it is an object and its streaming
/// section, if it has one, is an object whose format list, if it has one,
/// is an array.
pub proof fn lemma_document_without_details(document: JsonView, video_id: Seq<char>)
    requires
        document is Object,
        document.present("videoDetails"@) is None,
        format_entries(document) is Ok,
    ensures
        document_outcome(document, video_id) == Err::<VideoInfoView, YtdlFailure>(
            YtdlFailure::VideoNotFound(video_id),
        ),
{
}

/// A document in order with a details section and with a missing or empty
/// format list has no suitable format. The details section reads without
/// fault.
pub proof fn lemma_document_without_formats(document: JsonView, video_id: Seq<char>)
    requires
        document is Object,
        document_details(document) matches Ok(Some(_)),
        format_entries(document) is Ok,
        format_entries(document)->Ok_0.len() == 0,
    ensures
        document_outcome(document, video_id) == Err::<VideoInfoView, YtdlFailure>(
            YtdlFailure::NoSuitableFormat,
        ),
{
}

/// A video never comes without formats.
pub proof fn lemma_resolved_video_has_formats(document: JsonView, video_id: Seq<char>)
    requires
        document_outcome(document, video_id) is Ok,
    ensures
        document_outcome(document, video_id)->Ok_0.formats.len() > 0,
{
    let entries = format_entries(document)->Ok_0;
    lemma_decoded_formats_pointwise(entries);
}

/// The shapes of URL that name a video, in the order in which they are
/// tried: watch link, short link, embed link, legacy link, shorts link.
pub open spec fn url_patterns() -> Seq<Seq<char>> {
    seq![
        r"youtube\.com/watch\?.*v=([a-zA-Z0-9_-]{11})"@,
        r"youtu\.be/([a-zA-Z0-9_-]{11})"@,
        r"youtube\.com/embed/([a-zA-Z0-9_-]{11})"@,
        r"youtube\.com/v/([a-zA-Z0-9_-]{11})"@,
        r"youtube\.com/shorts/([a-zA-Z0-9_-]{11})"@,
    ]
}

/// A character of a video identifier: a letter, a digit, `_` or `-`.
pub open spec fn is_id_char(c: char) -> bool {
    ('a' <= c && c <= 'z') || ('A' <= c && c <= 'Z') || ('0' <= c && c <= '9') || c == '_' || c
        == '-'
}

/// A video identifier: eleven characters of the identifier alphabet.
pub open spec fn is_video_id(text: Seq<char>) -> bool {
    &&& text.len() == 11
    &&& forall|i: int| 0 <= i < text.len() ==> is_id_char(#[trigger] text[i])
}

/// What a shape of URL captures, if that is a video identifier.
pub open spec fn captured_id(pattern: Seq<char>, url: Seq<char>) -> Option<Seq<char>> {
    match regex_capture(pattern, url, 1) {
        Some(text) => if is_video_id(text) {
            Some(text)
        } else {
            None
        },
        None => None,
    }
}

/// What each shape of URL captures in `url`.
pub open spec fn url_captures(url: Seq<char>) -> Seq<Option<Seq<char>>> {
    Seq::new(url_patterns().len(), |i: int| captured_id(url_patterns()[i], url))
}

/// The first candidate that is there.
pub open spec fn first_present(candidates: Seq<Option<Seq<char>>>) -> Option<Seq<char>>
    decreases candidates.len(),
{
    if candidates.len() == 0 {
        None
    } else if candidates[0] is Some {
        candidates[0]
    } else {
        first_present(candidates.drop_first())
    }
}

/// The first candidate is one of the candidates.
pub proof fn lemma_first_present_is_a_candidate(candidates: Seq<Option<Seq<char>>>)
    ensures
        first_present(candidates) is Some ==> exists|i: int|
            0 <= i < candidates.len() && #[trigger] candidates[i] == first_present(candidates),
        first_present(candidates) is None ==> forall|i: int|
            0 <= i < candidates.len() ==> (#[trigger] candidates[i]) is None,
    decreases candidates.len(),
{
    if candidates.len() > 0 && candidates[0] is None {
        let rest = candidates.drop_first();
        lemma_first_present_is_a_candidate(rest);
        if first_present(rest) is Some {
            let i = choose|i: int| 0 <= i < rest.len() && #[trigger] rest[i] == first_present(rest);
            assert(candidates[i + 1] == rest[i]);
        } else {
            assert forall|i: int| 0 <= i < candidates.len() implies (#[trigger] candidates[i]) is None by {
                if i > 0 {
                    assert(candidates[i] == rest[i - 1]);
                }
            }
        }
    } else if candidates.len() > 0 {
        assert(candidates[0] == first_present(candidates));
    }
}

/// Whatever is extracted from a URL is a video identifier.
pub proof fn lemma_extracted_is_video_id(url: Seq<char>)
    ensures
        first_present(url_captures(url)) matches Some(id) ==> is_video_id(id),
{
    lemma_first_present_is_a_candidate(url_captures(url));
}

/// The views of a list of optional strings.
pub open spec fn candidates_view(candidates: Seq<Option<String>>) -> Seq<Option<Seq<char>>> {
    Seq::new(candidates.len(), |i: int| text_view(candidates[i]))
}

/// The first candidate that is there, or none.
pub fn first_match(candidates: Vec<Option<String>>) -> (r: Option<String>)
    ensures
        text_view(r) == first_present(candidates_view(candidates@)),
{
    let ghost all = candidates_view(candidates@);
    let mut pool = candidates;
    let mut i: usize = 0;
    assert(all.subrange(0, all.len() as int) == all);
    while i < pool.len()
        invariant
            i <= pool.len(),
            all == candidates_view(candidates@),
            all == candidates_view(pool@),
            first_present(all) == first_present(all.subrange(i as int, all.len() as int)),
        decreases pool.len() - i,
    {
        let ghost rest = all.subrange(i as int, all.len() as int);
        assert(rest[0] == text_view(pool@[i as int]));
        assert(rest.drop_first() == all.subrange(i + 1, all.len() as int));
        if pool[i].is_some() {
            return pool.swap_remove(i);
        }
        i += 1;
    }
    None
}

/// The request with which the persona `strategy` resolves `video_id`.
pub open spec fn request_for<S: ClientStrategy>(strategy: S, video_id: Seq<char>) -> PlayerRequestView {
    PlayerRequestView {
        url: API_YOUTUBE_URL@,
        query: player_query(),
        headers: strategy.headers(YOUTUBE_URL@),
        body: strategy.payload(video_id),
    }
}

/// The protocol client with its active persona.
pub struct YoutubeClient<S: ClientStrategy> {
    strategy: S,
}

impl YoutubeClient<AndroidClient> {
    /// A client with the mobile persona.
    pub fn default_android() -> (r: Self)
        ensures
            r.strategy()@ == crate::downloader::persona::android_config(),
    {
        YoutubeClient { strategy: AndroidClient::new() }
    }
}

impl<S: ClientStrategy> YoutubeClient<S> {
    /// The active persona.
    pub closed spec fn strategy(&self) -> S {
        self.strategy
    }

    /// A client with the given persona.
    pub fn new(strategy: S) -> (r: Self)
        ensures
            r.strategy() == strategy,
    {
        YoutubeClient { strategy }
    }

    /// Replaces the active persona.
    pub fn set_strategy(&mut self, strategy: S)
        ensures
            final(self).strategy() == strategy,
    {
        self.strategy = strategy;
    }

    /// The request that resolves `video_id`, worded by the active persona.
    pub fn player_request(&self, video_id: &str) -> (r: PlayerRequest)
        ensures
            r@ == request_for(self.strategy(), video_id@),
    {
        proof {
            reveal_strlit("https://www.youtube.com");
        }
        let headers = self.strategy.build_headers(YOUTUBE_URL);
        let body = self.strategy.build_payload(video_id);
        let mut query: Vec<(String, String)> = Vec::new();
        query.push((String::from_str("prettyPrint"), String::from_str("false")));
        assert(query_view(query@) == player_query());
        PlayerRequest { url: String::from_str(API_YOUTUBE_URL), query, headers, body }
    }

    /// Turns a response in raw shape into a resolved video.
    pub fn parse_player_payload(&self, player_response: PlayerResponse, video_id: &str) -> (r: Result<VideoInfo, YtdlError>)
        ensures
            outcome_view(r) == payload_outcome(player_response@, video_id@),
    {
        let details = match player_response.video_details {
            Some(details) => details,
            None => {
                return Err(YtdlError::VideoNotFound(String::from_str(video_id)));
            },
        };
        let formats = match player_response.streaming_data {
            Some(StreamingData { formats: Some(formats) }) => formats,
            _ => {
                return Err(YtdlError::NoSuitableFormat);
            },
        };
        if formats.len() == 0 {
            return Err(YtdlError::NoSuitableFormat);
        }
        let length_seconds = match parse_u32(details.length_seconds.as_str()) {
            Some(seconds) => seconds,
            None => 0,
        };
        Ok(VideoInfo::new(details.video_id, details.title, details.author, length_seconds, formats))
    }

    /// Resolves a JSON document.
    pub fn resolve_document(&self, document: &Value, video_id: &str) -> (r: Result<VideoInfo, YtdlError>)
        ensures
            outcome_view(r) == document_outcome(json_view(*document), video_id@),
    {
        if !json::is_object(document) {
            return Err(YtdlError::ParseError(String::from_str(DOCUMENT)));
        }
        let video_details = read_document_details(document)?;
        let entries = read_format_entries(document)?;
        if video_details.is_none() {
            return Err(YtdlError::VideoNotFound(String::from_str(video_id)));
        }
        let entries = match entries {
            Some(entries) => entries,
            None => {
                return Err(YtdlError::NoSuitableFormat);
            },
        };
        if entries.len() == 0 {
            return Err(YtdlError::NoSuitableFormat);
        }
        let formats = read_formats(entries)?;
        let response = PlayerResponse {
            video_details,
            streaming_data: Some(StreamingData { formats: Some(formats) }),
        };
        self.parse_player_payload(response, video_id)
    }

    /// Resolves the body of an answer whose status reported success.
    pub fn read_video_info(&self, body: &[u8], video_id: &str) -> (r: Result<VideoInfo, YtdlError>)
        ensures
            outcome_view(r) == body_outcome(body@, video_id@),
    {
        match json::parse(body) {
            Ok(document) => self.resolve_document(&document, video_id),
            Err(complaint) => Err(YtdlError::Json(complaint)),
        }
    }

    /// Resolves an answer: its status is judged first, and only the body of a
    /// successful answer is read.
    pub fn get_video_info(&self, video_id: &str, status: u16, body: &[u8]) -> (r: Result<VideoInfo, YtdlError>)
        ensures
            outcome_view(r) == answer_outcome(status, body@, video_id@),
    {
        match check_status(status) {
            Ok(()) => self.read_video_info(body, video_id),
            Err(error) => Err(error),
        }
    }

    /// The video identifier in a URL: what the first shape that matches
    /// captures, or none where no shape matches. What comes back is always
    /// eleven characters of the identifier alphabet that stand in the URL
    /// as one piece.
    pub fn extract_video_id(url: &str) -> (r: Option<String>)
        ensures
            text_view(r) == first_present(url_captures(url@)),
            r matches Some(id) ==> is_video_id(id@) && occurs_in(id@, url@),
    {
        let mut candidates: Vec<Option<String>> = Vec::new();
        candidates.push(capture_id(r"youtube\.com/watch\?.*v=([a-zA-Z0-9_-]{11})", url));
        candidates.push(capture_id(r"youtu\.be/([a-zA-Z0-9_-]{11})", url));
        candidates.push(capture_id(r"youtube\.com/embed/([a-zA-Z0-9_-]{11})", url));
        candidates.push(capture_id(r"youtube\.com/v/([a-zA-Z0-9_-]{11})", url));
        candidates.push(capture_id(r"youtube\.com/shorts/([a-zA-Z0-9_-]{11})", url));
        assert(candidates_view(candidates@) == url_captures(url@));
        proof {
            lemma_extracted_is_video_id(url@);
            lemma_first_present_is_a_candidate(url_captures(url@));
        }
        assert(forall|i: int|
            0 <= i < candidates@.len() ==> ((#[trigger] candidates@[i]) matches Some(text)
                ==> occurs_in(text@, url@)));
        first_match(candidates)
    }
}

/// Whether `text` is a video identifier.
pub fn check_video_id(text: &str) -> (r: bool)
    ensures
        r == is_video_id(text@),
{
    let mut count: usize = 0;
    for c in it: text.chars()
        invariant
            it.seq() == text@,
            count == it.index(),
            count <= 11,
            forall|i: int| 0 <= i < it.index() ==> is_id_char(#[trigger] text@[i]),
    {
        let fits = ('a' <= c && c <= 'z') || ('A' <= c && c <= 'Z') || ('0' <= c && c <= '9') || c
            == '_' || c == '-';
        if !fits || count == 11 {
            return false;
        }
        count += 1;
    }
    count == 11
}

fn capture_id(pattern: &str, url: &str) -> (r: Option<String>)
    ensures
        text_view(r) == captured_id(pattern@, url@),
        r matches Some(text) ==> occurs_in(text@, url@),
{
    match capture(pattern, url, 1) {
        Some(text) => if check_video_id(text.as_str()) {
            Some(text)
        } else {
            None
        },
        None => None,
    }
}

} // verus!
