//! What the playback endpoint answers, and how it is read.
//!
//! The endpoint is undocumented and leaves members out freely. Reading is
//! therefore tolerant: of a format only the tag is required, and a missing or
//! `null` member is simply absent. A member that is present with the wrong
//! kind of value is a fault, reported under the member's name.

use crate::downloader::error::{YtdlError, YtdlFailure};
use crate::downloader::json;
use crate::downloader::json::{json_view, JsonNumber, JsonView};
use serde_json::Value;
use vstd::prelude::*;

verus! {

/// One downloadable representation of a video.
#[derive(Debug, PartialEq, Eq)]
pub struct StreamFormat {
    pub itag: u32,
    pub url: Option<String>,
    pub approx_duration_ms: Option<String>,
    pub audio_channels: Option<u8>,
    pub audio_quality: Option<String>,
    pub audio_sample_rate: Option<String>,
    pub average_bitrate: Option<u32>,
    pub bitrate: Option<u32>,
    pub mime_type: Option<String>,
    pub quality: Option<String>,
}

/// The mathematical value of a [`StreamFormat`].
pub struct StreamFormatView {
    pub itag: u32,
    pub url: Option<Seq<char>>,
    pub approx_duration_ms: Option<Seq<char>>,
    pub audio_channels: Option<u8>,
    pub audio_quality: Option<Seq<char>>,
    pub audio_sample_rate: Option<Seq<char>>,
    pub average_bitrate: Option<u32>,
    pub bitrate: Option<u32>,
    pub mime_type: Option<Seq<char>>,
    pub quality: Option<Seq<char>>,
}

/// The view of an optional string.
pub open spec fn text_view(text: Option<String>) -> Option<Seq<char>> {
    match text {
        Some(t) => Some(t@),
        None => None,
    }
}

impl View for StreamFormat {
    type V = StreamFormatView;

    open spec fn view(&self) -> StreamFormatView {
        StreamFormatView {
            itag: self.itag,
            url: text_view(self.url),
            approx_duration_ms: text_view(self.approx_duration_ms),
            audio_channels: self.audio_channels,
            audio_quality: text_view(self.audio_quality),
            audio_sample_rate: text_view(self.audio_sample_rate),
            average_bitrate: self.average_bitrate,
            bitrate: self.bitrate,
            mime_type: text_view(self.mime_type),
            quality: text_view(self.quality),
        }
    }
}

/// The views of a list of formats, in the list's order.
pub open spec fn formats_view(formats: Seq<StreamFormat>) -> Seq<StreamFormatView> {
    Seq::new(formats.len(), |i: int| formats[i]@)
}

/// The details section of a response.
#[derive(Debug, PartialEq, Eq)]
pub struct VideoDetails {
    pub video_id: String,
    pub author: String,
    pub length_seconds: String,
    pub title: String,
}

/// The mathematical value of a [`VideoDetails`].
pub struct VideoDetailsView {
    pub video_id: Seq<char>,
    pub author: Seq<char>,
    pub length_seconds: Seq<char>,
    pub title: Seq<char>,
}

impl View for VideoDetails {
    type V = VideoDetailsView;

    open spec fn view(&self) -> VideoDetailsView {
        VideoDetailsView {
            video_id: self.video_id@,
            author: self.author@,
            length_seconds: self.length_seconds@,
            title: self.title@,
        }
    }
}

/// The streaming section of a response.
#[derive(Debug, PartialEq, Eq)]
pub struct StreamingData {
    pub formats: Option<Vec<StreamFormat>>,
}

/// A response in its raw shape: either section may be missing.
#[derive(Debug, PartialEq, Eq)]
pub struct PlayerResponse {
    pub video_details: Option<VideoDetails>,
    pub streaming_data: Option<StreamingData>,
}

/// The mathematical value of a [`PlayerResponse`]. A streaming section
/// without a format list counts as an empty list.
pub struct PlayerResponseView {
    pub video_details: Option<VideoDetailsView>,
    pub formats: Seq<StreamFormatView>,
}

impl View for PlayerResponse {
    type V = PlayerResponseView;

    open spec fn view(&self) -> PlayerResponseView {
        PlayerResponseView {
            video_details: match self.video_details {
                Some(details) => Some(details@),
                None => None,
            },
            formats: match self.streaming_data {
                Some(StreamingData { formats: Some(formats) }) => formats_view(formats@),
                _ => Seq::empty(),
            },
        }
    }
}

/// A resolved video: its metadata and its formats in the order of the
/// response. There is always at least one format.
#[derive(Debug, PartialEq, Eq)]
pub struct VideoInfo {
    video_id: String,
    title: String,
    author: String,
    length_seconds: u32,
    formats: Vec<StreamFormat>,
}

/// The mathematical value of a [`VideoInfo`].
pub struct VideoInfoView {
    pub video_id: Seq<char>,
    pub title: Seq<char>,
    pub author: Seq<char>,
    pub length_seconds: u32,
    pub formats: Seq<StreamFormatView>,
}

impl View for VideoInfo {
    type V = VideoInfoView;

    closed spec fn view(&self) -> VideoInfoView {
        VideoInfoView {
            video_id: self.video_id@,
            title: self.title@,
            author: self.author@,
            length_seconds: self.length_seconds,
            formats: formats_view(self.formats@),
        }
    }
}

impl VideoInfo {
    #[verifier::type_invariant]
    spec fn has_formats(self) -> bool {
        self.formats@.len() > 0
    }

    /// Puts a video's data together.
    pub(crate) fn new(video_id: String, title: String, author: String, length_seconds: u32, formats: Vec<StreamFormat>) -> (r: VideoInfo)
        requires
            formats@.len() > 0,
        ensures
            r@ == (VideoInfoView {
                video_id: video_id@,
                title: title@,
                author: author@,
                length_seconds,
                formats: formats_view(formats@),
            }),
    {
        VideoInfo { video_id, title, author, length_seconds, formats }
    }

    pub fn video_id(&self) -> (r: &str)
        ensures
            r@ == self@.video_id,
    {
        self.video_id.as_str()
    }

    pub fn title(&self) -> (r: &str)
        ensures
            r@ == self@.title,
    {
        self.title.as_str()
    }

    pub fn author(&self) -> (r: &str)
        ensures
            r@ == self@.author,
    {
        self.author.as_str()
    }

    pub fn length_seconds(&self) -> (r: u32)
        ensures
            r == self@.length_seconds,
    {
        self.length_seconds
    }

    /// The formats, in the order of the response; never empty.
    pub fn formats(&self) -> (r: &Vec<StreamFormat>)
        ensures
            formats_view(r@) == self@.formats,
            r@.len() > 0,
    {
        proof {
            use_type_invariant(self);
        }
        &self.formats
    }

    /// Gives up the video's data for its formats.
    pub fn into_formats(self) -> (r: Vec<StreamFormat>)
        ensures
            formats_view(r@) == self@.formats,
            r@.len() > 0,
    {
        proof {
            use_type_invariant(&self);
        }
        self.formats
    }
}

/// The view of an outcome.
pub open spec fn outcome_view(outcome: Result<VideoInfo, YtdlError>) -> Result<
    VideoInfoView,
    YtdlFailure,
> {
    match outcome {
        Ok(info) => Ok(info@),
        Err(error) => Err(error@),
    }
}

// ---------------------------------------------------------------------------
// Reading members of a JSON object
// ---------------------------------------------------------------------------

/// The member `key` when it must be text.
pub open spec fn required_text(entry: JsonView, key: Seq<char>) -> Result<Seq<char>, Seq<char>> {
    match entry.present(key) {
        Some(JsonView::Text(text)) => Ok(text),
        _ => Err(key),
    }
}

/// The member `key` when it may be missing and must be text otherwise.
pub open spec fn optional_text(entry: JsonView, key: Seq<char>) -> Result<
    Option<Seq<char>>,
    Seq<char>,
> {
    match entry.present(key) {
        None => Ok(None),
        Some(JsonView::Text(text)) => Ok(Some(text)),
        Some(_) => Err(key),
    }
}

/// The member `key` when it must be a non-negative integer of at most `max`.
pub open spec fn required_number(entry: JsonView, key: Seq<char>, max: u64) -> Result<
    u64,
    Seq<char>,
> {
    match entry.present(key) {
        Some(JsonView::Number(JsonNumber::Unsigned(n))) => if n <= max {
            Ok(n)
        } else {
            Err(key)
        },
        _ => Err(key),
    }
}

/// The member `key` when it may be missing and must be a non-negative integer
/// of at most `max` otherwise.
pub open spec fn optional_number(entry: JsonView, key: Seq<char>, max: u64) -> Result<
    Option<u64>,
    Seq<char>,
> {
    match entry.present(key) {
        None => Ok(None),
        Some(JsonView::Number(JsonNumber::Unsigned(n))) => if n <= max {
            Ok(Some(n))
        } else {
            Err(key)
        },
        Some(_) => Err(key),
    }
}

/// The failure for a member that could not be read.
pub open spec fn fault(key: Seq<char>) -> YtdlFailure {
    YtdlFailure::ParseError(key)
}

/// The member `key` unless it is missing or `null`.
pub fn present<'a>(entry: &'a Value, key: &str) -> (r: Option<&'a Value>)
    ensures
        r matches Some(member) ==> json_view(*entry).present(key@) == Some(json_view(*member)),
        r is None ==> json_view(*entry).present(key@) is None,
{
    match json::get(entry, key) {
        Some(member) => if json::is_null(member) {
            None
        } else {
            Some(member)
        },
        None => None,
    }
}

fn unreadable(key: &str) -> (r: YtdlError)
    ensures
        r@ == fault(key@),
{
    YtdlError::ParseError(String::from_str(key))
}

fn read_required_text(entry: &Value, key: &str) -> (r: Result<String, YtdlError>)
    ensures
        match required_text(json_view(*entry), key@) {
            Ok(text) => r matches Ok(s) && s@ == text,
            Err(k) => r matches Err(e) && e@ == fault(k),
        },
{
    match present(entry, key) {
        Some(member) => match json::as_str(member) {
            Some(text) => Ok(String::from_str(text)),
            None => Err(unreadable(key)),
        },
        None => Err(unreadable(key)),
    }
}

fn read_optional_text(entry: &Value, key: &str) -> (r: Result<Option<String>, YtdlError>)
    ensures
        match optional_text(json_view(*entry), key@) {
            Ok(text) => r matches Ok(s) && text_view(s) == text,
            Err(k) => r matches Err(e) && e@ == fault(k),
        },
{
    match present(entry, key) {
        Some(member) => match json::as_str(member) {
            Some(text) => Ok(Some(String::from_str(text))),
            None => Err(unreadable(key)),
        },
        None => Ok(None),
    }
}

fn read_required_number(entry: &Value, key: &str, max: u64) -> (r: Result<u64, YtdlError>)
    ensures
        match required_number(json_view(*entry), key@, max) {
            Ok(n) => r == Ok::<u64, YtdlError>(n),
            Err(k) => r matches Err(e) && e@ == fault(k),
        },
{
    match present(entry, key) {
        Some(member) => match json::as_u64(member) {
            Some(n) => if n <= max {
                Ok(n)
            } else {
                Err(unreadable(key))
            },
            None => Err(unreadable(key)),
        },
        None => Err(unreadable(key)),
    }
}

fn read_optional_number(entry: &Value, key: &str, max: u64) -> (r: Result<Option<u64>, YtdlError>)
    ensures
        match optional_number(json_view(*entry), key@, max) {
            Ok(n) => r == Ok::<Option<u64>, YtdlError>(n),
            Err(k) => r matches Err(e) && e@ == fault(k),
        },
{
    match present(entry, key) {
        Some(member) => match json::as_u64(member) {
            Some(n) => if n <= max {
                Ok(Some(n))
            } else {
                Err(unreadable(key))
            },
            None => Err(unreadable(key)),
        },
        None => Ok(None),
    }
}

// ---------------------------------------------------------------------------
// Reading the sections of a response
// ---------------------------------------------------------------------------

/// The first member of a format entry that cannot be read, if there is one.
/// The tag is read first, then the optional members in the order in which
/// [`StreamFormat`] lists them.
pub open spec fn format_fault(entry: JsonView) -> Option<Seq<char>> {
    if required_number(entry, "itag"@, u32::MAX as u64) is Err {
        Some("itag"@)
    } else if optional_text(entry, "url"@) is Err {
        Some("url"@)
    } else if optional_text(entry, "approxDurationMs"@) is Err {
        Some("approxDurationMs"@)
    } else if optional_number(entry, "audioChannels"@, u8::MAX as u64) is Err {
        Some("audioChannels"@)
    } else if optional_text(entry, "audioQuality"@) is Err {
        Some("audioQuality"@)
    } else if optional_text(entry, "audioSampleRate"@) is Err {
        Some("audioSampleRate"@)
    } else if optional_number(entry, "averageBitrate"@, u32::MAX as u64) is Err {
        Some("averageBitrate"@)
    } else if optional_number(entry, "bitrate"@, u32::MAX as u64) is Err {
        Some("bitrate"@)
    } else if optional_text(entry, "mimeType"@) is Err {
        Some("mimeType"@)
    } else if optional_text(entry, "quality"@) is Err {
        Some("quality"@)
    } else {
        None
    }
}

/// An optional number as an 8-bit value.
pub open spec fn narrow_u8(n: Option<u64>) -> Option<u8> {
    match n {
        Some(n) => Some(n as u8),
        None => None,
    }
}

/// An optional number as a 32-bit value.
pub open spec fn narrow_u32(n: Option<u64>) -> Option<u32> {
    match n {
        Some(n) => Some(n as u32),
        None => None,
    }
}

/// The format that a faultless entry describes.
pub open spec fn format_of(entry: JsonView) -> StreamFormatView {
    StreamFormatView {
        itag: required_number(entry, "itag"@, u32::MAX as u64)->Ok_0 as u32,
        url: optional_text(entry, "url"@)->Ok_0,
        approx_duration_ms: optional_text(entry, "approxDurationMs"@)->Ok_0,
        audio_channels: narrow_u8(optional_number(entry, "audioChannels"@, u8::MAX as u64)->Ok_0),
        audio_quality: optional_text(entry, "audioQuality"@)->Ok_0,
        audio_sample_rate: optional_text(entry, "audioSampleRate"@)->Ok_0,
        average_bitrate: narrow_u32(
            optional_number(entry, "averageBitrate"@, u32::MAX as u64)->Ok_0,
        ),
        bitrate: narrow_u32(optional_number(entry, "bitrate"@, u32::MAX as u64)->Ok_0),
        mime_type: optional_text(entry, "mimeType"@)->Ok_0,
        quality: optional_text(entry, "quality"@)->Ok_0,
    }
}

/// What a format entry reads as.
pub open spec fn decoded_format(entry: JsonView) -> Result<StreamFormatView, Seq<char>> {
    match format_fault(entry) {
        Some(key) => Err(key),
        None => Ok(format_of(entry)),
    }
}

/// Absence is never a fault but for the tag: the member that a fault names
/// is the tag or a member that the entry holds.
pub proof fn lemma_only_present_members_fault(entry: JsonView)
    ensures
        format_fault(entry) matches Some(key) ==> key == "itag"@ || entry.present(key) is Some,
{
}

/// An entry that holds a tag and nothing else reads as a format with that
/// tag and nothing else.
pub proof fn lemma_bare_tag_is_a_format(entry: JsonView, itag: u32)
    requires
        entry.present("itag"@) == Some(JsonView::Number(JsonNumber::Unsigned(itag as u64))),
        entry.present("url"@) is None,
        entry.present("approxDurationMs"@) is None,
        entry.present("audioChannels"@) is None,
        entry.present("audioQuality"@) is None,
        entry.present("audioSampleRate"@) is None,
        entry.present("averageBitrate"@) is None,
        entry.present("bitrate"@) is None,
        entry.present("mimeType"@) is None,
        entry.present("quality"@) is None,
    ensures
        decoded_format(entry) == Ok::<StreamFormatView, Seq<char>>(
            StreamFormatView {
                itag,
                url: None,
                approx_duration_ms: None,
                audio_channels: None,
                audio_quality: None,
                audio_sample_rate: None,
                average_bitrate: None,
                bitrate: None,
                mime_type: None,
                quality: None,
            },
        ),
{
}

/// What a list of format entries reads as: the formats in the list's order,
/// or the fault of the first entry that has one.
pub open spec fn decoded_formats(entries: Seq<JsonView>) -> Result<
    Seq<StreamFormatView>,
    Seq<char>,
>
    decreases entries.len(),
{
    if entries.len() == 0 {
        Ok(Seq::empty())
    } else {
        match decoded_formats(entries.drop_last()) {
            Err(key) => Err(key),
            Ok(formats) => match decoded_format(entries.last()) {
                Err(key) => Err(key),
                Ok(format) => Ok(formats.push(format)),
            },
        }
    }
}

/// What a details section reads as. The section is an object, and all four
/// members are required text.
pub open spec fn decoded_details(section: JsonView) -> Result<VideoDetailsView, Seq<char>> {
    if !(section is Object) {
        Err("videoDetails"@)
    } else if required_text(section, "videoId"@) is Err {
        Err("videoId"@)
    } else if required_text(section, "author"@) is Err {
        Err("author"@)
    } else if required_text(section, "lengthSeconds"@) is Err {
        Err("lengthSeconds"@)
    } else if required_text(section, "title"@) is Err {
        Err("title"@)
    } else {
        Ok(
            VideoDetailsView {
                video_id: required_text(section, "videoId"@)->Ok_0,
                author: required_text(section, "author"@)->Ok_0,
                length_seconds: required_text(section, "lengthSeconds"@)->Ok_0,
                title: required_text(section, "title"@)->Ok_0,
            },
        )
    }
}

/// The details of a document, if it has a details section. A section that
/// is there must read without fault.
pub open spec fn document_details(document: JsonView) -> Result<Option<VideoDetailsView>, Seq<char>> {
    match document.present("videoDetails"@) {
        None => Ok(None),
        Some(section) => match decoded_details(section) {
            Ok(details) => Ok(Some(details)),
            Err(key) => Err(key),
        },
    }
}

/// The entries of a document's format list. A missing streaming section and
/// a missing list both count as an empty list; a streaming section that is
/// no object and a list that is no array are faults.
pub open spec fn format_entries(document: JsonView) -> Result<Seq<JsonView>, Seq<char>> {
    match document.present("streamingData"@) {
        None => Ok(Seq::empty()),
        Some(section) => if !(section is Object) {
            Err("streamingData"@)
        } else {
            match section.present("formats"@) {
                None => Ok(Seq::empty()),
                Some(JsonView::Array(entries)) => Ok(entries),
                Some(_) => Err("formats"@),
            }
        },
    }
}

/// Reads the details of a document, if it has a details section.
pub fn read_document_details(document: &Value) -> (r: Result<Option<VideoDetails>, YtdlError>)
    ensures
        match document_details(json_view(*document)) {
            Ok(Some(details)) => r matches Ok(Some(d)) && d@ == details,
            Ok(None) => r matches Ok(None),
            Err(key) => r matches Err(e) && e@ == fault(key),
        },
{
    match present(document, "videoDetails") {
        Some(section) => match read_details(section) {
            Ok(details) => Ok(Some(details)),
            Err(error) => Err(error),
        },
        None => Ok(None),
    }
}

/// The entries of a document's format list; none where there is no list.
pub fn read_format_entries<'a>(document: &'a Value) -> (r: Result<Option<&'a Vec<Value>>, YtdlError>)
    ensures
        match format_entries(json_view(*document)) {
            Ok(entries) => match r {
                Ok(Some(list)) => entries == Seq::new(list@.len(), |i: int| json_view(list@[i])),
                Ok(None) => entries.len() == 0,
                Err(_) => false,
            },
            Err(key) => r matches Err(e) && e@ == fault(key),
        },
{
    let section = match present(document, "streamingData") {
        Some(section) => section,
        None => {
            return Ok(None);
        },
    };
    if !json::is_object(section) {
        return Err(unreadable("streamingData"));
    }
    match present(section, "formats") {
        Some(list) => match json::as_array(list) {
            Some(entries) => Ok(Some(entries)),
            None => Err(unreadable("formats")),
        },
        None => Ok(None),
    }
}

/// Reads one entry of the format list.
pub fn read_format(entry: &Value) -> (r: Result<StreamFormat, YtdlError>)
    ensures
        match decoded_format(json_view(*entry)) {
            Ok(format) => r matches Ok(f) && f@ == format,
            Err(key) => r matches Err(e) && e@ == fault(key),
        },
{
    let itag = read_required_number(entry, "itag", u32::MAX as u64)?;
    let url = read_optional_text(entry, "url")?;
    let approx_duration_ms = read_optional_text(entry, "approxDurationMs")?;
    let audio_channels = read_optional_number(entry, "audioChannels", u8::MAX as u64)?;
    let audio_quality = read_optional_text(entry, "audioQuality")?;
    let audio_sample_rate = read_optional_text(entry, "audioSampleRate")?;
    let average_bitrate = read_optional_number(entry, "averageBitrate", u32::MAX as u64)?;
    let bitrate = read_optional_number(entry, "bitrate", u32::MAX as u64)?;
    let mime_type = read_optional_text(entry, "mimeType")?;
    let quality = read_optional_text(entry, "quality")?;
    Ok(
        StreamFormat {
            itag: itag as u32,
            url,
            approx_duration_ms,
            audio_channels: match audio_channels {
                Some(n) => Some(n as u8),
                None => None,
            },
            audio_quality,
            audio_sample_rate,
            average_bitrate: match average_bitrate {
                Some(n) => Some(n as u32),
                None => None,
            },
            bitrate: match bitrate {
                Some(n) => Some(n as u32),
                None => None,
            },
            mime_type,
            quality,
        },
    )
}

/// Reads the entries of a format list, in order, up to the first fault.
pub fn read_formats(entries: &Vec<Value>) -> (r: Result<Vec<StreamFormat>, YtdlError>)
    ensures
        match decoded_formats(Seq::new(entries@.len(), |i: int| json_view(entries@[i]))) {
            Ok(formats) => r matches Ok(list) && formats_view(list@) == formats,
            Err(key) => r matches Err(e) && e@ == fault(key),
        },
{
    let ghost views = Seq::new(entries@.len(), |i: int| json_view(entries@[i]));
    let mut formats: Vec<StreamFormat> = Vec::new();
    let mut i: usize = 0;
    assert(formats_view(formats@) == Seq::<StreamFormatView>::empty());
    while i < entries.len()
        invariant
            i <= entries.len(),
            views == Seq::new(entries@.len(), |i: int| json_view(entries@[i])),
            decoded_formats(views.subrange(0, i as int)) == Ok::<Seq<StreamFormatView>, Seq<char>>(
                formats_view(formats@),
            ),
        decreases entries.len() - i,
    {
        let ghost prefix = views.subrange(0, i + 1);
        assert(prefix.drop_last() == views.subrange(0, i as int));
        assert(prefix.last() == json_view(entries@[i as int]));
        match read_format(&entries[i]) {
            Ok(format) => {
                let ghost before = formats@;
                formats.push(format);
                assert(formats_view(formats@) == formats_view(before).push(format@));
            },
            Err(error) => {
                proof {
                    lemma_fault_persists(views, i + 1);
                }
                return Err(error);
            },
        }
        i += 1;
    }
    assert(views.subrange(0, entries@.len() as int) == views);
    Ok(formats)
}

/// A fault among the first `k` entries is the fault of the whole list.
proof fn lemma_fault_persists(entries: Seq<JsonView>, k: int)
    requires
        0 <= k <= entries.len(),
        decoded_formats(entries.subrange(0, k)) is Err,
    ensures
        decoded_formats(entries) == decoded_formats(entries.subrange(0, k)),
    decreases entries.len() - k,
{
    if k == entries.len() {
        assert(entries.subrange(0, k) == entries);
    } else {
        let longer = entries.subrange(0, k + 1);
        assert(longer.drop_last() == entries.subrange(0, k));
        lemma_fault_persists(entries, k + 1);
    }
}

/// A list that reads without fault yields one format per entry, each the
/// reading of the entry in its place.
pub proof fn lemma_decoded_formats_pointwise(entries: Seq<JsonView>)
    requires
        decoded_formats(entries) is Ok,
    ensures
        decoded_formats(entries)->Ok_0.len() == entries.len(),
        forall|i: int|
            0 <= i < entries.len() ==> decoded_format(#[trigger] entries[i]) == Ok::<
                StreamFormatView,
                Seq<char>,
            >(decoded_formats(entries)->Ok_0[i]),
    decreases entries.len(),
{
    if entries.len() > 0 {
        let front = entries.drop_last();
        lemma_decoded_formats_pointwise(front);
        let formats = decoded_formats(entries)->Ok_0;
        assert forall|i: int| 0 <= i < entries.len() implies decoded_format(#[trigger] entries[i])
            == Ok::<StreamFormatView, Seq<char>>(formats[i]) by {
            if i < front.len() {
                assert(entries[i] == front[i]);
            }
        }
    }
}

/// Reads a details section.
pub fn read_details(section: &Value) -> (r: Result<VideoDetails, YtdlError>)
    ensures
        match decoded_details(json_view(*section)) {
            Ok(details) => r matches Ok(d) && d@ == details,
            Err(key) => r matches Err(e) && e@ == fault(key),
        },
{
    if !json::is_object(section) {
        return Err(unreadable("videoDetails"));
    }
    let video_id = read_required_text(section, "videoId")?;
    let author = read_required_text(section, "author")?;
    let length_seconds = read_required_text(section, "lengthSeconds")?;
    let title = read_required_text(section, "title")?;
    Ok(VideoDetails { video_id, author, length_seconds, title })
}

} // verus!
