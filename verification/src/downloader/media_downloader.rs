//! Fetching one stream to one file.
//!
//! A download is a fixed sequence of steps on the network and the file
//! system: ensure the destination's directory, send the request, judge the
//! answer's status, create the file, then receive and write chunk by chunk,
//! and flush. This module decides the sequence; the caller performs each
//! step and reports how it went. Nothing is retried: the first failure ends
//! the download.

use crate::downloader::error::{check_status, is_success, status_failure, YtdlError, YtdlFailure};
use crate::downloader::headers::{
    check_header_text, header_value_of, header_view, is_header_text, lowercase, new_headers,
    set_header, static_header_value,
};
use crate::downloader::response::StreamFormat;
use reqwest::header::HeaderMap;
use vstd::prelude::*;

verus! {

/// The user agent of a downloader that was given no other.
pub const DEFAULT_USER_AGENT: &'static str =
    "Mozilla/5.0 (Windows NT 10.0; Win64; x64) AppleWebKit/537.36";

/// The referer that every download request carries.
pub const REFERER: &'static str = "https://www.youtube.com";

/// The tag that is reported for a format without URL.
pub const REPORTED_ITAG: u32 = 18;

/// Policy of a downloader. The chunk size and the number of retries are
/// declared here and not consulted by the download itself.
#[derive(Debug)]
pub struct DownloaderConfig {
    pub chunked_size: usize,
    pub user_agent: String,
    pub max_retries: u32,
}

/// The mathematical value of a [`DownloaderConfig`].
pub struct DownloaderConfigView {
    pub chunked_size: usize,
    pub user_agent: Seq<char>,
    pub max_retries: u32,
}

impl View for DownloaderConfig {
    type V = DownloaderConfigView;

    open spec fn view(&self) -> DownloaderConfigView {
        DownloaderConfigView {
            chunked_size: self.chunked_size,
            user_agent: self.user_agent@,
            max_retries: self.max_retries,
        }
    }
}

/// The policy of a downloader that was given no other.
pub open spec fn default_config() -> DownloaderConfigView {
    DownloaderConfigView { chunked_size: 1024, user_agent: DEFAULT_USER_AGENT@, max_retries: 3 }
}

impl Default for DownloaderConfig {
    fn default() -> (r: DownloaderConfig)
        ensures
            r@ == default_config(),
    {
        DownloaderConfig {
            chunked_size: 1024,
            user_agent: String::from_str(DEFAULT_USER_AGENT),
            max_retries: 3,
        }
    }
}

/// Builds a policy step by step, starting from the default.
#[derive(Debug)]
pub struct DownloadBuilder {
    download_config: DownloaderConfig,
}

impl View for DownloadBuilder {
    type V = DownloaderConfigView;

    closed spec fn view(&self) -> DownloaderConfigView {
        self.download_config@
    }
}

impl DownloadBuilder {
    pub fn new() -> (r: DownloadBuilder)
        ensures
            r@ == default_config(),
    {
        DownloadBuilder { download_config: DownloaderConfig::default() }
    }

    pub fn chunk_size(self, chunk_size: usize) -> (r: DownloadBuilder)
        ensures
            r@ == (DownloaderConfigView { chunked_size: chunk_size, ..self@ }),
    {
        let mut builder = self;
        builder.download_config.chunked_size = chunk_size;
        builder
    }

    pub fn max_retries(self, max_retries: u32) -> (r: DownloadBuilder)
        ensures
            r@ == (DownloaderConfigView { max_retries, ..self@ }),
    {
        let mut builder = self;
        builder.download_config.max_retries = max_retries;
        builder
    }

    pub fn user_agent(self, user_agent: String) -> (r: DownloadBuilder)
        ensures
            r@ == (DownloaderConfigView { user_agent: user_agent@, ..self@ }),
    {
        let mut builder = self;
        builder.download_config.user_agent = user_agent;
        builder
    }

    /// The policy that was built.
    pub fn config(self) -> (r: DownloaderConfig)
        ensures
            r@ == self@,
    {
        self.download_config
    }
}

/// Where a download stands.
#[derive(Debug, Copy, Clone, PartialEq, Eq, Structural)]
pub enum DownloadPhase {
    /// The destination's parent directories are being created.
    PreparingDirectory,
    /// The request is on its way.
    AwaitingResponse,
    /// The destination file is being created or truncated.
    CreatingFile,
    /// The next chunk is awaited.
    Receiving,
    /// The chunk that arrived is being written.
    Writing,
    /// The file is being flushed.
    Flushing,
    /// The download has ended, well or badly.
    Finished,
}

/// How the step that was asked for went.
#[derive(Debug, PartialEq, Eq)]
pub enum DownloadEvent {
    /// The step on the file system succeeded.
    Completed,
    /// The server answered with this status.
    Answered(u16),
    /// This chunk of the body arrived.
    ChunkReceived(Vec<u8>),
    /// The stream ended.
    StreamEnded,
    /// The transport failed.
    TransportFailed(String),
    /// The file system refused.
    IoFailed(String),
}

/// The mathematical value of a [`DownloadEvent`].
pub enum DownloadEventView {
    Completed,
    Answered(u16),
    ChunkReceived(Seq<u8>),
    StreamEnded,
    TransportFailed(Seq<char>),
    IoFailed(Seq<char>),
}

impl View for DownloadEvent {
    type V = DownloadEventView;

    open spec fn view(&self) -> DownloadEventView {
        match self {
            DownloadEvent::Completed => DownloadEventView::Completed,
            DownloadEvent::Answered(status) => DownloadEventView::Answered(*status),
            DownloadEvent::ChunkReceived(chunk) => DownloadEventView::ChunkReceived(chunk@),
            DownloadEvent::StreamEnded => DownloadEventView::StreamEnded,
            DownloadEvent::TransportFailed(m) => DownloadEventView::TransportFailed(m@),
            DownloadEvent::IoFailed(m) => DownloadEventView::IoFailed(m@),
        }
    }
}

/// What the caller is to do next.
#[derive(Debug)]
pub enum DownloadAction {
    /// Create the missing parent directories of the destination.
    EnsureParentDirectory { destination: String },
    /// Send a GET request for the URL with these headers.
    SendRequest { url: String, headers: HeaderMap },
    /// Create the destination file, truncating one that exists.
    CreateFile { destination: String },
    /// Wait for the next chunk of the body.
    ReceiveChunk,
    /// Write this chunk, the one that just arrived, to the end of the file.
    WriteChunk(Vec<u8>),
    /// Flush the file.
    Flush,
    /// Stop: the download has ended with this outcome, the destination on
    /// success.
    Finish(Result<String, YtdlError>),
}

/// The mathematical value of a [`DownloadAction`].
pub enum DownloadActionView {
    EnsureParentDirectory { destination: Seq<char> },
    SendRequest { url: Seq<char>, headers: Map<Seq<char>, Seq<char>> },
    CreateFile { destination: Seq<char> },
    ReceiveChunk,
    WriteChunk(Seq<u8>),
    Flush,
    Finish(Result<Seq<char>, YtdlFailure>),
}

impl View for DownloadAction {
    type V = DownloadActionView;

    open spec fn view(&self) -> DownloadActionView {
        match self {
            DownloadAction::EnsureParentDirectory { destination } => {
                DownloadActionView::EnsureParentDirectory { destination: destination@ }
            },
            DownloadAction::SendRequest { url, headers } => DownloadActionView::SendRequest {
                url: url@,
                headers: header_view(*headers),
            },
            DownloadAction::CreateFile { destination } => DownloadActionView::CreateFile {
                destination: destination@,
            },
            DownloadAction::ReceiveChunk => DownloadActionView::ReceiveChunk,
            DownloadAction::WriteChunk(chunk) => DownloadActionView::WriteChunk(chunk@),
            DownloadAction::Flush => DownloadActionView::Flush,
            DownloadAction::Finish(Ok(path)) => DownloadActionView::Finish(Ok(path@)),
            DownloadAction::Finish(Err(error)) => DownloadActionView::Finish(Err(error@)),
        }
    }
}

/// A download in progress.
#[derive(Debug)]
pub struct Download {
    phase: DownloadPhase,
    url: String,
    destination: String,
    user_agent: String,
}

/// The mathematical value of a [`Download`].
pub struct DownloadView {
    pub phase: DownloadPhase,
    pub url: Seq<char>,
    pub destination: Seq<char>,
    pub user_agent: Seq<char>,
}

impl View for Download {
    type V = DownloadView;

    closed spec fn view(&self) -> DownloadView {
        DownloadView {
            phase: self.phase,
            url: self.url@,
            destination: self.destination@,
            user_agent: self.user_agent@,
        }
    }
}

/// The headers of a download request, by lower-case name.
pub open spec fn download_headers(user_agent: Seq<char>) -> Map<Seq<char>, Seq<char>> {
    map![
        "user-agent"@ => user_agent,
        "referer"@ => REFERER@,
    ]
}

/// The failure for a report that does not fit the step that was asked for.
pub open spec fn out_of_turn() -> YtdlFailure {
    YtdlFailure::DownloadFailed("report does not fit the step that was asked for"@)
}

/// The download in the phase `phase`.
pub open spec fn moved(state: DownloadView, phase: DownloadPhase) -> DownloadView {
    DownloadView { phase, ..state }
}

/// The end of a download with a failure.
pub open spec fn failed(state: DownloadView, failure: YtdlFailure) -> (DownloadView, DownloadActionView) {
    (moved(state, DownloadPhase::Finished), DownloadActionView::Finish(Err(failure)))
}

/// The rule of a download: the state after a report, and what to do next.
///
/// A failure of the transport or of the file system ends the download with
/// that failure, whatever the phase. Otherwise the phases follow each other
/// in their fixed order, with one loop: every chunk that arrives is written
/// before the next one is awaited.
pub open spec fn transition(state: DownloadView, event: DownloadEventView) -> (DownloadView, DownloadActionView) {
    match (state.phase, event) {
        (DownloadPhase::Finished, _) => failed(state, out_of_turn()),
        (_, DownloadEventView::TransportFailed(m)) => failed(state, YtdlFailure::Request(m)),
        (_, DownloadEventView::IoFailed(m)) => failed(state, YtdlFailure::Io(m)),
        (DownloadPhase::PreparingDirectory, DownloadEventView::Completed) => (
            moved(state, DownloadPhase::AwaitingResponse),
            DownloadActionView::SendRequest {
                url: state.url,
                headers: download_headers(state.user_agent),
            },
        ),
        (DownloadPhase::AwaitingResponse, DownloadEventView::Answered(status)) => if is_success(
            status,
        ) {
            (
                moved(state, DownloadPhase::CreatingFile),
                DownloadActionView::CreateFile { destination: state.destination },
            )
        } else {
            failed(state, status_failure(status))
        },
        (DownloadPhase::CreatingFile, DownloadEventView::Completed) => (
            moved(state, DownloadPhase::Receiving),
            DownloadActionView::ReceiveChunk,
        ),
        (DownloadPhase::Receiving, DownloadEventView::ChunkReceived(chunk)) => (
            moved(state, DownloadPhase::Writing),
            DownloadActionView::WriteChunk(chunk),
        ),
        (DownloadPhase::Receiving, DownloadEventView::StreamEnded) => (
            moved(state, DownloadPhase::Flushing),
            DownloadActionView::Flush,
        ),
        (DownloadPhase::Writing, DownloadEventView::Completed) => (
            moved(state, DownloadPhase::Receiving),
            DownloadActionView::ReceiveChunk,
        ),
        (DownloadPhase::Flushing, DownloadEventView::Completed) => (
            moved(state, DownloadPhase::Finished),
            DownloadActionView::Finish(Ok(state.destination)),
        ),
        _ => failed(state, out_of_turn()),
    }
}

/// How a download starts: a format without URL ends it at once; any other
/// begins with the destination's directory.
pub open spec fn start(user_agent: Seq<char>, url: Option<Seq<char>>, destination: Seq<char>) -> (
    DownloadView,
    DownloadActionView,
) {
    match url {
        Some(url) => (
            DownloadView { phase: DownloadPhase::PreparingDirectory, url, destination, user_agent },
            DownloadActionView::EnsureParentDirectory { destination },
        ),
        None => (
            DownloadView {
                phase: DownloadPhase::Finished,
                url: Seq::empty(),
                destination,
                user_agent,
            },
            DownloadActionView::Finish(Err(YtdlFailure::FormatNotAvailable(REPORTED_ITAG))),
        ),
    }
}

/// The place of a phase in the order of a download.
pub open spec fn rank(phase: DownloadPhase) -> nat {
    match phase {
        DownloadPhase::PreparingDirectory => 0,
        DownloadPhase::AwaitingResponse => 1,
        DownloadPhase::CreatingFile => 2,
        DownloadPhase::Receiving => 3,
        DownloadPhase::Writing => 3,
        DownloadPhase::Flushing => 4,
        DownloadPhase::Finished => 5,
    }
}

/// A format without URL ends the download at once with the failure for it,
/// and nothing that is reported afterwards makes the download create a file
/// or send a request.
pub proof fn lemma_no_url_no_file(user_agent: Seq<char>, destination: Seq<char>, event: DownloadEventView)
    ensures
        start(user_agent, None, destination).1 == DownloadActionView::Finish(
            Err(YtdlFailure::FormatNotAvailable(REPORTED_ITAG)),
        ),
        start(user_agent, None, destination).0.phase == DownloadPhase::Finished,
        transition(start(user_agent, None, destination).0, event).0.phase == DownloadPhase::Finished,
        transition(start(user_agent, None, destination).0, event).1 is Finish,
{
}

/// A download never goes back in the order of its phases, and it keeps its
/// URL, its destination and its user agent.
pub proof fn lemma_download_moves_forward(state: DownloadView, event: DownloadEventView)
    ensures
        rank(transition(state, event).0.phase) >= rank(state.phase),
        transition(state, event).0.url == state.url,
        transition(state, event).0.destination == state.destination,
        transition(state, event).0.user_agent == state.user_agent,
{
}

/// The request is sent only once the destination's directory is there.
pub proof fn lemma_request_follows_directory(state: DownloadView, event: DownloadEventView)
    requires
        transition(state, event).1 is SendRequest,
    ensures
        state.phase == DownloadPhase::PreparingDirectory,
        event == DownloadEventView::Completed,
        transition(state, event).0.phase == DownloadPhase::AwaitingResponse,
{
}

/// The file is created only on an answer whose status reports success, and
/// it is the destination.
pub proof fn lemma_file_follows_success(state: DownloadView, event: DownloadEventView)
    requires
        transition(state, event).1 is CreateFile,
    ensures
        state.phase == DownloadPhase::AwaitingResponse,
        event matches DownloadEventView::Answered(status) && is_success(status),
        transition(state, event).1 == (DownloadActionView::CreateFile { destination: state.destination }),
{
}

/// A chunk is written only when it has just arrived, and what is written is
/// the chunk that arrived.
pub proof fn lemma_write_follows_chunk(state: DownloadView, event: DownloadEventView)
    requires
        transition(state, event).1 is WriteChunk,
    ensures
        state.phase == DownloadPhase::Receiving,
        event == DownloadEventView::ChunkReceived(transition(state, event).1->WriteChunk_0),
{
}

/// A download ends well only after the flush, and then with its destination.
pub proof fn lemma_success_follows_flush(state: DownloadView, event: DownloadEventView)
    requires
        transition(state, event).1 matches DownloadActionView::Finish(Ok(_)),
    ensures
        state.phase == DownloadPhase::Flushing,
        event == DownloadEventView::Completed,
        transition(state, event).1 == DownloadActionView::Finish(Ok(state.destination)),
{
}

/// A failure that is reported ends the download with that failure, whatever
/// the phase of a download that has not ended.
pub proof fn lemma_failure_ends_download(state: DownloadView, message: Seq<char>)
    requires
        state.phase != DownloadPhase::Finished,
    ensures
        transition(state, DownloadEventView::TransportFailed(message)) == failed(
            state,
            YtdlFailure::Request(message),
        ),
        transition(state, DownloadEventView::IoFailed(message)) == failed(state, YtdlFailure::Io(message)),
{
}

/// A status that does not report success ends the download before any
/// file is created.
pub proof fn lemma_bad_status_ends_download(state: DownloadView, status: u16)
    requires
        state.phase == DownloadPhase::AwaitingResponse,
        !is_success(status),
    ensures
        transition(state, DownloadEventView::Answered(status)) == failed(state, status_failure(status)),
{
}

/// What a download asks for, step by step, when it is in the state `state`
/// and the reports `events` come in one after the other.
pub open spec fn actions_of(state: DownloadView, events: Seq<DownloadEventView>) -> Seq<DownloadActionView>
    decreases events.len(),
{
    if events.len() == 0 {
        Seq::empty()
    } else {
        seq![transition(state, events[0]).1] + actions_of(
            transition(state, events[0]).0,
            events.drop_first(),
        )
    }
}

/// The bytes of the chunks that the reports say arrived, in their order.
pub open spec fn bytes_received(events: Seq<DownloadEventView>) -> Seq<u8>
    decreases events.len(),
{
    if events.len() == 0 {
        Seq::empty()
    } else {
        match events[0] {
            DownloadEventView::ChunkReceived(chunk) => chunk + bytes_received(events.drop_first()),
            _ => bytes_received(events.drop_first()),
        }
    }
}

/// The bytes that the steps ask to write, in their order.
pub open spec fn bytes_written(actions: Seq<DownloadActionView>) -> Seq<u8>
    decreases actions.len(),
{
    if actions.len() == 0 {
        Seq::empty()
    } else {
        match actions[0] {
            DownloadActionView::WriteChunk(chunk) => chunk + bytes_written(actions.drop_first()),
            _ => bytes_written(actions.drop_first()),
        }
    }
}

/// A download that has ended never ends well afterwards.
proof fn lemma_finished_never_ends_well(state: DownloadView, events: Seq<DownloadEventView>)
    requires
        state.phase == DownloadPhase::Finished,
        events.len() > 0,
    ensures
        actions_of(state, events).len() == events.len(),
        !(actions_of(state, events).last() matches DownloadActionView::Finish(Ok(_))),
    decreases events.len(),
{
    let rest = events.drop_first();
    let next = transition(state, events[0]).0;
    if rest.len() > 0 {
        lemma_finished_never_ends_well(next, rest);
        assert(actions_of(state, events).last() == actions_of(next, rest).last());
    } else {
        assert(actions_of(next, rest).len() == 0);
    }
}

/// There is one step for every report.
pub proof fn lemma_one_action_per_event(state: DownloadView, events: Seq<DownloadEventView>)
    ensures
        actions_of(state, events).len() == events.len(),
    decreases events.len(),
{
    if events.len() > 0 {
        lemma_one_action_per_event(transition(state, events[0]).0, events.drop_first());
    }
}

/// A download that ends well has asked to write exactly the bytes that
/// arrived, in the order in which they arrived: the file holds the body of
/// the stream. The reports are those from the state `state` on; a chunk
/// that is being written in that state was asked for before.
pub proof fn lemma_file_holds_the_stream(state: DownloadView, events: Seq<DownloadEventView>)
    requires
        events.len() > 0,
        actions_of(state, events).last() matches DownloadActionView::Finish(Ok(_)),
    ensures
        bytes_written(actions_of(state, events)) == bytes_received(events),
    decreases events.len(),
{
    let first = transition(state, events[0]);
    let rest = events.drop_first();
    let actions = actions_of(state, events);
    lemma_one_action_per_event(first.0, rest);
    assert(actions[0] == first.1);
    assert(actions.drop_first() == actions_of(first.0, rest));
    if rest.len() == 0 {
        assert(actions.last() == first.1);
        assert(bytes_written(actions.drop_first()) == Seq::<u8>::empty());
        assert(bytes_received(rest) == Seq::<u8>::empty());
    } else {
        assert(actions.last() == actions_of(first.0, rest).last());
        if first.0.phase == DownloadPhase::Finished {
            lemma_finished_never_ends_well(first.0, rest);
        } else {
            lemma_file_holds_the_stream(first.0, rest);
        }
    }
}

impl Download {
    #[verifier::type_invariant]
    spec fn header_safe(self) -> bool {
        is_header_text(self.user_agent@)
    }

    pub fn phase(&self) -> (r: DownloadPhase)
        ensures
            r == self@.phase,
    {
        self.phase
    }

    pub fn destination(&self) -> (r: &str)
        ensures
            r@ == self@.destination,
    {
        self.destination.as_str()
    }

    fn fail(&mut self, error: YtdlError) -> (r: DownloadAction)
        ensures
            (final(self)@, r@) == failed(old(self)@, error@),
    {
        proof {
            use_type_invariant(&*self);
        }
        self.phase = DownloadPhase::Finished;
        DownloadAction::Finish(Err(error))
    }

    fn move_to(&mut self, phase: DownloadPhase)
        ensures
            final(self)@ == moved(old(self)@, phase),
    {
        proof {
            use_type_invariant(&*self);
        }
        self.phase = phase;
    }

    fn request(&self) -> (r: DownloadAction)
        ensures
            r@ == (DownloadActionView::SendRequest {
                url: self@.url,
                headers: download_headers(self@.user_agent),
            }),
    {
        proof {
            use_type_invariant(self);
            reveal_strlit("User-Agent");
            reveal_strlit("user-agent");
            reveal_strlit("Referer");
            reveal_strlit("referer");
            reveal_strlit("https://www.youtube.com");
            assert(lowercase("User-Agent"@) == "user-agent"@);
            assert(lowercase("Referer"@) == "referer"@);
        }
        let mut headers = new_headers();
        set_header(&mut headers, "User-Agent", header_value_of(self.user_agent.as_str()));
        set_header(&mut headers, "Referer", static_header_value(REFERER));
        DownloadAction::SendRequest { url: self.url.clone(), headers }
    }

    /// Takes the report on the step that was asked for and says what to do
    /// next.
    pub fn step(&mut self, event: DownloadEvent) -> (r: DownloadAction)
        ensures
            (final(self)@, r@) == transition(old(self)@, event@),
    {
        match self.phase {
            DownloadPhase::Finished => {
                return self.fail(out_of_turn_error());
            },
            _ => {},
        }
        match event {
            DownloadEvent::TransportFailed(message) => {
                return self.fail(YtdlError::Request(message));
            },
            DownloadEvent::IoFailed(message) => {
                return self.fail(YtdlError::Io(message));
            },
            _ => {},
        }
        match (self.phase, event) {
            (DownloadPhase::PreparingDirectory, DownloadEvent::Completed) => {
                let action = self.request();
                self.move_to(DownloadPhase::AwaitingResponse);
                action
            },
            (DownloadPhase::AwaitingResponse, DownloadEvent::Answered(status)) => {
                match check_status(status) {
                    Ok(()) => {
                        self.move_to(DownloadPhase::CreatingFile);
                        DownloadAction::CreateFile { destination: self.destination.clone() }
                    },
                    Err(error) => self.fail(error),
                }
            },
            (DownloadPhase::CreatingFile, DownloadEvent::Completed) => {
                self.move_to(DownloadPhase::Receiving);
                DownloadAction::ReceiveChunk
            },
            (DownloadPhase::Receiving, DownloadEvent::ChunkReceived(chunk)) => {
                self.move_to(DownloadPhase::Writing);
                DownloadAction::WriteChunk(chunk)
            },
            (DownloadPhase::Receiving, DownloadEvent::StreamEnded) => {
                self.move_to(DownloadPhase::Flushing);
                DownloadAction::Flush
            },
            (DownloadPhase::Writing, DownloadEvent::Completed) => {
                self.move_to(DownloadPhase::Receiving);
                DownloadAction::ReceiveChunk
            },
            (DownloadPhase::Flushing, DownloadEvent::Completed) => {
                self.move_to(DownloadPhase::Finished);
                DownloadAction::Finish(Ok(self.destination.clone()))
            },
            _ => self.fail(out_of_turn_error()),
        }
    }
}

pub(crate) fn out_of_turn_error() -> (r: YtdlError)
    ensures
        r@ == out_of_turn(),
{
    YtdlError::DownloadFailed(String::from_str("report does not fit the step that was asked for"))
}

/// Fetches streams to files, one attempt each.
#[derive(Debug)]
pub struct Downloader {
    download_config: DownloaderConfig,
}

impl View for Downloader {
    type V = DownloaderConfigView;

    closed spec fn view(&self) -> DownloaderConfigView {
        self.download_config@
    }
}

impl Downloader {
    #[verifier::type_invariant]
    spec fn header_safe(self) -> bool {
        is_header_text(self.download_config.user_agent@)
    }

    /// A downloader with the default policy.
    pub fn new() -> (r: Downloader)
        ensures
            r@ == default_config(),
    {
        proof {
            reveal_strlit("Mozilla/5.0 (Windows NT 10.0; Win64; x64) AppleWebKit/537.36");
        }
        Downloader { download_config: DownloaderConfig::default() }
    }

    /// A downloader with the given policy, if the policy's user agent can
    /// stand in a header.
    pub fn with_config(download_config: DownloaderConfig) -> (r: Option<Downloader>)
        ensures
            r is Some <==> is_header_text(download_config.user_agent@),
            r matches Some(downloader) ==> downloader@ == download_config@,
    {
        if check_header_text(download_config.user_agent.as_str()) {
            Some(Downloader { download_config })
        } else {
            None
        }
    }

    /// The downloader's policy.
    pub fn config(&self) -> (r: &DownloaderConfig)
        ensures
            r@ == self@,
    {
        &self.download_config
    }

    /// Starts the download of `format_response` to `output_path`.
    pub fn download(&self, format_response: &StreamFormat, output_path: &str) -> (r: (Download, DownloadAction))
        ensures
            (r.0@, r.1@) == start(self@.user_agent, format_response@.url, output_path@),
    {
        proof {
            use_type_invariant(self);
        }
        let user_agent = self.download_config.user_agent.clone();
        match &format_response.url {
            Some(url) => {
                let download = Download {
                    phase: DownloadPhase::PreparingDirectory,
                    url: url.clone(),
                    destination: String::from_str(output_path),
                    user_agent,
                };
                (download, DownloadAction::EnsureParentDirectory { destination: String::from_str(output_path) })
            },
            None => {
                let download = Download {
                    phase: DownloadPhase::Finished,
                    url: String::new(),
                    destination: String::from_str(output_path),
                    user_agent,
                };
                (download, DownloadAction::Finish(Err(YtdlError::FormatNotAvailable(REPORTED_ITAG))))
            },
        }
    }
}

} // verus!
