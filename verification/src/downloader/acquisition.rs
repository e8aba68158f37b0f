//! A whole acquisition: resolve a video, then download every one of its
//! formats.
//!
//! An acquisition is a sequence of steps on the network and the file
//! system. This module decides the sequence: which step comes next, and when
//! the acquisition is over. The caller performs each step and reports how it
//! went. Resolution comes before any download; the formats are downloaded
//! in the order of the response, all to one file; the first failure ends
//! the acquisition.

use crate::downloader::client::{body_outcome, request_for, PlayerRequest, PlayerRequestView};
use crate::downloader::error::{check_status, is_success, status_failure, YtdlError, YtdlFailure};
use crate::downloader::facade::{jobs_view, planned, DownloadJob, DownloadJobView, YoutubeFacade};
use crate::downloader::media_downloader::{
    out_of_turn, out_of_turn_error, start, transition, Download, DownloadAction, DownloadActionView,
    DownloadEvent, DownloadEventView, DownloadView, REPORTED_ITAG,
};
use vstd::prelude::*;

verus! {

/// Where an acquisition stands.
#[derive(Debug, Copy, Clone, PartialEq, Eq, Structural)]
pub enum AcquisitionPhase {
    /// The request to the playback endpoint is on its way.
    Resolving,
    /// The body of the answer is being read.
    ReadingBody,
    /// One of the formats is being downloaded.
    Downloading,
    /// The acquisition has ended, well or badly.
    Finished,
}

/// How the step that was asked for went.
#[derive(Debug, PartialEq, Eq)]
pub enum AcquisitionEvent {
    /// The playback endpoint answered with this status.
    Answered(u16),
    /// The body of the endpoint's answer.
    Body(Vec<u8>),
    /// The request to the endpoint failed, or its answer could not be read.
    TransportFailed(String),
    /// The report on a step of the running download.
    Download(DownloadEvent),
}

/// The mathematical value of an [`AcquisitionEvent`].
pub enum AcquisitionEventView {
    Answered(u16),
    Body(Seq<u8>),
    TransportFailed(Seq<char>),
    Download(DownloadEventView),
}

impl View for AcquisitionEvent {
    type V = AcquisitionEventView;

    open spec fn view(&self) -> AcquisitionEventView {
        match self {
            AcquisitionEvent::Answered(status) => AcquisitionEventView::Answered(*status),
            AcquisitionEvent::Body(body) => AcquisitionEventView::Body(body@),
            AcquisitionEvent::TransportFailed(m) => AcquisitionEventView::TransportFailed(m@),
            AcquisitionEvent::Download(event) => AcquisitionEventView::Download(event@),
        }
    }
}

/// What the caller is to do next.
#[derive(Debug)]
pub enum AcquisitionAction {
    /// Send the request with the method POST and the body as JSON.
    SendRequest(PlayerRequest),
    /// Read the whole body of the answer.
    ReadBody,
    /// Perform this step of the running download.
    Download(DownloadAction),
    /// Stop: the acquisition has ended with this outcome.
    Finish(Result<(), YtdlError>),
}

/// The mathematical value of an [`AcquisitionAction`].
pub enum AcquisitionActionView {
    SendRequest(PlayerRequestView),
    ReadBody,
    Download(DownloadActionView),
    Finish(Result<(), YtdlFailure>),
}

impl View for AcquisitionAction {
    type V = AcquisitionActionView;

    open spec fn view(&self) -> AcquisitionActionView {
        match self {
            AcquisitionAction::SendRequest(request) => AcquisitionActionView::SendRequest(request@),
            AcquisitionAction::ReadBody => AcquisitionActionView::ReadBody,
            AcquisitionAction::Download(action) => AcquisitionActionView::Download(action@),
            AcquisitionAction::Finish(Ok(())) => AcquisitionActionView::Finish(Ok(())),
            AcquisitionAction::Finish(Err(error)) => AcquisitionActionView::Finish(Err(error@)),
        }
    }
}

/// An acquisition in progress.
#[derive(Debug)]
pub struct Acquisition {
    phase: AcquisitionPhase,
    video_id: String,
    jobs: Vec<DownloadJob>,
    next: usize,
    current: Option<Download>,
}

/// The mathematical value of an [`Acquisition`].
pub struct AcquisitionView {
    pub phase: AcquisitionPhase,
    pub video_id: Seq<char>,
    /// The downloads of the acquisition, in their order; empty until the
    /// video is resolved.
    pub jobs: Seq<DownloadJobView>,
    /// The place of the running download among the downloads.
    pub next: nat,
    /// The running download.
    pub current: Option<DownloadView>,
}

impl View for Acquisition {
    type V = AcquisitionView;

    closed spec fn view(&self) -> AcquisitionView {
        AcquisitionView {
            phase: self.phase,
            video_id: self.video_id@,
            jobs: jobs_view(self.jobs@),
            next: self.next as nat,
            current: match self.current {
                Some(download) => Some(download@),
                None => None,
            },
        }
    }
}

impl AcquisitionView {
    /// While a download runs, it is one of the acquisition's downloads.
    pub open spec fn wf(self) -> bool {
        self.phase == AcquisitionPhase::Downloading ==> self.current is Some && self.next
            < self.jobs.len()
    }
}

/// An acquisition that has just begun.
pub open spec fn fresh(video_id: Seq<char>) -> AcquisitionView {
    AcquisitionView {
        phase: AcquisitionPhase::Resolving,
        video_id,
        jobs: Seq::empty(),
        next: 0,
        current: None,
    }
}

/// The end of an acquisition with an outcome.
pub open spec fn ended(state: AcquisitionView, outcome: Result<(), YtdlFailure>) -> (
    AcquisitionView,
    AcquisitionActionView,
) {
    (
        AcquisitionView { phase: AcquisitionPhase::Finished, current: None, ..state },
        AcquisitionActionView::Finish(outcome),
    )
}

/// The start of the download at place `state.next`. A format without URL
/// ends the acquisition.
pub open spec fn begun(state: AcquisitionView, user_agent: Seq<char>) -> (
    AcquisitionView,
    AcquisitionActionView,
) {
    let job = state.jobs[state.next as int];
    match job.format.url {
        None => ended(state, Err(YtdlFailure::FormatNotAvailable(REPORTED_ITAG))),
        Some(url) => (
            AcquisitionView {
                phase: AcquisitionPhase::Downloading,
                current: Some(start(user_agent, Some(url), job.destination).0),
                ..state
            },
            AcquisitionActionView::Download(start(user_agent, Some(url), job.destination).1),
        ),
    }
}

/// The rule of an acquisition with downloads to `directory` by a
/// downloader that calls itself `user_agent`: the state after a report, and
/// what to do next.
pub open spec fn acquisition_step(
    directory: Seq<char>,
    user_agent: Seq<char>,
    state: AcquisitionView,
    event: AcquisitionEventView,
) -> (AcquisitionView, AcquisitionActionView) {
    match (state.phase, event) {
        (AcquisitionPhase::Resolving, AcquisitionEventView::Answered(status)) => if is_success(
            status,
        ) {
            (
                AcquisitionView { phase: AcquisitionPhase::ReadingBody, ..state },
                AcquisitionActionView::ReadBody,
            )
        } else {
            ended(state, Err(status_failure(status)))
        },
        (AcquisitionPhase::Resolving, AcquisitionEventView::TransportFailed(m)) => ended(
            state,
            Err(YtdlFailure::Request(m)),
        ),
        (AcquisitionPhase::ReadingBody, AcquisitionEventView::TransportFailed(m)) => ended(
            state,
            Err(YtdlFailure::Request(m)),
        ),
        (AcquisitionPhase::ReadingBody, AcquisitionEventView::Body(body)) => match body_outcome(
            body,
            state.video_id,
        ) {
            Err(failure) => ended(state, Err(failure)),
            Ok(video) => begun(
                AcquisitionView {
                    jobs: planned(directory, video.title, video.formats),
                    next: 0,
                    ..state
                },
                user_agent,
            ),
        },
        (AcquisitionPhase::Downloading, AcquisitionEventView::Download(report)) => match state.current {
            Some(download) => match transition(download, report).1 {
                DownloadActionView::Finish(Ok(_)) => if state.next + 1 < state.jobs.len() {
                    begun(AcquisitionView { next: state.next + 1, ..state }, user_agent)
                } else {
                    ended(state, Ok(()))
                },
                DownloadActionView::Finish(Err(failure)) => ended(state, Err(failure)),
                action => (
                    AcquisitionView { current: Some(transition(download, report).0), ..state },
                    AcquisitionActionView::Download(action),
                ),
            },
            None => ended(state, Err(out_of_turn())),
        },
        _ => ended(state, Err(out_of_turn())),
    }
}

/// An answer of the endpoint whose status does not report success ends the
/// acquisition as a failed request: its body is not even read.
pub proof fn lemma_bad_status_ends_acquisition(
    directory: Seq<char>,
    user_agent: Seq<char>,
    state: AcquisitionView,
    status: u16,
)
    requires
        state.phase == AcquisitionPhase::Resolving,
        !is_success(status),
    ensures
        acquisition_step(directory, user_agent, state, AcquisitionEventView::Answered(status)) == ended(
            state,
            Err(status_failure(status)),
        ),
{
}

/// The body of the answer is read only once the status reported success.
pub proof fn lemma_body_follows_success(
    directory: Seq<char>,
    user_agent: Seq<char>,
    state: AcquisitionView,
    event: AcquisitionEventView,
)
    requires
        acquisition_step(directory, user_agent, state, event).1 is ReadBody,
    ensures
        state.phase == AcquisitionPhase::Resolving,
        event matches AcquisitionEventView::Answered(status) && is_success(status),
{
}

/// No download starts before the video is resolved: a step of a download is
/// asked for only on a body that resolved to a video, or while a download
/// runs.
pub proof fn lemma_resolution_comes_first(
    directory: Seq<char>,
    user_agent: Seq<char>,
    state: AcquisitionView,
    event: AcquisitionEventView,
)
    requires
        acquisition_step(directory, user_agent, state, event).1 is Download,
    ensures
        state.phase == AcquisitionPhase::ReadingBody || state.phase == AcquisitionPhase::Downloading,
        state.phase == AcquisitionPhase::ReadingBody ==> event is Body && body_outcome(
            event->Body_0,
            state.video_id,
        ) is Ok,
{
}

/// The downloads are planned once, when the video is resolved: one for
/// every format, in the order of the response, all to the same file. Later
/// steps keep the plan.
pub proof fn lemma_plan_follows_response(
    directory: Seq<char>,
    user_agent: Seq<char>,
    state: AcquisitionView,
    event: AcquisitionEventView,
)
    ensures
        state.phase == AcquisitionPhase::ReadingBody && event is Body && body_outcome(
            event->Body_0,
            state.video_id,
        ) is Ok ==> acquisition_step(directory, user_agent, state, event).0.jobs == planned(
            directory,
            body_outcome(event->Body_0, state.video_id)->Ok_0.title,
            body_outcome(event->Body_0, state.video_id)->Ok_0.formats,
        ),
        state.phase == AcquisitionPhase::Downloading ==> acquisition_step(
            directory,
            user_agent,
            state,
            event,
        ).0.jobs == state.jobs,
{
}

/// The downloads run in the order of the plan: the place of the running
/// download never goes back, it moves on by one when a download has ended
/// well, and the download that then starts is the one at the new place.
pub proof fn lemma_downloads_run_in_order(
    directory: Seq<char>,
    user_agent: Seq<char>,
    state: AcquisitionView,
    event: AcquisitionEventView,
)
    requires
        state.wf(),
        state.phase == AcquisitionPhase::Downloading,
    ensures
        acquisition_step(directory, user_agent, state, event).0.next == state.next
            || acquisition_step(directory, user_agent, state, event).0.next == state.next + 1,
        acquisition_step(directory, user_agent, state, event).0.next == state.next + 1 ==> event is Download
            && transition(state.current->Some_0, event->Download_0).1 matches DownloadActionView::Finish(
            Ok(_),
        ),
        acquisition_step(directory, user_agent, state, event).0.wf(),
{
}

/// While a download runs, the acquisition hands its reports to it and
/// hands its steps on unchanged, chunk by chunk: what holds of the steps of
/// a download holds of them inside an acquisition.
pub proof fn lemma_download_steps_pass_through(
    directory: Seq<char>,
    user_agent: Seq<char>,
    state: AcquisitionView,
    report: DownloadEventView,
)
    requires
        state.phase == AcquisitionPhase::Downloading,
        state.current is Some,
        !(transition(state.current->Some_0, report).1 is Finish),
    ensures
        acquisition_step(directory, user_agent, state, AcquisitionEventView::Download(report)).1
            == AcquisitionActionView::Download(transition(state.current->Some_0, report).1),
        acquisition_step(directory, user_agent, state, AcquisitionEventView::Download(report)).0 == (
        AcquisitionView { current: Some(transition(state.current->Some_0, report).0), ..state }),
{
}

/// An acquisition ends well only when its last download has ended well.
pub proof fn lemma_success_follows_last_download(
    directory: Seq<char>,
    user_agent: Seq<char>,
    state: AcquisitionView,
    event: AcquisitionEventView,
)
    requires
        state.wf(),
        acquisition_step(directory, user_agent, state, event).1 == AcquisitionActionView::Finish(Ok(())),
    ensures
        state.phase == AcquisitionPhase::Downloading,
        state.next + 1 == state.jobs.len(),
        event is Download,
        transition(state.current->Some_0, event->Download_0).1 matches DownloadActionView::Finish(Ok(_)),
{
}

/// A failure of a download ends the acquisition with that failure: no
/// later format is tried.
pub proof fn lemma_failed_download_ends_acquisition(
    directory: Seq<char>,
    user_agent: Seq<char>,
    state: AcquisitionView,
    report: DownloadEventView,
    failure: YtdlFailure,
)
    requires
        state.phase == AcquisitionPhase::Downloading,
        state.current is Some,
        transition(state.current->Some_0, report).1 == DownloadActionView::Finish(Err(failure)),
    ensures
        acquisition_step(directory, user_agent, state, AcquisitionEventView::Download(report)) == ended(
            state,
            Err(failure),
        ),
{
}

impl Acquisition {
    #[verifier::type_invariant]
    spec fn download_is_planned(self) -> bool {
        self.phase == AcquisitionPhase::Downloading ==> self.current is Some && self.next < self.jobs@.len()
    }

    /// Where the acquisition stands.
    pub fn phase(&self) -> (r: AcquisitionPhase)
        ensures
            r == self@.phase,
            self@.wf(),
    {
        proof {
            use_type_invariant(self);
        }
        self.phase
    }

    fn end(self, outcome: Result<(), YtdlError>) -> (r: (Acquisition, AcquisitionAction))
        ensures
            (r.0@, r.1@) == ended(
                self@,
                match outcome {
                    Ok(()) => Ok(()),
                    Err(error) => Err(error@),
                },
            ),
    {
        let ended = Acquisition {
            phase: AcquisitionPhase::Finished,
            video_id: self.video_id,
            jobs: self.jobs,
            next: self.next,
            current: None,
        };
        (ended, AcquisitionAction::Finish(outcome))
    }
}

impl YoutubeFacade {
    /// Begins the acquisition of the video `video_id`: the first step is the
    /// request to the playback endpoint.
    pub fn download_audio(&self, video_id: &str) -> (r: (Acquisition, AcquisitionAction))
        ensures
            r.0@ == fresh(video_id@),
            r.1@ == AcquisitionActionView::SendRequest(
                request_for(self.client_view().strategy(), video_id@),
            ),
    {
        let acquisition = Acquisition {
            phase: AcquisitionPhase::Resolving,
            video_id: String::from_str(video_id),
            jobs: Vec::new(),
            next: 0,
            current: None,
        };
        assert(acquisition@.jobs == Seq::<DownloadJobView>::empty());
        (acquisition, AcquisitionAction::SendRequest(self.client().player_request(video_id)))
    }

    /// Starts the download at place `next`.
    fn begin(&self, video_id: String, jobs: Vec<DownloadJob>, next: usize) -> (r: (
        Acquisition,
        AcquisitionAction,
    ))
        requires
            next < jobs@.len(),
        ensures
            (r.0@, r.1@) == begun(
                AcquisitionView {
                    phase: AcquisitionPhase::Downloading,
                    video_id: video_id@,
                    jobs: jobs_view(jobs@),
                    next: next as nat,
                    current: None,
                },
                self.downloader_view()@.user_agent,
            ),
    {
        let job = &jobs[next];
        let (download, action) = self.downloader().download(&job.format, job.destination.as_str());
        match action {
            DownloadAction::Finish(outcome) => {
                let outcome = match outcome {
                    Ok(_) => Ok(()),
                    Err(error) => Err(error),
                };
                Acquisition { phase: AcquisitionPhase::Finished, video_id, jobs, next, current: None }.end(
                    outcome,
                )
            },
            step => {
                let running = Acquisition {
                    phase: AcquisitionPhase::Downloading,
                    video_id,
                    jobs,
                    next,
                    current: Some(download),
                };
                (running, AcquisitionAction::Download(step))
            },
        }
    }

    /// Takes the report on the step that was asked for and says what to do
    /// next.
    pub fn advance(&self, acquisition: Acquisition, event: AcquisitionEvent) -> (r: (
        Acquisition,
        AcquisitionAction,
    ))
        ensures
            acquisition@.wf(),
            (r.0@, r.1@) == acquisition_step(
                self.directory(),
                self.downloader_view()@.user_agent,
                acquisition@,
                event@,
            ),
    {
        proof {
            use_type_invariant(&acquisition);
        }
        match (acquisition.phase, event) {
            (AcquisitionPhase::Resolving, AcquisitionEvent::Answered(status)) => {
                match check_status(status) {
                    Ok(()) => {
                        let reading = Acquisition {
                            phase: AcquisitionPhase::ReadingBody,
                            video_id: acquisition.video_id,
                            jobs: acquisition.jobs,
                            next: acquisition.next,
                            current: acquisition.current,
                        };
                        (reading, AcquisitionAction::ReadBody)
                    },
                    Err(error) => acquisition.end(Err(error)),
                }
            },
            (AcquisitionPhase::Resolving, AcquisitionEvent::TransportFailed(message)) => {
                acquisition.end(Err(YtdlError::Request(message)))
            },
            (AcquisitionPhase::ReadingBody, AcquisitionEvent::TransportFailed(message)) => {
                acquisition.end(Err(YtdlError::Request(message)))
            },
            (AcquisitionPhase::ReadingBody, AcquisitionEvent::Body(body)) => {
                match self.client().read_video_info(body.as_slice(), acquisition.video_id.as_str()) {
                    Ok(video) => {
                        let jobs = self.plan(video);
                        self.begin(acquisition.video_id, jobs, 0)
                    },
                    Err(error) => acquisition.end(Err(error)),
                }
            },
            (AcquisitionPhase::Downloading, AcquisitionEvent::Download(report)) => {
                let Acquisition { phase, video_id, jobs, next, current } = acquisition;
                let mut download = current.unwrap();
                assert(next < jobs.len());
                match download.step(report) {
                    DownloadAction::Finish(Ok(_)) => {
                        if next + 1 < jobs.len() {
                            self.begin(video_id, jobs, next + 1)
                        } else {
                            Acquisition { phase, video_id, jobs, next, current: Some(download) }.end(Ok(()))
                        }
                    },
                    DownloadAction::Finish(Err(error)) => {
                        Acquisition { phase, video_id, jobs, next, current: Some(download) }.end(Err(error))
                    },
                    step => {
                        let running = Acquisition { phase, video_id, jobs, next, current: Some(download) };
                        (running, AcquisitionAction::Download(step))
                    },
                }
            },
            (_, _) => acquisition.end(Err(out_of_turn_error())),
        }
    }
}

} // verus!
