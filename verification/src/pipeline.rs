//! The pipeline that takes one job from its creation to its final status.
//!
//! The pipeline decides; the caller acts. Each step hands the caller one
//! action: store the job, call the service, write a file. The caller reports
//! how the action went as an event, and the pipeline answers with the next
//! action, until it is finished. The job is stored after every change of
//! its status, so that the store and the outcome never disagree.

use crate::client::{
    GeminiClient, GeminiClientView, job_after_response, request_for, response_outcome,
};
use crate::config::{Config, ConfigView};
use crate::download::{
    DownloadStep, DownloadStepView, download_step, lemma_next_pending, next_download,
    record_download, with_saved,
};
use crate::error::{BananaError, BananaErrorView};
use crate::job::{Job, JobAction, JobStatusView, JobView, Timestamp, is_job_id};
use crate::params::{GenerateParams, GenerateParamsView};
use crate::wire::{CandidateView, GenerateRequest, GenerateRequestView, GenerateResponse, strings_view};
use vstd::prelude::*;

verus! {

/// What the pipeline waits for.
#[derive(Clone, Copy, Debug, PartialEq, Eq, Structural)]
pub enum Phase {
    /// The new job is being stored.
    Inserting,
    /// The running job is being stored.
    Starting,
    /// The service is being called.
    Calling,
    /// The job with its final status is being stored.
    Settling,
    /// The image at `position` is being written.
    Saving { position: usize },
    /// The job with its saved images is being stored.
    Closing,
    /// Nothing: the run is over.
    Finished,
}

/// How an action of the pipeline went.
#[derive(Debug)]
pub enum PipelineEvent {
    /// The store took the job.
    Stored,
    /// The store failed.
    StoreFailed { message: String },
    /// The service answered.
    Answered { response: GenerateResponse },
    /// The service could not be reached, reported an error, or answered
    /// what could not be read.
    ServiceFailed { error: BananaError },
    /// The file was written at `path`.
    Written { path: String },
    /// The file could not be written.
    WriteFailed { message: String },
}

/// The mathematical value of a `PipelineEvent`.
pub enum PipelineEventView {
    Stored,
    StoreFailed { message: Seq<char> },
    Answered { response: Seq<CandidateView> },
    ServiceFailed { error: BananaErrorView },
    Written { path: Seq<char> },
    WriteFailed { message: Seq<char> },
}

impl View for PipelineEvent {
    type V = PipelineEventView;

    open spec fn view(&self) -> PipelineEventView {
        match self {
            PipelineEvent::Stored => PipelineEventView::Stored,
            PipelineEvent::StoreFailed { message } => PipelineEventView::StoreFailed {
                message: message@,
            },
            PipelineEvent::Answered { response } => PipelineEventView::Answered {
                response: response@,
            },
            PipelineEvent::ServiceFailed { error } => PipelineEventView::ServiceFailed {
                error: error@,
            },
            PipelineEvent::Written { path } => PipelineEventView::Written { path: path@ },
            PipelineEvent::WriteFailed { message } => PipelineEventView::WriteFailed {
                message: message@,
            },
        }
    }
}

/// What the caller is to do next.
#[derive(Debug)]
pub enum PipelineAction {
    /// Insert the pipeline's job into the store.
    Insert,
    /// Update the pipeline's job in the store.
    Update,
    /// Send `request` to the service at `url`.
    Call { url: String, request: GenerateRequest },
    /// Write `bytes` to a file named `file_name` in the output directory.
    Write { file_name: String, bytes: Vec<u8> },
    /// Nothing more: the run is over.
    Finish,
    /// Nothing: the event answers no action that the pipeline waits for,
    /// and was passed over.
    Rejected,
}

/// The mathematical value of a `PipelineAction`.
pub enum PipelineActionView {
    Insert,
    Update,
    Call { url: Seq<char>, request: GenerateRequestView },
    Write { file_name: Seq<char>, bytes: Seq<u8> },
    Finish,
    Rejected,
}

impl View for PipelineAction {
    type V = PipelineActionView;

    open spec fn view(&self) -> PipelineActionView {
        match self {
            PipelineAction::Insert => PipelineActionView::Insert,
            PipelineAction::Update => PipelineActionView::Update,
            PipelineAction::Call { url, request } => PipelineActionView::Call {
                url: url@,
                request: request@,
            },
            PipelineAction::Write { file_name, bytes } => PipelineActionView::Write {
                file_name: file_name@,
                bytes: bytes@,
            },
            PipelineAction::Finish => PipelineActionView::Finish,
            PipelineAction::Rejected => PipelineActionView::Rejected,
        }
    }
}

/// One run of the pipeline.
pub struct Pipeline {
    /// The job of the run, as the store is to hold it.
    pub job: Job,
    /// Whether the images are saved once the job has completed.
    pub download: bool,
    /// What the pipeline waits for.
    pub phase: Phase,
    /// Why the run failed, if it did.
    pub failure: Option<BananaError>,
    /// Where the images of this run were saved, in order.
    pub saved: Vec<String>,
    /// Why images of this run were not saved, in order.
    pub download_errors: Vec<BananaError>,
    /// The client of the service that the run calls.
    pub client: GeminiClient,
}

/// The views of a list of errors, in order.
pub open spec fn errors_view(errors: Seq<BananaError>) -> Seq<BananaErrorView> {
    errors.map_values(|e: BananaError| e@)
}

/// The view of an optional error.
pub open spec fn opt_error_view(error: Option<BananaError>) -> Option<BananaErrorView> {
    match error {
        Some(e) => Some(e@),
        None => None,
    }
}

/// The mathematical value of a `Pipeline`.
pub struct PipelineView {
    pub job: JobView,
    pub download: bool,
    pub phase: Phase,
    pub failure: Option<BananaErrorView>,
    pub saved: Seq<Seq<char>>,
    pub download_errors: Seq<BananaErrorView>,
    pub client: GeminiClientView,
}

impl PipelineView {
    /// A run as it starts: the job waits to be inserted.
    pub open spec fn started(client: GeminiClientView, job: JobView, download: bool) -> PipelineView {
        PipelineView {
            job,
            download,
            phase: Phase::Inserting,
            failure: None,
            saved: Seq::empty(),
            download_errors: Seq::empty(),
            client,
        }
    }

    /// The error that decides whether the run counts as failed: the
    /// failure of the run where there is one, else the first reason why an
    /// image was not saved, else none.
    pub open spec fn deciding_error(self) -> Option<BananaErrorView> {
        match self.failure {
            Some(e) => Some(e),
            None => if self.download_errors.len() > 0 {
                Some(self.download_errors[0])
            } else {
                None
            },
        }
    }

    /// The run ended by a failure of the store. The job in memory stays as
    /// it is.
    pub open spec fn store_failed(self, message: Seq<char>) -> (PipelineView, PipelineActionView) {
        (
            PipelineView {
                phase: Phase::Finished,
                failure: Some(BananaErrorView::DatabaseError(message)),
                ..self
            },
            PipelineActionView::Finish,
        )
    }

    /// The run when the images before `from` have been dealt with: the next
    /// image that can be decoded is handed out to be written; those that
    /// cannot are noted and passed over; with no image left the job is
    /// stored a last time.
    pub open spec fn saving_from(self, from: int) -> (PipelineView, PipelineActionView)
        decreases self.job.images.len() - from,
    {
        match download_step(self.job, from) {
            DownloadStepView::Done => (
                PipelineView { phase: Phase::Closing, ..self },
                PipelineActionView::Update,
            ),
            DownloadStepView::Write { position, file_name, bytes } => (
                PipelineView { phase: Phase::Saving { position: position as usize }, ..self },
                PipelineActionView::Write { file_name, bytes },
            ),
            DownloadStepView::Undecodable { position, error } => {
                if from <= position < self.job.images.len() {
                    PipelineView {
                        download_errors: self.download_errors.push(error),
                        ..self
                    }.saving_from(position as int + 1)
                } else {
                    (self, PipelineActionView::Rejected)
                }
            },
        }
    }

    /// The run after `event`, and what the caller is to do next. `now` is
    /// the time of the change, where the job changes.
    pub open spec fn step(self, event: PipelineEventView, now: Timestamp) -> (
        PipelineView,
        PipelineActionView,
    ) {
        match (self.phase, event) {
            (Phase::Inserting, PipelineEventView::Stored) => (
                PipelineView {
                    job: self.job.moved_to(JobStatusView::Running { progress: 0 }, now),
                    phase: Phase::Starting,
                    ..self
                },
                PipelineActionView::Update,
            ),
            (Phase::Starting, PipelineEventView::Stored) => (
                PipelineView { phase: Phase::Calling, ..self },
                PipelineActionView::Call {
                    url: self.client.endpoint(self.job.params.model),
                    request: request_for(self.job.params),
                },
            ),
            (Phase::Calling, PipelineEventView::Answered { response }) => (
                PipelineView {
                    job: job_after_response(self.job, response, now),
                    failure: match response_outcome(self.job, response) {
                        Ok(()) => None,
                        Err(e) => Some(e),
                    },
                    phase: Phase::Settling,
                    ..self
                },
                PipelineActionView::Update,
            ),
            (Phase::Calling, PipelineEventView::ServiceFailed { error }) => (
                PipelineView {
                    job: self.job.moved_to(JobStatusView::Failed { error: error.text() }, now),
                    failure: Some(error),
                    phase: Phase::Settling,
                    ..self
                },
                PipelineActionView::Update,
            ),
            (Phase::Settling, PipelineEventView::Stored) => {
                if self.failure is None && self.download {
                    self.saving_from(0)
                } else {
                    (PipelineView { phase: Phase::Finished, ..self }, PipelineActionView::Finish)
                }
            },
            (Phase::Saving { position }, PipelineEventView::Written { path }) => {
                if position < self.job.images.len() {
                    PipelineView {
                        job: with_saved(self.job, position as int, path, now),
                        saved: self.saved.push(path),
                        ..self
                    }.saving_from(position as int + 1)
                } else {
                    (self, PipelineActionView::Rejected)
                }
            },
            (Phase::Saving { position }, PipelineEventView::WriteFailed { message }) => {
                if position < self.job.images.len() {
                    PipelineView {
                        download_errors: self.download_errors.push(
                            BananaErrorView::IoError(message),
                        ),
                        ..self
                    }.saving_from(position as int + 1)
                } else {
                    (self, PipelineActionView::Rejected)
                }
            },
            (Phase::Closing, PipelineEventView::Stored) => (
                PipelineView { phase: Phase::Finished, ..self },
                PipelineActionView::Finish,
            ),
            (Phase::Inserting, PipelineEventView::StoreFailed { message }) => self.store_failed(
                message,
            ),
            (Phase::Starting, PipelineEventView::StoreFailed { message }) => self.store_failed(
                message,
            ),
            (Phase::Settling, PipelineEventView::StoreFailed { message }) => self.store_failed(
                message,
            ),
            (Phase::Closing, PipelineEventView::StoreFailed { message }) => self.store_failed(
                message,
            ),
            _ => (self, PipelineActionView::Rejected),
        }
    }
}

impl View for Pipeline {
    type V = PipelineView;

    open spec fn view(&self) -> PipelineView {
        PipelineView {
            job: self.job@,
            download: self.download,
            phase: self.phase,
            failure: opt_error_view(self.failure),
            saved: strings_view(self.saved@),
            download_errors: errors_view(self.download_errors@),
            client: self.client@,
        }
    }
}

/// The parameters of a request: the prompt, with aspect ratio, size and
/// model as given, or as the settings have them where they are not given.
pub open spec fn resolved_params(
    config: ConfigView,
    prompt: Seq<char>,
    aspect_ratio: Option<Seq<char>>,
    size: Option<Seq<char>>,
    model: Option<Seq<char>>,
) -> GenerateParamsView {
    GenerateParamsView {
        aspect_ratio: match aspect_ratio {
            Some(a) => a,
            None => config.defaults.aspect_ratio,
        },
        size: match size {
            Some(s) => s,
            None => config.defaults.size,
        },
        model: match model {
            Some(m) => m,
            None => config.api.model,
        },
        ..GenerateParamsView::initial(prompt)
    }
}

/// The view of an optional string slice.
pub open spec fn opt_str_view(o: Option<&str>) -> Option<Seq<char>> {
    match o {
        Some(s) => Some(s@),
        None => None,
    }
}

/// The parameters of a request for `prompt`: aspect ratio, size and model
/// as given, or as the settings have them where they are not given.
pub fn resolve_params(
    config: &Config,
    prompt: &str,
    aspect_ratio: Option<&str>,
    size: Option<&str>,
    model: Option<&str>,
) -> (r: GenerateParams)
    ensures
        r@ == resolved_params(
            config@,
            prompt@,
            opt_str_view(aspect_ratio),
            opt_str_view(size),
            opt_str_view(model),
        ),
{
    let aspect_ratio = match aspect_ratio {
        Some(a) => a,
        None => config.defaults.aspect_ratio.as_str(),
    };
    let size = match size {
        Some(s) => s,
        None => config.defaults.size.as_str(),
    };
    let model = match model {
        Some(m) => m,
        None => config.api.model.as_str(),
    };
    GenerateParams::new(prompt).with_aspect_ratio(aspect_ratio).with_size(size).with_model(model)
}

impl Pipeline {
    /// Starts a run for `job`. The first action is always to insert the job
    /// into the store. With `download` set, the images are saved once the
    /// job has completed.
    pub fn start(client: GeminiClient, job: Job, download: bool) -> (r: (Pipeline, PipelineAction))
        ensures
            r.0@ == PipelineView::started(client@, job@, download),
            r.1@ == PipelineActionView::Insert,
    {
        let pipeline = Pipeline {
            job,
            download,
            phase: Phase::Inserting,
            failure: None,
            saved: Vec::new(),
            download_errors: Vec::new(),
            client,
        };
        assert(pipeline@.saved =~= Seq::empty());
        assert(pipeline@.download_errors =~= Seq::empty());
        (pipeline, PipelineAction::Insert)
    }

    /// Creates the job for `params` and `action` and starts a run for it.
    pub fn create(
        client: GeminiClient,
        params: GenerateParams,
        action: JobAction,
        download: bool,
    ) -> (r: (Pipeline, PipelineAction))
        ensures
            r.0@ == PipelineView::started(
                client@,
                JobView::created(params@, action@, r.0@.job.id, r.0@.job.created_at),
                download,
            ),
            is_job_id(r.0@.job.id),
            r.1@ == PipelineActionView::Insert,
    {
        Pipeline::start(client, Job::create(params, action), download)
    }

    /// Starts a run for `params` and `action` against the service that the
    /// settings name. Without an API key no run is started and no job is
    /// created: the missing key is reported at once.
    pub fn begin(config: &Config, params: GenerateParams, action: JobAction, download: bool) -> (r:
        Result<(Pipeline, PipelineAction), BananaError>)
        ensures
            match r {
                Ok((run, first)) => {
                    &&& config@.api.key == Some(run@.client.api_key)
                    &&& run@.client.base_url == config@.api.base_url
                    &&& run@ == PipelineView::started(
                        run@.client,
                        JobView::created(params@, action@, run@.job.id, run@.job.created_at),
                        download,
                    )
                    &&& is_job_id(run@.job.id)
                    &&& first@ == PipelineActionView::Insert
                },
                Err(e) => config@.api.key is None && e@ == BananaErrorView::MissingApiKey,
            },
    {
        match GeminiClient::from_config(config) {
            Ok(client) => Ok(Pipeline::create(client, params, action, download)),
            Err(e) => Err(e),
        }
    }

    /// The error that decides whether the run counts as failed: the
    /// failure of the run where there is one, else the first reason why an
    /// image was not saved, else none.
    pub fn deciding_error(&self) -> (r: Option<BananaError>)
        ensures
            opt_error_view(r) == self@.deciding_error(),
    {
        match &self.failure {
            Some(e) => Some(e.clone()),
            None => {
                if self.download_errors.len() > 0 {
                    Some(self.download_errors[0].clone())
                } else {
                    None
                }
            },
        }
    }

    /// Whether the run is over.
    pub fn is_finished(&self) -> (r: bool)
        ensures
            r == (self@.phase == Phase::Finished),
    {
        match self.phase {
            Phase::Finished => true,
            _ => false,
        }
    }

    fn end_on_store_failure(&mut self, message: String) -> (action: PipelineAction)
        ensures
            (final(self)@, action@) == old(self)@.store_failed(message@),
    {
        self.failure = Some(BananaError::DatabaseError(message));
        self.phase = Phase::Finished;
        PipelineAction::Finish
    }

    fn save_from(&mut self, from: usize) -> (action: PipelineAction)
        ensures
            (final(self)@, action@) == old(self)@.saving_from(from as int),
            final(self)@.job == old(self)@.job,
        decreases old(self).job.images@.len() - from,
    {
        proof {
            lemma_next_pending(self@.job.images, from as int);
        }
        match next_download(&self.job, from) {
            DownloadStep::Done => {
                self.phase = Phase::Closing;
                PipelineAction::Update
            },
            DownloadStep::Write { position, file_name, bytes } => {
                self.phase = Phase::Saving { position };
                PipelineAction::Write { file_name, bytes }
            },
            DownloadStep::Undecodable { position, error } => {
                assert(self.job.images@.len() == self@.job.images.len());
                assert(position < self.job.images.len());
                let ghost noted = error@;
                self.download_errors.push(error);
                assert(self@.download_errors =~= old(self)@.download_errors.push(noted));
                self.save_from(position + 1)
            },
        }
    }

    /// Takes the run one step on: `event` says how the last action went,
    /// the result says what is to be done next. An event that answers no
    /// action the pipeline waits for changes nothing.
    pub fn step(&mut self, event: PipelineEvent) -> (action: PipelineAction)
        ensures
            (final(self)@, action@) == old(self)@.step(event@, final(self)@.job.updated_at),
    {
        match self.phase {
            Phase::Inserting => match event {
                PipelineEvent::Stored => {
                    self.job.set_running(0);
                    self.phase = Phase::Starting;
                    PipelineAction::Update
                },
                PipelineEvent::StoreFailed { message } => self.end_on_store_failure(message),
                _ => PipelineAction::Rejected,
            },
            Phase::Starting => match event {
                PipelineEvent::Stored => {
                    self.phase = Phase::Calling;
                    PipelineAction::Call {
                        url: self.client.endpoint(self.job.params.model.as_str()),
                        request: self.client.build_generate_request(&self.job.params),
                    }
                },
                PipelineEvent::StoreFailed { message } => self.end_on_store_failure(message),
                _ => PipelineAction::Rejected,
            },
            Phase::Calling => match event {
                PipelineEvent::Answered { response } => {
                    match self.client.process_response(&mut self.job, response) {
                        Ok(()) => {
                            self.failure = None;
                        },
                        Err(e) => {
                            self.failure = Some(e);
                        },
                    }
                    self.phase = Phase::Settling;
                    PipelineAction::Update
                },
                PipelineEvent::ServiceFailed { error } => {
                    let text = error.to_string();
                    self.job.set_failed(text.as_str());
                    self.failure = Some(error);
                    self.phase = Phase::Settling;
                    PipelineAction::Update
                },
                _ => PipelineAction::Rejected,
            },
            Phase::Settling => match event {
                PipelineEvent::Stored => {
                    if self.failure.is_none() && self.download {
                        self.save_from(0)
                    } else {
                        self.phase = Phase::Finished;
                        PipelineAction::Finish
                    }
                },
                PipelineEvent::StoreFailed { message } => self.end_on_store_failure(message),
                _ => PipelineAction::Rejected,
            },
            Phase::Saving { position } => match event {
                PipelineEvent::Written { path } => {
                    assert(self.job.images@.len() == self@.job.images.len());
                    if position < self.job.images.len() {
                        let ghost place = path@;
                        self.saved.push(path.clone());
                        assert(self@.saved =~= old(self)@.saved.push(place));
                        record_download(&mut self.job, position, path);
                        self.save_from(position + 1)
                    } else {
                        PipelineAction::Rejected
                    }
                },
                PipelineEvent::WriteFailed { message } => {
                    assert(self.job.images@.len() == self@.job.images.len());
                    if position < self.job.images.len() {
                        let ghost noted = BananaErrorView::IoError(message@);
                        self.download_errors.push(BananaError::IoError(message));
                        assert(self@.download_errors =~= old(self)@.download_errors.push(noted));
                        self.save_from(position + 1)
                    } else {
                        PipelineAction::Rejected
                    }
                },
                _ => PipelineAction::Rejected,
            },
            Phase::Closing => match event {
                PipelineEvent::Stored => {
                    self.phase = Phase::Finished;
                    PipelineAction::Finish
                },
                PipelineEvent::StoreFailed { message } => self.end_on_store_failure(message),
                _ => PipelineAction::Rejected,
            },
            Phase::Finished => PipelineAction::Rejected,
        }
    }
}

} // verus!
