//! The order of work in one run.
//!
//! The files of a batch are published one at a time, in the order of the
//! batch. Each file moves through the stages of [`Stage`]; the first
//! failure ends the run. The driver performs the [`Action`] that the
//! pipeline names and hands back the outcome as an [`Event`].

use rhai::{Engine, AST};
use vstd::prelude::*;

use crate::config::AwsConfig;
use crate::error::{Error, ErrorKind};
use crate::publish::{plan, Upload};
use crate::s3::PutRequest;
use crate::script::run;

verus! {

/// How far the publishing of one file has come.
#[derive(Debug)]
pub enum Stage {
    /// Nothing was done yet.
    Pending,
    /// The content of the file can be read.
    StreamOpened,
    /// The metadata program ran and the upload is planned.
    MetadataResolved(Upload),
    /// The object is stored; the link is ready to be reported.
    Published(String),
    /// The run ends here.
    Failed(Error),
}

/// The outcome of the step that a stage waited for.
#[derive(Debug)]
pub enum Event {
    /// The byte stream of the file was opened, or could not be.
    Stream(Result<(), std::io::Error>),
    /// The metadata program ran and the upload was planned, or not.
    Metadata(Result<Upload, Error>),
    /// The object store took the object, or gave the reason why not.
    Store(Result<(), String>),
    /// The link was reported.
    Reported,
}

/// What the driver has to do next.
#[derive(Debug, PartialEq, Eq)]
pub enum Action<'a> {
    /// Open the byte stream of the file at this path.
    OpenStream(&'a String),
    /// Run the metadata program for the file at this path and plan the upload.
    ResolveMetadata(&'a String),
    /// Send this request with the content of the current file as its body.
    Put(&'a PutRequest),
    /// Report this link on a line of its own.
    Report(&'a String),
    /// Every file is published: end the run with success.
    Finish,
    /// A step failed: end the run with the failure.
    Abort,
}

impl Stage {
    /// The stage that follows when `event` comes in. An event that the stage
    /// does not wait for changes nothing; a published or failed file stays
    /// what it is.
    pub open spec fn after(self, event: Event) -> Stage {
        match (self, event) {
            (Stage::Pending, Event::Stream(Ok(()))) => Stage::StreamOpened,
            (Stage::Pending, Event::Stream(Err(cause))) => Stage::Failed(Error::IoError(cause)),
            (Stage::StreamOpened, Event::Metadata(Ok(upload))) => Stage::MetadataResolved(upload),
            (Stage::StreamOpened, Event::Metadata(Err(error))) => Stage::Failed(error),
            (Stage::MetadataResolved(upload), Event::Store(Ok(()))) => Stage::Published(upload.url),
            (Stage::MetadataResolved(_), Event::Store(Err(reason))) => Stage::Failed(
                Error::StoreError(reason),
            ),
            (stage, _) => stage,
        }
    }

    /// Whether nothing more happens to the file.
    pub open spec fn is_terminal(self) -> bool {
        self is Published || self is Failed
    }

    /// Moves to the stage that follows when `event` comes in.
    pub fn advance(self, event: Event) -> (next: Stage)
        ensures
            next == self.after(event),
    {
        match (self, event) {
            (Stage::Pending, Event::Stream(Ok(()))) => Stage::StreamOpened,
            (Stage::Pending, Event::Stream(Err(cause))) => Stage::Failed(Error::IoError(cause)),
            (Stage::StreamOpened, Event::Metadata(Ok(upload))) => Stage::MetadataResolved(upload),
            (Stage::StreamOpened, Event::Metadata(Err(error))) => Stage::Failed(error),
            (Stage::MetadataResolved(upload), Event::Store(Ok(()))) => Stage::Published(upload.url),
            (Stage::MetadataResolved(_), Event::Store(Err(reason))) => Stage::Failed(
                Error::StoreError(reason),
            ),
            (stage, _) => stage,
        }
    }
}

/// Performs the step behind [`Action::ResolveMetadata`] for the file at
/// `path`: runs the metadata program and plans the upload from the draft
/// that the program left behind. What the program does is its own affair;
/// an upload that comes out of this goes to the configured bucket and has
/// its link under the configured base URL.
pub fn resolve_metadata(engine: &Engine, program: &AST, config: &AwsConfig, path: &str) -> (event:
    Event)
    ensures
        match event {
            Event::Metadata(Ok(upload)) => upload@.serves(
                config.s3_config.bucket_name@,
                config.spec_public_base(),
            ),
            Event::Metadata(Err(error)) => {
                ||| error.kind() == ErrorKind::ScriptRuntimeError
                ||| error.kind() == ErrorKind::MissingObject
                ||| error.kind() == ErrorKind::MissingKey
                ||| error.kind() == ErrorKind::NoPublicUrl
                ||| error.kind() == ErrorKind::InvalidUrl
            },
            _ => false,
        },
{
    match run(engine, program, path) {
        Ok(draft) => Event::Metadata(plan(draft, config)),
        Err(error) => Event::Metadata(Err(error)),
    }
}

/// A run that ended early: the file at which it stopped, and why.
#[derive(Debug)]
pub struct Failure {
    pub path: String,
    pub error: Error,
}

/// The mathematical content of a [`Pipeline`].
pub struct Progress {
    /// The paths of the batch, in its order.
    pub files: Seq<String>,
    /// How many files are published and reported.
    pub position: nat,
    /// The stage of the file at `position`.
    pub stage: Stage,
}

impl Progress {
    /// The state before anything was done.
    pub open spec fn start(files: Seq<String>) -> Progress {
        Progress { files, position: 0, stage: Stage::Pending }
    }

    /// Whether every file is published and reported.
    pub open spec fn finished(self) -> bool {
        self.position >= self.files.len()
    }

    /// Whether the run has ended with a failure.
    pub open spec fn failed(self) -> bool {
        !self.finished() && self.stage is Failed
    }

    /// Where and why the run failed, if it did: the failure belongs to the
    /// file that was being published.
    pub open spec fn failure(self) -> Option<Failure> {
        if self.failed() {
            Some(Failure { path: self.files[self.position as int], error: self.stage->Failed_0 })
        } else {
            None
        }
    }

    /// What the driver has to do in this state.
    pub open spec fn action(self) -> Action<'static> {
        if self.finished() {
            Action::Finish
        } else {
            match self.stage {
                Stage::Pending => Action::OpenStream(&self.files[self.position as int]),
                Stage::StreamOpened => Action::ResolveMetadata(&self.files[self.position as int]),
                Stage::MetadataResolved(upload) => Action::Put(&upload.request),
                Stage::Published(url) => Action::Report(&url),
                Stage::Failed(_) => Action::Abort,
            }
        }
    }

    /// The state that follows when `event` comes in. Reporting the link of
    /// a published file moves on to the next file; every other event
    /// concerns the current file alone.
    pub open spec fn after(self, event: Event) -> Progress {
        if self.finished() {
            self
        } else if self.stage is Published && event is Reported {
            Progress { position: self.position + 1, stage: Stage::Pending, ..self }
        } else {
            Progress { stage: self.stage.after(event), ..self }
        }
    }

    /// The state that follows when the events of `events` come in one after
    /// the other.
    pub open spec fn after_all(self, events: Seq<Event>) -> Progress
        decreases events.len(),
    {
        if events.len() == 0 {
            self
        } else {
            self.after_all(events.drop_last()).after(events.last())
        }
    }
}

/// A published file stays published and a failed one stays failed: there
/// is no way back and no second try.
pub proof fn lemma_terminal_stage_stays(stage: Stage, event: Event)
    requires
        stage.is_terminal(),
    ensures
        stage.after(event) == stage,
{
}

/// A file fails only where it stands: at the opening of its stream with
/// the I/O error, at the planning of its upload with the error of that
/// step, at the PUT with the reason that the store gave.
pub proof fn lemma_failure_has_a_cause(stage: Stage, event: Event)
    requires
        !(stage is Failed),
        stage.after(event) is Failed,
    ensures
        match (stage, event) {
            (Stage::Pending, Event::Stream(Err(cause))) => stage.after(event) == Stage::Failed(
                Error::IoError(cause),
            ),
            (Stage::StreamOpened, Event::Metadata(Err(error))) => stage.after(event)
                == Stage::Failed(error),
            (Stage::MetadataResolved(_), Event::Store(Err(reason))) => stage.after(event)
                == Stage::Failed(Error::StoreError(reason)),
            _ => false,
        },
{
}

/// The first failure ends the run: from then on the action is to abort,
/// and no event changes the state.
pub proof fn lemma_failure_ends_the_run(progress: Progress, event: Event)
    requires
        progress.failed(),
    ensures
        progress.action() == Action::Abort,
        progress.after(event) == progress,
{
}

/// Once every file is published and reported, the action is to finish,
/// and no event changes the state.
pub proof fn lemma_finished_run_stays(progress: Progress, event: Event)
    requires
        progress.finished(),
    ensures
        progress.action() == Action::Finish,
        progress.after(event) == progress,
{
}

/// The files are taken in the order of the batch, one at a time: an event
/// never changes the files, and the only step to the next file is the
/// report of the link of a published one.
pub proof fn lemma_files_in_batch_order(progress: Progress, event: Event)
    ensures
        progress.after(event).files == progress.files,
        progress.after(event).position == progress.position || {
            &&& progress.after(event).position == progress.position + 1
            &&& progress.stage is Published
            &&& event is Reported
            &&& progress.after(event).stage is Pending
        },
{
}

/// Whatever events come in, a run never goes back to an earlier file and
/// never changes its files; after a failure nothing changes at all, so no
/// file behind the failed one is touched, and a finished run stays
/// finished.
pub proof fn lemma_run_never_goes_back(progress: Progress, events: Seq<Event>)
    ensures
        progress.after_all(events).files == progress.files,
        progress.after_all(events).position >= progress.position,
        progress.failed() ==> progress.after_all(events) == progress,
        progress.finished() ==> progress.after_all(events) == progress,
    decreases events.len(),
{
    if events.len() > 0 {
        lemma_run_never_goes_back(progress, events.drop_last());
    }
}

/// Nothing is sent before the upload is planned: where the action after
/// an event is a PUT, either it was the action before, or the event is
/// the planned upload of a file whose stream is open, and the request is
/// the one of that upload.
pub proof fn lemma_put_follows_plan(progress: Progress, event: Event)
    requires
        progress.after(event).action() is Put,
    ensures
        progress.action() == progress.after(event).action() || {
            &&& progress.stage is StreamOpened
            &&& event matches Event::Metadata(Ok(upload))
            &&& progress.after(event).action() == Action::Put(&upload.request)
        },
{
}

/// A link is reported only for an object that the store took: where the
/// action after an event is a report, either it was the action before, or
/// the event is the success of the PUT, and the link is the one that was
/// planned with the request.
pub proof fn lemma_report_follows_store(progress: Progress, event: Event)
    requires
        progress.after(event).action() is Report,
    ensures
        progress.action() == progress.after(event).action() || {
            &&& progress.stage matches Stage::MetadataResolved(upload)
            &&& event matches Event::Store(Ok(_))
            &&& progress.after(event).action() == Action::Report(&upload.url)
        },
{
}

/// One run over the files of a batch.
#[derive(Debug)]
pub struct Pipeline {
    files: Vec<String>,
    position: usize,
    stage: Stage,
}

impl View for Pipeline {
    type V = Progress;

    closed spec fn view(&self) -> Progress {
        Progress { files: self.files@, position: self.position as nat, stage: self.stage }
    }
}

impl Pipeline {
    #[verifier::type_invariant]
    spec fn position_in_range(&self) -> bool {
        self.position <= self.files@.len()
    }

    /// Starts a run over `files`, which are published in the given order.
    pub fn new(files: Vec<String>) -> (pipeline: Self)
        ensures
            pipeline@ == Progress::start(files@),
    {
        Pipeline { files, position: 0, stage: Stage::Pending }
    }

    /// Returns what the driver has to do next.
    pub fn action(&self) -> (action: Action<'_>)
        ensures
            action == self@.action(),
    {
        if self.position >= self.files.len() {
            Action::Finish
        } else {
            match &self.stage {
                Stage::Pending => Action::OpenStream(&self.files[self.position]),
                Stage::StreamOpened => Action::ResolveMetadata(&self.files[self.position]),
                Stage::MetadataResolved(upload) => Action::Put(&upload.request),
                Stage::Published(url) => Action::Report(url),
                Stage::Failed(_) => Action::Abort,
            }
        }
    }

    /// Takes in the outcome of the action that the driver performed.
    pub fn advance(self, event: Event) -> (next: Self)
        ensures
            next@ == self@.after(event),
    {
        proof {
            use_type_invariant(&self);
        }
        let Pipeline { files, position, stage } = self;
        if position >= files.len() {
            Pipeline { files, position, stage }
        } else {
            match (stage, event) {
                (Stage::Published(_), Event::Reported) => Pipeline {
                    files,
                    position: position + 1,
                    stage: Stage::Pending,
                },
                (stage, event) => Pipeline { files, position, stage: stage.advance(event) },
            }
        }
    }

    /// Ends the run: where and why it failed, if it did.
    pub fn failure(self) -> (failure: Option<Failure>)
        ensures
            failure == self@.failure(),
    {
        proof {
            use_type_invariant(&self);
        }
        let Pipeline { files, position, stage } = self;
        if position >= files.len() {
            None
        } else {
            match stage {
                Stage::Failed(error) => Some(Failure { path: files[position].clone(), error }),
                _ => None,
            }
        }
    }
}

} // verus!
