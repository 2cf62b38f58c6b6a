//! The dispatch controller: from the state of the destination and the number
//! of sources to the installs to perform, one after another.
//!
//! The controller never examines a path or runs a program. It hands out an
//! [`Action`] that says what is wanted next; the driver does that and gives
//! the answer to the action, which yields the next action, until the action
//! is [`Action::Done`].

use vstd::prelude::*;

use crate::args::Operation;
use crate::args::OperationView;
use crate::error::MimicError;
use crate::error::MimicErrorView;
use crate::error::UsageKind;
use crate::install::effective_reference;
use crate::install::install_mimic;
use crate::install::mimic_install;
use crate::install::reference_path;
use crate::install::settle;
use crate::install::settled;
use crate::install::Invocation;
use crate::install::InvocationView;
use crate::path::base_name;
use crate::path::file_name;
use crate::path::join;
use crate::path::joined;
use crate::system::InstallerOutcome;
use crate::system::InstallerOutcomeView;
use crate::system::Probe;
use crate::system::ProbeView;

verus! {

/// What the destination turned out to be.
#[derive(Clone, Copy, Debug, PartialEq, Eq, Structural)]
pub enum DestinationClassification {
    /// The destination does not exist.
    Missing,
    /// The destination exists and is not a directory.
    File,
    /// The destination is a directory.
    Directory,
}

/// How the answer to the query for the destination classifies it. A query
/// that failed for another reason than a missing path classifies nothing:
/// it is fatal, and its cause is kept.
pub open spec fn classification(probe: ProbeView) -> Result<DestinationClassification, Seq<char>> {
    match probe {
        ProbeView::Found(metadata) => Ok(
            if metadata.is_dir {
                DestinationClassification::Directory
            } else {
                DestinationClassification::File
            },
        ),
        ProbeView::NotFound { cause } => Ok(DestinationClassification::Missing),
        ProbeView::Failed { cause } => Err(cause),
    }
}

/// The install under way: `operation.sources[index]` is being installed as
/// `target`. In a directory install the sources after it follow.
pub struct JobView {
    pub operation: OperationView,
    pub directory: bool,
    pub index: nat,
    pub target: Seq<char>,
}

impl JobView {
    /// The source being installed.
    pub open spec fn source(self) -> Seq<char> {
        self.operation.sources[self.index as int]
    }

    /// The path whose metadata is mimicked: the reference file if one was
    /// given, else the target itself.
    pub open spec fn reference(self) -> Seq<char> {
        reference_path(self.target, self.operation.reference)
    }
}

/// The mathematical value of an [`Action`]: what is wanted next, with all
/// that the controller remembers.
pub enum ActionView {
    /// The metadata of the destination is wanted.
    Classify(OperationView),
    /// The metadata of the reference file of an install is wanted.
    Examine(JobView),
    /// The installer is to be run as the invocation says.
    Run(JobView, InvocationView),
    /// Nothing more is wanted: the whole operation succeeded, or it failed
    /// with the error given.
    Done(Result<(), MimicErrorView>),
}

/// The first action for `operation`.
pub open spec fn begin(operation: OperationView) -> ActionView {
    ActionView::Classify(operation)
}

/// Single-file mode: exactly one source is installed as the destination.
pub open spec fn install_single(operation: OperationView) -> ActionView {
    if operation.sources.len() == 1 {
        ActionView::Examine(
            JobView { operation, directory: false, index: 0, target: operation.destination },
        )
    } else {
        ActionView::Done(Err(MimicErrorView::Usage(UsageKind::NotADirectory)))
    }
}

/// Directory mode, from the source at `index` on: that source is installed
/// under its base filename in the destination, and it is an error for it to
/// have none. After the last source the operation has succeeded.
pub open spec fn install_into(operation: OperationView, index: nat) -> ActionView {
    if index >= operation.sources.len() {
        ActionView::Done(Ok(()))
    } else {
        match base_name(operation.sources[index as int]) {
            Some(name) => ActionView::Examine(
                JobView {
                    operation,
                    directory: true,
                    index,
                    target: joined(operation.destination, name),
                },
            ),
            None => ActionView::Done(
                Err(MimicErrorView::InvalidPath { source: operation.sources[index as int] }),
            ),
        }
    }
}

/// What follows the answer to the query for the destination. A directory
/// takes all the sources. A destination that is no directory, or that is
/// missing while a reference file was given, takes exactly one source. A
/// missing destination without a reference file is a usage error, and a
/// query that failed otherwise is fatal.
pub open spec fn classified(operation: OperationView, probe: ProbeView) -> ActionView {
    match classification(probe) {
        Ok(DestinationClassification::Directory) => install_into(operation, 0),
        Ok(DestinationClassification::File) => install_single(operation),
        Ok(DestinationClassification::Missing) => if operation.reference is Some {
            install_single(operation)
        } else {
            ActionView::Done(Err(MimicErrorView::Usage(UsageKind::DestinationMissing)))
        },
        Err(cause) => ActionView::Done(
            Err(MimicErrorView::Metadata { path: operation.destination, cause }),
        ),
    }
}

/// What follows the answer to the query for the reference file of `job`.
pub open spec fn examined(job: JobView, probe: ProbeView) -> ActionView {
    match mimic_install(
        job.source(),
        job.target,
        job.operation.reference,
        job.operation.verbose,
        probe,
    ) {
        Ok(invocation) => ActionView::Run(job, invocation),
        Err(error) => ActionView::Done(Err(error)),
    }
}

/// What follows a run of the installer for `job`: a failure ends the
/// operation at once; after a success a directory install goes on with the
/// next source.
pub open spec fn ran(job: JobView, outcome: InstallerOutcomeView) -> ActionView {
    match settled(job.source(), job.target, outcome) {
        Ok(_) => if job.directory {
            install_into(job.operation, job.index + 1)
        } else {
            ActionView::Done(Ok(()))
        },
        Err(error) => ActionView::Done(Err(error)),
    }
}

/// An answer of the driver: the metadata query it made, or the run of the
/// installer it made.
pub enum Answer {
    Probe(ProbeView),
    Outcome(InstallerOutcomeView),
}

/// Whether `answer` is of the kind that `action` asks for. Nothing answers
/// an action that is done.
pub open spec fn fits(action: ActionView, answer: Answer) -> bool {
    match action {
        ActionView::Classify(_) => answer is Probe,
        ActionView::Examine(_) => answer is Probe,
        ActionView::Run(_, _) => answer is Outcome,
        ActionView::Done(_) => false,
    }
}

/// The action that follows `action` once it got the answer `answer`, which
/// fits it.
pub open spec fn step(action: ActionView, answer: Answer) -> ActionView
    recommends
        fits(action, answer),
{
    match action {
        ActionView::Classify(operation) => classified(operation, answer->Probe_0),
        ActionView::Examine(job) => examined(job, answer->Probe_0),
        ActionView::Run(job, _) => ran(job, answer->Outcome_0),
        ActionView::Done(_) => action,
    }
}

/// The actions that come up, in order, when the driver starts with `action`
/// and gives the `answers` one after another: `action` itself, then what each
/// answer leads to. The trace ends where the answers end, or before an answer
/// that does not fit, as any answer after the operation is done.
pub open spec fn trace(action: ActionView, answers: Seq<Answer>) -> Seq<ActionView>
    decreases answers.len(),
{
    if answers.len() > 0 && fits(action, answers[0]) {
        seq![action] + trace(step(action, answers[0]), answers.drop_first())
    } else {
        seq![action]
    }
}

/// The value of a result whose error is a [`MimicError`].
pub open spec fn result_view(result: Result<(), MimicError>) -> Result<(), MimicErrorView> {
    match result {
        Ok(_) => Ok(()),
        Err(error) => Err(error@),
    }
}

/// The request for the metadata of the destination.
#[derive(Debug)]
pub struct DestinationQuery {
    operation: Operation,
}

impl View for DestinationQuery {
    type V = OperationView;

    closed spec fn view(&self) -> OperationView {
        self.operation@
    }
}

/// The request for the metadata of the reference file of one install.
#[derive(Debug)]
pub struct ReferenceQuery {
    operation: Operation,
    directory: bool,
    index: usize,
    target: String,
}

impl View for ReferenceQuery {
    type V = JobView;

    closed spec fn view(&self) -> JobView {
        JobView {
            operation: self.operation@,
            directory: self.directory,
            index: self.index as nat,
            target: self.target@,
        }
    }
}

/// The request to run the installer for one install.
#[derive(Debug)]
pub struct InstallerRun {
    operation: Operation,
    directory: bool,
    index: usize,
    target: String,
    invocation: Invocation,
}

impl View for InstallerRun {
    type V = (JobView, InvocationView);

    closed spec fn view(&self) -> (JobView, InvocationView) {
        (
            JobView {
                operation: self.operation@,
                directory: self.directory,
                index: self.index as nat,
                target: self.target@,
            },
            self.invocation@,
        )
    }
}

/// What the driver is to do next.
#[derive(Debug)]
pub enum Action {
    /// Query the metadata of the destination and answer the request.
    Classify(DestinationQuery),
    /// Query the metadata of a reference file and answer the request.
    Examine(ReferenceQuery),
    /// Run the installer and answer the request.
    Run(InstallerRun),
    /// Stop: the operation succeeded, or failed with the error given.
    Done(Result<(), MimicError>),
}

impl View for Action {
    type V = ActionView;

    open spec fn view(&self) -> ActionView {
        match *self {
            Action::Classify(query) => ActionView::Classify(query@),
            Action::Examine(query) => ActionView::Examine(query@),
            Action::Run(run) => ActionView::Run(run@.0, run@.1),
            Action::Done(result) => ActionView::Done(result_view(result)),
        }
    }
}

/// Classifies the destination by the answer to the query for its metadata.
pub fn classify(probe: &Probe) -> (class: Result<DestinationClassification, String>)
    ensures
        match class {
            Ok(found) => classification(probe@) == Ok::<DestinationClassification, Seq<char>>(
                found,
            ),
            Err(cause) => classification(probe@) == Err::<DestinationClassification, Seq<char>>(
                cause@,
            ),
        },
{
    match probe {
        Probe::Found(metadata) => Ok(
            if metadata.is_dir {
                DestinationClassification::Directory
            } else {
                DestinationClassification::File
            },
        ),
        Probe::NotFound { cause } => Ok(DestinationClassification::Missing),
        Probe::Failed { cause } => Err(cause.clone()),
    }
}

/// Starts the dispatch of `operation`: the destination is to be examined.
pub fn doit(operation: Operation) -> (action: Action)
    ensures
        action@ == begin(operation@),
{
    Action::Classify(DestinationQuery { operation })
}

/// Single-file mode: the one source is installed as the destination.
fn single(operation: Operation) -> (action: Action)
    ensures
        action@ == install_single(operation@),
{
    if operation.sources.len() == 1 {
        let target = operation.destination.clone();
        Action::Examine(ReferenceQuery { operation, directory: false, index: 0, target })
    } else {
        Action::Done(Err(MimicError::Usage(UsageKind::NotADirectory)))
    }
}

/// Directory mode, from the source at `index` on.
fn into_directory(operation: Operation, index: usize) -> (action: Action)
    ensures
        action@ == install_into(operation@, index as nat),
{
    if index >= operation.sources.len() {
        Action::Done(Ok(()))
    } else {
        match file_name(operation.sources[index].as_str()) {
            Some(name) => {
                let target = join(operation.destination.as_str(), name.as_str());
                Action::Examine(ReferenceQuery { operation, directory: true, index, target })
            },
            None => Action::Done(
                Err(MimicError::InvalidPath { source: operation.sources[index].clone() }),
            ),
        }
    }
}

impl DestinationQuery {
    /// The path to examine: the destination.
    pub fn path(&self) -> (path: String)
        ensures
            path@ == self@.destination,
    {
        self.operation.destination.clone()
    }

    /// Takes the answer to the query and says what is wanted next.
    pub fn answer(self, probe: &Probe) -> (action: Action)
        ensures
            action@ == classified(self@, probe@),
    {
        match classify(probe) {
            Ok(DestinationClassification::Directory) => into_directory(self.operation, 0),
            Ok(DestinationClassification::File) => single(self.operation),
            Ok(DestinationClassification::Missing) => {
                if self.operation.reference.is_some() {
                    single(self.operation)
                } else {
                    Action::Done(Err(MimicError::Usage(UsageKind::DestinationMissing)))
                }
            },
            Err(cause) => Action::Done(
                Err(MimicError::Metadata { path: self.operation.destination, cause }),
            ),
        }
    }
}

impl ReferenceQuery {
    /// The install under way is that of one of the sources.
    #[verifier::type_invariant]
    spec fn inv(self) -> bool {
        self.index < self.operation.sources.len()
    }

    /// The path to examine: the reference file if one was given, else the
    /// destination of this install as it is before the install.
    pub fn path(&self) -> (path: String)
        ensures
            path@ == self@.reference(),
    {
        effective_reference(self.target.as_str(), &self.operation.reference)
    }

    /// Takes the answer to the query and says what is wanted next.
    pub fn answer(self, probe: &Probe) -> (action: Action)
        ensures
            action@ == examined(self@, probe@),
    {
        proof {
            use_type_invariant(&self);
        }
        let decision = install_mimic(
            self.operation.sources[self.index].as_str(),
            self.target.as_str(),
            &self.operation.reference,
            self.operation.verbose,
            probe,
        );
        match decision {
            Ok(invocation) => Action::Run(
                InstallerRun {
                    operation: self.operation,
                    directory: self.directory,
                    index: self.index,
                    target: self.target,
                    invocation,
                },
            ),
            Err(error) => Action::Done(Err(error)),
        }
    }
}

impl InstallerRun {
    /// The install under way is that of one of the sources.
    #[verifier::type_invariant]
    spec fn inv(self) -> bool {
        self.index < self.operation.sources.len()
    }

    /// The invocation to run.
    pub fn invocation(&self) -> (invocation: &Invocation)
        ensures
            invocation@ == self@.1,
    {
        &self.invocation
    }

    /// Takes the outcome of the run and says what is wanted next.
    pub fn answer(self, outcome: &InstallerOutcome) -> (action: Action)
        ensures
            action@ == ran(self@.0, outcome@),
    {
        proof {
            use_type_invariant(&self);
        }
        let result = settle(
            self.operation.sources[self.index].as_str(),
            self.target.as_str(),
            outcome,
        );
        match result {
            Ok(_) => {
                if self.directory {
                    into_directory(self.operation, self.index + 1)
                } else {
                    Action::Done(Ok(()))
                }
            },
            Err(error) => Action::Done(Err(error)),
        }
    }
}

} // verus!
