//! What the surroundings report to the library: the metadata of a path, and
//! how a run of the installer ended. The library never looks at the file
//! system or starts a process itself.

use vstd::prelude::*;

verus! {

/// The metadata of an existing path, as far as the tool reads it.
#[derive(Clone, Copy, Debug, PartialEq, Eq, Structural)]
pub struct Metadata {
    /// Whether the path is a directory.
    pub is_dir: bool,
    /// The numeric id of the owner.
    pub uid: u32,
    /// The numeric id of the group.
    pub gid: u32,
    /// The raw mode word: file type and permission bits.
    pub mode: u32,
}

/// The answer to a query for the metadata of a path.
#[derive(Debug, PartialEq, Eq)]
pub enum Probe {
    /// The path exists.
    Found(Metadata),
    /// The path does not exist; `cause` is the system's description.
    NotFound { cause: String },
    /// The query failed for another reason, such as a denied permission.
    Failed { cause: String },
}

/// The mathematical value of a [`Probe`].
pub enum ProbeView {
    Found(Metadata),
    NotFound { cause: Seq<char> },
    Failed { cause: Seq<char> },
}

impl View for Probe {
    type V = ProbeView;

    open spec fn view(&self) -> ProbeView {
        match *self {
            Probe::Found(metadata) => ProbeView::Found(metadata),
            Probe::NotFound { cause } => ProbeView::NotFound { cause: cause@ },
            Probe::Failed { cause } => ProbeView::Failed { cause: cause@ },
        }
    }
}

impl Clone for Probe {
    fn clone(&self) -> (copy: Probe)
        ensures
            copy@ == self@,
    {
        match self {
            Probe::Found(metadata) => Probe::Found(*metadata),
            Probe::NotFound { cause } => Probe::NotFound { cause: cause.clone() },
            Probe::Failed { cause } => Probe::Failed { cause: cause.clone() },
        }
    }
}

/// How a run of the installer ended. Only success or failure is consulted;
/// what the installer wrote to its error stream is not.
#[derive(Debug, PartialEq, Eq)]
pub enum InstallerOutcome {
    /// The installer ran and reported success.
    Success,
    /// The installer ran and reported failure.
    Failure,
    /// The installer could not be launched; `cause` is the system's
    /// description.
    NotLaunched { cause: String },
}

/// The mathematical value of an [`InstallerOutcome`].
pub enum InstallerOutcomeView {
    Success,
    Failure,
    NotLaunched { cause: Seq<char> },
}

impl View for InstallerOutcome {
    type V = InstallerOutcomeView;

    open spec fn view(&self) -> InstallerOutcomeView {
        match *self {
            InstallerOutcome::Success => InstallerOutcomeView::Success,
            InstallerOutcome::Failure => InstallerOutcomeView::Failure,
            InstallerOutcome::NotLaunched { cause } => InstallerOutcomeView::NotLaunched {
                cause: cause@,
            },
        }
    }
}

impl Clone for InstallerOutcome {
    fn clone(&self) -> (copy: InstallerOutcome)
        ensures
            copy@ == self@,
    {
        match self {
            InstallerOutcome::Success => InstallerOutcome::Success,
            InstallerOutcome::Failure => InstallerOutcome::Failure,
            InstallerOutcome::NotLaunched { cause } => InstallerOutcome::NotLaunched {
                cause: cause.clone(),
            },
        }
    }
}

} // verus!
