//! The failures of an install, and the text shown for each.

use vstd::prelude::*;
use vstd::string::StringExecFns;

use crate::text::copy_text;
use crate::text::text_of;

verus! {

/// The usage synopsis, shown for every usage error.
pub const USAGE: &'static str =
    "Usage:\tinstall-mimic [-v] [-r reffile] srcfile dstfile\n\tinstall-mimic [-v] [-r reffile] file1 [file2...] directory\n\tinstall-mimic -V | --version | -h | --help\n\tinstall-mimic --features\n\n\t-h\tdisplay program usage information and exit\n\t-V\tdisplay program version information and exit\n\t-r\tspecify a reference file to obtain the information from\n\t-v\tverbose operation; display diagnostic output";

/// Why the arguments cannot be acted upon.
#[derive(Clone, Copy, Debug, PartialEq, Eq, Structural)]
pub enum UsageKind {
    /// Fewer than two positional arguments: a source or the destination is
    /// missing.
    MissingOperand,
    /// The destination does not exist and no reference file was given.
    DestinationMissing,
    /// The destination is not a directory and the number of sources is not
    /// one.
    NotADirectory,
}

/// A failure of the tool. Each one ends the whole invocation.
#[derive(Debug, PartialEq, Eq)]
pub enum MimicError {
    /// The arguments are insufficient or do not fit the destination.
    Usage(UsageKind),
    /// The command-line tokenizer met an unrecognized option or a malformed
    /// option value; `detail` is its report.
    ArgumentSyntax { detail: String },
    /// The metadata of `path` could not be read.
    Metadata { path: String, cause: String },
    /// In a directory install, `source` has no base filename.
    InvalidPath { source: String },
    /// The installer did not install `source` as `destination`: it could not
    /// be launched, for the reason in `launch`, or it ran and reported
    /// failure.
    Install { source: String, destination: String, launch: Option<String> },
}

/// The mathematical value of a [`MimicError`].
pub enum MimicErrorView {
    Usage(UsageKind),
    ArgumentSyntax { detail: Seq<char> },
    Metadata { path: Seq<char>, cause: Seq<char> },
    InvalidPath { source: Seq<char> },
    Install { source: Seq<char>, destination: Seq<char>, launch: Option<Seq<char>> },
}

impl View for MimicError {
    type V = MimicErrorView;

    open spec fn view(&self) -> MimicErrorView {
        match *self {
            MimicError::Usage(kind) => MimicErrorView::Usage(kind),
            MimicError::ArgumentSyntax { detail } => MimicErrorView::ArgumentSyntax {
                detail: detail@,
            },
            MimicError::Metadata { path, cause } => MimicErrorView::Metadata {
                path: path@,
                cause: cause@,
            },
            MimicError::InvalidPath { source } => MimicErrorView::InvalidPath { source: source@ },
            MimicError::Install { source, destination, launch } => MimicErrorView::Install {
                source: source@,
                destination: destination@,
                launch: text_of(launch),
            },
        }
    }
}

/// The text that names both paths of a failed install.
pub open spec fn install_failure_text(source: Seq<char>, destination: Seq<char>) -> Seq<char> {
    "Could not install "@ + source + " as "@ + destination
}

/// The message that reports `error`: the usage synopsis for a usage error,
/// otherwise one line that names the offending paths and the cause.
pub open spec fn message_text(error: MimicErrorView) -> Seq<char> {
    match error {
        MimicErrorView::Usage(_) => USAGE@,
        MimicErrorView::ArgumentSyntax { detail } => detail,
        MimicErrorView::Metadata { path, cause } => "Could not examine "@ + path + ": "@ + cause,
        MimicErrorView::InvalidPath { source } => "Invalid source filename "@ + source,
        MimicErrorView::Install { source, destination, launch } => match launch {
            None => install_failure_text(source, destination),
            Some(reason) => install_failure_text(source, destination)
                + ": could not run install: "@ + reason,
        },
    }
}

/// The usage synopsis.
pub fn usage() -> (text: String)
    ensures
        text@ == USAGE@,
{
    String::from_str(USAGE)
}

impl Clone for MimicError {
    fn clone(&self) -> (copy: MimicError)
        ensures
            copy@ == self@,
    {
        match self {
            MimicError::Usage(kind) => MimicError::Usage(*kind),
            MimicError::ArgumentSyntax { detail } => MimicError::ArgumentSyntax {
                detail: detail.clone(),
            },
            MimicError::Metadata { path, cause } => MimicError::Metadata {
                path: path.clone(),
                cause: cause.clone(),
            },
            MimicError::InvalidPath { source } => MimicError::InvalidPath {
                source: source.clone(),
            },
            MimicError::Install { source, destination, launch } => MimicError::Install {
                source: source.clone(),
                destination: destination.clone(),
                launch: copy_text(launch),
            },
        }
    }
}

impl MimicError {
    /// The message to show for this error.
    pub fn message(&self) -> (text: String)
        ensures
            text@ == message_text(self@),
    {
        match self {
            MimicError::Usage(_) => usage(),
            MimicError::ArgumentSyntax { detail } => detail.clone(),
            MimicError::Metadata { path, cause } => {
                let mut text = String::from_str("Could not examine ");
                text.append(path.as_str());
                text.append(": ");
                text.append(cause.as_str());
                text
            },
            MimicError::InvalidPath { source } => {
                let mut text = String::from_str("Invalid source filename ");
                text.append(source.as_str());
                text
            },
            MimicError::Install { source, destination, launch } => {
                let mut text = String::from_str("Could not install ");
                text.append(source.as_str());
                text.append(" as ");
                text.append(destination.as_str());
                match launch {
                    None => {},
                    Some(reason) => {
                        text.append(": could not run install: ");
                        text.append(reason.as_str());
                    },
                }
                text
            },
        }
    }
}

} // verus!
