//! The mimic installer: for one source and one destination, which file's
//! metadata is read, which installer invocation copies the source with that
//! owner, group and mode, and what a finished run amounts to.

use vstd::prelude::*;
use vstd::string::StringExecFns;

use crate::error::MimicError;
use crate::error::MimicErrorView;
use crate::number::decimal;
use crate::number::octal;
use crate::number::render;
use crate::shell::command_text;
use crate::shell::invocation_line;
use crate::shell::shell_joined;
use crate::system::InstallerOutcome;
use crate::system::InstallerOutcomeView;
use crate::system::Metadata;
use crate::system::Probe;
use crate::system::ProbeView;
use crate::text::copy_text;
use crate::text::copy_words;
use crate::text::text_of;

verus! {

/// The name of the installer program.
pub const INSTALLER: &'static str = "install";

/// The mask that keeps the low 12 bits of a mode word: the permission bits
/// for user, group and others, with the set-id and sticky bits.
pub const PERMISSION_MASK: u32 = 0o7777;

/// What is mimicked: the owner, the group and the permission bits of the
/// reference file.
#[derive(Clone, Copy, Debug, PartialEq, Eq, Structural)]
pub struct ReferenceMetadata {
    /// The numeric id of the owner.
    pub owner: u32,
    /// The numeric id of the group.
    pub group: u32,
    /// The permission bits: the low 12 bits of the mode word.
    pub permissions: u32,
}

/// The metadata to mimic, taken from the metadata of the reference file: its
/// owner, its group, and its mode without the file type bits.
pub open spec fn mimicked(metadata: Metadata) -> ReferenceMetadata {
    ReferenceMetadata {
        owner: metadata.uid,
        group: metadata.gid,
        permissions: metadata.mode & PERMISSION_MASK,
    }
}

impl ReferenceMetadata {
    /// The permission bits fit in 12 bits.
    pub open spec fn wf(self) -> bool {
        self.permissions <= PERMISSION_MASK
    }

    /// Reads off the metadata to mimic.
    pub fn of(metadata: &Metadata) -> (reference: ReferenceMetadata)
        ensures
            reference == mimicked(*metadata),
            reference.wf(),
    {
        let mode: u32 = metadata.mode;
        assert(mode & 0o7777 <= 0o7777) by (bit_vector);
        ReferenceMetadata {
            owner: metadata.uid,
            group: metadata.gid,
            permissions: mode & PERMISSION_MASK,
        }
    }
}

/// The path whose metadata is mimicked: the reference file if one was given,
/// else the destination itself, as it is before the install.
pub open spec fn reference_path(destination: Seq<char>, reference: Option<Seq<char>>) -> Seq<
    char,
> {
    match reference {
        Some(path) => path,
        None => destination,
    }
}

/// The path whose metadata is mimicked when `source` is installed as
/// `destination`.
pub fn effective_reference(destination: &str, reference: &Option<String>) -> (path: String)
    ensures
        path@ == reference_path(destination@, text_of(*reference)),
{
    match reference {
        Some(path) => path.clone(),
        None => String::from_str(destination),
    }
}

/// The arguments with which the installer copies `source` to `destination`
/// and gives the copy the owner, group and permission bits of `reference`:
/// the copy flag, the owner and the group in decimal, the mode in octal, the
/// end-of-options marker, and the two paths.
pub open spec fn installer_args(
    reference: ReferenceMetadata,
    source: Seq<char>,
    destination: Seq<char>,
) -> Seq<Seq<char>> {
    seq![
        "-c"@,
        "-o"@,
        render(reference.owner as nat, 10),
        "-g"@,
        render(reference.group as nat, 10),
        "-m"@,
        render(reference.permissions as nat, 8),
        "--"@,
        source,
        destination,
    ]
}

/// One call of the installer.
#[derive(Debug, PartialEq, Eq)]
pub struct Invocation {
    /// The program to run.
    pub program: String,
    /// Its arguments.
    pub args: Vec<String>,
    /// In verbose mode, the line to write to standard output before the
    /// program is run, whether or not the run then succeeds.
    pub echo: Option<String>,
}

/// The mathematical value of an [`Invocation`].
pub struct InvocationView {
    pub program: Seq<char>,
    pub args: Seq<Seq<char>>,
    pub echo: Option<Seq<char>>,
}

impl View for Invocation {
    type V = InvocationView;

    open spec fn view(&self) -> InvocationView {
        InvocationView {
            program: self.program@,
            args: self.args.deep_view(),
            echo: text_of(self.echo),
        }
    }
}

impl Clone for Invocation {
    fn clone(&self) -> (copy: Invocation)
        ensures
            copy@ == self@,
    {
        Invocation {
            program: self.program.clone(),
            args: copy_words(&self.args),
            echo: copy_text(&self.echo),
        }
    }
}

/// The invocation that installs `source` as `destination` with the metadata
/// of a reference file whose metadata is `metadata`. In verbose mode its echo
/// shows exactly the program and the arguments that are run.
pub open spec fn planned(
    source: Seq<char>,
    destination: Seq<char>,
    metadata: Metadata,
    verbose: bool,
) -> InvocationView {
    let args = installer_args(mimicked(metadata), source, destination);
    InvocationView {
        program: INSTALLER@,
        args,
        echo: if verbose {
            Some(command_text(INSTALLER@, shell_joined(args)))
        } else {
            None
        },
    }
}

/// What is decided once the reference file was examined: the invocation to
/// run if it was found, else the failure that names the reference file.
pub open spec fn mimic_install(
    source: Seq<char>,
    destination: Seq<char>,
    reference: Option<Seq<char>>,
    verbose: bool,
    probe: ProbeView,
) -> Result<InvocationView, MimicErrorView> {
    match probe {
        ProbeView::Found(metadata) => Ok(planned(source, destination, metadata, verbose)),
        ProbeView::NotFound { cause } => Err(
            MimicErrorView::Metadata { path: reference_path(destination, reference), cause },
        ),
        ProbeView::Failed { cause } => Err(
            MimicErrorView::Metadata { path: reference_path(destination, reference), cause },
        ),
    }
}

/// What a run of the installer for `source` and `destination` amounts to.
pub open spec fn settled(
    source: Seq<char>,
    destination: Seq<char>,
    outcome: InstallerOutcomeView,
) -> Result<(), MimicErrorView> {
    match outcome {
        InstallerOutcomeView::Success => Ok(()),
        InstallerOutcomeView::Failure => Err(
            MimicErrorView::Install { source, destination, launch: None },
        ),
        InstallerOutcomeView::NotLaunched { cause } => Err(
            MimicErrorView::Install { source, destination, launch: Some(cause) },
        ),
    }
}

/// Builds the installer's arguments.
pub fn build_args(reference: &ReferenceMetadata, source: &str, destination: &str) -> (args: Vec<
    String,
>)
    ensures
        args.deep_view() == installer_args(*reference, source@, destination@),
{
    let mut args: Vec<String> = Vec::new();
    args.push(String::from_str("-c"));
    args.push(String::from_str("-o"));
    args.push(decimal(reference.owner));
    args.push(String::from_str("-g"));
    args.push(decimal(reference.group));
    args.push(String::from_str("-m"));
    args.push(octal(reference.permissions));
    args.push(String::from_str("--"));
    args.push(String::from_str(source));
    args.push(String::from_str(destination));
    assert(args.deep_view() =~= installer_args(*reference, source@, destination@));
    args
}

/// Decides one install after its reference file was examined. `probe` is the
/// answer to the query for the metadata of
/// `effective_reference(destination, reference)`.
pub fn install_mimic(
    source: &str,
    destination: &str,
    reference: &Option<String>,
    verbose: bool,
    probe: &Probe,
) -> (decision: Result<Invocation, MimicError>)
    ensures
        match decision {
            Ok(invocation) => mimic_install(
                source@,
                destination@,
                text_of(*reference),
                verbose,
                probe@,
            ) == Ok::<InvocationView, MimicErrorView>(invocation@),
            Err(error) => mimic_install(
                source@,
                destination@,
                text_of(*reference),
                verbose,
                probe@,
            ) == Err::<InvocationView, MimicErrorView>(error@),
        },
{
    match probe {
        Probe::Found(metadata) => {
            let reference = ReferenceMetadata::of(metadata);
            let args = build_args(&reference, source, destination);
            let echo = if verbose {
                Some(invocation_line(INSTALLER, &args))
            } else {
                None
            };
            Ok(Invocation { program: String::from_str(INSTALLER), args, echo })
        },
        Probe::NotFound { cause } => Err(
            MimicError::Metadata {
                path: effective_reference(destination, reference),
                cause: cause.clone(),
            },
        ),
        Probe::Failed { cause } => Err(
            MimicError::Metadata {
                path: effective_reference(destination, reference),
                cause: cause.clone(),
            },
        ),
    }
}

/// Decides one install after the installer was run.
pub fn settle(source: &str, destination: &str, outcome: &InstallerOutcome) -> (result: Result<
    (),
    MimicError,
>)
    ensures
        match result {
            Ok(_) => settled(source@, destination@, outcome@) == Ok::<(), MimicErrorView>(()),
            Err(error) => settled(source@, destination@, outcome@) == Err::<(), MimicErrorView>(
                error@,
            ),
        },
{
    match outcome {
        InstallerOutcome::Success => Ok(()),
        InstallerOutcome::Failure => Err(
            MimicError::Install {
                source: String::from_str(source),
                destination: String::from_str(destination),
                launch: None,
            },
        ),
        InstallerOutcome::NotLaunched { cause } => Err(
            MimicError::Install {
                source: String::from_str(source),
                destination: String::from_str(destination),
                launch: Some(cause.clone()),
            },
        ),
    }
}

} // verus!
