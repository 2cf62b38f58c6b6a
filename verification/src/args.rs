//! The argument resolver: from what the command-line tokenizer recognized to
//! the operation to perform.

use vstd::prelude::*;
use vstd::string::StringExecFns;

use crate::error::MimicError;
use crate::error::MimicErrorView;
use crate::error::UsageKind;
use crate::text::copy_text;
use crate::text::copy_words;
use crate::text::text_of;

verus! {

/// The options and positional arguments that the tokenizer recognized.
#[derive(Debug, PartialEq, Eq)]
pub struct Cli {
    /// `--features`: show the features of the program and stop.
    pub features: bool,
    /// `-r` or `--reffile`: the reference file.
    pub reffile: Option<String>,
    /// `-v` or `--verbose`: show each installer invocation.
    pub verbose: bool,
    /// The positional arguments, in order.
    pub filenames: Vec<String>,
}

/// The mathematical value of a [`Cli`].
pub struct CliView {
    pub features: bool,
    pub reffile: Option<Seq<char>>,
    pub verbose: bool,
    pub filenames: Seq<Seq<char>>,
}

impl View for Cli {
    type V = CliView;

    open spec fn view(&self) -> CliView {
        CliView {
            features: self.features,
            reffile: text_of(self.reffile),
            verbose: self.verbose,
            filenames: self.filenames.deep_view(),
        }
    }
}

impl Clone for Cli {
    fn clone(&self) -> (copy: Cli)
        ensures
            copy@ == self@,
    {
        Cli {
            features: self.features,
            reffile: copy_text(&self.reffile),
            verbose: self.verbose,
            filenames: copy_words(&self.filenames),
        }
    }
}

/// What the tokenizer made of the command line.
#[derive(Debug, PartialEq, Eq)]
pub enum Tokenized {
    /// The command line was recognized.
    Options(Cli),
    /// Help or the version was asked for; `text` is what to show.
    Informational { text: String },
    /// An option is not recognized or an option value is malformed; `detail`
    /// is the tokenizer's report.
    Rejected { detail: String },
}

/// The mathematical value of a [`Tokenized`].
pub enum TokenizedView {
    Options(CliView),
    Informational { text: Seq<char> },
    Rejected { detail: Seq<char> },
}

impl View for Tokenized {
    type V = TokenizedView;

    open spec fn view(&self) -> TokenizedView {
        match *self {
            Tokenized::Options(cli) => TokenizedView::Options(cli@),
            Tokenized::Informational { text } => TokenizedView::Informational { text: text@ },
            Tokenized::Rejected { detail } => TokenizedView::Rejected { detail: detail@ },
        }
    }
}

impl Clone for Tokenized {
    fn clone(&self) -> (copy: Tokenized)
        ensures
            copy@ == self@,
    {
        match self {
            Tokenized::Options(cli) => Tokenized::Options(cli.clone()),
            Tokenized::Informational { text } => Tokenized::Informational { text: text.clone() },
            Tokenized::Rejected { detail } => Tokenized::Rejected { detail: detail.clone() },
        }
    }
}

/// One resolved request to install.
#[derive(Debug, PartialEq, Eq)]
pub struct Operation {
    /// The files to install, in the order given. Never empty after
    /// resolution.
    pub sources: Vec<String>,
    /// Where to install: a file, or a directory for the sources to go into.
    pub destination: String,
    /// The file whose owner, group and mode are mimicked, if one was named.
    pub reference: Option<String>,
    /// Whether each installer invocation is shown before it is run.
    pub verbose: bool,
}

/// The mathematical value of an [`Operation`].
pub struct OperationView {
    pub sources: Seq<Seq<char>>,
    pub destination: Seq<char>,
    pub reference: Option<Seq<char>>,
    pub verbose: bool,
}

impl OperationView {
    /// There is at least one source.
    pub open spec fn wf(self) -> bool {
        self.sources.len() > 0
    }
}

impl View for Operation {
    type V = OperationView;

    open spec fn view(&self) -> OperationView {
        OperationView {
            sources: self.sources.deep_view(),
            destination: self.destination@,
            reference: text_of(self.reference),
            verbose: self.verbose,
        }
    }
}

impl Clone for Operation {
    fn clone(&self) -> (copy: Operation)
        ensures
            copy@ == self@,
    {
        Operation {
            sources: copy_words(&self.sources),
            destination: self.destination.clone(),
            reference: copy_text(&self.reference),
            verbose: self.verbose,
        }
    }
}

/// What the program is to do.
#[derive(Debug, PartialEq, Eq)]
pub enum Mode {
    /// The request is answered by showing `text`; nothing is installed and
    /// the program ends with success.
    Handled { text: String },
    /// Files are to be installed.
    Install(Operation),
}

/// The mathematical value of a [`Mode`].
pub enum ModeView {
    Handled { text: Seq<char> },
    Install(OperationView),
}

impl View for Mode {
    type V = ModeView;

    open spec fn view(&self) -> ModeView {
        match *self {
            Mode::Handled { text } => ModeView::Handled { text: text@ },
            Mode::Install(operation) => ModeView::Install(operation@),
        }
    }
}

impl Clone for Mode {
    fn clone(&self) -> (copy: Mode)
        ensures
            copy@ == self@,
    {
        match self {
            Mode::Handled { text } => Mode::Handled { text: text.clone() },
            Mode::Install(operation) => Mode::Install(operation.clone()),
        }
    }
}

/// The line that names the features of the program in version `version`.
pub open spec fn features_text(version: Seq<char>) -> Seq<char> {
    "Features: install-mimic="@ + version + "\n"@
}

/// What the command line asks for. A rejected command line is a syntax
/// error. A request for help, for the version or for the features is handled
/// by showing a text. Otherwise the last positional argument is the
/// destination and those before it are the sources; with fewer than two
/// positional arguments this is a usage error.
pub open spec fn resolved(tokenized: TokenizedView, version: Seq<char>) -> Result<
    ModeView,
    MimicErrorView,
> {
    match tokenized {
        TokenizedView::Rejected { detail } => Err(MimicErrorView::ArgumentSyntax { detail }),
        TokenizedView::Informational { text } => Ok(ModeView::Handled { text }),
        TokenizedView::Options(cli) => if cli.features {
            Ok(ModeView::Handled { text: features_text(version) })
        } else if cli.filenames.len() < 2 {
            Err(MimicErrorView::Usage(UsageKind::MissingOperand))
        } else {
            Ok(
                ModeView::Install(
                    OperationView {
                        sources: cli.filenames.drop_last(),
                        destination: cli.filenames.last(),
                        reference: cli.reffile,
                        verbose: cli.verbose,
                    },
                ),
            )
        },
    }
}

/// The line that names the features of the program in version `version`.
pub fn features(version: &str) -> (text: String)
    ensures
        text@ == features_text(version@),
{
    let mut text = String::from_str("Features: install-mimic=");
    text.append(version);
    text.append("\n");
    text
}

/// Resolves what the tokenizer recognized into what the program is to do.
/// `version` is the version that the features line names.
pub fn parse_args(tokenized: Tokenized, version: &str) -> (outcome: Result<Mode, MimicError>)
    ensures
        match outcome {
            Ok(mode) => resolved(tokenized@, version@) == Ok::<ModeView, MimicErrorView>(mode@),
            Err(error) => resolved(tokenized@, version@) == Err::<ModeView, MimicErrorView>(
                error@,
            ),
        },
        outcome matches Ok(Mode::Install(operation)) ==> operation@.wf(),
{
    match tokenized {
        Tokenized::Rejected { detail } => Err(MimicError::ArgumentSyntax { detail }),
        Tokenized::Informational { text } => Ok(Mode::Handled { text }),
        Tokenized::Options(cli) => {
            let Cli { features: show_features, reffile, verbose, filenames } = cli;
            if show_features {
                return Ok(Mode::Handled { text: features(version) });
            }
            let ghost given = filenames.deep_view();
            let mut sources = filenames;
            match sources.pop() {
                None => Err(MimicError::Usage(UsageKind::MissingOperand)),
                Some(destination) => {
                    if sources.len() == 0 {
                        Err(MimicError::Usage(UsageKind::MissingOperand))
                    } else {
                        assert(sources.deep_view() =~= given.drop_last());
                        assert(destination@ == given.last());
                        Ok(
                            Mode::Install(
                                Operation { sources, destination, reference: reffile, verbose },
                            ),
                        )
                    }
                },
            }
        },
    }
}

} // verus!
