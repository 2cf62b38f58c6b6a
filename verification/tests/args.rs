use install_mimic::args::features;
use install_mimic::args::parse_args;
use install_mimic::args::Cli;
use install_mimic::args::Mode;
use install_mimic::args::Operation;
use install_mimic::args::Tokenized;
use install_mimic::error::MimicError;
use install_mimic::error::UsageKind;

fn cli(features: bool, reffile: Option<&str>, verbose: bool, filenames: &[&str]) -> Tokenized {
    Tokenized::Options(Cli {
        features,
        reffile: reffile.map(|path| path.to_owned()),
        verbose,
        filenames: filenames.iter().map(|name| (*name).to_owned()).collect(),
    })
}

#[test]
fn features_line_names_program_and_version() {
    assert_eq!(features("0.4.3"), "Features: install-mimic=0.4.3\n");
}

#[test]
fn features_request_is_handled() {
    let outcome = parse_args(cli(true, None, false, &[]), "1.2.3");
    assert_eq!(outcome, Ok(Mode::Handled { text: "Features: install-mimic=1.2.3\n".to_owned() }));
}

#[test]
fn features_request_wins_over_positional_arguments() {
    let outcome = parse_args(cli(true, Some("ref"), true, &["a", "b"]), "1.2.3");
    assert_eq!(outcome, Ok(Mode::Handled { text: "Features: install-mimic=1.2.3\n".to_owned() }));
}

#[test]
fn help_text_is_handled() {
    let outcome = parse_args(Tokenized::Informational { text: "help\n".to_owned() }, "1.2.3");
    assert_eq!(outcome, Ok(Mode::Handled { text: "help\n".to_owned() }));
}

#[test]
fn rejected_command_line_is_a_syntax_error() {
    let outcome = parse_args(Tokenized::Rejected { detail: "bad option".to_owned() }, "1.2.3");
    assert_eq!(outcome, Err(MimicError::ArgumentSyntax { detail: "bad option".to_owned() }));
}

#[test]
fn no_positional_argument_is_a_usage_error() {
    let outcome = parse_args(cli(false, None, false, &[]), "1.2.3");
    assert_eq!(outcome, Err(MimicError::Usage(UsageKind::MissingOperand)));
}

#[test]
fn one_positional_argument_is_a_usage_error() {
    let outcome = parse_args(cli(false, Some("ref"), true, &["only"]), "1.2.3");
    assert_eq!(outcome, Err(MimicError::Usage(UsageKind::MissingOperand)));
}

#[test]
fn two_positional_arguments_are_source_and_destination() {
    let outcome = parse_args(cli(false, None, false, &["src", "dst"]), "1.2.3");
    assert_eq!(
        outcome,
        Ok(Mode::Install(Operation {
            sources: vec!["src".to_owned()],
            destination: "dst".to_owned(),
            reference: None,
            verbose: false,
        }))
    );
}

#[test]
fn last_positional_argument_is_the_destination() {
    let outcome = parse_args(cli(false, Some("ref"), true, &["a", "b", "c", "dir"]), "1.2.3");
    assert_eq!(
        outcome,
        Ok(Mode::Install(Operation {
            sources: vec!["a".to_owned(), "b".to_owned(), "c".to_owned()],
            destination: "dir".to_owned(),
            reference: Some("ref".to_owned()),
            verbose: true,
        }))
    );
}

#[test]
fn copies_of_arguments_are_equal() {
    let tokenized = cli(false, Some("ref"), true, &["a", "b", "dir"]);
    assert_eq!(tokenized.clone(), tokenized);
    let mode = parse_args(tokenized, "1.2.3").unwrap();
    assert_eq!(mode.clone(), mode);
    let handled = Mode::Handled { text: "text".to_owned() };
    assert_eq!(handled.clone(), handled);
}
