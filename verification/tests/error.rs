use install_mimic::error::usage;
use install_mimic::error::MimicError;
use install_mimic::error::UsageKind;
use install_mimic::error::USAGE;

#[test]
fn usage_text_is_the_synopsis() {
    let text = usage();
    assert_eq!(text, USAGE);
    assert!(text.starts_with("Usage:\tinstall-mimic [-v] [-r reffile] srcfile dstfile\n"));
    assert!(text.contains("\tinstall-mimic [-v] [-r reffile] file1 [file2...] directory\n"));
    assert!(text.contains("\tinstall-mimic -V | --version | -h | --help\n"));
    assert!(text.contains("\tinstall-mimic --features\n"));
    assert!(text.ends_with("\t-v\tverbose operation; display diagnostic output"));
}

#[test]
fn usage_errors_show_the_synopsis() {
    assert_eq!(MimicError::Usage(UsageKind::MissingOperand).message(), USAGE);
    assert_eq!(MimicError::Usage(UsageKind::DestinationMissing).message(), USAGE);
    assert_eq!(MimicError::Usage(UsageKind::NotADirectory).message(), USAGE);
}

#[test]
fn argument_syntax_error_shows_the_report() {
    let error = MimicError::ArgumentSyntax { detail: "unexpected argument '-x'".to_owned() };
    assert_eq!(error.message(), "unexpected argument '-x'");
}

#[test]
fn metadata_error_names_path_and_cause() {
    let error = MimicError::Metadata {
        path: "/etc/shadow".to_owned(),
        cause: "Permission denied (os error 13)".to_owned(),
    };
    assert_eq!(error.message(), "Could not examine /etc/shadow: Permission denied (os error 13)");
}

#[test]
fn invalid_path_error_names_the_source() {
    let error = MimicError::InvalidPath { source: "/".to_owned() };
    assert_eq!(error.message(), "Invalid source filename /");
}

#[test]
fn install_error_names_both_paths() {
    let error = MimicError::Install {
        source: "a.conf".to_owned(),
        destination: "/etc/a.conf".to_owned(),
        launch: None,
    };
    assert_eq!(error.message(), "Could not install a.conf as /etc/a.conf");
}

#[test]
fn launch_error_names_both_paths_and_cause() {
    let error = MimicError::Install {
        source: "a.conf".to_owned(),
        destination: "/etc/a.conf".to_owned(),
        launch: Some("No such file or directory (os error 2)".to_owned()),
    };
    assert_eq!(
        error.message(),
        "Could not install a.conf as /etc/a.conf: could not run install: No such file or directory (os error 2)"
    );
}

#[test]
fn copies_of_errors_are_equal() {
    let errors = [
        MimicError::Usage(UsageKind::NotADirectory),
        MimicError::ArgumentSyntax { detail: "d".to_owned() },
        MimicError::Metadata { path: "p".to_owned(), cause: "c".to_owned() },
        MimicError::InvalidPath { source: "s".to_owned() },
        MimicError::Install { source: "s".to_owned(), destination: "d".to_owned(), launch: None },
        MimicError::Install {
            source: "s".to_owned(),
            destination: "d".to_owned(),
            launch: Some("l".to_owned()),
        },
    ];
    for error in &errors {
        assert_eq!(&error.clone(), error);
    }
}
