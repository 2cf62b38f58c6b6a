use install_mimic::error::MimicError;
use install_mimic::install::build_args;
use install_mimic::install::effective_reference;
use install_mimic::install::install_mimic;
use install_mimic::install::settle;
use install_mimic::install::Invocation;
use install_mimic::install::ReferenceMetadata;
use install_mimic::install::INSTALLER;
use install_mimic::install::PERMISSION_MASK;
use install_mimic::shell::command_line;
use install_mimic::shell::invocation_line;
use install_mimic::system::InstallerOutcome;
use install_mimic::system::Metadata;
use install_mimic::system::Probe;

fn strings(words: &[&str]) -> Vec<String> {
    words.iter().map(|word| (*word).to_owned()).collect()
}

fn regular_file(uid: u32, gid: u32, permissions: u32) -> Metadata {
    Metadata { is_dir: false, uid, gid, mode: 0o100000 | permissions }
}

#[test]
fn installer_is_install() {
    assert_eq!(INSTALLER, "install");
}

#[test]
fn permission_mask_is_twelve_bits() {
    assert_eq!(PERMISSION_MASK, 0o7777);
    assert_eq!(PERMISSION_MASK, (1 << 12) - 1);
}

#[test]
fn reference_metadata_drops_file_type_bits() {
    let reference = ReferenceMetadata::of(&regular_file(1000, 100, 0o640));
    assert_eq!(reference, ReferenceMetadata { owner: 1000, group: 100, permissions: 0o640 });
}

#[test]
fn reference_metadata_keeps_set_id_and_sticky_bits() {
    let metadata = Metadata { is_dir: true, uid: 0, gid: 0, mode: 0o40000 | 0o7755 };
    assert_eq!(ReferenceMetadata::of(&metadata).permissions, 0o7755);
}

#[test]
fn reference_metadata_of_all_mode_bits() {
    let metadata = Metadata { is_dir: false, uid: u32::MAX, gid: u32::MAX, mode: u32::MAX };
    assert_eq!(
        ReferenceMetadata::of(&metadata),
        ReferenceMetadata { owner: u32::MAX, group: u32::MAX, permissions: 0o7777 }
    );
}

#[test]
fn reference_defaults_to_destination() {
    assert_eq!(effective_reference("/etc/a.conf", &None), "/etc/a.conf");
}

#[test]
fn explicit_reference_is_used() {
    assert_eq!(effective_reference("/etc/a.conf", &Some("/etc/b.conf".to_owned())), "/etc/b.conf");
}

#[test]
fn arguments_carry_owner_group_and_octal_mode() {
    let reference = ReferenceMetadata { owner: 1000, group: 100, permissions: 0o640 };
    assert_eq!(
        build_args(&reference, "a.conf", "/etc/a.conf"),
        strings(&["-c", "-o", "1000", "-g", "100", "-m", "640", "--", "a.conf", "/etc/a.conf"])
    );
}

#[test]
fn arguments_for_root_and_no_permissions() {
    let reference = ReferenceMetadata { owner: 0, group: 0, permissions: 0 };
    assert_eq!(
        build_args(&reference, "s", "d"),
        strings(&["-c", "-o", "0", "-g", "0", "-m", "0", "--", "s", "d"])
    );
}

#[test]
fn command_line_puts_a_space_after_the_program() {
    assert_eq!(command_line("install", "-c a b"), "install -c a b");
    assert_eq!(command_line("install", ""), "install ");
}

#[test]
fn invocation_line_of_plain_words() {
    assert_eq!(invocation_line("install", &strings(&["-c", "--", "a", "b"])), "install -c -- a b");
}

#[test]
fn invocation_line_quotes_words_for_the_shell() {
    assert_eq!(
        invocation_line("install", &strings(&["--", "my file", "it's"])),
        "install -- 'my file' 'it'\\''s'"
    );
    assert_eq!(invocation_line("install", &strings(&["", "$HOME"])), "install '' '$HOME'");
}

#[test]
fn found_reference_gives_the_invocation() {
    let probe = Probe::Found(regular_file(1000, 100, 0o640));
    let decision = install_mimic("a.conf", "/etc/a.conf", &None, false, &probe);
    assert_eq!(
        decision,
        Ok(Invocation {
            program: "install".to_owned(),
            args: strings(&[
                "-c", "-o", "1000", "-g", "100", "-m", "640", "--", "a.conf", "/etc/a.conf"
            ]),
            echo: None,
        })
    );
}

#[test]
fn verbose_invocation_echoes_what_is_run() {
    let probe = Probe::Found(regular_file(0, 0, 0o755));
    let decision = install_mimic("my tool", "/usr/bin/my tool", &None, true, &probe);
    let invocation = decision.unwrap();
    assert_eq!(
        invocation.echo,
        Some("install -c -o 0 -g 0 -m 755 -- 'my tool' '/usr/bin/my tool'".to_owned())
    );
    let words = shell_words::split(invocation.echo.as_ref().unwrap()).unwrap();
    assert_eq!(words[0], invocation.program);
    assert_eq!(words[1..], invocation.args[..]);
}

#[test]
fn missing_reference_is_a_metadata_error() {
    let probe = Probe::NotFound { cause: "No such file or directory (os error 2)".to_owned() };
    let decision = install_mimic("a", "b", &Some("ref".to_owned()), true, &probe);
    assert_eq!(
        decision,
        Err(MimicError::Metadata {
            path: "ref".to_owned(),
            cause: "No such file or directory (os error 2)".to_owned(),
        })
    );
}

#[test]
fn missing_destination_as_reference_is_a_metadata_error() {
    let probe = Probe::NotFound { cause: "gone".to_owned() };
    let decision = install_mimic("a", "b", &None, false, &probe);
    assert_eq!(
        decision,
        Err(MimicError::Metadata { path: "b".to_owned(), cause: "gone".to_owned() })
    );
}

#[test]
fn unreadable_reference_is_a_metadata_error() {
    let probe = Probe::Failed { cause: "Permission denied (os error 13)".to_owned() };
    let decision = install_mimic("a", "b", &Some("ref".to_owned()), false, &probe);
    assert_eq!(
        decision,
        Err(MimicError::Metadata {
            path: "ref".to_owned(),
            cause: "Permission denied (os error 13)".to_owned(),
        })
    );
}

#[test]
fn successful_run_settles_to_ok() {
    assert_eq!(settle("a", "b", &InstallerOutcome::Success), Ok(()));
}

#[test]
fn failed_run_settles_to_install_error() {
    assert_eq!(
        settle("a", "b", &InstallerOutcome::Failure),
        Err(MimicError::Install { source: "a".to_owned(), destination: "b".to_owned(), launch: None })
    );
}

#[test]
fn installer_not_launched_settles_to_install_error() {
    let outcome = InstallerOutcome::NotLaunched { cause: "not found".to_owned() };
    assert_eq!(
        settle("a", "b", &outcome),
        Err(MimicError::Install {
            source: "a".to_owned(),
            destination: "b".to_owned(),
            launch: Some("not found".to_owned()),
        })
    );
}

#[test]
fn copies_of_reports_and_invocations_are_equal() {
    let probes = [
        Probe::Found(regular_file(1, 2, 0o600)),
        Probe::NotFound { cause: "gone".to_owned() },
        Probe::Failed { cause: "denied".to_owned() },
    ];
    for probe in &probes {
        assert_eq!(&probe.clone(), probe);
    }
    let outcomes = [
        InstallerOutcome::Success,
        InstallerOutcome::Failure,
        InstallerOutcome::NotLaunched { cause: "absent".to_owned() },
    ];
    for outcome in &outcomes {
        assert_eq!(&outcome.clone(), outcome);
    }
    let invocation = install_mimic("a b", "c", &None, true, &probes[0]).unwrap();
    assert_eq!(invocation.clone(), invocation);
}
