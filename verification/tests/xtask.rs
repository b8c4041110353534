use dbgatlas::xtask::{
    fast_check_args, fast_check_line, fast_check_report, fast_test_packages, help_lines,
    xtask_command, CargoEnd, XtaskCommand,
};

#[test]
fn subcommands_are_known() {
    assert_eq!(xtask_command(Some("check-fast")), XtaskCommand::CheckFast);
    for argument in [None, Some("-h"), Some("--help")] {
        assert_eq!(xtask_command(argument), XtaskCommand::Help);
    }
    assert_eq!(
        xtask_command(Some("check")),
        XtaskCommand::Unknown {
            complaint: "unknown xtask command `check`".to_string(),
        }
    );
    assert_eq!(help_lines()[0], "DbgAtlas xtask commands:");
}

#[test]
fn fast_checks_select_every_package() {
    let packages = fast_test_packages();
    assert_eq!(packages.len(), 8);
    let args = fast_check_args();
    assert_eq!(args.len(), 17);
    assert_eq!(args[..3], ["test", "-p", "dbgatlas-model"]);
    assert_eq!(args[15..], ["-p", "dbgatlas-worker-protocol"]);
    assert_eq!(
        fast_check_line(),
        format!(
            "running fast Rust-only checks for packages: {}",
            packages.join(", ")
        )
    );
}

#[test]
fn fast_checks_tell_how_they_ended() {
    assert!(fast_check_report(&CargoEnd::Success).is_empty());
    assert_eq!(
        fast_check_report(&CargoEnd::Failure("exit status: 101".to_string()))[0],
        "fast checks failed with status exit status: 101"
    );
    assert_eq!(
        fast_check_report(&CargoEnd::NotRun("no cargo".to_string())),
        ["failed to run cargo test: no cargo"]
    );
}
