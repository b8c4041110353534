//! The maintenance command: its subcommands, and what it runs and prints.

use crate::{path, text};
use vstd::prelude::*;
use vstd::string::*;

verus! {

/// What the maintenance command does.
#[derive(Debug, PartialEq, Eq)]
pub enum XtaskCommand {
    /// It runs the fast tests.
    CheckFast,
    /// It prints its subcommands.
    Help,
    /// It complains, prints its subcommands and fails.
    Unknown { complaint: String },
}

/// What the maintenance command does with its first argument.
pub fn xtask_command(argument: Option<&str>) -> (command: XtaskCommand)
    ensures
        match argument {
            None => command == XtaskCommand::Help,
            Some(name) => if name@ == "check-fast"@ {
                command == XtaskCommand::CheckFast
            } else if name@ == "-h"@ || name@ == "--help"@ {
                command == XtaskCommand::Help
            } else {
                command matches XtaskCommand::Unknown { complaint } && complaint@
                    == "unknown xtask command `"@ + name@ + "`"@
            },
        },
{
    match argument {
        None => XtaskCommand::Help,
        Some(name) => {
            if text::text_eq(name, "check-fast") {
                return XtaskCommand::CheckFast;
            }
            if text::text_eq(name, "-h") || text::text_eq(name, "--help") {
                return XtaskCommand::Help;
            }
            XtaskCommand::Unknown {
                complaint: "unknown xtask command `".to_owned().concat(name).concat("`"),
            }
        },
    }
}

/// The packages whose tests build no native adapter.
pub open spec fn fast_packages() -> Seq<Seq<char>> {
    seq![
        "dbgatlas-model"@,
        "dbgatlas-workspace"@,
        "dbgatlas-adapter"@,
        "dbgatlas-core"@,
        "dbgatlas-debug"@,
        "dbgatlas-recording"@,
        "dbgatlas-runtime"@,
        "dbgatlas-worker-protocol"@,
    ]
}

/// The packages whose tests build no native adapter.
pub fn fast_test_packages() -> (packages: Vec<String>)
    ensures
        path::text_views(packages@) == fast_packages(),
{
    let packages: Vec<String> = vec![
        "dbgatlas-model".to_owned(),
        "dbgatlas-workspace".to_owned(),
        "dbgatlas-adapter".to_owned(),
        "dbgatlas-core".to_owned(),
        "dbgatlas-debug".to_owned(),
        "dbgatlas-recording".to_owned(),
        "dbgatlas-runtime".to_owned(),
        "dbgatlas-worker-protocol".to_owned(),
    ];
    assert(path::text_views(packages@) =~= fast_packages());
    packages
}

/// Texts one after the other, with a comma between any two.
pub open spec fn listed(texts: Seq<Seq<char>>) -> Seq<char>
    decreases texts.len(),
{
    if texts.len() == 0 {
        seq![]
    } else if texts.len() == 1 {
        texts[0]
    } else {
        listed(texts.drop_last()) + ", "@ + texts.last()
    }
}

/// What is printed before the fast tests run.
pub fn fast_check_line() -> (line: String)
    ensures
        line@ == "running fast Rust-only checks for packages: "@ + listed(fast_packages()),
{
    let packages: Vec<String> = fast_test_packages();
    let ghost names = path::text_views(packages@);
    assert(names.len() == packages@.len());
    assert(names[0] == packages@[0]@);
    let mut list: String = packages[0].clone();
    let mut i: usize = 1;
    assert(names.take(1).len() == 1 && names.take(1)[0] == names[0]);
    while i < packages.len()
        invariant
            1 <= i <= packages.len(),
            names == path::text_views(packages@),
            list@ == listed(names.take(i as int)),
        decreases packages.len() - i,
    {
        assert(names.take(i + 1).drop_last() =~= names.take(i as int));
        assert(names.take(i + 1).last() == packages@[i as int]@);
        list = list.concat(", ").concat(packages[i].as_str());
        i = i + 1;
    }
    assert(names.take(i as int) =~= names);
    "running fast Rust-only checks for packages: ".to_owned().concat(list.as_str())
}

/// The arguments that select packages.
pub open spec fn package_args(packages: Seq<Seq<char>>) -> Seq<Seq<char>>
    decreases packages.len(),
{
    if packages.len() == 0 {
        seq![]
    } else {
        package_args(packages.drop_last()) + seq!["-p"@, packages.last()]
    }
}

/// The arguments with which `cargo` runs the fast tests.
pub fn fast_check_args() -> (args: Vec<String>)
    ensures
        path::text_views(args@) == seq!["test"@] + package_args(fast_packages()),
{
    let packages: Vec<String> = fast_test_packages();
    let ghost names = path::text_views(packages@);
    let mut args: Vec<String> = vec!["test".to_owned()];
    let mut i: usize = 0;
    assert(path::text_views(args@) =~= seq!["test"@] + package_args(names.take(0)));
    while i < packages.len()
        invariant
            i <= packages.len(),
            names == path::text_views(packages@),
            path::text_views(args@) == seq!["test"@] + package_args(names.take(i as int)),
        decreases packages.len() - i,
    {
        let ghost before = path::text_views(args@);
        args.push("-p".to_owned());
        args.push(packages[i].clone());
        assert(path::text_views(args@) =~= before + seq!["-p"@, packages@[i as int]@]);
        assert(names.take(i + 1).drop_last() =~= names.take(i as int));
        assert(names.take(i + 1).last() == packages@[i as int]@);
        assert(path::text_views(args@) =~= seq!["test"@] + package_args(names.take(i + 1)));
        i = i + 1;
    }
    assert(names.take(i as int) =~= names);
    args
}

/// How `cargo` ended.
#[derive(Debug, PartialEq, Eq)]
pub enum CargoEnd {
    Success,
    /// It failed; the status, as text.
    Failure(String),
    /// It did not run; the reason, as text.
    NotRun(String),
}

/// What is printed of how the fast tests ended.
pub open spec fn end_lines(end: CargoEnd) -> Seq<Seq<char>> {
    match end {
        CargoEnd::Success => seq![],
        CargoEnd::Failure(status) => seq![
            "fast checks failed with status "@ + status@,
            "next diagnostic step: run `cargo test --workspace` or the release build script for native/service coverage"@,
        ],
        CargoEnd::NotRun(reason) => seq!["failed to run cargo test: "@ + reason@],
    }
}

/// What is printed of how the fast tests ended. They succeeded if nothing is.
pub fn fast_check_report(end: &CargoEnd) -> (lines: Vec<String>)
    ensures
        path::text_views(lines@) == end_lines(*end),
        lines@.len() == 0 <==> end is Success,
{
    let mut lines: Vec<String> = Vec::new();
    match end {
        CargoEnd::Success => {},
        CargoEnd::Failure(status) => {
            lines.push("fast checks failed with status ".to_owned().concat(status.as_str()));
            lines.push(
                "next diagnostic step: run `cargo test --workspace` or the release build script for native/service coverage".to_owned(),
            );
        },
        CargoEnd::NotRun(reason) => {
            lines.push("failed to run cargo test: ".to_owned().concat(reason.as_str()));
        },
    }
    assert(path::text_views(lines@) =~= end_lines(*end));
    lines
}

/// The subcommands, as they are printed.
pub fn help_lines() -> (lines: Vec<String>)
    ensures
        path::text_views(lines@) == seq![
            "DbgAtlas xtask commands:"@,
            "  check-fast    Run Rust-only tests that do not build native adapter crates"@,
        ],
{
    let lines: Vec<String> = vec![
        "DbgAtlas xtask commands:".to_owned(),
        "  check-fast    Run Rust-only tests that do not build native adapter crates".to_owned(),
    ];
    assert(path::text_views(lines@) =~= seq![
        "DbgAtlas xtask commands:"@,
        "  check-fast    Run Rust-only tests that do not build native adapter crates"@,
    ]);
    lines
}

} // verus!
