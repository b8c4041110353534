//! Laws on the maintenance command.

use crate::xtask::{
    fast_check_args, fast_check_line, fast_check_report, fast_test_packages, help_lines,
    xtask_command, CargoEnd, XtaskCommand,
};
use crate::{path, xtask};
use vstd::prelude::*;
use vstd::string::*;

verus! {

/// The fast tests are those of the fast packages, each selected once, in
/// order, and of no other.
pub proof fn law_fast_tests_are_those_of_the_packages(packages: Vec<String>, args: Vec<String>)
    requires
        call_ensures(fast_test_packages, (), packages),
        call_ensures(fast_check_args, (), args),
    ensures
        args@.len() == 1 + 2 * packages@.len(),
        args@[0]@ == "test"@,
        forall|i: int|
            0 <= i < packages@.len() ==> #[trigger] selects(args@, i, packages@[i]@),
        packages@.len() == 8,
{
    let names = path::text_views(packages@);
    let shown = path::text_views(args@);
    assert(names.len() == packages@.len());
    assert(shown.len() == args@.len());
    lemma_package_args(names);
    assert(shown[0] == args@[0]@);
    assert forall|i: int| 0 <= i < packages@.len() implies #[trigger] selects(
        args@,
        i,
        packages@[i]@,
    ) by {
        lemma_package_at(names, i);
        assert(shown[1 + 2 * i] == args@[1 + 2 * i]@);
        assert(shown[2 + 2 * i] == args@[2 + 2 * i]@);
        assert(shown[1 + 2 * i] == xtask::package_args(names)[2 * i]);
        assert(shown[2 + 2 * i] == xtask::package_args(names)[2 * i + 1]);
        assert(names[i] == packages@[i]@);
    }
}

/// The arguments select a package behind those before it.
pub open spec fn selects(args: Seq<String>, i: int, package: Seq<char>) -> bool {
    args[1 + 2 * i]@ == "-p"@ && args[2 + 2 * i]@ == package
}

proof fn lemma_package_args(names: Seq<Seq<char>>)
    ensures
        xtask::package_args(names).len() == 2 * names.len(),
    decreases names.len(),
{
    if names.len() > 0 {
        lemma_package_args(names.drop_last());
    }
}

proof fn lemma_package_at(names: Seq<Seq<char>>, i: int)
    requires
        0 <= i < names.len(),
    ensures
        xtask::package_args(names)[2 * i] == "-p"@,
        xtask::package_args(names)[2 * i + 1] == names[i],
    decreases names.len(),
{
    lemma_package_args(names.drop_last());
    if i < names.len() - 1 {
        lemma_package_at(names.drop_last(), i);
    }
}

/// The command runs the fast tests where it is told to, shows its help where
/// it is told nothing or asked, and complains of all else by its name.
pub proof fn law_maintenance_commands_are_told_apart(argument: Option<&str>, command: XtaskCommand)
    requires
        call_ensures(xtask_command, (argument,), command),
    ensures
        command is CheckFast <==> argument is Some && argument->0@ == "check-fast"@,
        command is Help <==> argument is None || argument->0@ == "-h"@ || argument->0@
            == "--help"@,
        command matches XtaskCommand::Unknown { complaint } ==> argument is Some && complaint@
            == "unknown xtask command `"@ + argument->0@ + "`"@,
{
    reveal_strlit("check-fast");
    reveal_strlit("-h");
    reveal_strlit("--help");
    assert("check-fast"@.len() == 10);
    assert("-h"@.len() == 2);
    assert("--help"@.len() == 6);
}

/// Tests that succeeded print nothing; tests that failed print their status,
/// and tests that did not run the reason.
pub proof fn law_failed_checks_are_told(end: CargoEnd, lines: Vec<String>)
    requires
        call_ensures(fast_check_report, (&end,), lines),
    ensures
        end is Success <==> lines@.len() == 0,
        end matches CargoEnd::Failure(status) ==> lines@.len() == 2 && lines@[0]@
            == "fast checks failed with status "@ + status@ && lines@[1]@
            == "next diagnostic step: run `cargo test --workspace` or the release build script for native/service coverage"@,
        end matches CargoEnd::NotRun(reason) ==> lines@.len() == 1 && lines@[0]@
            == "failed to run cargo test: "@ + reason@,
{
    let shown = path::text_views(lines@);
    assert(shown.len() == lines@.len());
    if lines@.len() > 0 {
        assert(shown[0] == lines@[0]@);
    }
    if lines@.len() > 1 {
        assert(shown[1] == lines@[1]@);
    }
}

/// What is printed before the tests names every package, in order, with a
/// comma between two.
pub proof fn law_tested_packages_are_printed(packages: Vec<String>, line: String, lines: Vec<String>)
    requires
        call_ensures(fast_test_packages, (), packages),
        call_ensures(fast_check_line, (), line),
        call_ensures(help_lines, (), lines),
    ensures
        "running fast Rust-only checks for packages: "@.is_prefix_of(line@),
        line@ == "running fast Rust-only checks for packages: "@ + with_commas(
            path::text_views(packages@),
        ),
        lines@.len() == 2,
        lines@[0]@ == "DbgAtlas xtask commands:"@,
        lines@[1]@
            == "  check-fast    Run Rust-only tests that do not build native adapter crates"@,
{
    lemma_with_commas(path::text_views(packages@));
    let views = path::text_views(lines@);
    assert(views.len() == lines@.len());
    assert(views[0] == lines@[0]@);
    assert(views[1] == lines@[1]@);
    let head = "running fast Rust-only checks for packages: "@;
    assert(line@.subrange(0, head.len() as int) =~= head);
}

/// The texts, with a comma and a space before each but the first.
pub open spec fn with_commas(texts: Seq<Seq<char>>) -> Seq<char>
    decreases texts.len(),
{
    if texts.len() == 0 {
        seq![]
    } else if texts.len() == 1 {
        texts[0]
    } else {
        with_commas(texts.drop_last()) + seq![',', ' '] + texts.last()
    }
}

proof fn lemma_with_commas(texts: Seq<Seq<char>>)
    ensures
        xtask::listed(texts) == with_commas(texts),
    decreases texts.len(),
{
    reveal_strlit(", ");
    assert(", "@ =~= seq![',', ' ']);
    if texts.len() > 1 {
        lemma_with_commas(texts.drop_last());
    }
}

/// The fast packages are these, and each is named once.
pub proof fn law_fast_packages_are_named(packages: Vec<String>)
    requires
        call_ensures(fast_test_packages, (), packages),
    ensures
        path::text_views(packages@) == seq![
            "dbgatlas-model"@,
            "dbgatlas-workspace"@,
            "dbgatlas-adapter"@,
            "dbgatlas-core"@,
            "dbgatlas-debug"@,
            "dbgatlas-recording"@,
            "dbgatlas-runtime"@,
            "dbgatlas-worker-protocol"@,
        ],
{
}

} // verus!
