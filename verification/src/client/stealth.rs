//! Process stealth: the report on what could be done.
//!
//! If something cannot be done, the report says so. No false promises.

use vstd::prelude::*;

use crate::text;

verus! {

/// The platform that the client runs on, with the outcome of each measure
/// there: nothing, or an error.
#[derive(Debug, Clone)]
#[verifier::ext_equal]
pub enum Measures<T = String> {
    Linux { rename: Option<T>, core_dumps: Option<T>, non_dumpable: Option<T> },
    Windows { rename: Option<T> },
    Android,
    Other,
}

impl View for Measures<String> {
    type V = Measures<Seq<char>>;

    open spec fn view(&self) -> Measures<Seq<char>> {
        match *self {
            Measures::Linux { rename, core_dumps, non_dumpable } => Measures::Linux {
                rename: text::opt_text(rename),
                core_dumps: text::opt_text(core_dumps),
                non_dumpable: text::opt_text(non_dumpable),
            },
            Measures::Windows { rename } => Measures::Windows { rename: text::opt_text(rename) },
            Measures::Android => Measures::Android,
            Measures::Other => Measures::Other,
        }
    }
}

/// The name that the process takes on Linux.
pub const PROCESS_NAME: &'static str = "dbus-daemon";

/// The title that the window takes on Windows.
pub const WINDOW_TITLE: &'static str = "System Service Host";

/// The line for a measure: what was done, or what failed and why.
pub open spec fn outcome_line(
    error: Option<Seq<char>>,
    done: Seq<char>,
    failed: Seq<char>,
) -> Seq<char> {
    match error {
        None => done,
        Some(e) => failed + e,
    }
}

/// The lines of the report.
pub open spec fn report(m: Measures<Seq<char>>) -> Seq<Seq<char>> {
    match m {
        Measures::Linux { rename, core_dumps, non_dumpable } => seq![
            outcome_line(rename, "✓ Process renamed (prctl)"@, "✗ Process rename failed: "@),
            outcome_line(core_dumps, "✓ Core dumps disabled"@, "✗ Core dump disable failed: "@),
            outcome_line(
                non_dumpable,
                "✓ Process marked non-dumpable"@,
                "✗ Non-dumpable failed: "@,
            ),
        ],
        Measures::Windows { rename } => seq![
            outcome_line(rename, "✓ Window title renamed"@, "✗ Window title rename failed: "@),
        ],
        Measures::Android => seq!["⚠ Android: limited stealth (Termux sandbox)"@],
        Measures::Other => seq!["⚠ No stealth measures available on this platform"@],
    }
}

fn line_for(error: &Option<String>, done: &str, failed: &str) -> (r: String)
    ensures
        r@ == outcome_line(text::opt_text(*error), done@, failed@),
{
    match error {
        None => done.to_owned(),
        Some(e) => text::join2(failed, e.as_str()),
    }
}

/// The list of what was applied and what failed.
pub fn apply_stealth(m: &Measures) -> (r: Vec<String>)
    ensures
        r@.map_values(|s: String| s@) == report(m@),
{
    let mut lines: Vec<String> = Vec::new();
    match m {
        Measures::Linux { rename, core_dumps, non_dumpable } => {
            lines.push(
                line_for(rename, "✓ Process renamed (prctl)", "✗ Process rename failed: "),
            );
            lines.push(
                line_for(core_dumps, "✓ Core dumps disabled", "✗ Core dump disable failed: "),
            );
            lines.push(
                line_for(
                    non_dumpable,
                    "✓ Process marked non-dumpable",
                    "✗ Non-dumpable failed: ",
                ),
            );
        },
        Measures::Windows { rename } => {
            lines.push(
                line_for(rename, "✓ Window title renamed", "✗ Window title rename failed: "),
            );
        },
        Measures::Android => {
            lines.push("⚠ Android: limited stealth (Termux sandbox)".to_owned());
        },
        Measures::Other => {
            lines.push("⚠ No stealth measures available on this platform".to_owned());
        },
    }
    assert(lines@.map_values(|s: String| s@) =~= report(m@));
    lines
}

/// Whether a line of the report tells of a success.
pub fn is_success(line: &str) -> (r: bool)
    ensures
        r == (line@.len() > 0 && line@[0] == '✓'),
{
    text::begins_with(line, '✓')
}

/// The report is never empty: a measure that was not possible is told of, like
/// one that failed.
pub proof fn law_report_is_never_empty(m: Measures<Seq<char>>)
    ensures
        report(m).len() > 0,
{
}

/// A measure is reported as done exactly if it did not fail; a failure is reported
/// with its reason.
pub proof fn law_report_is_true(error: Option<Seq<char>>, done: Seq<char>, failed: Seq<char>)
    ensures
        error is None ==> outcome_line(error, done, failed) == done,
        error matches Some(e) ==> outcome_line(error, done, failed) == failed + e,
{
}

/// On Linux each of the three measures has a line of its own, which begins with a
/// tick exactly if it was successful; on Windows there is one.
pub proof fn law_every_measure_is_reported(
    rename: Option<Seq<char>>,
    core_dumps: Option<Seq<char>>,
    non_dumpable: Option<Seq<char>>,
)
    ensures
        ({
            let lines = report(Measures::Linux { rename, core_dumps, non_dumpable });
            let one = report(Measures::Windows { rename });
            &&& lines.len() == 3 && one.len() == 1
            &&& lines[0].len() > 0 && (lines[0][0] == '✓' <==> rename is None)
            &&& lines[1].len() > 0 && (lines[1][0] == '✓' <==> core_dumps is None)
            &&& lines[2].len() > 0 && (lines[2][0] == '✓' <==> non_dumpable is None)
            &&& one[0].len() > 0 && (one[0][0] == '✓' <==> rename is None)
        }),
{
    reveal_strlit("✓ Process renamed (prctl)");
    reveal_strlit("✗ Process rename failed: ");
    reveal_strlit("✓ Core dumps disabled");
    reveal_strlit("✗ Core dump disable failed: ");
    reveal_strlit("✓ Process marked non-dumpable");
    reveal_strlit("✗ Non-dumpable failed: ");
    reveal_strlit("✓ Window title renamed");
    reveal_strlit("✗ Window title rename failed: ");
}

/// Where nothing can be done, nothing is claimed.
pub proof fn law_nothing_is_promised_elsewhere()
    ensures
        report(Measures::Android).len() == 1 && report(Measures::Android)[0][0] != '✓',
        report(Measures::Other).len() == 1 && report(Measures::Other)[0][0] != '✓',
{
    reveal_strlit("⚠ Android: limited stealth (Termux sandbox)");
    reveal_strlit("⚠ No stealth measures available on this platform");
}

} // verus!
