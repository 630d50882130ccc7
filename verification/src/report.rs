//! Rendering diff outcomes into the line-oriented report.
//!
//! The report stream gets a header line holding the manifest's path — only
//! when at least one outcome is worth showing — followed by one indented line
//! per removed or upgraded dependency. Per-entry errors become diagnostic
//! lines owed to the error stream; unchanged outcomes produce no output.

use vstd::prelude::*;
use vstd::string::StringExecFns;

use crate::config::{get_deps_table, spec_deps_table, ConfigValue};
use crate::diff::{
    compare_deps_tables, outcomes_view, spec_diff, DiffOutcome, SpecOutcome,
};

verus! {

/// The report line an outcome earns, if any.
pub open spec fn spec_report_line(name: Seq<char>, o: SpecOutcome) -> Option<Seq<char>> {
    match o {
        SpecOutcome::Removed => Some("    `"@ + name + "` removed"@),
        SpecOutcome::Upgraded(t) => Some("    `"@ + name + "` upgraded to version "@ + t),
        _ => None,
    }
}

/// The error-stream diagnostic an outcome earns, if any.
pub open spec fn spec_diag_line(name: Seq<char>, o: SpecOutcome) -> Option<Seq<char>> {
    match o {
        SpecOutcome::ClassificationError(m) => Some("failed to compare `"@ + name + "`: "@ + m),
        _ => None,
    }
}

/// Whether an outcome makes its manifest's path header worth printing.
pub open spec fn spec_qualifies(o: SpecOutcome) -> bool {
    !(o is Unchanged)
}

/// The report-stream lines of an outcome sequence, header excluded.
pub open spec fn spec_report_lines(outs: Seq<(Seq<char>, SpecOutcome)>) -> Seq<Seq<char>>
    decreases outs.len(),
{
    if outs.len() == 0 {
        Seq::empty()
    } else {
        (match spec_report_line(outs[0].0, outs[0].1) {
            Some(l) => seq![l],
            None => Seq::<Seq<char>>::empty(),
        }) + spec_report_lines(outs.drop_first())
    }
}

/// The error-stream diagnostics of an outcome sequence.
pub open spec fn spec_diag_lines(outs: Seq<(Seq<char>, SpecOutcome)>) -> Seq<Seq<char>>
    decreases outs.len(),
{
    if outs.len() == 0 {
        Seq::empty()
    } else {
        (match spec_diag_line(outs[0].0, outs[0].1) {
            Some(l) => seq![l],
            None => Seq::<Seq<char>>::empty(),
        }) + spec_diag_lines(outs.drop_first())
    }
}

/// Whether any outcome makes the path header worth printing.
pub open spec fn spec_any_qualifying(outs: Seq<(Seq<char>, SpecOutcome)>) -> bool {
    exists|i: int| 0 <= i < outs.len() && spec_qualifies((#[trigger] outs[i]).1)
}

/// The full report stream for one manifest path: the path as a header — only
/// when at least one outcome is removed, upgraded, or a per-entry error —
/// then the outcome lines.
pub open spec fn spec_report(path: Seq<char>, outs: Seq<(Seq<char>, SpecOutcome)>) -> Seq<
    Seq<char>,
> {
    if spec_any_qualifying(outs) {
        seq![path] + spec_report_lines(outs)
    } else {
        Seq::empty()
    }
}

/// The view of a sequence of built lines.
pub open spec fn lines_view(v: Seq<String>) -> Seq<Seq<char>> {
    Seq::new(v.len(), |i: int| v[i]@)
}

/// Where no outcome qualifies, every outcome is unchanged and the report
/// stream stays empty.
proof fn lemma_no_qualifying_no_lines(outs: Seq<(Seq<char>, SpecOutcome)>)
    requires
        !spec_any_qualifying(outs),
    ensures
        spec_report_lines(outs) == Seq::<Seq<char>>::empty(),
    decreases outs.len(),
{
    if outs.len() > 0 {
        assert(!spec_qualifies(outs[0].1));
        if spec_any_qualifying(outs.drop_first()) {
            let i = choose|i: int|
                0 <= i < outs.drop_first().len() && spec_qualifies(
                    (#[trigger] outs.drop_first()[i]).1,
                );
            assert(outs.drop_first()[i] == outs[i + 1]);
            assert(false);
        }
        lemma_no_qualifying_no_lines(outs.drop_first());
        assert(spec_report_lines(outs) =~= Seq::<Seq<char>>::empty());
    }
}

fn any_qualifying(outcomes: &Vec<(String, DiffOutcome)>) -> (r: bool)
    ensures
        r == spec_any_qualifying(outcomes_view(outcomes@)),
{
    let ghost ov = outcomes_view(outcomes@);
    let n = outcomes.len();
    let mut i: usize = 0;
    let mut any = false;
    while i < n
        invariant
            i <= n,
            n == outcomes@.len(),
            ov == outcomes_view(outcomes@),
            any == exists|j: int| 0 <= j < i && spec_qualifies((#[trigger] ov[j]).1),
        decreases n - i,
    {
        proof {
            assert(ov[i as int].1 == outcomes@[i as int].1@);
        }
        let q = match &outcomes[i].1 {
            DiffOutcome::Unchanged => false,
            _ => true,
        };
        if q {
            any = true;
        }
        i = i + 1;
    }
    any
}

/// Renders one manifest's ordered outcomes: the report-stream lines (the path
/// header, when owed, then one line per removed or upgraded dependency) and
/// the error-stream diagnostics, both in outcome order.
pub fn format_report(relative_path: &str, outcomes: &Vec<(String, DiffOutcome)>) -> (r: (
    Vec<String>,
    Vec<String>,
))
    ensures
        lines_view(r.0@) == spec_report(relative_path@, outcomes_view(outcomes@)),
        lines_view(r.1@) == spec_diag_lines(outcomes_view(outcomes@)),
{
    let ghost ov = outcomes_view(outcomes@);
    let ghost header: Seq<Seq<char>> = if spec_any_qualifying(ov) {
        seq![relative_path@]
    } else {
        Seq::<Seq<char>>::empty()
    };
    let mut report: Vec<String> = Vec::new();
    let mut diags: Vec<String> = Vec::new();
    if any_qualifying(outcomes) {
        report.push(String::from_str(relative_path));
    }
    proof {
        assert(lines_view(report@) =~= header);
        assert(ov.skip(0) =~= ov);
    }
    let n = outcomes.len();
    let mut i: usize = 0;
    while i < n
        invariant
            i <= n,
            n == outcomes@.len(),
            ov == outcomes_view(outcomes@),
            header == (if spec_any_qualifying(ov) {
                seq![relative_path@]
            } else {
                Seq::<Seq<char>>::empty()
            }),
            lines_view(report@) + spec_report_lines(ov.skip(i as int)) == header
                + spec_report_lines(ov),
            lines_view(diags@) + spec_diag_lines(ov.skip(i as int)) == spec_diag_lines(ov),
        decreases n - i,
    {
        proof {
            assert(ov.skip(i as int)[0] == ov[i as int]);
            assert(ov[i as int] == (outcomes@[i as int].0@, outcomes@[i as int].1@));
            assert(ov.skip(i as int).drop_first() =~= ov.skip(i as int + 1));
        }
        let ghost old_report = report@;
        let ghost old_diags = diags@;
        let name = &outcomes[i].0;
        match &outcomes[i].1 {
            DiffOutcome::Unchanged => {},
            DiffOutcome::Removed => {
                let line = String::from_str("    `").concat(name.as_str()).concat("` removed");
                report.push(line);
            },
            DiffOutcome::Upgraded(t) => {
                let line = String::from_str("    `").concat(name.as_str()).concat(
                    "` upgraded to version ",
                ).concat(t.as_str());
                report.push(line);
            },
            DiffOutcome::ClassificationError(m) => {
                let line = String::from_str("failed to compare `").concat(name.as_str()).concat(
                    "`: ",
                ).concat(m.as_str());
                diags.push(line);
            },
        }
        proof {
            match spec_report_line(ov[i as int].0, ov[i as int].1) {
                Some(l) => {
                    assert(lines_view(report@) =~= lines_view(old_report) + seq![l]);
                },
                None => {
                    assert(lines_view(report@) =~= lines_view(old_report));
                },
            }
            match spec_diag_line(ov[i as int].0, ov[i as int].1) {
                Some(l) => {
                    assert(lines_view(diags@) =~= lines_view(old_diags) + seq![l]);
                },
                None => {
                    assert(lines_view(diags@) =~= lines_view(old_diags));
                },
            }
            assert(lines_view(report@) + spec_report_lines(ov.skip(i as int + 1)) =~= lines_view(
                old_report,
            ) + spec_report_lines(ov.skip(i as int)));
            assert(lines_view(diags@) + spec_diag_lines(ov.skip(i as int + 1)) =~= lines_view(
                old_diags,
            ) + spec_diag_lines(ov.skip(i as int)));
        }
        i = i + 1;
    }
    proof {
        assert(ov.skip(n as int) =~= Seq::<(Seq<char>, SpecOutcome)>::empty());
        assert(lines_view(report@) + spec_report_lines(ov.skip(n as int)) =~= lines_view(report@));
        assert(lines_view(diags@) + spec_diag_lines(ov.skip(n as int)) =~= lines_view(diags@));
        if !spec_any_qualifying(ov) {
            lemma_no_qualifying_no_lines(ov);
        }
        assert(lines_view(report@) =~= spec_report(relative_path@, ov));
    }
    (report, diags)
}

/// Diffs two parsed manifest documents: each document's dependency table is
/// located and the tables are compared entry by entry, in the previous
/// table's declaration order.
pub fn compare_manifests(
    manifest_prev: &Vec<(String, ConfigValue)>,
    manifest_curr: &Vec<(String, ConfigValue)>,
) -> (r: Vec<(String, DiffOutcome)>)
    ensures
        outcomes_view(r@) == spec_diff(
            spec_deps_table(manifest_prev@),
            spec_deps_table(manifest_curr@),
        ),
{
    let empty_prev: Vec<(String, ConfigValue)> = Vec::new();
    let empty_curr: Vec<(String, ConfigValue)> = Vec::new();
    let deps_prev = match get_deps_table(manifest_prev) {
        Some(t) => t,
        None => &empty_prev,
    };
    let deps_curr = match get_deps_table(manifest_curr) {
        Some(t) => t,
        None => &empty_curr,
    };
    compare_deps_tables(deps_prev, deps_curr)
}

/// Diffs one manifest pair, both snapshots already parsed, and renders the
/// outcome: the report-stream lines for the given manifest path, and the
/// error-stream diagnostics.
pub fn compare_manifests_at_paths(
    relative_path: &str,
    manifest_prev: &Vec<(String, ConfigValue)>,
    manifest_curr: &Vec<(String, ConfigValue)>,
) -> (r: (Vec<String>, Vec<String>))
    ensures
        lines_view(r.0@) == spec_report(
            relative_path@,
            spec_diff(spec_deps_table(manifest_prev@), spec_deps_table(manifest_curr@)),
        ),
        lines_view(r.1@) == spec_diag_lines(
            spec_diff(spec_deps_table(manifest_prev@), spec_deps_table(manifest_curr@)),
        ),
{
    let outcomes = compare_manifests(manifest_prev, manifest_curr);
    format_report(relative_path, &outcomes)
}

/// Law: the diff's rendering is a function of the manifest path and the two
/// documents alone; running the whole diff twice over the same documents
/// yields identical report lines and identical diagnostics.
pub proof fn lemma_run_deterministic(
    path: Seq<char>,
    prev: Seq<(String, ConfigValue)>,
    curr: Seq<(String, ConfigValue)>,
    report1: Seq<String>,
    diags1: Seq<String>,
    report2: Seq<String>,
    diags2: Seq<String>,
)
    requires
        lines_view(report1) == spec_report(path, spec_diff(spec_deps_table(prev), spec_deps_table(curr))),
        lines_view(diags1) == spec_diag_lines(spec_diff(spec_deps_table(prev), spec_deps_table(curr))),
        lines_view(report2) == spec_report(path, spec_diff(spec_deps_table(prev), spec_deps_table(curr))),
        lines_view(diags2) == spec_diag_lines(spec_diff(spec_deps_table(prev), spec_deps_table(curr))),
    ensures
        lines_view(report1) == lines_view(report2),
        lines_view(diags1) == lines_view(diags2),
{
}

} // verus!
