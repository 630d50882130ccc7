//! The dependency diff engine.
//!
//! One raw declaration is classified into a closed set of kinds; a pair of
//! declarations is compared into an outcome; two dependency tables are
//! diffed entry by entry, in the previous table's declaration order.

use vstd::prelude::*;
use vstd::string::StringExecFns;

use crate::config::{spec_table_get, table_get, ConfigValue};
use crate::requirement::{
    minimum_version_for_req, parse_req, parse_req_spec, req_matches, req_matches_spec,
    spec_display_tail, spec_min_version, upgraded_display,
};

verus! {

/// What one raw dependency declaration turns out to be: a bare requirement
/// string, a table carrying a `version` string, one of the three marker
/// shapes that are never compared, or something unusable.
pub enum DependencySpecKind {
    Plain(String),
    Detailed(String),
    SkipGit,
    SkipPath,
    SkipWorkspaceInherited,
    Malformed,
}

pub ghost enum SpecKind {
    Plain(Seq<char>),
    Detailed(Seq<char>),
    SkipGit,
    SkipPath,
    SkipWorkspaceInherited,
    Malformed,
}

impl View for DependencySpecKind {
    type V = SpecKind;

    open spec fn view(&self) -> SpecKind {
        match self {
            DependencySpecKind::Plain(s) => SpecKind::Plain(s@),
            DependencySpecKind::Detailed(s) => SpecKind::Detailed(s@),
            DependencySpecKind::SkipGit => SpecKind::SkipGit,
            DependencySpecKind::SkipPath => SpecKind::SkipPath,
            DependencySpecKind::SkipWorkspaceInherited => SpecKind::SkipWorkspaceInherited,
            DependencySpecKind::Malformed => SpecKind::Malformed,
        }
    }
}

/// The outcome of the diff for one dependency name of the previous table.
pub enum DiffOutcome {
    Unchanged,
    Removed,
    Upgraded(String),
    ClassificationError(String),
}

pub ghost enum SpecOutcome {
    Unchanged,
    Removed,
    Upgraded(Seq<char>),
    ClassificationError(Seq<char>),
}

impl View for DiffOutcome {
    type V = SpecOutcome;

    open spec fn view(&self) -> SpecOutcome {
        match self {
            DiffOutcome::Unchanged => SpecOutcome::Unchanged,
            DiffOutcome::Removed => SpecOutcome::Removed,
            DiffOutcome::Upgraded(s) => SpecOutcome::Upgraded(s@),
            DiffOutcome::ClassificationError(s) => SpecOutcome::ClassificationError(s@),
        }
    }
}

/// The classification of one raw declaration. The three marker keys are
/// checked before `version`, so a marker table carrying a stray `version`
/// field is still skipped, never compared.
pub open spec fn spec_classify(v: ConfigValue) -> SpecKind {
    match v {
        ConfigValue::Table(entries) => {
            if spec_table_get(entries@, "git"@) is Some {
                SpecKind::SkipGit
            } else if spec_table_get(entries@, "path"@) is Some {
                SpecKind::SkipPath
            } else if spec_table_get(entries@, "workspace"@) matches Some(
                ConfigValue::Bool(true),
            ) {
                SpecKind::SkipWorkspaceInherited
            } else {
                match spec_table_get(entries@, "version"@) {
                    Some(ConfigValue::Str(s)) => SpecKind::Detailed(s@),
                    _ => SpecKind::Malformed,
                }
            }
        },
        ConfigValue::Str(s) => SpecKind::Plain(s@),
        _ => SpecKind::Malformed,
    }
}

/// Classifies one raw dependency declaration.
pub fn classify_dep(value: &ConfigValue) -> (r: DependencySpecKind)
    ensures
        r@ == spec_classify(*value),
{
    match value {
        ConfigValue::Table(entries) => {
            if table_get(entries, "git").is_some() {
                DependencySpecKind::SkipGit
            } else if table_get(entries, "path").is_some() {
                DependencySpecKind::SkipPath
            } else {
                let workspace_true = match table_get(entries, "workspace") {
                    Some(ConfigValue::Bool(b)) => *b,
                    _ => false,
                };
                if workspace_true {
                    DependencySpecKind::SkipWorkspaceInherited
                } else {
                    match table_get(entries, "version") {
                        Some(ConfigValue::Str(s)) => DependencySpecKind::Detailed(s.clone()),
                        _ => DependencySpecKind::Malformed,
                    }
                }
            }
        },
        ConfigValue::Str(s) => DependencySpecKind::Plain(s.clone()),
        _ => DependencySpecKind::Malformed,
    }
}

/// Whether a classification is one of the three marker kinds that are never
/// compared.
pub open spec fn spec_is_skip(k: SpecKind) -> bool {
    k is SkipGit || k is SkipPath || k is SkipWorkspaceInherited
}

fn is_skip(k: &DependencySpecKind) -> (r: bool)
    ensures
        r == spec_is_skip(k@),
{
    match k {
        DependencySpecKind::SkipGit => true,
        DependencySpecKind::SkipPath => true,
        DependencySpecKind::SkipWorkspaceInherited => true,
        _ => false,
    }
}

/// The requirement string of a plain or detailed classification.
pub open spec fn spec_req_str(k: SpecKind) -> Seq<char> {
    match k {
        SpecKind::Plain(s) => s,
        SpecKind::Detailed(s) => s,
        _ => Seq::empty(),
    }
}

/// The outcome of comparing one dependency's two declarations, previous and
/// current. A marker on either side means there is nothing to compare; a
/// malformed declaration or an unparsable or unresolvable requirement is a
/// per-entry error; otherwise the previous requirement is tested against the
/// current requirement's minimum satisfying version, and rejecting it means
/// the version floor was raised.
pub open spec fn spec_compare(prev: ConfigValue, curr: ConfigValue) -> SpecOutcome {
    let kp = spec_classify(prev);
    let kc = spec_classify(curr);
    if spec_is_skip(kp) || spec_is_skip(kc) {
        SpecOutcome::Unchanged
    } else if kp is Malformed {
        SpecOutcome::ClassificationError("previous: failed to get version requirement"@)
    } else if kc is Malformed {
        SpecOutcome::ClassificationError("current: failed to get version requirement"@)
    } else {
        let sp = spec_req_str(kp);
        let sc = spec_req_str(kc);
        match parse_req_spec(sp) {
            Err(m) => SpecOutcome::ClassificationError("previous: "@ + m),
            Ok(_) => match parse_req_spec(sc) {
                Err(m) => SpecOutcome::ClassificationError("current: "@ + m),
                Ok(cc) => match spec_min_version(cc) {
                    Err(m) => SpecOutcome::ClassificationError(m),
                    Ok(v) => if req_matches_spec(sp, v) {
                        SpecOutcome::Unchanged
                    } else {
                        SpecOutcome::Upgraded(spec_display_tail(cc[0]))
                    },
                },
            },
        }
    }
}

/// Compares one dependency's previous and current declarations.
pub fn compare_deps(value_prev: &ConfigValue, value_curr: &ConfigValue) -> (r: DiffOutcome)
    ensures
        r@ == spec_compare(*value_prev, *value_curr),
{
    let kp = classify_dep(value_prev);
    let kc = classify_dep(value_curr);
    if is_skip(&kp) || is_skip(&kc) {
        return DiffOutcome::Unchanged;
    }
    let sp: String = match kp {
        DependencySpecKind::Plain(s) => s,
        DependencySpecKind::Detailed(s) => s,
        _ => {
            return DiffOutcome::ClassificationError(
                String::from_str("previous: failed to get version requirement"),
            );
        },
    };
    let sc: String = match kc {
        DependencySpecKind::Plain(s) => s,
        DependencySpecKind::Detailed(s) => s,
        _ => {
            return DiffOutcome::ClassificationError(
                String::from_str("current: failed to get version requirement"),
            );
        },
    };
    let _req_prev = match parse_req(sp.as_str()) {
        Ok(req) => req,
        Err(m) => {
            return DiffOutcome::ClassificationError(
                String::from_str("previous: ").concat(m.as_str()),
            );
        },
    };
    let req_curr = match parse_req(sc.as_str()) {
        Ok(req) => req,
        Err(m) => {
            return DiffOutcome::ClassificationError(
                String::from_str("current: ").concat(m.as_str()),
            );
        },
    };
    let minimum = match minimum_version_for_req(&req_curr) {
        Ok(v) => v,
        Err(m) => {
            return DiffOutcome::ClassificationError(m);
        },
    };
    if req_matches(sp.as_str(), &minimum) {
        DiffOutcome::Unchanged
    } else {
        DiffOutcome::Upgraded(upgraded_display(&req_curr.comparators[0]))
    }
}

/// The outcome owed to the `i`th entry of the previous table: removed when
/// its name is absent from the current table, else the comparison of the two
/// declarations.
pub open spec fn spec_outcome_at(
    prev: Seq<(String, ConfigValue)>,
    curr: Seq<(String, ConfigValue)>,
    i: int,
) -> SpecOutcome {
    match spec_table_get(curr, prev[i].0@) {
        None => SpecOutcome::Removed,
        Some(vc) => spec_compare(prev[i].1, vc),
    }
}

/// The full diff of two dependency tables: one named outcome per entry of the
/// previous table, in the previous table's order.
pub open spec fn spec_diff(
    prev: Seq<(String, ConfigValue)>,
    curr: Seq<(String, ConfigValue)>,
) -> Seq<(Seq<char>, SpecOutcome)> {
    Seq::new(prev.len(), |i: int| (prev[i].0@, spec_outcome_at(prev, curr, i)))
}

/// The view of an outcome sequence: each name's characters with its
/// outcome's view.
pub open spec fn outcomes_view(s: Seq<(String, DiffOutcome)>) -> Seq<(Seq<char>, SpecOutcome)> {
    Seq::new(s.len(), |i: int| (s[i].0@, s[i].1@))
}

/// Diffs two dependency tables, producing one named outcome per entry of the
/// previous table, in the previous table's declaration order. Entries present
/// only in the current table are never reported.
pub fn compare_deps_tables(
    deps_prev: &Vec<(String, ConfigValue)>,
    deps_curr: &Vec<(String, ConfigValue)>,
) -> (r: Vec<(String, DiffOutcome)>)
    ensures
        outcomes_view(r@) == spec_diff(deps_prev@, deps_curr@),
{
    let mut r: Vec<(String, DiffOutcome)> = Vec::new();
    let n = deps_prev.len();
    let mut i: usize = 0;
    while i < n
        invariant
            i <= n,
            n == deps_prev@.len(),
            r@.len() == i as int,
            forall|j: int|
                0 <= j < i ==> (#[trigger] r@[j]).0@ == deps_prev@[j].0@ && r@[j].1@
                    == spec_outcome_at(deps_prev@, deps_curr@, j),
        decreases n - i,
    {
        let name = deps_prev[i].0.clone();
        let outcome = match table_get(deps_curr, name.as_str()) {
            None => DiffOutcome::Removed,
            Some(v) => compare_deps(&deps_prev[i].1, v),
        };
        r.push((name, outcome));
        i = i + 1;
    }
    proof {
        assert(outcomes_view(r@) =~= spec_diff(deps_prev@, deps_curr@));
    }
    r
}

/// Law: a name declared in the previous table but absent from the current
/// table is reported removed.
pub proof fn lemma_removed_when_absent(
    prev: Seq<(String, ConfigValue)>,
    curr: Seq<(String, ConfigValue)>,
    i: int,
)
    requires
        0 <= i < prev.len(),
        spec_table_get(curr, prev[i].0@) is None,
    ensures
        spec_diff(prev, curr)[i].1 == SpecOutcome::Removed,
{
}

/// Law: where either side's declaration is a git, path, or
/// workspace-inherited dependency, there is nothing to compare and the
/// outcome is unchanged.
pub proof fn lemma_skip_means_unchanged(prev: ConfigValue, curr: ConfigValue)
    requires
        spec_is_skip(spec_classify(prev)) || spec_is_skip(spec_classify(curr)),
    ensures
        spec_compare(prev, curr) == SpecOutcome::Unchanged,
{
}

/// Law: the diff is a function of the two tables alone; running it twice over
/// the same tables yields identical outcome sequences.
pub proof fn lemma_diff_deterministic(
    prev: Seq<(String, ConfigValue)>,
    curr: Seq<(String, ConfigValue)>,
    r1: Seq<(String, DiffOutcome)>,
    r2: Seq<(String, DiffOutcome)>,
)
    requires
        outcomes_view(r1) == spec_diff(prev, curr),
        outcomes_view(r2) == spec_diff(prev, curr),
    ensures
        outcomes_view(r1) == outcomes_view(r2),
{
}

/// Law: the outcome sequence lists exactly the previous table's names, in the
/// previous table's declaration order, whatever the current table holds.
pub proof fn lemma_order_preserved(
    prev: Seq<(String, ConfigValue)>,
    curr: Seq<(String, ConfigValue)>,
)
    ensures
        spec_diff(prev, curr).len() == prev.len(),
        forall|i: int|
            0 <= i < prev.len() ==> (#[trigger] spec_diff(prev, curr)[i]).0 == prev[i].0@,
{
}

} // verus!
