use manifest_diff::config::ConfigValue;
use manifest_diff::diff::{classify_dep, compare_deps, DependencySpecKind, DiffOutcome};
use manifest_diff::report::{compare_manifests, compare_manifests_at_paths};
use manifest_diff::requirement::{minimum_version_for_req, Comparator, ReqOp, VersionReq};

fn s(v: &str) -> ConfigValue {
    ConfigValue::Str(v.to_string())
}

fn table(entries: Vec<(&str, ConfigValue)>) -> ConfigValue {
    ConfigValue::Table(entries.into_iter().map(|(k, v)| (k.to_string(), v)).collect())
}

fn doc_with_deps(deps: Vec<(&str, ConfigValue)>) -> Vec<(String, ConfigValue)> {
    vec![("dependencies".to_string(), table(deps))]
}

fn run(
    prev: &Vec<(String, ConfigValue)>,
    curr: &Vec<(String, ConfigValue)>,
) -> (Vec<String>, Vec<String>) {
    compare_manifests_at_paths("Cargo.toml", prev, curr)
}

#[test]
fn scenario_floor_raised_past_previous_range() {
    let prev = doc_with_deps(vec![("foo", s("1.2"))]);
    let curr = doc_with_deps(vec![("foo", s("2.0"))]);
    let outcomes = compare_manifests(&prev, &curr);
    assert_eq!(outcomes.len(), 1);
    assert_eq!(outcomes[0].0, "foo");
    match &outcomes[0].1 {
        DiffOutcome::Upgraded(text) => assert_eq!(text, "2.0"),
        _ => panic!("expected an upgrade"),
    }
    let (report, diags) = run(&prev, &curr);
    assert_eq!(
        report,
        vec!["Cargo.toml".to_string(), "    `foo` upgraded to version 2.0".to_string()]
    );
    assert!(diags.is_empty());
}

#[test]
fn scenario_minor_bump_within_caret_range_is_unchanged() {
    // A caret requirement accepts any later minor of the same major, so the
    // new requirement's minimum of 1.3.0 still satisfies the previous `^1.2`.
    let prev = doc_with_deps(vec![("foo", s("1.2"))]);
    let curr = doc_with_deps(vec![("foo", s("1.3"))]);
    let outcomes = compare_manifests(&prev, &curr);
    assert_eq!(outcomes.len(), 1);
    assert!(matches!(outcomes[0].1, DiffOutcome::Unchanged));
    let (report, diags) = run(&prev, &curr);
    assert!(report.is_empty());
    assert!(diags.is_empty());
}

#[test]
fn scenario_patch_bump_still_satisfied() {
    let prev = doc_with_deps(vec![("foo", s("1.2"))]);
    let curr = doc_with_deps(vec![("foo", s("1.2.5"))]);
    let outcomes = compare_manifests(&prev, &curr);
    assert_eq!(outcomes.len(), 1);
    assert!(matches!(outcomes[0].1, DiffOutcome::Unchanged));
    let (report, diags) = run(&prev, &curr);
    assert!(report.is_empty());
    assert!(diags.is_empty());
}

#[test]
fn scenario_removed_dependency() {
    let prev = doc_with_deps(vec![("bar", s("1.0"))]);
    let curr = doc_with_deps(vec![]);
    let outcomes = compare_manifests(&prev, &curr);
    assert_eq!(outcomes.len(), 1);
    assert!(matches!(outcomes[0].1, DiffOutcome::Removed));
    let (report, diags) = run(&prev, &curr);
    assert_eq!(report, vec!["Cargo.toml".to_string(), "    `bar` removed".to_string()]);
    assert!(diags.is_empty());
}

#[test]
fn scenario_git_on_previous_side_is_skipped() {
    let prev = doc_with_deps(vec![("baz", table(vec![("git", s("https://example.com/baz"))]))]);
    let curr = doc_with_deps(vec![("baz", s("2.0"))]);
    let outcomes = compare_manifests(&prev, &curr);
    assert_eq!(outcomes.len(), 1);
    assert!(matches!(outcomes[0].1, DiffOutcome::Unchanged));
    let (report, diags) = run(&prev, &curr);
    assert!(report.is_empty());
    assert!(diags.is_empty());
}

#[test]
fn scenario_multi_comparator_requirement_errors() {
    let prev = doc_with_deps(vec![("qux", s("1.0")), ("old", s("0.1"))]);
    let curr = doc_with_deps(vec![("qux", s(">=1.0, <2.0"))]);
    let outcomes = compare_manifests(&prev, &curr);
    assert_eq!(outcomes.len(), 2);
    assert!(matches!(outcomes[0].1, DiffOutcome::ClassificationError(_)));
    assert!(matches!(outcomes[1].1, DiffOutcome::Removed));
    let (report, diags) = run(&prev, &curr);
    assert_eq!(
        diags,
        vec!["failed to compare `qux`: unexpected number of comparators: 2".to_string()]
    );
    // The error produces no report line, but the path header still appears and
    // the remaining entries are still processed.
    assert_eq!(report, vec!["Cargo.toml".to_string(), "    `old` removed".to_string()]);
}

#[test]
fn scenario_workspace_inherited_on_current_side_is_skipped() {
    let prev = doc_with_deps(vec![("dep", s("1.0"))]);
    let curr = doc_with_deps(vec![("dep", table(vec![("workspace", ConfigValue::Bool(true))]))]);
    let (report, diags) = run(&prev, &curr);
    assert!(report.is_empty());
    assert!(diags.is_empty());
}

fn caret(major: u64, minor: Option<u64>, patch: Option<u64>, pre: &str) -> Comparator {
    Comparator { op: ReqOp::Caret, major, minor, patch, pre: pre.to_string() }
}

#[test]
fn resolver_defaults_absent_components_to_zero() {
    let req = VersionReq { comparators: vec![caret(1, None, None, "")] };
    let v = minimum_version_for_req(&req).unwrap();
    assert_eq!((v.major, v.minor, v.patch, v.pre.as_str()), (1, 0, 0, ""));

    let req = VersionReq { comparators: vec![caret(1, Some(2), None, "")] };
    let v = minimum_version_for_req(&req).unwrap();
    assert_eq!((v.major, v.minor, v.patch), (1, 2, 0));
}

#[test]
fn resolver_keeps_explicit_components_and_pre_release() {
    let req = VersionReq {
        comparators: vec![Comparator {
            op: ReqOp::Exact,
            major: 10,
            minor: Some(20),
            patch: Some(30),
            pre: "rc.1".to_string(),
        }],
    };
    let v = minimum_version_for_req(&req).unwrap();
    assert_eq!((v.major, v.minor, v.patch, v.pre.as_str()), (10, 20, 30, "rc.1"));
}

#[test]
fn resolver_rejects_zero_comparators() {
    let req = VersionReq { comparators: vec![] };
    assert_eq!(
        minimum_version_for_req(&req).unwrap_err(),
        "unexpected number of comparators: 0"
    );
}

#[test]
fn resolver_rejects_several_comparators() {
    let req = VersionReq {
        comparators: vec![caret(1, None, None, ""), caret(2, None, None, "")],
    };
    assert_eq!(
        minimum_version_for_req(&req).unwrap_err(),
        "unexpected number of comparators: 2"
    );
}

#[test]
fn resolver_rejects_unsupported_operator() {
    let req = VersionReq {
        comparators: vec![Comparator {
            op: ReqOp::Unsupported("Tilde".to_string()),
            major: 1,
            minor: Some(2),
            patch: None,
            pre: String::new(),
        }],
    };
    assert_eq!(minimum_version_for_req(&req).unwrap_err(), "unexpected operator: Tilde");
}

#[test]
fn classifier_covers_every_kind() {
    assert!(matches!(
        classify_dep(&table(vec![("git", s("https://example.com/x"))])),
        DependencySpecKind::SkipGit
    ));
    assert!(matches!(
        classify_dep(&table(vec![("path", s("../x"))])),
        DependencySpecKind::SkipPath
    ));
    assert!(matches!(
        classify_dep(&table(vec![("workspace", ConfigValue::Bool(true))])),
        DependencySpecKind::SkipWorkspaceInherited
    ));
    match classify_dep(&s("1.0")) {
        DependencySpecKind::Plain(req) => assert_eq!(req, "1.0"),
        _ => panic!("expected a plain string declaration"),
    }
    match classify_dep(&table(vec![("version", s("2.1")), ("features", ConfigValue::Other)])) {
        DependencySpecKind::Detailed(req) => assert_eq!(req, "2.1"),
        _ => panic!("expected a detailed declaration"),
    }
    // `workspace = false` is not inherited, and without a version it is unusable.
    assert!(matches!(
        classify_dep(&table(vec![("workspace", ConfigValue::Bool(false))])),
        DependencySpecKind::Malformed
    ));
    // A version that is not a string is unusable.
    assert!(matches!(
        classify_dep(&table(vec![("version", ConfigValue::Bool(true))])),
        DependencySpecKind::Malformed
    ));
    assert!(matches!(classify_dep(&ConfigValue::Bool(true)), DependencySpecKind::Malformed));
    assert!(matches!(classify_dep(&ConfigValue::Other), DependencySpecKind::Malformed));
}

#[test]
fn classifier_skips_git_before_reading_version() {
    // A git dependency with a stray version field is still skipped.
    let decl = table(vec![("git", s("https://example.com/x")), ("version", s("9.9"))]);
    assert!(matches!(classify_dep(&decl), DependencySpecKind::SkipGit));
    let outcome = compare_deps(&decl, &s("9.9"));
    assert!(matches!(outcome, DiffOutcome::Unchanged));
}

#[test]
fn malformed_previous_side_is_reported_with_its_side() {
    let prev = doc_with_deps(vec![("dep", table(vec![("optional", ConfigValue::Bool(true))]))]);
    let curr = doc_with_deps(vec![("dep", s("1.0"))]);
    let (report, diags) = run(&prev, &curr);
    assert_eq!(
        diags,
        vec!["failed to compare `dep`: previous: failed to get version requirement".to_string()]
    );
    assert_eq!(report, vec!["Cargo.toml".to_string()]);
}

#[test]
fn malformed_current_side_is_reported_with_its_side() {
    let prev = doc_with_deps(vec![("dep", s("1.0"))]);
    let curr = doc_with_deps(vec![("dep", table(vec![("optional", ConfigValue::Bool(true))]))]);
    let (_, diags) = run(&prev, &curr);
    assert_eq!(
        diags,
        vec!["failed to compare `dep`: current: failed to get version requirement".to_string()]
    );
}

#[test]
fn unparsable_previous_requirement_is_a_per_entry_error() {
    let prev = doc_with_deps(vec![("dep", s("not a requirement"))]);
    let curr = doc_with_deps(vec![("dep", s("1.0"))]);
    let (report, diags) = run(&prev, &curr);
    assert_eq!(report, vec!["Cargo.toml".to_string()]);
    assert_eq!(diags.len(), 1);
    assert!(diags[0].starts_with("failed to compare `dep`: previous: "));
}

#[test]
fn skip_on_one_side_wins_over_malformed_on_the_other() {
    // The previous declaration is unusable, but the current one is a git
    // dependency: there is nothing to compare, so the outcome is unchanged.
    let prev = doc_with_deps(vec![("dep", table(vec![("optional", ConfigValue::Bool(true))]))]);
    let curr = doc_with_deps(vec![("dep", table(vec![("git", s("https://example.com/x"))]))]);
    let (report, diags) = run(&prev, &curr);
    assert!(report.is_empty());
    assert!(diags.is_empty());
}

#[test]
fn upgrade_display_keeps_operator_free_canonical_text() {
    let prev = doc_with_deps(vec![("dep", s("1.0"))]);
    let curr = doc_with_deps(vec![("dep", s("=10.20.30"))]);
    let (report, _) = run(&prev, &curr);
    assert_eq!(
        report,
        vec!["Cargo.toml".to_string(), "    `dep` upgraded to version 10.20.30".to_string()]
    );
}

#[test]
fn upgrade_display_carries_pre_release() {
    let prev = doc_with_deps(vec![("dep", s("1.0"))]);
    let curr = doc_with_deps(vec![("dep", s("2.0.0-beta.1"))]);
    let (report, _) = run(&prev, &curr);
    assert_eq!(
        report,
        vec!["Cargo.toml".to_string(), "    `dep` upgraded to version 2.0.0-beta.1".to_string()]
    );
}

#[test]
fn exact_requirement_on_detailed_declaration_resolves() {
    let prev = doc_with_deps(vec![("dep", table(vec![("version", s("1.2"))]))]);
    let curr = doc_with_deps(vec![("dep", table(vec![("version", s("1.2.5"))]))]);
    let (report, diags) = run(&prev, &curr);
    assert!(report.is_empty());
    assert!(diags.is_empty());
}

#[test]
fn outcome_order_follows_previous_table_order() {
    let prev = doc_with_deps(vec![("zed", s("1.0")), ("alpha", s("1.0"))]);
    let curr = doc_with_deps(vec![]);
    let outcomes = compare_manifests(&prev, &curr);
    let names: Vec<&str> = outcomes.iter().map(|(n, _)| n.as_str()).collect();
    assert_eq!(names, vec!["zed", "alpha"]);
    let (report, _) = run(&prev, &curr);
    assert_eq!(
        report,
        vec![
            "Cargo.toml".to_string(),
            "    `zed` removed".to_string(),
            "    `alpha` removed".to_string(),
        ]
    );
}

#[test]
fn order_is_independent_of_current_table_order() {
    let prev = doc_with_deps(vec![("b", s("1.0")), ("a", s("2.0"))]);
    let curr = doc_with_deps(vec![("a", s("3.0")), ("b", s("2.0"))]);
    let outcomes = compare_manifests(&prev, &curr);
    let names: Vec<&str> = outcomes.iter().map(|(n, _)| n.as_str()).collect();
    assert_eq!(names, vec!["b", "a"]);
    assert!(matches!(outcomes[0].1, DiffOutcome::Upgraded(_)));
    assert!(matches!(outcomes[1].1, DiffOutcome::Upgraded(_)));
}

#[test]
fn diff_is_idempotent_over_the_same_documents() {
    let prev = doc_with_deps(vec![
        ("up", s("1.2")),
        ("gone", s("0.3")),
        ("same", s("2.0")),
        ("bad", s(">=1, <3")),
    ]);
    let curr = doc_with_deps(vec![("up", s("1.3")), ("same", s("2.0.1")), ("bad", s("2.0"))]);
    let first = run(&prev, &curr);
    let second = run(&prev, &curr);
    assert_eq!(first, second);
    let outcomes_first = compare_manifests(&prev, &curr);
    let outcomes_second = compare_manifests(&prev, &curr);
    assert_eq!(outcomes_first.len(), outcomes_second.len());
    for (a, b) in outcomes_first.iter().zip(outcomes_second.iter()) {
        assert_eq!(a.0, b.0);
        match (&a.1, &b.1) {
            (DiffOutcome::Unchanged, DiffOutcome::Unchanged) => {}
            (DiffOutcome::Removed, DiffOutcome::Removed) => {}
            (DiffOutcome::Upgraded(x), DiffOutcome::Upgraded(y)) => assert_eq!(x, y),
            (DiffOutcome::ClassificationError(x), DiffOutcome::ClassificationError(y)) => {
                assert_eq!(x, y)
            }
            _ => panic!("outcome kinds differ between runs"),
        }
    }
}

#[test]
fn workspace_dependencies_are_the_fallback_table() {
    let prev = vec![(
        "workspace".to_string(),
        table(vec![("dependencies", table(vec![("dep", s("1.0"))]))]),
    )];
    let curr = vec![(
        "workspace".to_string(),
        table(vec![("dependencies", table(vec![("dep", s("2.0"))]))]),
    )];
    let (report, _) = run(&prev, &curr);
    assert_eq!(
        report,
        vec!["Cargo.toml".to_string(), "    `dep` upgraded to version 2.0".to_string()]
    );
}

#[test]
fn package_dependencies_shadow_workspace_dependencies() {
    let prev = vec![
        ("dependencies".to_string(), table(vec![("dep", s("1.0"))])),
        (
            "workspace".to_string(),
            table(vec![("dependencies", table(vec![("other", s("1.0"))]))]),
        ),
    ];
    let curr = doc_with_deps(vec![("dep", s("1.0"))]);
    let outcomes = compare_manifests(&prev, &curr);
    assert_eq!(outcomes.len(), 1);
    assert_eq!(outcomes[0].0, "dep");
}

#[test]
fn manifest_without_dependencies_contributes_nothing() {
    let prev = vec![("package".to_string(), table(vec![("name", s("x"))]))];
    let curr = doc_with_deps(vec![("dep", s("1.0"))]);
    let (report, diags) = run(&prev, &curr);
    assert!(report.is_empty());
    assert!(diags.is_empty());
}

#[test]
fn non_table_dependencies_key_falls_back_to_workspace() {
    let prev = vec![
        ("dependencies".to_string(), s("not a table")),
        (
            "workspace".to_string(),
            table(vec![("dependencies", table(vec![("dep", s("1.0"))]))]),
        ),
    ];
    let curr = doc_with_deps(vec![]);
    let (report, _) = run(&prev, &curr);
    assert_eq!(report, vec!["Cargo.toml".to_string(), "    `dep` removed".to_string()]);
}

#[test]
fn wildcard_requirement_resolution_fails_with_comparator_count() {
    // The bare wildcard parses to zero comparators.
    let prev = doc_with_deps(vec![("dep", s("1.0"))]);
    let curr = doc_with_deps(vec![("dep", s("*"))]);
    let (_, diags) = run(&prev, &curr);
    assert_eq!(
        diags,
        vec!["failed to compare `dep`: unexpected number of comparators: 0".to_string()]
    );
}

#[test]
fn tilde_requirement_resolution_fails_with_operator_name() {
    let prev = doc_with_deps(vec![("dep", s("1.0"))]);
    let curr = doc_with_deps(vec![("dep", s("~1.2"))]);
    let (_, diags) = run(&prev, &curr);
    assert_eq!(diags, vec!["failed to compare `dep`: unexpected operator: Tilde".to_string()]);
}

#[test]
fn previous_operator_is_never_validated() {
    // The previous side's requirement is only a matcher: an operator the
    // resolver would reject is fine there.
    let prev = doc_with_deps(vec![("dep", s(">=1.0, <2.0"))]);
    let curr = doc_with_deps(vec![("dep", s("1.5"))]);
    let (report, diags) = run(&prev, &curr);
    assert!(report.is_empty());
    assert!(diags.is_empty());

    let curr_outside = doc_with_deps(vec![("dep", s("2.1"))]);
    let (report, diags) = run(&prev, &curr_outside);
    assert_eq!(
        report,
        vec!["Cargo.toml".to_string(), "    `dep` upgraded to version 2.1".to_string()]
    );
    assert!(diags.is_empty());
}

#[test]
fn pre_release_minimum_is_matched_against_previous_requirement() {
    // The current requirement's minimum keeps its pre-release tag; a previous
    // requirement on the same release with an earlier pre-release accepts it.
    let prev = doc_with_deps(vec![("dep", s("1.0.0-alpha"))]);
    let curr = doc_with_deps(vec![("dep", s("1.0.0-alpha.2"))]);
    let (report, diags) = run(&prev, &curr);
    assert!(report.is_empty());
    assert!(diags.is_empty());

    let prev_release = doc_with_deps(vec![("dep", s("1.0"))]);
    let (report, _) = run(&prev_release, &curr);
    assert_eq!(
        report,
        vec!["Cargo.toml".to_string(), "    `dep` upgraded to version 1.0.0-alpha.2".to_string()]
    );
}
