use cargo_lockstep::cargo::DepKind;
use cargo_lockstep::cargo::Dependency;
use cargo_lockstep::cargo::LatestVersions;
use cargo_lockstep::error::SessionError;
use cargo_lockstep::notice::Notice;
use cargo_lockstep::upgrade::commit_message;
use cargo_lockstep::upgrade::commit_summary;
use cargo_lockstep::upgrade::decide;
use cargo_lockstep::upgrade::judge;
use cargo_lockstep::upgrade::Decision;
use cargo_lockstep::version::parse_requirement;
use cargo_lockstep::version::ResolvedVersion;

fn wanted(names: &[&str]) -> Vec<String> {
    names.iter().map(|n| n.to_string()).collect()
}

fn dependency(name: &str, req: &str) -> Dependency {
    Dependency { name: name.to_string(), req: req.to_string(), kind: None }
}

fn known(entries: &[(&str, (u64, u64, u64))]) -> LatestVersions {
    let mut latest = LatestVersions::new();
    for (name, (major, minor, patch)) in entries {
        latest.insert(
            name.to_string(),
            ResolvedVersion { major: *major, minor: *minor, patch: *patch },
        );
    }
    latest
}

fn verdict(req: &str, latest: (u64, u64, u64)) -> Result<Decision, SessionError> {
    decide(&dependency("dep", req), &wanted(&["dep"]), &known(&[("dep", latest)]))
}

#[test]
fn summary_of_one_name() {
    assert_eq!(commit_summary(&wanted(&["a"])), Some("Upgrade a package".to_string()));
}

#[test]
fn summary_of_two_names() {
    assert_eq!(commit_summary(&wanted(&["a", "b"])), Some("Upgrade a and b packages".to_string()));
}

#[test]
fn summary_of_three_names() {
    assert_eq!(
        commit_summary(&wanted(&["a", "b", "c"])),
        Some("Upgrade a, b and 1 other packages".to_string())
    );
}

#[test]
fn summary_of_many_names_counts_the_rest() {
    let names = wanted(&["a", "b", "c", "d", "e", "f", "g", "h", "i", "j", "k", "l", "m"]);
    assert_eq!(commit_summary(&names), Some("Upgrade a, b and 11 other packages".to_string()));
}

#[test]
fn summary_of_no_name_is_none() {
    assert_eq!(commit_summary(&wanted(&[])), None);
}

#[test]
fn summary_goes_by_the_order_of_the_names() {
    assert_eq!(commit_summary(&wanted(&["b", "a"])), Some("Upgrade b and a packages".to_string()));
}

#[test]
fn summary_is_the_same_for_the_same_names() {
    let names = wanted(&["serde", "anyhow", "clap"]);
    assert_eq!(commit_summary(&names), commit_summary(&names.clone()));
}

#[test]
fn message_lists_each_package_with_its_release() {
    let latest = known(&[("dep", (1, 5, 0)), ("other", (0, 3, 12))]);
    assert_eq!(
        commit_message(&wanted(&["dep", "other"]), &latest),
        Ok("Upgrade dep and other packages\n\nThese crates were upgraded:\n\n- dep@1.5.0\n- other@0.3.12\n\nThis commit was created by `cargo-lockstep`.\n".to_string())
    );
}

#[test]
fn message_of_one_package() {
    let latest = known(&[("dep", (1, 5, 0))]);
    assert_eq!(
        commit_message(&wanted(&["dep"]), &latest),
        Ok("Upgrade dep package\n\nThese crates were upgraded:\n\n- dep@1.5.0\n\nThis commit was created by `cargo-lockstep`.\n".to_string())
    );
}

#[test]
fn message_fails_without_names() {
    assert_eq!(
        commit_message(&wanted(&[]), &known(&[("dep", (1, 5, 0))])),
        Err(SessionError::NoPackagesRequested)
    );
}

#[test]
fn message_fails_on_the_first_name_without_release() {
    let latest = known(&[("a", (1, 0, 0))]);
    assert_eq!(
        commit_message(&wanted(&["a", "b", "c"]), &latest),
        Err(SessionError::MissingLatestVersion { name: "b".to_string() })
    );
}

#[test]
fn a_dependency_that_was_not_asked_for_is_passed_over() {
    let decision = decide(
        &dependency("serde", "^1.0.0"),
        &wanted(&["dep"]),
        &known(&[("dep", (1, 5, 0)), ("serde", (1, 9, 0))]),
    );
    assert_eq!(decision, Ok(Decision::NotRequested));
}

#[test]
fn a_dependency_that_was_not_asked_for_is_not_even_parsed() {
    let decision = decide(&dependency("serde", "not a requirement"), &wanted(&["dep"]), &known(&[]));
    assert_eq!(decision, Ok(Decision::NotRequested));
}

#[test]
fn a_requested_dependency_without_release_is_unresolved() {
    let decision = decide(&dependency("dep", "^1.0.0"), &wanted(&["dep"]), &known(&[]));
    assert_eq!(decision, Ok(Decision::Unresolved));
}

#[test]
fn a_caret_requirement_behind_the_latest_is_rewritten() {
    assert_eq!(
        verdict("^1.2.0", (1, 5, 0)),
        Ok(Decision::Apply(ResolvedVersion { major: 1, minor: 5, patch: 0 }))
    );
    assert_eq!(
        verdict("1.2.0", (1, 5, 0)),
        Ok(Decision::Apply(ResolvedVersion { major: 1, minor: 5, patch: 0 }))
    );
    assert_eq!(
        verdict("^1", (1, 5, 0)),
        Ok(Decision::Apply(ResolvedVersion { major: 1, minor: 5, patch: 0 }))
    );
    assert_eq!(
        verdict("^0.9", (1, 0, 0)),
        Ok(Decision::Apply(ResolvedVersion { major: 1, minor: 0, patch: 0 }))
    );
    assert_eq!(
        verdict("^1.4.9", (1, 5, 0)),
        Ok(Decision::Apply(ResolvedVersion { major: 1, minor: 5, patch: 0 }))
    );
}

#[test]
fn a_caret_requirement_at_the_latest_is_left() {
    assert_eq!(verdict("^1.5.0", (1, 5, 0)), Ok(Decision::UpToDate));
    assert_eq!(verdict("^1.5", (1, 5, 0)), Ok(Decision::UpToDate));
}

#[test]
fn a_caret_requirement_past_the_latest_is_left() {
    assert_eq!(verdict("^1.5.1", (1, 5, 0)), Ok(Decision::UpToDate));
    assert_eq!(verdict("^2", (1, 5, 0)), Ok(Decision::UpToDate));
    assert_eq!(verdict("^1.6", (1, 5, 9)), Ok(Decision::UpToDate));
}

#[test]
fn a_pre_release_of_the_latest_is_rewritten() {
    assert_eq!(
        verdict("^1.5.0-rc.2", (1, 5, 0)),
        Ok(Decision::Apply(ResolvedVersion { major: 1, minor: 5, patch: 0 }))
    );
}

#[test]
fn rewriting_twice_is_rewriting_once() {
    let dep = dependency("dep", "^1.2.0");
    let latest = ResolvedVersion { major: 1, minor: 5, patch: 0 };
    let before = parse_requirement("^1.2.0").unwrap();
    let first = judge(&dep, &before, &latest).unwrap();
    let once = first.requirement(before);
    assert_eq!(once, parse_requirement("^1.5.0").unwrap());
    let second = judge(&dep, &once, &latest).unwrap();
    assert_eq!(second, Decision::UpToDate);
    let twice = second.requirement(once.clone());
    assert_eq!(twice, once);
}

#[test]
fn several_clauses_are_left_with_a_warning() {
    let decision = verdict(">=1.0.0, <2.0.0", (1, 5, 0)).unwrap();
    assert_eq!(decision, Decision::MultipleComparators);
    let notice = decision.notice(&"dep".to_string()).unwrap();
    assert_eq!(notice, Notice::MultipleComparators { name: "dep".to_string() });
    assert!(notice.is_warning());
    let before = parse_requirement(">=1.0.0, <2.0.0").unwrap();
    assert_eq!(decision.requirement(before.clone()), before);
}

#[test]
fn another_operator_is_left_with_a_warning() {
    for req in ["=2.0.0", ">1.0.0", ">=1.0.0", "<9.0.0", "<=9.0.0", "~1.0.0", "1.0.*"] {
        let decision = verdict(req, (9, 9, 9)).unwrap();
        assert_eq!(decision, Decision::NotCaret);
        let notice = decision.notice(&"dep".to_string()).unwrap();
        assert_eq!(notice, Notice::NotCaret { name: "dep".to_string() });
        assert!(notice.is_warning());
    }
}

#[test]
fn a_requirement_without_clause_is_an_error() {
    assert_eq!(
        verdict("*", (1, 5, 0)),
        Err(SessionError::UnsupportedRequirement { name: "dep".to_string(), req: "*".to_string() })
    );
}

#[test]
fn a_malformed_requirement_is_an_error() {
    assert_eq!(
        verdict("1.2.3.4", (1, 5, 0)),
        Err(SessionError::MalformedRequirement {
            name: "dep".to_string(),
            req: "1.2.3.4".to_string()
        })
    );
}

#[test]
fn the_role_plays_no_part_in_the_decision() {
    let dep = Dependency {
        name: "dep".to_string(),
        req: "^1.2.0".to_string(),
        kind: Some(DepKind::Dev),
    };
    assert_eq!(
        decide(&dep, &wanted(&["dep"]), &known(&[("dep", (1, 5, 0))])),
        Ok(Decision::Apply(ResolvedVersion { major: 1, minor: 5, patch: 0 }))
    );
}

#[test]
fn each_decision_has_its_notice() {
    let name = "dep".to_string();
    assert_eq!(Decision::NotRequested.notice(&name), None);
    assert_eq!(
        Decision::Unresolved.notice(&name),
        Some(Notice::UnresolvedPackage { name: name.clone() })
    );
    assert_eq!(
        Decision::UpToDate.notice(&name),
        Some(Notice::OnNewestRelease { name: name.clone() })
    );
    assert_eq!(
        Decision::Apply(ResolvedVersion { major: 1, minor: 0, patch: 0 }).notice(&name),
        None
    );
    assert!(Decision::Unresolved.notice(&name).unwrap().is_warning());
    assert!(!Decision::UpToDate.notice(&name).unwrap().is_warning());
}
