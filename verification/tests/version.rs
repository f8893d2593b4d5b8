use cargo_lockstep::text::decimal_string;
use cargo_lockstep::version::parse_requirement;
use cargo_lockstep::version::Comparator;
use cargo_lockstep::version::Op;
use cargo_lockstep::version::Requirement;
use cargo_lockstep::version::ResolvedVersion;

fn release(major: u64, minor: u64, patch: u64) -> ResolvedVersion {
    ResolvedVersion { major, minor, patch }
}

fn clause(op: Op, major: u64, minor: Option<u64>, patch: Option<u64>, pre: &str) -> Comparator {
    Comparator { op, major, minor, patch, pre: pre.to_string() }
}

#[test]
fn decimal_of_zero_is_one_digit() {
    assert_eq!(decimal_string(0), "0");
}

#[test]
fn decimal_has_no_leading_zero() {
    assert_eq!(decimal_string(7), "7");
    assert_eq!(decimal_string(10), "10");
    assert_eq!(decimal_string(1905), "1905");
    assert_eq!(decimal_string(u64::MAX), "18446744073709551615");
}

#[test]
fn parse_reads_a_caret_clause() {
    let parsed = parse_requirement("^1.2.0").unwrap();
    assert_eq!(
        parsed,
        Requirement { comparators: vec![clause(Op::Caret, 1, Some(2), Some(0), "")] }
    );
}

#[test]
fn parse_takes_a_bare_version_for_a_caret_clause() {
    let parsed = parse_requirement("1.5.0").unwrap();
    assert_eq!(parsed.comparators, vec![clause(Op::Caret, 1, Some(5), Some(0), "")]);
}

#[test]
fn parse_keeps_partial_versions_partial() {
    assert_eq!(
        parse_requirement("^1").unwrap().comparators,
        vec![clause(Op::Caret, 1, None, None, "")]
    );
    assert_eq!(
        parse_requirement("^1.4").unwrap().comparators,
        vec![clause(Op::Caret, 1, Some(4), None, "")]
    );
}

#[test]
fn parse_tells_the_operators_apart() {
    assert_eq!(parse_requirement("=2.0.0").unwrap().comparators[0].op, Op::Exact);
    assert_eq!(parse_requirement(">2.0.0").unwrap().comparators[0].op, Op::Greater);
    assert_eq!(parse_requirement(">=2.0.0").unwrap().comparators[0].op, Op::GreaterEq);
    assert_eq!(parse_requirement("<2.0.0").unwrap().comparators[0].op, Op::Less);
    assert_eq!(parse_requirement("<=2.0.0").unwrap().comparators[0].op, Op::LessEq);
    assert_eq!(parse_requirement("~2.0.0").unwrap().comparators[0].op, Op::Tilde);
    assert_eq!(parse_requirement("^2.0.0").unwrap().comparators[0].op, Op::Caret);
    assert_eq!(parse_requirement("2.0.*").unwrap().comparators[0].op, Op::Wildcard);
}

#[test]
fn parse_keeps_the_order_of_the_clauses() {
    let parsed = parse_requirement(">=1.2.3, <1.8").unwrap();
    assert_eq!(
        parsed.comparators,
        vec![
            clause(Op::GreaterEq, 1, Some(2), Some(3), ""),
            clause(Op::Less, 1, Some(8), None, ""),
        ]
    );
}

#[test]
fn parse_keeps_the_pre_release_tag() {
    let parsed = parse_requirement("^1.5.0-alpha.1").unwrap();
    assert_eq!(parsed.comparators, vec![clause(Op::Caret, 1, Some(5), Some(0), "alpha.1")]);
}

#[test]
fn parse_of_a_star_has_no_clause() {
    assert_eq!(parse_requirement("*").unwrap().comparators, vec![]);
}

#[test]
fn parse_refuses_what_semver_refuses() {
    assert_eq!(parse_requirement(""), None);
    assert_eq!(parse_requirement(">a.b"), None);
    assert_eq!(parse_requirement("@1.0.0"), None);
    assert_eq!(parse_requirement("^1.0.0, "), None);
    assert_eq!(parse_requirement(">=1.0 <2.0"), None);
    assert_eq!(parse_requirement("*.*"), None);
}

#[test]
fn parse_agrees_with_semver_on_the_number_of_clauses() {
    for text in ["^1.2.3", ">=1, <2", "~0.3", "*", "1.0.0-rc.1", ">1, >2, >3"] {
        let theirs = semver::VersionReq::parse(text).unwrap();
        let ours = parse_requirement(text).unwrap();
        assert_eq!(ours.comparators.len(), theirs.comparators.len());
        for (mine, other) in ours.comparators.iter().zip(theirs.comparators.iter()) {
            assert_eq!(mine.major, other.major);
            assert_eq!(mine.minor, other.minor);
            assert_eq!(mine.patch, other.patch);
            assert_eq!(mine.pre, other.pre.as_str());
        }
    }
}

#[test]
fn versions_are_ordered_by_major_then_minor_then_patch() {
    assert!(release(1, 9, 9).is_before(&release(2, 0, 0)));
    assert!(release(1, 2, 9).is_before(&release(1, 3, 0)));
    assert!(release(1, 2, 3).is_before(&release(1, 2, 4)));
    assert!(!release(1, 2, 3).is_before(&release(1, 2, 3)));
    assert!(!release(2, 0, 0).is_before(&release(1, 9, 9)));
    assert!(!release(1, 3, 0).is_before(&release(1, 2, 9)));
    assert!(!release(0, 0, 2).is_before(&release(0, 0, 1)));
}

#[test]
fn version_order_agrees_with_semver() {
    let samples = [(0, 0, 0), (0, 0, 1), (0, 1, 0), (1, 0, 0), (1, 2, 3), (1, 10, 0), (2, 0, 0)];
    for a in samples {
        for b in samples {
            let ours = release(a.0, a.1, a.2).is_before(&release(b.0, b.1, b.2));
            let theirs = semver::Version::new(a.0, a.1, a.2) < semver::Version::new(b.0, b.1, b.2);
            assert_eq!(ours, theirs);
        }
    }
}

#[test]
fn version_text_is_three_numbers_with_dots() {
    assert_eq!(release(1, 5, 0).to_text(), "1.5.0");
    assert_eq!(release(0, 0, 0).to_text(), "0.0.0");
    assert_eq!(release(10, 200, 3000).to_text(), "10.200.3000");
}

#[test]
fn implied_version_fills_in_zeros() {
    assert_eq!(clause(Op::Caret, 1, None, None, "").implied_version(), release(1, 0, 0));
    assert_eq!(clause(Op::Caret, 1, Some(4), None, "").implied_version(), release(1, 4, 0));
    assert_eq!(clause(Op::Caret, 1, Some(4), Some(2), "").implied_version(), release(1, 4, 2));
}

#[test]
fn a_clause_is_behind_a_later_release() {
    let latest = release(1, 5, 0);
    assert!(clause(Op::Caret, 1, Some(2), Some(0), "").is_behind(&latest));
    assert!(clause(Op::Caret, 1, None, None, "").is_behind(&latest));
    assert!(clause(Op::Caret, 0, Some(9), Some(9), "").is_behind(&latest));
    assert!(!clause(Op::Caret, 1, Some(5), Some(0), "").is_behind(&latest));
    assert!(!clause(Op::Caret, 1, Some(5), Some(1), "").is_behind(&latest));
    assert!(!clause(Op::Caret, 2, None, None, "").is_behind(&latest));
}

#[test]
fn a_pre_release_is_behind_its_release() {
    let latest = release(1, 5, 0);
    assert!(clause(Op::Caret, 1, Some(5), Some(0), "rc.1").is_behind(&latest));
    assert!(!clause(Op::Caret, 1, Some(5), Some(1), "rc.1").is_behind(&latest));
}

#[test]
fn behind_agrees_with_semver_precedence() {
    let latest = semver::Version::new(1, 5, 0);
    for text in ["^1.5.0-rc.1", "^1.5.0", "^1.4.9", "^1.5.1-alpha", "^1", "^2"] {
        let theirs = semver::VersionReq::parse(text).unwrap();
        let c = &theirs.comparators[0];
        let implied = semver::Version {
            major: c.major,
            minor: c.minor.unwrap_or(0),
            patch: c.patch.unwrap_or(0),
            pre: c.pre.clone(),
            build: semver::BuildMetadata::EMPTY,
        };
        let ours = parse_requirement(text).unwrap();
        assert_eq!(ours.comparators[0].is_behind(&release(1, 5, 0)), implied < latest);
    }
}

#[test]
fn pinned_needs_minor_and_patch() {
    assert_eq!(clause(Op::Caret, 1, Some(5), Some(0), "").pinned(), Some(release(1, 5, 0)));
    assert_eq!(clause(Op::Caret, 1, Some(5), None, "").pinned(), None);
    assert_eq!(clause(Op::Caret, 1, None, None, "").pinned(), None);
}

#[test]
fn a_release_as_requirement_is_one_full_caret_clause() {
    assert_eq!(
        release(1, 5, 0).as_requirement(),
        Requirement { comparators: vec![clause(Op::Caret, 1, Some(5), Some(0), "")] }
    );
    assert_eq!(release(1, 5, 0).as_requirement(), parse_requirement("^1.5.0").unwrap());
}
