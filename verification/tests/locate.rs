use cargo_lockstep::locate::is_excluded;
use cargo_lockstep::locate::is_target_manifest;
use cargo_lockstep::locate::locate;
use cargo_lockstep::locate::starts_with;
use cargo_lockstep::locate::ProjectLocation;

fn parts(path: &str) -> Vec<String> {
    let mut list = vec!["/".to_string()];
    for part in path.split('/') {
        if !part.is_empty() {
            list.push(part.to_string());
        }
    }
    list
}

#[test]
fn a_path_lies_under_itself() {
    assert!(starts_with(&parts("/repo/a"), &parts("/repo/a")));
}

#[test]
fn a_path_lies_under_each_of_its_ancestors() {
    assert!(starts_with(&parts("/repo/a/Cargo.toml"), &parts("/repo/a")));
    assert!(starts_with(&parts("/repo/a/Cargo.toml"), &parts("/repo")));
    assert!(starts_with(&parts("/repo/a/Cargo.toml"), &parts("/")));
}

#[test]
fn a_path_does_not_lie_under_a_longer_one() {
    assert!(!starts_with(&parts("/repo"), &parts("/repo/a")));
}

#[test]
fn only_whole_components_count() {
    assert!(!starts_with(&parts("/repo/ab/Cargo.toml"), &parts("/repo/a")));
    assert!(!starts_with(&parts("/repo/a/Cargo.toml"), &parts("/repo/ab")));
}

#[test]
fn a_sibling_is_not_an_ancestor() {
    assert!(!starts_with(&parts("/repo/b/Cargo.toml"), &parts("/repo/a")));
}

#[test]
fn every_path_lies_under_the_empty_one() {
    assert!(starts_with(&parts("/repo"), &vec![]));
    assert!(starts_with(&vec![], &vec![]));
    assert!(!starts_with(&vec![], &parts("/")));
}

#[test]
fn nothing_is_excluded_without_exclusions() {
    assert!(!is_excluded(&parts("/repo/a/Cargo.toml"), &vec![]));
}

#[test]
fn a_file_is_excluded_by_any_one_exclusion() {
    let exclusions = vec![parts("/repo/x"), parts("/repo/a"), parts("/other")];
    assert!(is_excluded(&parts("/repo/a/Cargo.toml"), &exclusions));
    assert!(is_excluded(&parts("/repo/a/deep/down/Cargo.toml"), &exclusions));
    assert!(is_excluded(&parts("/other/Cargo.lock"), &exclusions));
    assert!(!is_excluded(&parts("/repo/b/Cargo.toml"), &exclusions));
    assert!(!is_excluded(&parts("/repo/Cargo.toml"), &exclusions));
}

#[test]
fn a_file_is_excluded_by_its_own_path() {
    let exclusions = vec![parts("/repo/a/Cargo.lock")];
    assert!(is_excluded(&parts("/repo/a/Cargo.lock"), &exclusions));
    assert!(!is_excluded(&parts("/repo/a/Cargo.toml"), &exclusions));
}

#[test]
fn the_target_is_matched_by_its_whole_name() {
    assert!(is_target_manifest(&"Cargo.toml".to_string(), "Cargo.toml"));
    assert!(!is_target_manifest(&"Cargo.lock".to_string(), "Cargo.toml"));
    assert!(!is_target_manifest(&"cargo.toml".to_string(), "Cargo.toml"));
    assert!(!is_target_manifest(&"Cargo.toml.orig".to_string(), "Cargo.toml"));
    assert!(is_target_manifest(&"Cargo.lock".to_string(), "Cargo.lock"));
}

#[test]
fn locate_marks_what_is_excluded() {
    let exclusions = vec![parts("/repo/vendor")];
    assert_eq!(
        locate("./vendor/x".to_string(), parts("/repo/vendor/x/Cargo.toml"), &exclusions),
        ProjectLocation {
            directory: "./vendor/x".to_string(),
            canonical: parts("/repo/vendor/x/Cargo.toml"),
            excluded: true,
        }
    );
    assert_eq!(
        locate("./a".to_string(), parts("/repo/a/Cargo.toml"), &exclusions),
        ProjectLocation {
            directory: "./a".to_string(),
            canonical: parts("/repo/a/Cargo.toml"),
            excluded: false,
        }
    );
}

#[test]
fn exclusion_agrees_with_the_paths_of_std() {
    let candidates = ["/repo/a/Cargo.toml", "/repo/ab/Cargo.toml", "/repo/a", "/repo", "/x/y/z"];
    let bases = ["/repo/a", "/repo", "/", "/repo/a/Cargo.toml", "/x/y/z/w"];
    for candidate in candidates {
        for base in bases {
            let theirs = std::path::Path::new(candidate).starts_with(std::path::Path::new(base));
            assert_eq!(starts_with(&parts(candidate), &parts(base)), theirs);
        }
    }
}
