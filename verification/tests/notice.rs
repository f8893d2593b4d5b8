use cargo_lockstep::notice::Notice;
use cargo_lockstep::update_all::update_message;

#[test]
fn the_walk_is_announced_by_the_name_of_the_file() {
    assert_eq!(
        Notice::LookingFor { file_name: "Cargo.lock".to_string() }.message(),
        "Looking for \"Cargo.lock\" files..."
    );
    assert_eq!(
        Notice::LookingFor { file_name: "Cargo.toml".to_string() }.message(),
        "Looking for \"Cargo.toml\" files..."
    );
}

#[test]
fn directories_are_shown_between_quotes() {
    assert_eq!(
        Notice::Skipping { directory: "./a".to_string() }.message(),
        "  Skipping \"./a\" because it matches an excluded path."
    );
    assert_eq!(
        Notice::RunningUpdate { directory: "./a".to_string() }.message(),
        "  Running `cargo update` in \"./a\"..."
    );
    assert_eq!(
        Notice::RunningCheck { directory: "./a".to_string() }.message(),
        "  Running `cargo check --all-targets` in \"./a\"..."
    );
    assert_eq!(
        Notice::LookingForUpgrades { directory: "./a".to_string() }.message(),
        "  Looking for dependencies to upgrade in \"./a\"..."
    );
}

#[test]
fn quotes_in_a_directory_are_escaped() {
    assert_eq!(
        Notice::Skipping { directory: "./a \"b\"\\c".to_string() }.message(),
        "  Skipping \"./a \\\"b\\\"\\\\c\" because it matches an excluded path."
    );
}

#[test]
fn the_plain_notices_read_as_written() {
    assert_eq!(Notice::AlreadyUpToDate.message(), "    Already up-to-date!");
    assert_eq!(Notice::Committing.message(), "    Committing updates...");
    assert_eq!(
        Notice::NothingToUpdate.message(),
        "All \"Cargo.lock\" files were already up-to-date!"
    );
    assert_eq!(
        Notice::UpdatesApplied.message(),
        "Updates applied! You can now push this branch and make a pull-request."
    );
    assert_eq!(
        Notice::NothingToUpgrade.message(),
        "All specified dependencies were already on their latest versions!"
    );
    assert_eq!(
        Notice::UpgradesApplied.message(),
        "Upgrades applied! You can now push this branch and make a pull-request."
    );
    assert_eq!(
        Notice::AssumingVirtualManifest.message(),
        "Failed to read manifest of project to check for available upgrades; assuming it is a virtual manifest"
    );
}

#[test]
fn the_notices_of_a_dependency_name_it() {
    assert_eq!(
        Notice::UnresolvedPackage { name: "dep".to_string() }.message(),
        "Warning: didn't find \"dep\" in latest versions; this shouldn't happen."
    );
    assert_eq!(
        Notice::MultipleComparators { name: "dep".to_string() }.message(),
        "Warning: multiple comparators found in version requirement for \"dep\"; skipping"
    );
    assert_eq!(
        Notice::NotCaret { name: "dep".to_string() }.message(),
        "Warning: comparator in version requirement for \"dep\" was not a 'caret'; skipping"
    );
    assert_eq!(
        Notice::OnNewestRelease { name: "dep".to_string() }.message(),
        "\"dep\" is already on its newest normal release. Nothing to do!"
    );
}

#[test]
fn four_notices_are_warnings() {
    let all = vec![
        Notice::LookingFor { file_name: "f".to_string() },
        Notice::Skipping { directory: "d".to_string() },
        Notice::RunningUpdate { directory: "d".to_string() },
        Notice::AlreadyUpToDate,
        Notice::RunningCheck { directory: "d".to_string() },
        Notice::Committing,
        Notice::NothingToUpdate,
        Notice::UpdatesApplied,
        Notice::LookingForUpgrades { directory: "d".to_string() },
        Notice::AssumingVirtualManifest,
        Notice::UnresolvedPackage { name: "n".to_string() },
        Notice::MultipleComparators { name: "n".to_string() },
        Notice::NotCaret { name: "n".to_string() },
        Notice::OnNewestRelease { name: "n".to_string() },
        Notice::NothingToUpgrade,
        Notice::UpgradesApplied,
    ];
    let warnings: Vec<Notice> = all.into_iter().filter(|n| n.is_warning()).collect();
    assert_eq!(
        warnings,
        vec![
            Notice::AssumingVirtualManifest,
            Notice::UnresolvedPackage { name: "n".to_string() },
            Notice::MultipleComparators { name: "n".to_string() },
            Notice::NotCaret { name: "n".to_string() },
        ]
    );
}

#[test]
fn the_message_of_an_update_reads_as_written() {
    assert_eq!(
        update_message(),
        "cargo update\n\nAll semver-compatible-updates, by running `cargo update`.\nThis commit was created by `cargo-lockstep`."
    );
}
