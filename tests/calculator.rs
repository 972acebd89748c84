use release_bump::{
    apply_bump, calculate_new_version, classify_message, classify_range, find_latest_release,
    is_release, next_from_baseline, Bump, BumpLevel, Commit, Version, VersionError,
};

fn history(messages: &[&str]) -> Vec<Commit> {
    messages.iter().map(|m| Commit::new(m.as_bytes().to_vec())).collect()
}

fn numbers(v: &Version) -> (u64, u64, u64) {
    (v.major, v.minor, v.patch)
}

fn next(messages: &[&str]) -> Result<(u64, u64, u64), VersionError> {
    calculate_new_version(&history(messages)).map(|v| numbers(&v))
}

#[test]
fn bump_patch_increments_patch() {
    let mut version = Version::new(0, 0, 0);
    version.bump_patch();
    assert_eq!(numbers(&version), (0, 0, 1));
    let mut version = Version::new(3, 7, 9);
    version.bump_patch();
    assert_eq!(numbers(&version), (3, 7, 10));
}

#[test]
fn bump_minor_resets_patch() {
    let mut version = Version::new(0, 0, 1);
    version.bump_minor();
    assert_eq!(numbers(&version), (0, 1, 0));
    let mut version = Version::new(4, 2, 8);
    version.bump_minor();
    assert_eq!(numbers(&version), (4, 3, 0));
}

#[test]
fn bump_major_resets_minor_and_patch() {
    let mut version = Version::new(0, 1, 1);
    version.bump_major();
    assert_eq!(numbers(&version), (1, 0, 0));
}

#[test]
fn fix_gives_patch_bump() {
    assert_eq!(next(&["fix: off-by-one", "release: 1.2.3"]), Ok((1, 2, 4)));
}

#[test]
fn feature_and_fix_give_minor_bump() {
    assert_eq!(next(&["feat: add export", "fix: typo", "release: 1.2.3"]), Ok((1, 3, 0)));
}

#[test]
fn breaking_change_gives_major_bump() {
    assert_eq!(next(&["feat!: remove legacy API", "release: 1.2.3"]), Ok((2, 0, 0)));
}

#[test]
fn history_without_release_fails() {
    assert_eq!(next(&["fix: a", "feat: b", "initial commit"]), Err(VersionError::NoReleaseFound));
    assert_eq!(next(&[]), Err(VersionError::NoReleaseFound));
}

#[test]
fn unmarked_commits_keep_version() {
    assert_eq!(next(&["docs: readme", "chore: tidy\n\nrefactor things", "release: 1.2.3"]), Ok((1, 2, 3)));
    assert_eq!(next(&["release: 1.2.3"]), Ok((1, 2, 3)));
}

#[test]
fn many_fixes_give_one_patch_bump() {
    assert_eq!(
        next(&["fix: one\nfix: two", "fix: three", "misc\n\nfix: four", "release: 1.2.3"]),
        Ok((1, 2, 4))
    );
}

#[test]
fn fix_before_feature_gives_minor_bump() {
    assert_eq!(next(&["fix: a", "fix: b", "feat: c", "fix: d", "release: 0.9.9"]), Ok((0, 10, 0)));
}

#[test]
fn breaking_change_anywhere_gives_major_bump() {
    assert_eq!(
        next(&["fix: a", "feat: b", "chore: c\n\nfeat!: drop old flag", "fix: d", "release: 1.2.3"]),
        Ok((2, 0, 0))
    );
}

#[test]
fn latest_of_two_releases_is_found() {
    let h = history(&["feat: x", "release: 2.0.0", "fix: y", "release: 1.0.0"]);
    assert_eq!(find_latest_release(&h), Some(1));
    assert_eq!(next(&["feat: x", "release: 2.0.0", "fix: y", "release: 1.0.0"]), Ok((2, 1, 0)));
    let h = history(&["release: 3.0.0", "release: 1.0.0"]);
    assert_eq!(find_latest_release(&h), Some(0));
    assert_eq!(find_latest_release(&history(&["fix: a"])), None);
}

#[test]
fn calculation_is_repeatable() {
    let h = history(&["feat: add export", "fix: typo", "release: 1.2.3"]);
    let first = calculate_new_version(&h).map(|v| numbers(&v));
    let second = calculate_new_version(&h).map(|v| numbers(&v));
    assert_eq!(first, second);
    assert_eq!(first, Ok((1, 3, 0)));
}

#[test]
fn release_commit_itself_is_not_classified() {
    assert_eq!(next(&["release: 1.2.3\n\nfeat!: mentioned in the release notes"]), Ok((1, 2, 3)));
}

#[test]
fn commits_older_than_release_are_ignored() {
    assert_eq!(next(&["fix: a", "release: 1.2.3", "feat!: old"]), Ok((1, 2, 4)));
}

#[test]
fn release_text_is_trimmed() {
    assert_eq!(next(&["release:1.2.3"]), Ok((1, 2, 3)));
    assert_eq!(next(&["fix: a", "release: \t 4.5.6  "]), Ok((4, 5, 7)));
}

#[test]
fn release_title_ends_at_blank_line() {
    assert_eq!(next(&["release: 1.0.0\n\nnotes of this release"]), Ok((1, 0, 0)));
    assert_eq!(next(&["release: 1.0.0\r\n\r\nnotes"]), Ok((1, 0, 0)));
    assert_eq!(next(&["release: 1.0.0\n"]), Ok((1, 0, 0)));
}

#[test]
fn malformed_release_version_fails() {
    assert_eq!(next(&["fix: a", "release: banana"]), Err(VersionError::MalformedReleaseVersion));
    assert_eq!(next(&["release: 1.2"]), Err(VersionError::MalformedReleaseVersion));
    assert_eq!(next(&["release: 1.0.0\nsecond title line"]), Err(VersionError::MalformedReleaseVersion));
}

#[test]
fn undecodable_release_version_fails() {
    let h = vec![Commit::new(b"release: 1.0.\xff".to_vec())];
    assert_eq!(calculate_new_version(&h).map(|v| numbers(&v)), Err(VersionError::CommitDecodeError));
}

#[test]
fn overflowing_bump_fails() {
    assert_eq!(
        next(&["feat!: x", "release: 18446744073709551615.0.0"]),
        Err(VersionError::VersionOverflow)
    );
    assert_eq!(next(&["fix: x", "release: 1.2.18446744073709551615"]), Err(VersionError::VersionOverflow));
    assert_eq!(next(&["feat: x", "release: 1.2.18446744073709551615"]), Ok((1, 3, 0)));
}

#[test]
fn labels_are_kept() {
    let v = calculate_new_version(&history(&["fix: a", "release: 1.2.3-alpha.1+build.5"])).unwrap();
    assert_eq!(numbers(&v), (1, 2, 4));
    assert_eq!(v.pre, "alpha.1");
    assert_eq!(v.build, "build.5");
}

#[test]
fn release_marker_is_matched_bytewise() {
    assert!(is_release(&Commit::new(b"release: 1.0.0".to_vec())));
    assert!(!is_release(&Commit::new(b"Release: 1.0.0".to_vec())));
    assert!(!is_release(&Commit::new(b" release: 1.0.0".to_vec())));
    assert!(!is_release(&Commit::new(b"release 1.0.0".to_vec())));
    assert!(!is_release(&Commit::new(b"fix: a\n\nrelease: 1.0.0".to_vec())));
}

#[test]
fn messages_are_classified_by_line_prefix() {
    assert_eq!(classify_message(b"feat!: x"), BumpLevel::Major);
    assert_eq!(classify_message(b"feat: x"), BumpLevel::Minor);
    assert_eq!(classify_message(b"feature flag"), BumpLevel::Minor);
    assert_eq!(classify_message(b"fix: x"), BumpLevel::Patch);
    assert_eq!(classify_message(b"title\n\nbody\nfix: y"), BumpLevel::Patch);
    assert_eq!(classify_message(b"update: fix typo"), BumpLevel::Unchanged);
    assert_eq!(classify_message(b" fix: indented"), BumpLevel::Unchanged);
    assert_eq!(classify_message(b"Fix: capital"), BumpLevel::Unchanged);
    assert_eq!(classify_message(b""), BumpLevel::Unchanged);
    assert_eq!(classify_message(b"fix: a\nfeat!: b\nfeat: c"), BumpLevel::Major);
}

#[test]
fn ranges_take_strongest_signal() {
    assert_eq!(classify_range(&history(&[])), BumpLevel::Unchanged);
    assert_eq!(classify_range(&history(&["fix: a", "chore"])), BumpLevel::Patch);
    assert_eq!(classify_range(&history(&["fix: a", "feat: b"])), BumpLevel::Minor);
    assert_eq!(classify_range(&history(&["feat!: a", "feat: b", "fix: c"])), BumpLevel::Major);
}

#[test]
fn bumps_apply_to_a_baseline() {
    let unreleased = history(&["feat: x", "fix: y"]);
    let v = next_from_baseline(Version::new(1, 2, 3), &unreleased).unwrap();
    assert_eq!(numbers(&v), (1, 3, 0));
    let v = apply_bump(Version::new(1, 2, 3), BumpLevel::Unchanged).unwrap();
    assert_eq!(numbers(&v), (1, 2, 3));
    let v = apply_bump(Version::new(1, 2, 3), BumpLevel::Major).unwrap();
    assert_eq!(numbers(&v), (2, 0, 0));
    assert_eq!(
        apply_bump(Version::new(1, u64::MAX, 3), BumpLevel::Minor).map(|v| numbers(&v)),
        Err(VersionError::VersionOverflow)
    );
}
