use vstd::prelude::*;
use vstd::slice::slice_subrange;
use vstd::utf8::{decode_utf8, valid_utf8};
use crate::classify::{any_line_with, has_line_with, classify_message, feat, feat_bang, fix, message_level, range_level, BumpLevel};
use crate::release::{find_latest_release, message_title, messages, release_index, lemma_release_index, title_of, Commit};
use crate::version::{Bump, Version, VersionModel};

verus! {

/// Why no next version could be computed.
#[derive(Clone, Copy, Debug, PartialEq, Eq, Structural)]
pub enum VersionError {
    /// No repository at or above the given directory.
    RepositoryNotFound,
    /// The repository has no current commit.
    NoHeadCommit,
    /// No commit of the history is a release commit.
    NoReleaseFound,
    /// The text after `release:` is not a semantic version.
    MalformedReleaseVersion,
    /// The text after `release:` is not valid UTF-8.
    CommitDecodeError,
    /// The component to increment is already at its largest value.
    VersionOverflow,
}

/// semver's parse error, carried as an opaque value.
#[verifier::external_type_specification]
#[verifier::external_body]
pub struct ExSemverError(semver::Error);

/// The bytes that bstr's `trim` keeps of `b`.
pub uninterp spec fn trimmed(b: Seq<u8>) -> Seq<u8>;

/// Relies on bstr's `ByteSlice::trim`: `b` without leading and trailing
/// Unicode white space; the result depends on the bytes alone.
#[verifier::external_body]
fn trim_whitespace(b: &[u8]) -> (r: Vec<u8>)
    ensures
        r@ == trimmed(b@),
{
    gix::bstr::ByteSlice::trim(b).to_vec()
}

/// Relies on std's `String::from_utf8`: it succeeds exactly on valid UTF-8,
/// with the text that the bytes encode.
#[verifier::external_body]
fn decode_text(b: Vec<u8>) -> (r: Option<String>)
    ensures
        match r {
            Some(s) => valid_utf8(b@) && s@ == decode_utf8(b@),
            None => !valid_utf8(b@),
        },
{
    String::from_utf8(b).ok()
}

/// The version that semver reads from the text `s`, if `s` is one.
pub uninterp spec fn semver_of(s: Seq<char>) -> Option<VersionModel>;

/// Relies on semver's `Version::parse`: the version written in `s`, or an
/// error when `s` is not a semantic version; the outcome depends on `s` alone.
#[verifier::external_body]
fn parse_semver(s: &str) -> (r: Result<Version, semver::Error>)
    ensures
        match r {
            Ok(v) => semver_of(s@) == Some(v@),
            Err(_) => semver_of(s@) is None,
        },
{
    match semver::Version::parse(s) {
        Ok(v) => Ok(Version {
            major: v.major,
            minor: v.minor,
            patch: v.patch,
            pre: v.pre.as_str().to_string(),
            build: v.build.as_str().to_string(),
        }),
        Err(e) => Err(e),
    }
}

/// What follows `release:` in the title of the message `m`.
pub open spec fn release_text(m: Seq<u8>) -> Seq<u8> {
    title_of(m).subrange(8, title_of(m).len() as int)
}

/// The version that the release message `m` records.
pub open spec fn recorded_version(m: Seq<u8>) -> Result<VersionModel, VersionError> {
    let t = trimmed(release_text(m));
    if !valid_utf8(t) {
        Err(VersionError::CommitDecodeError)
    } else {
        match semver_of(decode_utf8(t)) {
            Some(v) => Ok(v),
            None => Err(VersionError::MalformedReleaseVersion),
        }
    }
}

/// The version of the most recent release of the newest-first history `ms`.
pub open spec fn baseline(ms: Seq<Seq<u8>>) -> Result<VersionModel, VersionError> {
    match release_index(ms) {
        Some(i) => recorded_version(ms[i]),
        None => Err(VersionError::NoReleaseFound),
    }
}

/// The messages newer than the most recent release.
pub open spec fn unreleased(ms: Seq<Seq<u8>>) -> Seq<Seq<u8>> {
    match release_index(ms) {
        Some(i) => ms.take(i),
        None => ms,
    }
}

/// The level `l` can be applied to `v` without overflow.
pub open spec fn can_bump(v: VersionModel, l: BumpLevel) -> bool {
    match l {
        BumpLevel::Major => v.0 < u64::MAX,
        BumpLevel::Minor => v.1 < u64::MAX,
        BumpLevel::Patch => v.2 < u64::MAX,
        BumpLevel::Unchanged => true,
    }
}

/// `v` after the single bump that `l` calls for; labels are kept.
pub open spec fn bumped(v: VersionModel, l: BumpLevel) -> VersionModel {
    match l {
        BumpLevel::Major => ((v.0 + 1) as u64, 0u64, 0u64, v.3, v.4),
        BumpLevel::Minor => (v.0, (v.1 + 1) as u64, 0u64, v.3, v.4),
        BumpLevel::Patch => (v.0, v.1, (v.2 + 1) as u64, v.3, v.4),
        BumpLevel::Unchanged => v,
    }
}

/// The outcome of applying `l` to `v`.
pub open spec fn bump_outcome(v: VersionModel, l: BumpLevel) -> Result<VersionModel, VersionError> {
    if can_bump(v, l) {
        Ok(bumped(v, l))
    } else {
        Err(VersionError::VersionOverflow)
    }
}

/// The next version of the newest-first history `ms`.
pub open spec fn next_version(ms: Seq<Seq<u8>>) -> Result<VersionModel, VersionError> {
    match baseline(ms) {
        Ok(v) => bump_outcome(v, range_level(unreleased(ms))),
        Err(e) => Err(e),
    }
}

/// The model of a computed version or error.
pub open spec fn outcome_view(r: Result<Version, VersionError>) -> Result<VersionModel, VersionError> {
    match r {
        Ok(v) => Ok(v@),
        Err(e) => Err(e),
    }
}

/// The strongest signal across the commits of a range: `Major` if any line
/// of any message starts with `feat!`, else `Minor` if one starts with
/// `feat`, else `Patch` if one starts with `fix`, else `Unchanged`.
pub fn classify_range(commits: &[Commit]) -> (r: BumpLevel)
    ensures
        r == range_level(messages(commits@)),
{
    let ghost ms = messages(commits@);
    let mut major = false;
    let mut minor = false;
    let mut patch = false;
    let mut k: usize = 0;
    while k < commits.len()
        invariant
            ms == messages(commits@),
            ms.len() == commits.len(),
            k <= commits.len(),
            major <==> exists|j: int| 0 <= j < k && #[trigger] message_level(ms[j]) == BumpLevel::Major,
            minor <==> exists|j: int| 0 <= j < k && #[trigger] message_level(ms[j]) == BumpLevel::Minor,
            patch <==> exists|j: int| 0 <= j < k && #[trigger] message_level(ms[j]) == BumpLevel::Patch,
        decreases commits.len() - k,
    {
        let level = classify_message(commits[k].message.as_slice());
        assert(ms[k as int] == commits@[k as int].message@);
        assert(message_level(ms[k as int]) == level);
        match level {
            BumpLevel::Major => major = true,
            BumpLevel::Minor => minor = true,
            BumpLevel::Patch => patch = true,
            BumpLevel::Unchanged => {},
        }
        k = k + 1;
    }
    proof {
        lemma_range_level_by_messages(ms);
    }
    if major {
        BumpLevel::Major
    } else if minor {
        BumpLevel::Minor
    } else if patch {
        BumpLevel::Patch
    } else {
        BumpLevel::Unchanged
    }
}

/// The range's level is the strongest of its messages' levels.
proof fn lemma_range_level_by_messages(ms: Seq<Seq<u8>>)
    ensures
        (range_level(ms) == BumpLevel::Major) <==> exists|j: int|
            0 <= j < ms.len() && #[trigger] message_level(ms[j]) == BumpLevel::Major,
        (range_level(ms) == BumpLevel::Minor) <==> (
            !(exists|j: int| 0 <= j < ms.len() && #[trigger] message_level(ms[j]) == BumpLevel::Major)
            && exists|j: int| 0 <= j < ms.len() && #[trigger] message_level(ms[j]) == BumpLevel::Minor),
        (range_level(ms) == BumpLevel::Patch) <==> (
            !(exists|j: int| 0 <= j < ms.len() && #[trigger] message_level(ms[j]) == BumpLevel::Major)
            && !(exists|j: int| 0 <= j < ms.len() && #[trigger] message_level(ms[j]) == BumpLevel::Minor)
            && exists|j: int| 0 <= j < ms.len() && #[trigger] message_level(ms[j]) == BumpLevel::Patch),
{
    if any_line_with(ms, feat_bang()) {
        let j = choose|j: int| 0 <= j < ms.len() && #[trigger] has_line_with(ms[j], feat_bang());
        assert(message_level(ms[j]) == BumpLevel::Major);
    }
    if any_line_with(ms, feat()) {
        let j = choose|j: int| 0 <= j < ms.len() && #[trigger] has_line_with(ms[j], feat());
        assert(message_level(ms[j]) == BumpLevel::Major || message_level(ms[j]) == BumpLevel::Minor);
    }
    if any_line_with(ms, fix()) {
        let j = choose|j: int| 0 <= j < ms.len() && #[trigger] has_line_with(ms[j], fix());
        assert(message_level(ms[j]) != BumpLevel::Unchanged);
    }
    assert forall|j: int| 0 <= j < ms.len() && #[trigger] message_level(ms[j]) != BumpLevel::Unchanged
        implies match message_level(ms[j]) {
            BumpLevel::Major => any_line_with(ms, feat_bang()),
            BumpLevel::Minor => any_line_with(ms, feat()),
            _ => any_line_with(ms, fix()),
        } by {
        if message_level(ms[j]) == BumpLevel::Major {
            assert(has_line_with(ms[j], feat_bang()));
        } else if message_level(ms[j]) == BumpLevel::Minor {
            assert(has_line_with(ms[j], feat()));
        } else {
            assert(has_line_with(ms[j], fix()));
        }
    }
}

/// Applies to `v` the single bump that `level` calls for; fails with
/// `VersionOverflow` when the component to increment is at its largest.
pub fn apply_bump(v: Version, level: BumpLevel) -> (r: Result<Version, VersionError>)
    ensures
        outcome_view(r) == bump_outcome(v@, level),
{
    let mut v = v;
    match level {
        BumpLevel::Major => {
            if v.major == u64::MAX {
                return Err(VersionError::VersionOverflow);
            }
            v.bump_major();
        },
        BumpLevel::Minor => {
            if v.minor == u64::MAX {
                return Err(VersionError::VersionOverflow);
            }
            v.bump_minor();
        },
        BumpLevel::Patch => {
            if v.patch == u64::MAX {
                return Err(VersionError::VersionOverflow);
            }
            v.bump_patch();
        },
        BumpLevel::Unchanged => {},
    }
    Ok(v)
}

/// The next version from the parsed `baseline` of the last release and the
/// commits made after it: `baseline` with the single bump that the strongest
/// signal among `unreleased` calls for.
pub fn next_from_baseline(baseline: Version, unreleased: &[Commit]) -> (r: Result<Version, VersionError>)
    ensures
        outcome_view(r) == bump_outcome(baseline@, range_level(messages(unreleased@))),
{
    let level = classify_range(unreleased);
    apply_bump(baseline, level)
}

/// Computes the next version of a newest-first history: finds the most
/// recent release commit, reads the version that its title records after
/// `release:`, and applies the single bump that the commits newer than the
/// release call for. The release commit itself is not classified.
pub fn calculate_new_version(history: &[Commit]) -> (r: Result<Version, VersionError>)
    ensures
        outcome_view(r) == next_version(messages(history@)),
{
    let ghost ms = messages(history@);
    proof {
        lemma_release_index(ms);
    }
    let i = match find_latest_release(history) {
        Some(i) => i,
        None => return Err(VersionError::NoReleaseFound),
    };
    assert(ms[i as int] == history@[i as int].message@);
    let title = message_title(history[i].message.as_slice());
    let suffix = slice_subrange(title.as_slice(), 8, title.len());
    assert(suffix@ =~= release_text(ms[i as int]));
    let text = trim_whitespace(suffix);
    let s = match decode_text(text) {
        Some(s) => s,
        None => return Err(VersionError::CommitDecodeError),
    };
    let baseline = match parse_semver(s.as_str()) {
        Ok(v) => v,
        Err(_) => return Err(VersionError::MalformedReleaseVersion),
    };
    let newer = slice_subrange(history, 0, i);
    assert(messages(newer@) =~= unreleased(ms));
    next_from_baseline(baseline, newer)
}

/// A release followed by commits of which no line starts with `feat!`,
/// `feat` or `fix` yields the release's own version.
pub proof fn law_no_marker_keeps_version(ms: Seq<Seq<u8>>, v: VersionModel)
    requires
        baseline(ms) == Ok::<VersionModel, VersionError>(v),
        !any_line_with(unreleased(ms), feat_bang()),
        !any_line_with(unreleased(ms), feat()),
        !any_line_with(unreleased(ms), fix()),
    ensures
        next_version(ms) == Ok::<VersionModel, VersionError>(v),
{
}

/// Commits with `fix` lines and no `feat` or `feat!` line yield one patch
/// bump, however many `fix` lines there are.
pub proof fn law_fixes_bump_patch(ms: Seq<Seq<u8>>, v: VersionModel)
    requires
        baseline(ms) == Ok::<VersionModel, VersionError>(v),
        v.2 < u64::MAX,
        !any_line_with(unreleased(ms), feat_bang()),
        !any_line_with(unreleased(ms), feat()),
        any_line_with(unreleased(ms), fix()),
    ensures
        next_version(ms) == Ok::<VersionModel, VersionError>((v.0, v.1, (v.2 + 1) as u64, v.3, v.4)),
{
}

/// Commits with `feat` and `fix` lines and no `feat!` line yield one minor
/// bump with the patch reset to 0.
pub proof fn law_features_bump_minor(ms: Seq<Seq<u8>>, v: VersionModel)
    requires
        baseline(ms) == Ok::<VersionModel, VersionError>(v),
        v.1 < u64::MAX,
        !any_line_with(unreleased(ms), feat_bang()),
        any_line_with(unreleased(ms), feat()),
        any_line_with(unreleased(ms), fix()),
    ensures
        next_version(ms) == Ok::<VersionModel, VersionError>((v.0, (v.1 + 1) as u64, 0u64, v.3, v.4)),
{
}

/// One `feat!` line anywhere after the release yields one major bump with
/// minor and patch reset to 0, whatever other lines there are.
pub proof fn law_breaking_change_bumps_major(ms: Seq<Seq<u8>>, v: VersionModel)
    requires
        baseline(ms) == Ok::<VersionModel, VersionError>(v),
        v.0 < u64::MAX,
        any_line_with(unreleased(ms), feat_bang()),
    ensures
        next_version(ms) == Ok::<VersionModel, VersionError>(((v.0 + 1) as u64, 0u64, 0u64, v.3, v.4)),
{
}

/// The next version depends on the history's messages alone: computing it
/// twice over the same history gives the same outcome.
pub proof fn law_calculation_is_repeatable(h1: Seq<Commit>, h2: Seq<Commit>)
    requires
        messages(h1) == messages(h2),
    ensures
        next_version(messages(h1)) == next_version(messages(h2)),
{
}

} // verus!
