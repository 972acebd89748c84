use vstd::prelude::*;

verus! {

/// Strength of the version change that a range of commits calls for.
#[derive(Clone, Copy, Debug, PartialEq, Eq, Structural)]
pub enum BumpLevel {
    Unchanged,
    Patch,
    Minor,
    Major,
}

/// The breaking-change marker `feat!`.
pub open spec fn feat_bang() -> Seq<u8> {
    seq![102u8, 101u8, 97u8, 116u8, 33u8]
}

/// The feature marker `feat`.
pub open spec fn feat() -> Seq<u8> {
    seq![102u8, 101u8, 97u8, 116u8]
}

/// The fix marker `fix`.
pub open spec fn fix() -> Seq<u8> {
    seq![102u8, 105u8, 120u8]
}

/// `m` holds `pre` starting at byte `p`.
pub open spec fn has_prefix_at(m: Seq<u8>, p: int, pre: Seq<u8>) -> bool {
    0 <= p && p + pre.len() <= m.len() && m.subrange(p, p + pre.len()) == pre
}

/// Byte `p` of `m` begins a line: it is the first byte or follows a `\n`.
pub open spec fn line_start(m: Seq<u8>, p: int) -> bool {
    p == 0 || (0 < p <= m.len() && m[p - 1] == 10u8)
}

/// Some line of the message `m` starts with `pre`.
pub open spec fn has_line_with(m: Seq<u8>, pre: Seq<u8>) -> bool {
    exists|p: int| line_start(m, p) && #[trigger] has_prefix_at(m, p, pre)
}

/// The signal of one commit message: the strongest marker that starts one of
/// its lines.
pub open spec fn message_level(m: Seq<u8>) -> BumpLevel {
    if has_line_with(m, feat_bang()) {
        BumpLevel::Major
    } else if has_line_with(m, feat()) {
        BumpLevel::Minor
    } else if has_line_with(m, fix()) {
        BumpLevel::Patch
    } else {
        BumpLevel::Unchanged
    }
}

/// Some message of `ms` has a line that starts with `pre`.
pub open spec fn any_line_with(ms: Seq<Seq<u8>>, pre: Seq<u8>) -> bool {
    exists|k: int| 0 <= k < ms.len() && #[trigger] has_line_with(ms[k], pre)
}

/// The signal of a range of commit messages: the strongest marker that starts
/// a line of any of them.
pub open spec fn range_level(ms: Seq<Seq<u8>>) -> BumpLevel {
    if any_line_with(ms, feat_bang()) {
        BumpLevel::Major
    } else if any_line_with(ms, feat()) {
        BumpLevel::Minor
    } else if any_line_with(ms, fix()) {
        BumpLevel::Patch
    } else {
        BumpLevel::Unchanged
    }
}

/// Whether `m` holds `pre` starting at byte `p`.
pub(crate) fn has_prefix(m: &[u8], p: usize, pre: &[u8]) -> (r: bool)
    ensures
        r == has_prefix_at(m@, p as int, pre@),
{
    if pre.len() > m.len() || p > m.len() - pre.len() {
        return false;
    }
    let mut j: usize = 0;
    while j < pre.len()
        invariant
            p + pre.len() <= m.len(),
            forall|k: int| 0 <= k < j ==> m@[p + k] == pre@[k],
        decreases pre.len() - j,
    {
        if m[p + j] != pre[j] {
            assert(m@.subrange(p as int, p + pre.len())[j as int] != pre@[j as int]);
            return false;
        }
        j = j + 1;
    }
    assert(m@.subrange(p as int, p + pre.len()) =~= pre@);
    true
}

/// Classifies one commit message: `Major` when a line starts with `feat!`,
/// else `Minor` when one starts with `feat`, else `Patch` when one starts
/// with `fix`, else `Unchanged`. Title and body lines count alike.
pub fn classify_message(m: &[u8]) -> (r: BumpLevel)
    ensures
        r == message_level(m@),
{
    let feat_bang_bytes: [u8; 5] = [102u8, 101u8, 97u8, 116u8, 33u8];
    let feat_bytes: [u8; 4] = [102u8, 101u8, 97u8, 116u8];
    let fix_bytes: [u8; 3] = [102u8, 105u8, 120u8];
    assert(feat_bang_bytes@ =~= feat_bang());
    assert(feat_bytes@ =~= feat());
    assert(fix_bytes@ =~= fix());
    let mut saw_feat = false;
    let mut saw_fix = false;
    let mut i: usize = 0;
    while i < m.len()
        invariant
            feat_bang_bytes@ == feat_bang(),
            feat_bytes@ == feat(),
            fix_bytes@ == fix(),
            i <= m.len(),
            forall|p: int| 0 <= p < i && line_start(m@, p) ==> !has_prefix_at(m@, p, feat_bang()),
            saw_feat <==> exists|p: int|
                0 <= p < i && line_start(m@, p) && #[trigger] has_prefix_at(m@, p, feat()),
            saw_fix <==> exists|p: int|
                0 <= p < i && line_start(m@, p) && #[trigger] has_prefix_at(m@, p, fix()),
        decreases m.len() - i,
    {
        if i == 0 || m[i - 1] == 10u8 {
            if has_prefix(m, i, &feat_bang_bytes) {
                // A breaking change is the strongest signal: the rest of the
                // message cannot change the outcome.
                return BumpLevel::Major;
            }
            if has_prefix(m, i, &feat_bytes) {
                saw_feat = true;
            }
            if has_prefix(m, i, &fix_bytes) {
                saw_fix = true;
            }
        }
        i = i + 1;
    }
    assert(!has_line_with(m@, feat_bang()));
    if saw_feat {
        BumpLevel::Minor
    } else if saw_fix {
        BumpLevel::Patch
    } else {
        BumpLevel::Unchanged
    }
}

} // verus!
