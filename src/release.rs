use vstd::prelude::*;
use crate::classify::{has_prefix, has_prefix_at};

verus! {

/// One commit as the history hands it over: its raw message, title and body.
#[derive(Clone, Debug)]
pub struct Commit {
    pub message: Vec<u8>,
}

impl Commit {
    pub fn new(message: Vec<u8>) -> (r: Commit)
        ensures
            r.message@ == message@,
    {
        Commit { message }
    }
}

/// The title that git tooling reads from a raw commit message.
pub uninterp spec fn title_of(message: Seq<u8>) -> Seq<u8>;

/// Relies on gix's `MessageRef::from_bytes`, which splits a raw commit
/// message into title and body; the title depends on the bytes alone.
#[verifier::external_body]
pub(crate) fn message_title(message: &[u8]) -> (r: Vec<u8>)
    ensures
        r@ == title_of(message@),
{
    gix::objs::commit::MessageRef::from_bytes(message).title.to_vec()
}

/// The release marker `release:`.
pub open spec fn release_marker() -> Seq<u8> {
    seq![114u8, 101u8, 108u8, 101u8, 97u8, 115u8, 101u8, 58u8]
}

/// A release commit: its title starts, byte for byte, with `release:`.
pub open spec fn is_release_message(m: Seq<u8>) -> bool {
    has_prefix_at(title_of(m), 0, release_marker())
}

/// The messages of a history, in its order.
pub open spec fn messages(h: Seq<Commit>) -> Seq<Seq<u8>> {
    h.map_values(|c: Commit| c.message@)
}

/// `i` is the first release commit of the newest-first history `ms`.
pub open spec fn is_first_release(ms: Seq<Seq<u8>>, i: int) -> bool {
    &&& 0 <= i < ms.len()
    &&& is_release_message(ms[i])
    &&& forall|j: int| 0 <= j < i ==> !is_release_message(#[trigger] ms[j])
}

/// Where the most recent release stands in the newest-first history `ms`, if
/// it holds one.
pub open spec fn release_index(ms: Seq<Seq<u8>>) -> Option<int> {
    if exists|i: int| is_first_release(ms, i) {
        Some(choose|i: int| is_first_release(ms, i))
    } else {
        None
    }
}

/// Only one index is the first release.
proof fn lemma_first_release_unique(ms: Seq<Seq<u8>>, i: int, k: int)
    requires
        is_first_release(ms, i),
        is_first_release(ms, k),
    ensures
        i == k,
{
    if i < k {
        assert(!is_release_message(ms[i]));
    } else if k < i {
        assert(!is_release_message(ms[k]));
    }
}

/// A release at `j` means that some release comes first.
proof fn lemma_first_release_exists(ms: Seq<Seq<u8>>, j: int)
    requires
        0 <= j < ms.len(),
        is_release_message(ms[j]),
    ensures
        exists|i: int| is_first_release(ms, i),
    decreases j,
{
    if exists|l: int| 0 <= l < j && is_release_message(#[trigger] ms[l]) {
        let l = choose|l: int| 0 <= l < j && is_release_message(#[trigger] ms[l]);
        lemma_first_release_exists(ms, l);
    } else {
        assert(is_first_release(ms, j));
    }
}

/// `release_index` names the first release commit, and is `None` only when
/// no commit is a release.
pub proof fn lemma_release_index(ms: Seq<Seq<u8>>)
    ensures
        match release_index(ms) {
            Some(i) => is_first_release(ms, i),
            None => forall|j: int| 0 <= j < ms.len() ==> !is_release_message(#[trigger] ms[j]),
        },
{
    if release_index(ms) is None {
        assert forall|j: int| 0 <= j < ms.len() implies !is_release_message(#[trigger] ms[j]) by {
            if is_release_message(ms[j]) {
                lemma_first_release_exists(ms, j);
            }
        }
    }
}

/// Whether a commit marks a release: its title starts with `release:`.
pub fn is_release(commit: &Commit) -> (r: bool)
    ensures
        r == is_release_message(commit.message@),
{
    let title = message_title(commit.message.as_slice());
    let marker: [u8; 8] = [114u8, 101u8, 108u8, 101u8, 97u8, 115u8, 101u8, 58u8];
    assert(marker@ =~= release_marker());
    has_prefix(title.as_slice(), 0, &marker)
}

/// Walks the newest-first history and returns the position of the first
/// release commit, which is the most recent one; `None` when there is none.
pub fn find_latest_release(history: &[Commit]) -> (r: Option<usize>)
    ensures
        r == match release_index(messages(history@)) {
            Some(i) => Some(i as usize),
            None => None::<usize>,
        },
{
    let ghost ms = messages(history@);
    let mut i: usize = 0;
    while i < history.len()
        invariant
            ms == messages(history@),
            ms.len() == history.len(),
            i <= history.len(),
            forall|j: int| 0 <= j < i ==> !is_release_message(#[trigger] ms[j]),
        decreases history.len() - i,
    {
        if is_release(&history[i]) {
            proof {
                assert(is_first_release(ms, i as int));
                lemma_release_index(ms);
                lemma_first_release_unique(ms, release_index(ms)->Some_0, i as int);
            }
            return Some(i);
        }
        i = i + 1;
    }
    proof {
        lemma_release_index(ms);
        if let Some(k) = release_index(ms) {
            assert(!is_release_message(ms[k]));
        }
    }
    None
}

/// Of two release commits, the locator picks the more recent one: in a
/// newest-first history whose only releases stand at `i` and at `j > i`,
/// the release found is the one at `i`.
pub proof fn law_latest_of_two_releases(ms: Seq<Seq<u8>>, i: int, j: int)
    requires
        0 <= i < j < ms.len(),
        is_release_message(ms[i]),
        is_release_message(ms[j]),
        forall|k: int| 0 <= k < ms.len() && is_release_message(#[trigger] ms[k]) ==> k == i || k == j,
    ensures
        release_index(ms) == Some(i),
{
    assert(is_first_release(ms, i));
    lemma_release_index(ms);
    lemma_first_release_unique(ms, release_index(ms)->Some_0, i);
}

} // verus!
