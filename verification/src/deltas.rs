//! Incremental changes to one file's content.
//!
//! A delta records how a file's content moved from its last recorded
//! snapshot to the new one: the length of the common prefix that was kept,
//! and the bytes that replace everything after it. Applying the delta to the
//! old content reconstructs the new content exactly.

use vstd::prelude::*;

verus! {

/// One recorded incremental change within a session.
#[derive(Debug)]
pub struct DeltaRecord {
    /// The session the delta belongs to.
    pub session: u64,
    /// The path whose content changed.
    pub path: String,
    /// How many leading bytes of the previous content are kept.
    pub keep: usize,
    /// The bytes that replace everything after the kept prefix.
    pub insert: Vec<u8>,
}

/// Length of the longest common prefix of two byte sequences.
pub open spec fn lcp(a: Seq<u8>, b: Seq<u8>) -> nat
    decreases a.len(),
{
    if a.len() == 0 || b.len() == 0 || a[0] != b[0] {
        0
    } else {
        1 + lcp(a.skip(1), b.skip(1))
    }
}

/// The content a delta yields when applied to the old content.
pub open spec fn apply_delta(old_content: Seq<u8>, keep: int, insert: Seq<u8>) -> Seq<u8>
    recommends
        0 <= keep <= old_content.len(),
{
    old_content.take(keep) + insert
}

/// The common prefix is no longer than either sequence, matches both
/// pointwise, and is maximal.
pub proof fn lemma_lcp_bounds(a: Seq<u8>, b: Seq<u8>)
    ensures
        lcp(a, b) <= a.len(),
        lcp(a, b) <= b.len(),
        forall|i: int| 0 <= i < lcp(a, b) ==> a[i] == b[i],
        lcp(a, b) < a.len() && lcp(a, b) < b.len() ==> a[lcp(a, b) as int] != b[lcp(a, b) as int],
    decreases a.len(),
{
    if a.len() == 0 || b.len() == 0 || a[0] != b[0] {
    } else {
        lemma_lcp_bounds(a.skip(1), b.skip(1));
        assert forall|i: int| 0 <= i < lcp(a, b) implies a[i] == b[i] by {
            if i > 0 {
                assert(a.skip(1)[i - 1] == b.skip(1)[i - 1]);
            }
        }
    }
}

/// A position that matches pointwise up to itself and is maximal is the
/// length of the common prefix.
pub proof fn lemma_lcp_characterization(a: Seq<u8>, b: Seq<u8>, n: int)
    requires
        0 <= n <= a.len(),
        n <= b.len(),
        forall|j: int| 0 <= j < n ==> a[j] == b[j],
        n == a.len() || n == b.len() || a[n] != b[n],
    ensures
        lcp(a, b) == n,
    decreases n,
{
    if n == 0 {
        if a.len() > 0 && b.len() > 0 {
            assert(a[0] != b[0]);
        }
    } else {
        assert(a[0] == b[0]);
        assert forall|j: int| 0 <= j < n - 1 implies a.skip(1)[j] == b.skip(1)[j] by {
            assert(a[j + 1] == b[j + 1]);
        }
        if n < a.len() && n < b.len() {
            assert(a.skip(1)[n - 1] != b.skip(1)[n - 1]);
        }
        lemma_lcp_characterization(a.skip(1), b.skip(1), n - 1);
    }
}

/// Applying the delta computed from `old_content` to `new_content` yields
/// `new_content` back: a delta loses nothing.
pub proof fn lemma_delta_reconstructs(old_content: Seq<u8>, new_content: Seq<u8>)
    ensures
        apply_delta(
            old_content,
            lcp(old_content, new_content) as int,
            new_content.skip(lcp(old_content, new_content) as int),
        ) =~= new_content,
{
    lemma_lcp_bounds(old_content, new_content);
}

/// Computes the incremental difference between the last recorded content and
/// the new content: the kept prefix length and the replacement suffix.
pub fn diff(old_content: &Vec<u8>, new_content: &Vec<u8>) -> (d: (usize, Vec<u8>))
    ensures
        d.0 == lcp(old_content@, new_content@),
        d.1@ == new_content@.skip(d.0 as int),
{
    let min: usize = if old_content.len() < new_content.len() {
        old_content.len()
    } else {
        new_content.len()
    };
    let mut i: usize = 0;
    while i < min && old_content[i] == new_content[i]
        invariant
            0 <= i <= min,
            min <= old_content@.len(),
            min <= new_content@.len(),
            min == old_content@.len() || min == new_content@.len(),
            forall|j: int| 0 <= j < i ==> old_content@[j] == new_content@[j],
        decreases min - i,
    {
        i += 1;
    }
    proof {
        lemma_lcp_characterization(old_content@, new_content@, i as int);
    }
    let mut insert: Vec<u8> = Vec::new();
    let mut k: usize = i;
    while k < new_content.len()
        invariant
            i <= k <= new_content@.len(),
            insert@ =~= new_content@.subrange(i as int, k as int),
        decreases new_content@.len() - k,
    {
        insert.push(new_content[k]);
        k += 1;
    }
    assert(insert@ =~= new_content@.skip(i as int));
    (i, insert)
}

/// Compares two content snapshots.
pub fn bytes_eq(a: &Vec<u8>, b: &Vec<u8>) -> (r: bool)
    ensures
        r == (a@ == b@),
{
    if a.len() != b.len() {
        return false;
    }
    let mut k: usize = 0;
    while k < a.len()
        invariant
            0 <= k <= a@.len(),
            a@.len() == b@.len(),
            forall|j: int| 0 <= j < k ==> a@[j] == b@[j],
        decreases a@.len() - k,
    {
        if a[k] != b[k] {
            return false;
        }
        k += 1;
    }
    proof {
        assert(a@ =~= b@);
    }
    true
}

/// Copies a content snapshot.
pub fn copy_bytes(v: &Vec<u8>) -> (r: Vec<u8>)
    ensures
        r@ == v@,
{
    let mut r: Vec<u8> = Vec::new();
    let mut k: usize = 0;
    while k < v.len()
        invariant
            0 <= k <= v@.len(),
            r@ =~= v@.subrange(0, k as int),
        decreases v@.len() - k,
    {
        r.push(v[k]);
        k += 1;
    }
    assert(r@ =~= v@);
    r
}

} // verus!
