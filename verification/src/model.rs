//! Mathematical model of the accumulator.
//!
//! The accumulator is modelled as a sequence of entries, each a pair of the
//! canonical encoding of a second-group (G2) key and the canonical encoding
//! of the first-group (G1) value accumulated under that key. Keys are
//! pairwise distinct and entries stand in insertion order, so the model also
//! fixes the order in which the batcher reads the accumulator out.

use vstd::prelude::*;
use crate::engine::g1_add_enc;
use crate::engine::g1_scale_enc;
use crate::engine::G1Elem;
use crate::engine::G2Elem;

verus! {

/// The index of the first entry of `m` whose key is `k`, or -1 when no entry
/// has that key.
pub open spec fn find_key(m: Seq<(Seq<u8>, Seq<u8>)>, k: Seq<u8>) -> int
    decreases m.len(),
{
    if m.len() == 0 {
        -1
    } else if m[0].0 == k {
        0
    } else {
        let r = find_key(m.drop_first(), k);
        if r < 0 {
            -1
        } else {
            r + 1
        }
    }
}

/// Whether some entry of `m` has the key `k`.
pub open spec fn has_key(m: Seq<(Seq<u8>, Seq<u8>)>, k: Seq<u8>) -> bool {
    find_key(m, k) >= 0
}

/// `find_key` finds the first occurrence of `k`, and only fails when `k` is
/// absent.
pub proof fn lemma_find_key(m: Seq<(Seq<u8>, Seq<u8>)>, k: Seq<u8>)
    ensures
        find_key(m, k) == -1 ==> forall|i: int| 0 <= i < m.len() ==> m[i].0 != k,
        find_key(m, k) != -1 ==> {
            &&& 0 <= find_key(m, k) < m.len()
            &&& m[find_key(m, k)].0 == k
            &&& forall|i: int| 0 <= i < find_key(m, k) ==> m[i].0 != k
        },
    decreases m.len(),
{
    if m.len() > 0 && m[0].0 != k {
        let d = m.drop_first();
        lemma_find_key(d, k);
        let r = find_key(d, k);
        if r == -1 {
            assert forall|i: int| 0 <= i < m.len() implies m[i].0 != k by {
                if i > 0 {
                    assert(d[i - 1] == m[i]);
                }
            }
        } else {
            assert(m[r + 1] == d[r]);
            assert forall|i: int| 0 <= i < r + 1 implies m[i].0 != k by {
                if i > 0 {
                    assert(d[i - 1] == m[i]);
                }
            }
        }
    }
}

/// `k` is a key of `m` exactly when some entry holds it.
pub proof fn lemma_has_key(m: Seq<(Seq<u8>, Seq<u8>)>, k: Seq<u8>)
    ensures
        has_key(m, k) <==> exists|i: int| 0 <= i < m.len() && m[i].0 == k,
{
    lemma_find_key(m, k);
}

/// One (key, value) pair folded into the accumulator: when the key is
/// already present, the value is added (in the first group) into that entry;
/// otherwise a fresh entry is appended.
pub open spec fn fold_entry(m: Seq<(Seq<u8>, Seq<u8>)>, k: Seq<u8>, g: Seq<u8>) -> Seq<
    (Seq<u8>, Seq<u8>),
> {
    let i = find_key(m, k);
    if i >= 0 {
        m.update(i, (k, g1_add_enc(m[i].1, g)))
    } else {
        m.push((k, g))
    }
}

/// A whole equation folded into the accumulator, pair by pair, in order.
pub open spec fn fold_pairs(m: Seq<(Seq<u8>, Seq<u8>)>, ps: Seq<(Seq<u8>, Seq<u8>)>) -> Seq<
    (Seq<u8>, Seq<u8>),
>
    decreases ps.len(),
{
    if ps.len() == 0 {
        m
    } else {
        fold_entry(fold_pairs(m, ps.drop_last()), ps.last().0, ps.last().1)
    }
}

/// The (key, value) model of one submitted equation: for each pair the G2
/// encoding as key and the G1 encoding as value, unscaled.
pub open spec fn pairs_model(ps: Seq<(G1Elem, G2Elem)>) -> Seq<(Seq<u8>, Seq<u8>)> {
    Seq::new(ps.len(), |i: int| (ps[i].1@, ps[i].0@))
}

/// The model of one submitted equation with every G1 value multiplied by the
/// scalar with encoding `s`.
pub open spec fn scaled_pairs_model(ps: Seq<(G1Elem, G2Elem)>, s: Seq<u8>) -> Seq<
    (Seq<u8>, Seq<u8>),
> {
    Seq::new(ps.len(), |i: int| (ps[i].1@, g1_scale_enc(ps[i].0@, s)))
}

/// The (key, value) model of parallel key and value vectors.
pub open spec fn zip_model(ks: Seq<G2Elem>, gs: Seq<G1Elem>) -> Seq<(Seq<u8>, Seq<u8>)> {
    Seq::new(ks.len(), |i: int| (ks[i]@, gs[i]@))
}

/// Whether any key of the pair sequence `ps` is already a key of `m`.
pub open spec fn any_key_present(m: Seq<(Seq<u8>, Seq<u8>)>, ps: Seq<(Seq<u8>, Seq<u8>)>) -> bool {
    exists|i: int| 0 <= i < ps.len() && has_key(m, ps[i].0)
}

/// Folding keeps all keys distinct.
pub proof fn lemma_fold_entry_wf(m: Seq<(Seq<u8>, Seq<u8>)>, k: Seq<u8>, g: Seq<u8>)
    requires
        forall|i: int, j: int| 0 <= i < j < m.len() ==> m[i].0 != m[j].0,
    ensures
        forall|i: int, j: int|
            0 <= i < j < fold_entry(m, k, g).len() ==> fold_entry(m, k, g)[i].0 != fold_entry(
                m,
                k,
                g,
            )[j].0,
{
    lemma_find_key(m, k);
    let f = find_key(m, k);
    if f >= 0 {
        let m2 = m.update(f, (k, g1_add_enc(m[f].1, g)));
        assert forall|i: int, j: int| 0 <= i < j < m2.len() implies m2[i].0 != m2[j].0 by {
            assert(m2[i].0 == m[i].0);
            assert(m2[j].0 == m[j].0);
        }
    } else {
        let m2 = m.push((k, g));
        assert forall|i: int, j: int| 0 <= i < j < m2.len() implies m2[i].0 != m2[j].0 by {
            if j == m.len() {
                assert(m2[j].0 == k);
                assert(m2[i].0 == m[i].0);
            } else {
                assert(m2[i].0 == m[i].0);
                assert(m2[j].0 == m[j].0);
            }
        }
    }
}

} // verus!
