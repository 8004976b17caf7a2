//! General properties of the batcher, proved once for all inputs.

use vstd::prelude::*;
use crate::batcher::prepared_g1s;
use crate::batcher::prepared_g2s;
use crate::batcher::PairingBatcher;
use crate::engine::g1_scale_enc;
use crate::engine::G1Elem;
use crate::engine::G2Elem;
use crate::engine::PreparedG1;
use crate::engine::PreparedG2;
use crate::model::find_key;
use crate::model::fold_pairs;
use crate::model::has_key;
use crate::model::lemma_find_key;
use crate::model::lemma_has_key;
use crate::model::pairs_model;
use crate::model::scaled_pairs_model;

verus! {

/// A batcher whose accumulator is empty — in particular a freshly
/// constructed one — finalizes to two empty sequences.
pub proof fn lemma_vacuous_finalize(b: PairingBatcher)
    requires
        b.entries().len() == 0,
    ensures
        prepared_g1s(b.entries()) =~= Seq::<PreparedG1>::empty(),
        prepared_g2s(b.entries()) =~= Seq::<PreparedG2>::empty(),
{
}

/// Finalizing is read-only and deterministic: two read-outs of the same
/// unmodified batcher are equal element for element. The two sequences of
/// each read-out are what `finalize` promises, so this pins both calls to
/// the same value.
pub proof fn lemma_finalize_deterministic(
    b: PairingBatcher,
    r1: (Seq<PreparedG1>, Seq<PreparedG2>),
    r2: (Seq<PreparedG1>, Seq<PreparedG2>),
)
    requires
        r1.0 == prepared_g1s(b.entries()),
        r1.1 == prepared_g2s(b.entries()),
        r2.0 == prepared_g1s(b.entries()),
        r2.1 == prepared_g2s(b.entries()),
    ensures
        r1 == r2,
{
}

/// Independence of collision-free equations: folding pairs whose keys are
/// absent from the accumulator and pairwise distinct touches no existing
/// entry and appends the pairs as they are, one fresh entry each — so a
/// batch of equations with pairwise disjoint G2 values accumulates every G1
/// value unscaled, one entry per distinct G2 value.
pub proof fn lemma_disjoint_fold_appends(m: Seq<(Seq<u8>, Seq<u8>)>, ps: Seq<(Seq<u8>, Seq<u8>)>)
    requires
        forall|i: int| 0 <= i < ps.len() ==> !has_key(m, #[trigger] ps[i].0),
        forall|i: int, j: int| 0 <= i < j < ps.len() ==> ps[i].0 != ps[j].0,
    ensures
        fold_pairs(m, ps) == m + ps,
    decreases ps.len(),
{
    if ps.len() == 0 {
        assert(fold_pairs(m, ps) =~= m + ps);
    } else {
        let p = ps.drop_last();
        let k = ps.last().0;
        assert(forall|i: int| 0 <= i < p.len() ==> p[i] == ps[i]);
        lemma_disjoint_fold_appends(m, p);
        let acc = m + p;
        lemma_find_key(acc, k);
        let f = find_key(acc, k);
        if f >= 0 {
            assert(acc[f].0 == k);
            if f < m.len() {
                lemma_has_key(m, k);
                assert(m[f].0 == k);
                assert(has_key(m, ps[ps.len() - 1].0));
                assert(false);
            } else {
                assert(ps[f - m.len()].0 == k);
                assert(ps[f - m.len()].0 != ps[ps.len() - 1].0);
                assert(false);
            }
        }
        assert(fold_pairs(m, ps) == acc.push(ps.last()));
        assert(acc.push(ps.last()) =~= m + ps);
    }
}

/// Folding pairs whose keys are all absent from the accumulator — a
/// collision-free equation, duplicate keys within the equation allowed —
/// leaves every existing entry exactly as it was: fresh keys only ever open
/// or update entries beyond the old length.
pub proof fn lemma_fresh_keys_preserve_prefix(m: Seq<(Seq<u8>, Seq<u8>)>, ps: Seq<(Seq<u8>, Seq<u8>)>)
    requires
        forall|i: int| 0 <= i < ps.len() ==> !has_key(m, #[trigger] ps[i].0),
    ensures
        fold_pairs(m, ps).len() >= m.len(),
        forall|i: int| 0 <= i < m.len() ==> fold_pairs(m, ps)[i] == m[i],
    decreases ps.len(),
{
    if ps.len() > 0 {
        let p = ps.drop_last();
        let k = ps.last().0;
        assert(forall|i: int| 0 <= i < p.len() ==> p[i] == ps[i]);
        lemma_fresh_keys_preserve_prefix(m, p);
        let acc = fold_pairs(m, p);
        lemma_find_key(acc, k);
        let f = find_key(acc, k);
        if f >= 0 && f < m.len() {
            assert(acc[f] == m[f]);
            lemma_has_key(m, k);
            assert(has_key(m, ps[ps.len() - 1].0));
            assert(false);
        }
    }
}

/// Scaling linearity for an equation whose G2 values are fresh and pairwise
/// distinct: folding the equation with every G1 value scaled by `s` yields,
/// entry for entry, exactly the scaling by `s` of what folding the unscaled
/// equation contributes, and touches no earlier entry either way. When two
/// contributions meet under one key the same claim rests on the engine's
/// distributivity of scalar multiplication over group addition, of which the
/// accumulator model says nothing.
pub proof fn lemma_scaling_linearity_disjoint(
    m: Seq<(Seq<u8>, Seq<u8>)>,
    ps: Seq<(G1Elem, G2Elem)>,
    s: Seq<u8>,
)
    requires
        forall|i: int| 0 <= i < ps.len() ==> !has_key(m, #[trigger] ps[i].1@),
        forall|i: int, j: int| 0 <= i < j < ps.len() ==> ps[i].1@ != ps[j].1@,
    ensures
        fold_pairs(m, scaled_pairs_model(ps, s)).len() == m.len() + ps.len(),
        fold_pairs(m, pairs_model(ps)).len() == m.len() + ps.len(),
        forall|i: int|
            0 <= i < m.len() ==> fold_pairs(m, scaled_pairs_model(ps, s))[i] == m[i]
                && fold_pairs(m, pairs_model(ps))[i] == m[i],
        forall|i: int|
            0 <= i < ps.len() ==> #[trigger] fold_pairs(m, scaled_pairs_model(ps, s))[m.len() + i]
                == (
                fold_pairs(m, pairs_model(ps))[m.len() + i].0,
                g1_scale_enc(fold_pairs(m, pairs_model(ps))[m.len() + i].1, s),
            ),
{
    let scaled = scaled_pairs_model(ps, s);
    let plain = pairs_model(ps);
    assert(forall|i: int| 0 <= i < ps.len() ==> (#[trigger] scaled[i]).0 == ps[i].1@);
    assert(forall|i: int| 0 <= i < ps.len() ==> (#[trigger] plain[i]).0 == ps[i].1@);
    lemma_disjoint_fold_appends(m, scaled);
    lemma_disjoint_fold_appends(m, plain);
}

} // verus!
