//! Accumulation of pairing equations into a single multi-pairing input.

use vstd::prelude::*;
use crate::engine::fr_mul_enc;
use crate::engine::fr_one_enc;
use crate::engine::g1_add_enc;
use crate::engine::g1_add_elem;
use crate::engine::g1_clone_elem;
use crate::engine::g1_prepare;
use crate::engine::g1_prep_of;
use crate::engine::g1_scale_elem;
use crate::engine::g1_scale_enc;
use crate::engine::g2_clone_elem;
use crate::engine::g2_prepare;
use crate::engine::g2_prep_of;
use crate::engine::scalar_mul;
use crate::engine::scalar_one;
use crate::engine::G1Elem;
use crate::engine::G2Elem;
use crate::engine::PreparedG1;
use crate::engine::PreparedG2;
use crate::engine::Scalar;
use crate::model::any_key_present;
use crate::model::find_key;
use crate::model::fold_entry;
use crate::model::fold_pairs;
use crate::model::has_key;
use crate::model::lemma_find_key;
use crate::model::lemma_fold_entry_wf;
use crate::model::pairs_model;
use crate::model::scaled_pairs_model;
use crate::model::zip_model;

verus! {

/// The Miller-loop-ready form of each accumulator value, entry by entry.
pub open spec fn prepared_g1s(m: Seq<(Seq<u8>, Seq<u8>)>) -> Seq<PreparedG1> {
    Seq::new(m.len(), |i: int| g1_prep_of(m[i].1))
}

/// The Miller-loop-ready form of each accumulator key, entry by entry.
pub open spec fn prepared_g2s(m: Seq<(Seq<u8>, Seq<u8>)>) -> Seq<PreparedG2> {
    Seq::new(m.len(), |i: int| g2_prep_of(m[i].0))
}

/// Compares two byte vectors for equality of their contents.
fn bytes_eq(a: &Vec<u8>, b: &Vec<u8>) -> (r: bool)
    ensures
        r == (a@ == b@),
{
    if a.len() != b.len() {
        assert(a@ != b@);
        return false;
    }
    let mut i: usize = 0;
    while i < a.len()
        invariant
            0 <= i <= a.len(),
            a@.len() == b@.len(),
            forall|j: int| 0 <= j < i ==> a@[j] == b@[j],
        decreases a.len() - i,
    {
        if a[i] != b[i] {
            return false;
        }
        i += 1;
    }
    proof {
        assert(a@ =~= b@);
    }
    true
}

/// Folds pairing equations e(A, B) = identity into one accumulator, keyed by
/// the equations' G2 points, so that a whole batch of equations can be
/// checked with a single multi-Miller-loop and final exponentiation.
///
/// The caller supplies a nonzero random challenge at construction. A zero
/// challenge is not rejected, but it collapses every collision-scaled term
/// to the group identity and so makes the combined check unsound; a
/// challenge that the submitted equations could depend on voids the
/// soundness argument as well. Both are misuse, not run-time errors.
pub struct PairingBatcher {
    /// Accumulator keys: the distinct G2 points seen so far, in insertion
    /// order.
    g2_entries: Vec<G2Elem>,
    /// Accumulator values: for each key, the G1 sum of the contributions
    /// folded under it, at matching positions.
    g1_entries: Vec<G1Elem>,
    /// The fixed random challenge.
    challenge: Scalar,
    /// The power of the challenge applied to newly folded equations.
    running_challenge: Scalar,
}

impl PairingBatcher {
    /// The accumulator's contents: one (G2 encoding, G1 encoding) entry per
    /// distinct G2 key, in insertion order.
    pub closed spec fn entries(&self) -> Seq<(Seq<u8>, Seq<u8>)> {
        Seq::new(self.g2_entries@.len(), |i: int| (self.g2_entries@[i]@, self.g1_entries@[i]@))
    }

    /// The canonical encoding of the fixed challenge.
    pub closed spec fn challenge_enc(&self) -> Seq<u8> {
        self.challenge@
    }

    /// The canonical encoding of the running challenge power.
    pub closed spec fn running_enc(&self) -> Seq<u8> {
        self.running_challenge@
    }

    /// Well-formedness: keys and values stand in matching positions, and the
    /// accumulator holds at most one entry per G2 key.
    pub closed spec fn wf(&self) -> bool {
        &&& self.g2_entries@.len() == self.g1_entries@.len()
        &&& forall|i: int, j: int|
            0 <= i < j < self.g2_entries@.len() ==> self.g2_entries@[i]@ != self.g2_entries@[j]@
    }

    /// A fresh batcher: an empty accumulator, the given challenge, and a
    /// running challenge power at the multiplicative identity.
    pub fn new(challenge: Scalar) -> (r: PairingBatcher)
        ensures
            r.wf(),
            r.entries().len() == 0,
            r.challenge_enc() == challenge@,
            r.running_enc() == fr_one_enc(),
    {
        PairingBatcher {
            g2_entries: Vec::new(),
            g1_entries: Vec::new(),
            challenge,
            running_challenge: scalar_one(),
        }
    }

    /// The index of the accumulator entry keyed by `key`, if any.
    fn find_entry(&self, key: &Vec<u8>) -> (r: Option<usize>)
        ensures
            match r {
                Option::Some(j) => find_key(self.entries(), key@) == j,
                Option::None => find_key(self.entries(), key@) == -1,
            },
    {
        let mut j: usize = 0;
        while j < self.g2_entries.len()
            invariant
                0 <= j <= self.g2_entries@.len(),
                forall|i: int| 0 <= i < j ==> self.entries()[i].0 != key@,
            decreases self.g2_entries@.len() - j,
        {
            if bytes_eq(self.g2_entries[j].encoding(), key) {
                proof {
                    lemma_find_key(self.entries(), key@);
                    let f = find_key(self.entries(), key@);
                    assert(self.entries()[j as int].0 == key@);
                    if f == -1 {
                        assert(self.entries()[j as int].0 != key@);
                    } else if f < j {
                        assert(self.entries()[f].0 != key@);
                        assert(self.entries()[f].0 == key@);
                    } else if f > j {
                        assert(self.entries()[j as int].0 != key@);
                    }
                }
                return Option::Some(j);
            }
            j += 1;
        }
        proof {
            lemma_find_key(self.entries(), key@);
            let f = find_key(self.entries(), key@);
            if f != -1 {
                assert(self.entries()[f].0 == key@);
                assert(self.entries()[f].0 != key@);
            }
        }
        Option::None
    }

    /// Folds the given parallel (G2 key, G1 value) lists into the
    /// accumulator: a value whose key is already present is added into that
    /// entry, a value under a fresh key opens a new entry at the end.
    fn update_mapping(&mut self, g2_points: &Vec<G2Elem>, g1_points: &Vec<G1Elem>)
        requires
            old(self).wf(),
            g2_points@.len() == g1_points@.len(),
        ensures
            final(self).wf(),
            final(self).entries() == fold_pairs(
                old(self).entries(),
                zip_model(g2_points@, g1_points@),
            ),
            final(self).challenge_enc() == old(self).challenge_enc(),
            final(self).running_enc() == old(self).running_enc(),
    {
        let ghost m0 = old(self).entries();
        let ghost zs = zip_model(g2_points@, g1_points@);
        let mut i: usize = 0;
        while i < g2_points.len()
            invariant
                0 <= i <= g2_points@.len(),
                g2_points@.len() == g1_points@.len(),
                zs == zip_model(g2_points@, g1_points@),
                self.wf(),
                self.entries() == fold_pairs(m0, zs.take(i as int)),
                self.challenge_enc() == old(self).challenge_enc(),
                self.running_enc() == old(self).running_enc(),
            decreases g2_points@.len() - i,
        {
            let key: &Vec<u8> = g2_points[i].encoding();
            let ghost cur = self.entries();
            proof {
                assert(zs.take(i + 1).drop_last() =~= zs.take(i as int));
                assert(zs.take(i + 1).last() == zs[i as int]);
                assert(zs[i as int] == (g2_points@[i as int]@, g1_points@[i as int]@));
            }
            match self.find_entry(key) {
                Option::Some(j) => {
                    proof {
                        lemma_find_key(cur, key@);
                        lemma_fold_entry_wf(cur, key@, g1_points@[i as int]@);
                    }
                    let summed = g1_add_elem(&self.g1_entries[j], &g1_points[i]);
                    self.g1_entries.set(j, summed);
                    proof {
                        assert(cur[j as int].0 == key@);
                        assert(self.entries() =~~= cur.update(
                            j as int,
                            (key@, g1_add_enc(cur[j as int].1, g1_points@[i as int]@)),
                        ));
                        assert(self.entries() == fold_entry(cur, key@, g1_points@[i as int]@));
                    }
                },
                Option::None => {
                    proof {
                        lemma_find_key(cur, key@);
                    }
                    let g2_new = g2_clone_elem(&g2_points[i]);
                    let g1_new = g1_clone_elem(&g1_points[i]);
                    self.g2_entries.push(g2_new);
                    self.g1_entries.push(g1_new);
                    proof {
                        assert(self.entries() =~~= cur.push((key@, g1_points@[i as int]@)));
                        assert(self.entries() == fold_entry(cur, key@, g1_points@[i as int]@));
                        assert forall|a: int, b: int|
                            0 <= a < b < self.g2_entries@.len() implies self.g2_entries@[a]@
                            != self.g2_entries@[b]@ by {
                            if b == self.g2_entries@.len() - 1 {
                                assert(cur[a].0 == self.g2_entries@[a]@);
                                assert(cur[a].0 != key@);
                            }
                        }
                    }
                },
            }
            proof {
                assert(self.entries() == fold_pairs(m0, zs.take(i + 1)));
            }
            i += 1;
        }
        proof {
            assert(zs.take(zs.len() as int) =~= zs);
        }
    }

    /// Adds one pairing equation, given as its (G1, G2) point pairs, to the
    /// batch.
    ///
    /// When none of the equation's G2 points is a key of the accumulator,
    /// the equation's G1 points are folded in unscaled and the running
    /// challenge power is left alone. As soon as any of them is already a
    /// key — a collision — the running challenge power advances once, by one
    /// multiplication with the fixed challenge, and every G1 point of this
    /// equation, colliding or not, is scaled by the advanced power before it
    /// is folded in.
    pub fn add_pairing(&mut self, pairs: &Vec<(G1Elem, G2Elem)>)
        requires
            old(self).wf(),
        ensures
            final(self).wf(),
            final(self).challenge_enc() == old(self).challenge_enc(),
            any_key_present(old(self).entries(), pairs_model(pairs@)) ==> {
                &&& final(self).running_enc() == fr_mul_enc(
                    old(self).running_enc(),
                    old(self).challenge_enc(),
                )
                &&& final(self).entries() == fold_pairs(
                    old(self).entries(),
                    scaled_pairs_model(
                        pairs@,
                        fr_mul_enc(old(self).running_enc(), old(self).challenge_enc()),
                    ),
                )
            },
            !any_key_present(old(self).entries(), pairs_model(pairs@)) ==> {
                &&& final(self).running_enc() == old(self).running_enc()
                &&& final(self).entries() == fold_pairs(old(self).entries(), pairs_model(pairs@))
            },
    {
        let mut collided: bool = false;
        let mut i: usize = 0;
        while i < pairs.len()
            invariant
                0 <= i <= pairs@.len(),
                *self == *old(self),
                collided == exists|j: int|
                    0 <= j < i && has_key(old(self).entries(), pairs@[j].1@),
            decreases pairs@.len() - i,
        {
            if !collided {
                match self.find_entry(pairs[i].1.encoding()) {
                    Option::Some(_) => {
                        collided = true;
                        assert(has_key(old(self).entries(), pairs@[i as int].1@));
                    },
                    Option::None => {
                        assert(!has_key(old(self).entries(), pairs@[i as int].1@));
                    },
                }
            }
            i += 1;
        }
        proof {
            let m = old(self).entries();
            let ps = pairs_model(pairs@);
            if collided {
                let j = choose|j: int| 0 <= j < pairs@.len() && has_key(m, pairs@[j].1@);
                assert(ps[j].0 == pairs@[j].1@);
                assert(any_key_present(m, ps));
            } else if any_key_present(m, ps) {
                let j = choose|j: int| 0 <= j < ps.len() && has_key(m, ps[j].0);
                assert(ps[j].0 == pairs@[j].1@);
                assert(false);
            }
            assert(collided == any_key_present(m, ps));
        }
        if collided {
            let advanced = scalar_mul(&self.running_challenge, &self.challenge);
            self.running_challenge = advanced;
        }
        let ghost scale = self.running_challenge@;
        let mut g2_points: Vec<G2Elem> = Vec::new();
        let mut g1_points: Vec<G1Elem> = Vec::new();
        let mut i: usize = 0;
        while i < pairs.len()
            invariant
                0 <= i <= pairs@.len(),
                self.g2_entries == old(self).g2_entries,
                self.g1_entries == old(self).g1_entries,
                self.challenge == old(self).challenge,
                self.running_challenge@ == scale,
                g2_points@.len() == i,
                g1_points@.len() == i,
                forall|j: int| 0 <= j < i ==> g2_points@[j]@ == pairs@[j].1@,
                collided ==> forall|j: int|
                    0 <= j < i ==> g1_points@[j]@ == g1_scale_enc(pairs@[j].0@, scale),
                !collided ==> forall|j: int| 0 <= j < i ==> g1_points@[j]@ == pairs@[j].0@,
            decreases pairs@.len() - i,
        {
            let pair = &pairs[i];
            g2_points.push(g2_clone_elem(&pair.1));
            if collided {
                g1_points.push(g1_scale_elem(&pair.0, &self.running_challenge));
            } else {
                g1_points.push(g1_clone_elem(&pair.0));
            }
            i += 1;
        }
        proof {
            if collided {
                assert(zip_model(g2_points@, g1_points@) =~~= scaled_pairs_model(pairs@, scale));
            } else {
                assert(zip_model(g2_points@, g1_points@) =~~= pairs_model(pairs@));
            }
        }
        self.update_mapping(&g2_points, &g1_points);
    }

    /// Reads the accumulator out as two equal-length sequences of
    /// Miller-loop-ready points, one (G1, G2) pair per entry, in matching
    /// positions and in insertion order. The caller feeds the two sequences
    /// into the engine's multi-Miller-loop and final exponentiation; the
    /// batched check passes exactly when that result is the target group's
    /// identity. Reading is free of side effects: an unmodified batcher
    /// yields the same two sequences again.
    pub fn finalize(&self) -> (r: (Vec<PreparedG1>, Vec<PreparedG2>))
        requires
            self.wf(),
        ensures
            r.0@ == prepared_g1s(self.entries()),
            r.1@ == prepared_g2s(self.entries()),
            r.0@.len() == self.entries().len(),
            r.1@.len() == self.entries().len(),
    {
        let mut g1_prepared: Vec<PreparedG1> = Vec::new();
        let mut g2_prepared: Vec<PreparedG2> = Vec::new();
        let mut i: usize = 0;
        while i < self.g2_entries.len()
            invariant
                0 <= i <= self.g2_entries@.len(),
                self.wf(),
                g1_prepared@.len() == i,
                g2_prepared@.len() == i,
                forall|j: int| 0 <= j < i ==> g1_prepared@[j] == g1_prep_of(self.entries()[j].1),
                forall|j: int| 0 <= j < i ==> g2_prepared@[j] == g2_prep_of(self.entries()[j].0),
            decreases self.g2_entries@.len() - i,
        {
            g1_prepared.push(g1_prepare(&self.g1_entries[i]));
            g2_prepared.push(g2_prepare(&self.g2_entries[i]));
            i += 1;
        }
        proof {
            assert(g1_prepared@ =~= prepared_g1s(self.entries()));
            assert(g2_prepared@ =~= prepared_g2s(self.entries()));
        }
        (g1_prepared, g2_prepared)
    }

    /// The number of accumulator entries: the number of distinct G2 keys
    /// folded so far.
    pub fn len(&self) -> (r: usize)
        ensures
            r == self.entries().len(),
    {
        self.g2_entries.len()
    }

    /// The canonical encoding of the G2 key of entry `i`.
    pub fn entry_key(&self, i: usize) -> (r: &Vec<u8>)
        requires
            i < self.entries().len(),
        ensures
            r@ == self.entries()[i as int].0,
    {
        self.g2_entries[i].encoding()
    }

    /// The canonical encoding of the accumulated G1 value of entry `i`.
    pub fn entry_value(&self, i: usize) -> (r: &Vec<u8>)
        requires
            self.wf(),
            i < self.entries().len(),
        ensures
            r@ == self.entries()[i as int].1,
    {
        self.g1_entries[i].encoding()
    }

    /// The canonical encoding of the running challenge power.
    pub fn running_encoding(&self) -> (r: &Vec<u8>)
        ensures
            r@ == self.running_enc(),
    {
        self.running_challenge.encoding()
    }
}

} // verus!
