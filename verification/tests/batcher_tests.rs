use ark_bls12_381::{Bls12_381, Fq12, Fr, G1Projective, G2Projective};
use ark_ec::pairing::Pairing;
use ark_ec::PrimeGroup;
use ark_ff::Field;
use ark_serialize::{CanonicalDeserialize, CanonicalSerialize};
use ark_std::{test_rng, One, UniformRand};
use std::ops::Neg;

use pairing_batcher::{FrValue, G1Elem, G1Value, G2Elem, G2Value, PairingBatcher, Scalar};

fn scalar(x: Fr) -> Scalar {
    Scalar::from_value(FrValue(x))
}

fn g1(p: G1Projective) -> G1Elem {
    G1Elem::from_value(G1Value(p))
}

fn g2(p: G2Projective) -> G2Elem {
    G2Elem::from_value(G2Value(p))
}

fn ser_g1(p: G1Projective) -> Vec<u8> {
    let mut out = Vec::new();
    p.serialize_compressed(&mut out).unwrap();
    out
}

fn ser_g2(p: G2Projective) -> Vec<u8> {
    let mut out = Vec::new();
    p.serialize_compressed(&mut out).unwrap();
    out
}

fn ser_fr(x: Fr) -> Vec<u8> {
    let mut out = Vec::new();
    x.serialize_compressed(&mut out).unwrap();
    out
}

#[test]
fn test() {
    /*
        e(a, b) = e(c, d)
        e(j, b) = e(f, g)
        e(e, d) = e(h, b)
    */

    let mut rng = test_rng();

    let a = Fr::rand(&mut rng);
    let b = Fr::rand(&mut rng);
    let c = Fr::rand(&mut rng);
    let d = a * b * c.inverse().unwrap();
    let f = Fr::rand(&mut rng);
    let j = Fr::rand(&mut rng);
    let g = j * b * f.inverse().unwrap();
    let e = Fr::rand(&mut rng);
    let h = e * d * b.inverse().unwrap();

    let a: G1Projective = G1Projective::generator() * a;
    let b: G2Projective = G2Projective::generator() * b;
    let c: G1Projective = G1Projective::generator() * c;
    let d: G2Projective = G2Projective::generator() * d;
    let j: G1Projective = G1Projective::generator() * j;
    let f: G1Projective = G1Projective::generator() * f;
    let g: G2Projective = G2Projective::generator() * g;
    let e: G1Projective = G1Projective::generator() * e;
    let h: G1Projective = G1Projective::generator() * h;

    // Manual Miller loop
    {
        let mlo = Bls12_381::multi_miller_loop(
            vec![a, c.neg(), j, f.neg(), e, h.neg()],
            vec![b, d, b, g, d, b],
        );

        let pairing_result = Bls12_381::final_exponentiation(mlo);
        assert_eq!(pairing_result.unwrap().0, Fq12::one());
    }

    {
        // Batched test
        let mut pairing_batcher = PairingBatcher::new(scalar(Fr::rand(&mut rng)));

        pairing_batcher.add_pairing(&vec![(g1(a), g2(b)), (g1(c.neg()), g2(d))]);
        pairing_batcher.add_pairing(&vec![(g1(j), g2(b)), (g1(f.neg()), g2(g))]);
        pairing_batcher.add_pairing(&vec![(g1(e), g2(d)), (g1(h.neg()), g2(b))]);

        let batched_tuples = pairing_batcher.finalize();
        /*
            e(a, b) = e(c, d)
            e(j, b) = e(f, g)
            e(e, d) = e(h, b)

            ==>

            e(a + [R]j + [R^2]h, b).e(c + [R^2]e, d).e([R]f, g)
        */
        assert_eq!(3, batched_tuples.0.len());

        let mlo = Bls12_381::multi_miller_loop(
            batched_tuples.0.into_iter().map(|p| p.0),
            batched_tuples.1.into_iter().map(|p| p.0),
        );
        let pairing_result = Bls12_381::final_exponentiation(mlo);
        assert_eq!(pairing_result.unwrap().0, Fq12::one());
    }
}

#[test]
fn fresh_finalize_is_empty() {
    let mut rng = test_rng();
    let batcher = PairingBatcher::new(scalar(Fr::rand(&mut rng)));
    let (g1s, g2s) = batcher.finalize();
    assert_eq!(g1s.len(), 0);
    assert_eq!(g2s.len(), 0);
    assert_eq!(batcher.len(), 0);
}

#[test]
fn fresh_running_is_one() {
    let mut rng = test_rng();
    let batcher = PairingBatcher::new(scalar(Fr::rand(&mut rng)));
    assert_eq!(batcher.running_encoding().as_slice(), ser_fr(Fr::one()).as_slice());
}

#[test]
fn no_collision_keeps_g1_unscaled() {
    let mut rng = test_rng();
    let mut batcher = PairingBatcher::new(scalar(Fr::rand(&mut rng)));

    let a1 = G1Projective::rand(&mut rng);
    let a2 = G1Projective::rand(&mut rng);
    let a3 = G1Projective::rand(&mut rng);
    let b1 = G2Projective::rand(&mut rng);
    let b2 = G2Projective::rand(&mut rng);
    let b3 = G2Projective::rand(&mut rng);

    batcher.add_pairing(&vec![(g1(a1), g2(b1)), (g1(a2), g2(b2))]);
    batcher.add_pairing(&vec![(g1(a3), g2(b3))]);

    assert_eq!(batcher.len(), 3);
    assert_eq!(batcher.entry_key(0).as_slice(), ser_g2(b1).as_slice());
    assert_eq!(batcher.entry_key(1).as_slice(), ser_g2(b2).as_slice());
    assert_eq!(batcher.entry_key(2).as_slice(), ser_g2(b3).as_slice());
    assert_eq!(batcher.entry_value(0).as_slice(), ser_g1(a1).as_slice());
    assert_eq!(batcher.entry_value(1).as_slice(), ser_g1(a2).as_slice());
    assert_eq!(batcher.entry_value(2).as_slice(), ser_g1(a3).as_slice());
    // the running challenge power never advanced
    assert_eq!(batcher.running_encoding().as_slice(), ser_fr(Fr::one()).as_slice());
}

#[test]
fn collision_advances_once_and_scales() {
    let mut rng = test_rng();
    let challenge = Fr::rand(&mut rng);
    let mut batcher = PairingBatcher::new(scalar(challenge));

    let a = G1Projective::rand(&mut rng);
    let j = G1Projective::rand(&mut rng);
    let f = G1Projective::rand(&mut rng);
    let b = G2Projective::rand(&mut rng);
    let g = G2Projective::rand(&mut rng);

    batcher.add_pairing(&vec![(g1(a), g2(b))]);
    // reuses b: a collision, so the whole equation is scaled by 1 * challenge
    batcher.add_pairing(&vec![(g1(j), g2(b)), (g1(f), g2(g))]);

    let r = Fr::one() * challenge;
    assert_eq!(batcher.running_encoding().as_slice(), ser_fr(r).as_slice());
    assert_eq!(batcher.len(), 2);
    assert_eq!(batcher.entry_key(0).as_slice(), ser_g2(b).as_slice());
    assert_eq!(batcher.entry_value(0).as_slice(), ser_g1(a + j * r).as_slice());
    assert_eq!(batcher.entry_key(1).as_slice(), ser_g2(g).as_slice());
    assert_eq!(batcher.entry_value(1).as_slice(), ser_g1(f * r).as_slice());
}

#[test]
fn duplicate_g2_within_equation_merges() {
    let mut rng = test_rng();
    let mut batcher = PairingBatcher::new(scalar(Fr::rand(&mut rng)));

    let a = G1Projective::rand(&mut rng);
    let c = G1Projective::rand(&mut rng);
    let b = G2Projective::rand(&mut rng);

    // fresh accumulator: no collision, both terms fold unscaled into one entry
    batcher.add_pairing(&vec![(g1(a), g2(b)), (g1(c), g2(b))]);

    assert_eq!(batcher.len(), 1);
    assert_eq!(batcher.entry_key(0).as_slice(), ser_g2(b).as_slice());
    assert_eq!(batcher.entry_value(0).as_slice(), ser_g1(a + c).as_slice());
    assert_eq!(batcher.running_encoding().as_slice(), ser_fr(Fr::one()).as_slice());
}

#[test]
fn empty_equation_folds_nothing() {
    let mut rng = test_rng();
    let mut batcher = PairingBatcher::new(scalar(Fr::rand(&mut rng)));
    batcher.add_pairing(&vec![]);
    assert_eq!(batcher.len(), 0);
    assert_eq!(batcher.running_encoding().as_slice(), ser_fr(Fr::one()).as_slice());
}

#[test]
fn finalize_is_deterministic() {
    let mut rng = test_rng();
    let mut batcher = PairingBatcher::new(scalar(Fr::rand(&mut rng)));

    let a = G1Projective::rand(&mut rng);
    let j = G1Projective::rand(&mut rng);
    let b = G2Projective::rand(&mut rng);
    let g = G2Projective::rand(&mut rng);

    batcher.add_pairing(&vec![(g1(a), g2(b))]);
    batcher.add_pairing(&vec![(g1(j), g2(b)), (g1(j), g2(g))]);

    let first = batcher.finalize();
    let second = batcher.finalize();
    assert_eq!(first.0.len(), second.0.len());
    assert_eq!(first.1.len(), second.1.len());
    for i in 0..first.0.len() {
        assert_eq!(first.0[i].0, second.0[i].0);
        assert_eq!(first.1[i].0, second.1[i].0);
    }
}

#[test]
fn scaling_before_fold_matches_scaling_after() {
    let mut rng = test_rng();
    let s = Fr::rand(&mut rng);

    let a1 = G1Projective::rand(&mut rng);
    let a2 = G1Projective::rand(&mut rng);
    let b1 = G2Projective::rand(&mut rng);
    let b2 = G2Projective::rand(&mut rng);

    let challenge = Fr::rand(&mut rng);
    let mut scaled_first = PairingBatcher::new(scalar(challenge));
    scaled_first.add_pairing(&vec![(g1(a1 * s), g2(b1)), (g1(a2 * s), g2(b2))]);

    let mut scaled_after = PairingBatcher::new(scalar(challenge));
    scaled_after.add_pairing(&vec![(g1(a1), g2(b1)), (g1(a2), g2(b2))]);

    assert_eq!(scaled_first.len(), scaled_after.len());
    for i in 0..scaled_first.len() {
        assert_eq!(scaled_first.entry_key(i).as_slice(), scaled_after.entry_key(i).as_slice());
        let folded =
            G1Projective::deserialize_compressed(scaled_after.entry_value(i).as_slice()).unwrap();
        assert_eq!(scaled_first.entry_value(i).as_slice(), ser_g1(folded * s).as_slice());
    }
}
