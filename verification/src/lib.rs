//! Batching of bilinear-pairing equality checks.
//!
//! A [`PairingBatcher`] folds many pairing equations, each given as a list
//! of (G1, G2) point pairs whose pairing product is asserted to be the
//! identity, into one accumulator keyed by the equations' G2 points. A
//! verifier-supplied random challenge makes the combined check sound: as
//! soon as an incoming equation shares a G2 point with the accumulator, the
//! equation is scaled by a fresh power of the challenge before it is folded
//! in. `finalize` reads the accumulator out as two matching sequences of
//! Miller-loop-ready points for a single multi-pairing evaluation by the
//! outside engine.

mod batcher;
mod engine;
mod laws;
mod model;

pub use batcher::prepared_g1s;
pub use batcher::prepared_g2s;
pub use batcher::PairingBatcher;
pub use engine::fr_mul_enc;
pub use engine::fr_one_enc;
pub use engine::g1_add_enc;
pub use engine::g1_prep_of;
pub use engine::g1_scale_enc;
pub use engine::g2_prep_of;
pub use engine::FrValue;
pub use engine::G1Elem;
pub use engine::G1Value;
pub use engine::G2Elem;
pub use engine::G2Value;
pub use engine::PreparedG1;
pub use engine::PreparedG2;
pub use engine::Scalar;
pub use laws::lemma_disjoint_fold_appends;
pub use laws::lemma_finalize_deterministic;
pub use laws::lemma_fresh_keys_preserve_prefix;
pub use laws::lemma_scaling_linearity_disjoint;
pub use laws::lemma_vacuous_finalize;
pub use model::any_key_present;
pub use model::find_key;
pub use model::fold_entry;
pub use model::fold_pairs;
pub use model::has_key;
pub use model::lemma_find_key;
pub use model::lemma_has_key;
pub use model::pairs_model;
pub use model::scaled_pairs_model;
pub use model::zip_model;
