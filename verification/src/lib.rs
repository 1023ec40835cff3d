//! Morphological segmentation of single Arabic words.
//!
//! A word is either classified as an invariant particle (a closed set of
//! prepositions, conjunctions, pronouns, demonstratives and relative
//! pronouns), or decomposed into an ordered sequence of prefixes, a stem,
//! and an ordered sequence of suffixes by a fixed cascade of greedy,
//! length-guarded stripping rules over Unicode scalar values.

pub mod analysis;
pub mod laws;
pub mod particles;
pub mod prefixes;
pub mod suffixes;
pub mod text;
