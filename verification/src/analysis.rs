//! The analysis assembler: classifies the word as a particle or runs it
//! through the prefix cascade and then the suffix cascade, and packs the
//! outcome into one result record.

use crate::particles::{is_particle, spec_is_particle};
use crate::prefixes::{spec_strip_prefixes, strip_prefixes};
use crate::suffixes::{spec_strip_suffixes, strip_suffixes};
use vstd::prelude::*;

verus! {

/// The analysis of one word. Constructed fresh per call and never mutated.
pub struct AnalysisResult {
    /// The input word, verbatim.
    pub original: String,
    /// Detected prefix morphemes, leftmost first.
    pub prefixes: Vec<String>,
    /// The residual word after all prefix and suffix stripping.
    pub stem: String,
    /// Detected suffix morphemes in detection order: attached pronoun first,
    /// then number/gender marker.
    pub suffixes: Vec<String>,
    /// Root extraction is out of scope; always absent.
    pub root: Option<String>,
    /// Template/pattern extraction is out of scope; always absent.
    pub pattern: Option<String>,
    /// The word is an invariant particle; if so, no stripping was attempted.
    pub is_particle: bool,
}

/// The stem that the analysis assigns to `w`: the word itself for a
/// particle, otherwise the residual of the prefix cascade followed by the
/// suffix cascade.
pub open spec fn spec_stem_of(w: Seq<char>) -> Seq<char> {
    if spec_is_particle(w) {
        w
    } else {
        spec_strip_suffixes(spec_strip_prefixes(w).1).0
    }
}

/// The prefix tokens that the analysis assigns to `w`.
pub open spec fn spec_prefixes_of(w: Seq<char>) -> Seq<Seq<char>> {
    if spec_is_particle(w) {
        Seq::empty()
    } else {
        spec_strip_prefixes(w).0
    }
}

/// The suffix tokens that the analysis assigns to `w`.
pub open spec fn spec_suffixes_of(w: Seq<char>) -> Seq<Seq<char>> {
    if spec_is_particle(w) {
        Seq::empty()
    } else {
        spec_strip_suffixes(spec_strip_prefixes(w).1).1
    }
}

/// Analyzes one word. Total over every input string: a word that matches no
/// rule passes through as its own stem with empty affix lists.
pub fn analyze_word(word: &str) -> (res: AnalysisResult)
    ensures
        res.original@ == word@,
        res.is_particle == spec_is_particle(word@),
        res.prefixes.deep_view() == spec_prefixes_of(word@),
        res.stem@ == spec_stem_of(word@),
        res.suffixes.deep_view() == spec_suffixes_of(word@),
        res.root is None,
        res.pattern is None,
{
    if is_particle(word) {
        let prefixes: Vec<String> = vec![];
        let suffixes: Vec<String> = vec![];
        proof {
            assert(prefixes.deep_view() =~= spec_prefixes_of(word@));
            assert(suffixes.deep_view() =~= spec_suffixes_of(word@));
        }
        AnalysisResult {
            original: word.to_owned(),
            prefixes,
            stem: word.to_owned(),
            suffixes,
            root: None,
            pattern: None,
            is_particle: true,
        }
    } else {
        let (prefixes, rem) = strip_prefixes(word);
        let (stem, suffixes) = strip_suffixes(rem.as_str());
        AnalysisResult {
            original: word.to_owned(),
            prefixes,
            stem,
            suffixes,
            root: None,
            pattern: None,
            is_particle: false,
        }
    }
}

} // verus!
