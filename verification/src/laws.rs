//! Proved properties of the stripping cascade: the no-match identity, the
//! round trip of each prefix sub-rule, and the minimum-length guard on the
//! final stem.

use crate::analysis::{spec_prefixes_of, spec_stem_of, spec_suffixes_of};
use crate::particles::spec_is_particle;
use crate::prefixes::{
    article_full_applies, article_reduced_applies, conjunction_applies, preposition_applies,
    spec_strip_article, spec_strip_conjunctions, spec_strip_preposition, spec_strip_prefixes,
};
use crate::suffixes::{
    number_gender_applies, pronoun_suffix_applies, spec_strip_number_gender,
    spec_strip_pronoun_suffixes, spec_strip_suffixes,
};
use vstd::prelude::*;

verus! {

/// A word that is not a particle and matches no prefix or suffix rule passes
/// through the analysis unchanged: it is its own stem and both affix lists
/// are empty.
pub proof fn lemma_no_match_is_identity(w: Seq<char>)
    requires
        !spec_is_particle(w),
        !conjunction_applies(w),
        !preposition_applies(w),
        !article_full_applies(w),
        !article_reduced_applies(w),
        !pronoun_suffix_applies(w),
        !number_gender_applies(w),
    ensures
        spec_prefixes_of(w).len() == 0,
        spec_stem_of(w) == w,
        spec_suffixes_of(w).len() == 0,
{
}

/// Round trip of the conjunction rule: when it fires, the one stripped token
/// followed by the residual reproduces the input; when it does not, the
/// residual is the input itself.
pub proof fn lemma_conjunction_round_trip(w: Seq<char>)
    ensures
        conjunction_applies(w) ==> spec_strip_conjunctions(w).0.len() == 1,
        conjunction_applies(w) ==> spec_strip_conjunctions(w).0[0] + spec_strip_conjunctions(w).1
            == w,
        !conjunction_applies(w) ==> spec_strip_conjunctions(w).0.len() == 0
            && spec_strip_conjunctions(w).1 == w,
{
    if conjunction_applies(w) {
        assert(spec_strip_conjunctions(w).0[0] + spec_strip_conjunctions(w).1 =~= w);
    }
}

/// Round trip of the preposition rule: when it fires, the one stripped token
/// followed by the residual reproduces the input; when it does not, the
/// residual is the input itself.
pub proof fn lemma_preposition_round_trip(w: Seq<char>)
    ensures
        preposition_applies(w) ==> spec_strip_preposition(w).0.len() == 1,
        preposition_applies(w) ==> spec_strip_preposition(w).0[0] + spec_strip_preposition(w).1
            == w,
        !preposition_applies(w) ==> spec_strip_preposition(w).0.len() == 0
            && spec_strip_preposition(w).1 == w,
{
    if preposition_applies(w) {
        assert(spec_strip_preposition(w).0[0] + spec_strip_preposition(w).1 =~= w);
    }
}

/// Round trip of the definite-article rule: the canonical token expands back
/// to the surface form that was matched (the two characters alif-lam, or the
/// single bare lam), and that surface form followed by the residual
/// reproduces the input.
pub proof fn lemma_article_round_trip(w: Seq<char>)
    ensures
        article_full_applies(w) ==> seq!['ا', 'ل'] + spec_strip_article(w).1 == w,
        !article_full_applies(w) && article_reduced_applies(w) ==> seq!['ل']
            + spec_strip_article(w).1 == w,
        !article_full_applies(w) && !article_reduced_applies(w) ==> spec_strip_article(w).0.len()
            == 0 && spec_strip_article(w).1 == w,
{
    if article_full_applies(w) {
        assert(seq!['ا', 'ل'] + spec_strip_article(w).1 =~= w);
    } else if article_reduced_applies(w) {
        assert(seq!['ل'] + spec_strip_article(w).1 =~= w);
    }
}

/// The length guard: no rule ever reduces the live residual below two
/// characters, so whenever any stripping occurred the final stem keeps at
/// least two characters.
pub proof fn lemma_length_guard(w: Seq<char>)
    ensures
        spec_prefixes_of(w).len() > 0 || spec_suffixes_of(w).len() > 0 ==> spec_stem_of(w).len()
            >= 2,
{
    if !spec_is_particle(w) {
        let r1 = spec_strip_conjunctions(w).1;
        let r2 = spec_strip_preposition(r1).1;
        let r3 = spec_strip_article(r2).1;
        let r4 = spec_strip_pronoun_suffixes(r3).0;
        let stem = spec_strip_number_gender(r4).0;
        assert(spec_strip_conjunctions(w).0.len() > 0 ==> r1.len() >= 2);
        assert(spec_strip_preposition(r1).0.len() > 0 ==> r2.len() >= 2);
        assert(spec_strip_article(r2).0.len() > 0 ==> r3.len() >= 2);
        assert(spec_strip_pronoun_suffixes(r3).1.len() > 0 ==> r4.len() >= 2);
        assert(spec_strip_number_gender(r4).1.len() > 0 ==> stem.len() >= 2);
        assert(spec_strip_prefixes(w).1 == r3);
        assert(spec_strip_suffixes(r3).0 == stem);
    }
}

} // verus!
