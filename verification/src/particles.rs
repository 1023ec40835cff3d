//! The particle classifier: an exact whole-word membership test against a
//! fixed closed set of invariant Arabic words.

use crate::text::str_eq;
use vstd::prelude::*;

verus! {

/// `w` is one of the core prepositions.
pub open spec fn is_preposition_particle(w: Seq<char>) -> bool {
    ||| w == "في"@
    ||| w == "على"@
    ||| w == "من"@
    ||| w == "إلى"@
    ||| w == "عن"@
    ||| w == "مع"@
    ||| w == "حتى"@
}

/// `w` is one of the coordinating conjunctions.
pub open spec fn is_conjunction_particle(w: Seq<char>) -> bool {
    ||| w == "أو"@
    ||| w == "أم"@
    ||| w == "لكن"@
    ||| w == "بل"@
    ||| w == "ثم"@
}

/// `w` is one of the personal pronouns.
pub open spec fn is_pronoun_particle(w: Seq<char>) -> bool {
    ||| w == "هو"@
    ||| w == "هي"@
    ||| w == "هم"@
    ||| w == "هن"@
    ||| w == "أنت"@
    ||| w == "أنتم"@
    ||| w == "أنتن"@
    ||| w == "أنا"@
    ||| w == "نحن"@
    ||| w == "أنتِ"@
}

/// `w` is one of the demonstratives.
pub open spec fn is_demonstrative_particle(w: Seq<char>) -> bool {
    ||| w == "هذا"@
    ||| w == "هذه"@
    ||| w == "ذلك"@
    ||| w == "تلك"@
    ||| w == "هؤلاء"@
}

/// `w` is one of the relative pronouns.
pub open spec fn is_relative_particle(w: Seq<char>) -> bool {
    ||| w == "الذي"@
    ||| w == "التي"@
    ||| w == "الذين"@
    ||| w == "اللذان"@
    ||| w == "اللتان"@
    ||| w == "اللواتي"@
}

/// `w` is an invariant particle: a member of the closed set of prepositions,
/// conjunctions, personal pronouns, demonstratives and relative pronouns.
pub open spec fn spec_is_particle(w: Seq<char>) -> bool {
    ||| is_preposition_particle(w)
    ||| is_conjunction_particle(w)
    ||| is_pronoun_particle(w)
    ||| is_demonstrative_particle(w)
    ||| is_relative_particle(w)
}

/// Whether `word` exactly matches one entry of the fixed particle set.
/// No partial match and no normalization of spelling variants.
pub fn is_particle(word: &str) -> (r: bool)
    ensures
        r == spec_is_particle(word@),
{
    str_eq(word, "في") || str_eq(word, "على") || str_eq(word, "من") || str_eq(word, "إلى")
        || str_eq(word, "عن") || str_eq(word, "مع") || str_eq(word, "حتى") || str_eq(word, "أو")
        || str_eq(word, "أم") || str_eq(word, "لكن") || str_eq(word, "بل") || str_eq(word, "ثم")
        || str_eq(word, "هو") || str_eq(word, "هي") || str_eq(word, "هم") || str_eq(word, "هن")
        || str_eq(word, "أنت") || str_eq(word, "أنتم") || str_eq(word, "أنتن") || str_eq(
        word,
        "أنا",
    ) || str_eq(word, "نحن") || str_eq(word, "أنتِ") || str_eq(word, "هذا") || str_eq(word, "هذه")
        || str_eq(word, "ذلك") || str_eq(word, "تلك") || str_eq(word, "هؤلاء") || str_eq(
        word,
        "الذي",
    ) || str_eq(word, "التي") || str_eq(word, "الذين") || str_eq(word, "اللذان") || str_eq(
        word,
        "اللتان",
    ) || str_eq(word, "اللواتي")
}

} // verus!
