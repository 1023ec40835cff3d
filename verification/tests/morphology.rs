use arabic_morph::analysis::analyze_word;
use arabic_morph::particles::is_particle;
use arabic_morph::prefixes::{strip_article, strip_conjunctions, strip_preposition, strip_prefixes};
use arabic_morph::suffixes::{strip_number_gender, strip_pronoun_suffixes, strip_suffixes};

#[test]
fn test_is_particle_prepositions() {
    assert!(is_particle("في"));
    assert!(is_particle("على"));
    assert!(is_particle("من"));
}

#[test]
fn test_is_particle_pronouns() {
    assert!(is_particle("هو"));
    assert!(is_particle("هذا"));
}

#[test]
fn test_is_particle_false() {
    assert!(!is_particle("كتاب"));
    assert!(!is_particle("مدرسة"));
}

#[test]
fn test_strip_prefixes_single() {
    let (prefixes, stem) = strip_prefixes("بالكتاب");
    assert_eq!(prefixes, vec!["ب", "ال"]);
    assert_eq!(stem, "كتاب");
}

#[test]
fn test_strip_prefixes_conjunction() {
    let (prefixes, stem) = strip_prefixes("والمدرسة");
    assert_eq!(prefixes, vec!["و", "ال"]);
    assert_eq!(stem, "مدرسة");
}

#[test]
fn test_strip_prefixes_lam_article() {
    let (prefixes, stem) = strip_prefixes("للمعلم");
    assert_eq!(prefixes, vec!["ل", "ال"]);
    assert_eq!(stem, "معلم");
}

#[test]
fn test_strip_prefixes_combined() {
    let (prefixes, stem) = strip_prefixes("وبالكتاب");
    assert_eq!(prefixes, vec!["و", "ب", "ال"]);
    assert_eq!(stem, "كتاب");
}

#[test]
fn test_strip_prefixes_none() {
    let (prefixes, stem) = strip_prefixes("كتاب");
    assert_eq!(prefixes.len(), 0);
    assert_eq!(stem, "كتاب");
}

#[test]
fn test_strip_suffixes_pronoun() {
    let (stem, suffixes) = strip_suffixes("كتابها");
    assert_eq!(stem, "كتاب");
    assert_eq!(suffixes, vec!["ها"]);
}

#[test]
fn test_strip_suffixes_plural() {
    let (stem, suffixes) = strip_suffixes("معلمون");
    assert_eq!(stem, "معلم");
    assert_eq!(suffixes, vec!["ون"]);
}

#[test]
fn test_strip_suffixes_feminine_plural() {
    let (stem, suffixes) = strip_suffixes("طالبات");
    assert_eq!(stem, "طالب");
    assert_eq!(suffixes, vec!["ات"]);
}

#[test]
fn test_strip_suffixes_none() {
    let (stem, suffixes) = strip_suffixes("كتاب");
    assert_eq!(stem, "كتاب");
    assert_eq!(suffixes.len(), 0);
}

#[test]
fn test_analyze_word_full() {
    let result = analyze_word("بالكتاب");
    assert_eq!(result.prefixes, vec!["ب", "ال"]);
    assert_eq!(result.stem, "كتاب");
}

#[test]
fn test_analyze_word_particle() {
    let result = analyze_word("في");
    assert!(result.is_particle);
    assert_eq!(result.stem, "في");
}

#[test]
fn test_analyze_particle_no_affixes() {
    let result = analyze_word("هذا");
    assert!(result.is_particle);
    assert_eq!(result.original, "هذا");
    assert_eq!(result.stem, "هذا");
    assert_eq!(result.prefixes.len(), 0);
    assert_eq!(result.suffixes.len(), 0);
}

#[test]
fn test_analyze_particle_resembling_prefixed_form() {
    // A particle beginning with lam is never decomposed: the classifier
    // runs first and is authoritative.
    let result = analyze_word("لكن");
    assert!(result.is_particle);
    assert_eq!(result.stem, "لكن");
    assert_eq!(result.prefixes.len(), 0);
}

#[test]
fn test_analyze_no_match_is_identity() {
    let result = analyze_word("كتاب");
    assert!(!result.is_particle);
    assert_eq!(result.original, "كتاب");
    assert_eq!(result.stem, "كتاب");
    assert_eq!(result.prefixes.len(), 0);
    assert_eq!(result.suffixes.len(), 0);
}

#[test]
fn test_analyze_conjunction_and_article() {
    // The suffix cascade also runs on the prefix-stripped residual, so the
    // trailing ta-marbuta is detected as a number/gender marker.
    let result = analyze_word("والمدرسة");
    assert!(!result.is_particle);
    assert_eq!(result.prefixes, vec!["و", "ال"]);
    assert_eq!(result.stem, "مدرس");
    assert_eq!(result.suffixes, vec!["ة"]);
}

#[test]
fn test_analyze_lam_article() {
    let result = analyze_word("للمعلم");
    assert_eq!(result.prefixes, vec!["ل", "ال"]);
    assert_eq!(result.stem, "معلم");
}

#[test]
fn test_analyze_three_prefixes() {
    let result = analyze_word("وبالكتاب");
    assert_eq!(result.prefixes, vec!["و", "ب", "ال"]);
    assert_eq!(result.stem, "كتاب");
}

#[test]
fn test_analyze_pronoun_suffix() {
    let result = analyze_word("دروسها");
    assert_eq!(result.stem, "دروس");
    assert_eq!(result.suffixes, vec!["ها"]);
    assert_eq!(result.prefixes.len(), 0);
}

#[test]
fn test_analyze_kaf_word_with_pronoun_suffix() {
    // The word is long enough for the ka- preposition rule, which fires
    // before the suffix cascade strips the pronoun from the residual.
    let result = analyze_word("كتابها");
    assert_eq!(result.prefixes, vec!["ك"]);
    assert_eq!(result.stem, "تاب");
    assert_eq!(result.suffixes, vec!["ها"]);
}

#[test]
fn test_analyze_masculine_plural() {
    let result = analyze_word("معلمون");
    assert_eq!(result.stem, "معلم");
    assert_eq!(result.suffixes, vec!["ون"]);
}

#[test]
fn test_analyze_feminine_plural() {
    let result = analyze_word("طالبات");
    assert_eq!(result.stem, "طالب");
    assert_eq!(result.suffixes, vec!["ات"]);
}

#[test]
fn test_analyze_pronoun_then_number_gender() {
    // Both suffix rules fire: the pronoun is detected and recorded first,
    // then the number/gender marker on the residual.
    let result = analyze_word("معلماتها");
    assert_eq!(result.stem, "معلم");
    assert_eq!(result.suffixes, vec!["ها", "ات"]);
}

#[test]
fn test_analyze_prefixes_and_suffix() {
    let result = analyze_word("والمعلمون");
    assert_eq!(result.prefixes, vec!["و", "ال"]);
    assert_eq!(result.stem, "معلم");
    assert_eq!(result.suffixes, vec!["ون"]);
}

#[test]
fn test_analyze_empty_string() {
    let result = analyze_word("");
    assert!(!result.is_particle);
    assert_eq!(result.original, "");
    assert_eq!(result.stem, "");
    assert_eq!(result.prefixes.len(), 0);
    assert_eq!(result.suffixes.len(), 0);
}

#[test]
fn test_analyze_non_arabic_passthrough() {
    let result = analyze_word("hello");
    assert!(!result.is_particle);
    assert_eq!(result.stem, "hello");
    assert_eq!(result.prefixes.len(), 0);
    assert_eq!(result.suffixes.len(), 0);
}

#[test]
fn test_analyze_root_and_pattern_absent() {
    assert!(analyze_word("بالكتاب").root.is_none());
    assert!(analyze_word("بالكتاب").pattern.is_none());
    assert!(analyze_word("في").root.is_none());
    assert!(analyze_word("في").pattern.is_none());
}

#[test]
fn test_conjunction_round_trip() {
    let (tokens, residual) = strip_conjunctions("والمدرسة");
    assert_eq!(tokens, vec!["و"]);
    assert_eq!(residual, "المدرسة");
    assert_eq!(format!("{}{}", tokens[0], residual), "والمدرسة");
}

#[test]
fn test_preposition_round_trip() {
    let (tokens, residual) = strip_preposition("بالكتاب");
    assert_eq!(tokens, vec!["ب"]);
    assert_eq!(residual, "الكتاب");
    assert_eq!(format!("{}{}", tokens[0], residual), "بالكتاب");
}

#[test]
fn test_article_round_trip_full_form() {
    let (tokens, residual) = strip_article("المدرسة");
    assert_eq!(tokens, vec!["ال"]);
    assert_eq!(residual, "مدرسة");
    // The canonical token itself is the matched surface form here.
    assert_eq!(format!("{}{}", tokens[0], residual), "المدرسة");
}

#[test]
fn test_article_round_trip_reduced_form() {
    let (tokens, residual) = strip_article("لمعلم");
    assert_eq!(tokens, vec!["ال"]);
    assert_eq!(residual, "معلم");
    // The canonical token expands back to the bare-lam surface form.
    assert_eq!(format!("{}{}", "ل", residual), "لمعلم");
}

#[test]
fn test_preposition_ka_needs_five_chars() {
    // ka- carries a five-character guard: a four-character word keeps it.
    let (tokens, residual) = strip_preposition("كتاب");
    assert_eq!(tokens.len(), 0);
    assert_eq!(residual, "كتاب");
    let (tokens, residual) = strip_preposition("كالكتاب");
    assert_eq!(tokens, vec!["ك"]);
    assert_eq!(residual, "الكتاب");
}

#[test]
fn test_conjunction_length_guard() {
    // Two characters starting with waw: stripping would leave one, so the
    // rule does not fire.
    let (tokens, residual) = strip_conjunctions("وا");
    assert_eq!(tokens.len(), 0);
    assert_eq!(residual, "وا");
    let (tokens, residual) = strip_conjunctions("ومن");
    assert_eq!(tokens, vec!["و"]);
    assert_eq!(residual, "من");
}

#[test]
fn test_pronoun_suffix_length_guard() {
    // The suffix matches but the residual would keep only one character.
    let (stem, suffixes) = strip_pronoun_suffixes("بها");
    assert_eq!(stem, "بها");
    assert_eq!(suffixes.len(), 0);
}

#[test]
fn test_number_gender_length_guard() {
    let (stem, suffixes) = strip_number_gender("بون");
    assert_eq!(stem, "بون");
    assert_eq!(suffixes.len(), 0);
    let (stem, suffixes) = strip_number_gender("معلمة");
    assert_eq!(stem, "معلم");
    assert_eq!(suffixes, vec!["ة"]);
}

#[test]
fn test_stem_keeps_two_chars_after_stripping() {
    // Whenever any stripping occurred, the stem keeps at least two characters.
    for word in ["وال", "بالكتاب", "كتابها", "معلمون", "معلماتها", "والمعلمون"] {
        let result = analyze_word(word);
        let stripped = !result.prefixes.is_empty() || !result.suffixes.is_empty();
        assert!(stripped);
        assert!(result.stem.chars().count() >= 2);
    }
}

#[test]
fn test_pronoun_priority_order() {
    // The two-character form is tried before the one-character forms that
    // share its final letter.
    let (stem, suffixes) = strip_pronoun_suffixes("كتابكم");
    assert_eq!(stem, "كتاب");
    assert_eq!(suffixes, vec!["كم"]);
}

#[test]
fn test_double_lam_parses_as_preposition_then_article() {
    // A word beginning with two lams is always preposition li- followed by
    // the reduced article, never a bare article alone.
    let (prefixes, stem) = strip_prefixes("للكتاب");
    assert_eq!(prefixes, vec!["ل", "ال"]);
    assert_eq!(stem, "كتاب");
}

#[test]
fn test_analyze_preserves_original() {
    for word in ["بالكتاب", "في", "كتاب", "hello", ""] {
        assert_eq!(analyze_word(word).original, word);
    }
}
