//! The suffix stripper: an attached-pronoun rule followed by a number/gender
//! rule, each consuming at most one token from the back of the residual. A
//! form is accepted only when the residual keeps at least two characters
//! afterwards, and the first matching candidate in the fixed order wins.

use crate::text::{ends_with_str, has_suffix};
use vstd::prelude::*;

verus! {

/// `w` without its trailing `n` characters.
pub open spec fn strip_back(w: Seq<char>, n: int) -> Seq<char> {
    w.subrange(0, w.len() - n)
}

/// The suffix form `s` is accepted at the end of `w`: it matches, and the
/// residual keeps at least two characters.
pub open spec fn suffix_fires(w: Seq<char>, s: Seq<char>) -> bool {
    w.len() >= s.len() + 2 && has_suffix(w, s)
}

/// Some attached-pronoun form is accepted at the end of `w`.
pub open spec fn pronoun_suffix_applies(w: Seq<char>) -> bool {
    ||| suffix_fires(w, "هما"@)
    ||| suffix_fires(w, "هم"@)
    ||| suffix_fires(w, "هن"@)
    ||| suffix_fires(w, "كم"@)
    ||| suffix_fires(w, "كن"@)
    ||| suffix_fires(w, "نا"@)
    ||| suffix_fires(w, "ها"@)
    ||| suffix_fires(w, "ه"@)
    ||| suffix_fires(w, "ك"@)
    ||| suffix_fires(w, "ي"@)
}

/// Some number/gender marker is accepted at the end of `w`.
pub open spec fn number_gender_applies(w: Seq<char>) -> bool {
    ||| suffix_fires(w, "ون"@)
    ||| suffix_fires(w, "ين"@)
    ||| suffix_fires(w, "ات"@)
    ||| suffix_fires(w, "ان"@)
    ||| suffix_fires(w, "ة"@)
}

/// Result of the attached-pronoun rule: the reduced stem and the stripped
/// tokens. The candidates are tried in this fixed priority order.
pub open spec fn spec_strip_pronoun_suffixes(w: Seq<char>) -> (Seq<char>, Seq<Seq<char>>) {
    if suffix_fires(w, "هما"@) {
        (strip_back(w, "هما"@.len() as int), seq!["هما"@])
    } else if suffix_fires(w, "هم"@) {
        (strip_back(w, "هم"@.len() as int), seq!["هم"@])
    } else if suffix_fires(w, "هن"@) {
        (strip_back(w, "هن"@.len() as int), seq!["هن"@])
    } else if suffix_fires(w, "كم"@) {
        (strip_back(w, "كم"@.len() as int), seq!["كم"@])
    } else if suffix_fires(w, "كن"@) {
        (strip_back(w, "كن"@.len() as int), seq!["كن"@])
    } else if suffix_fires(w, "نا"@) {
        (strip_back(w, "نا"@.len() as int), seq!["نا"@])
    } else if suffix_fires(w, "ها"@) {
        (strip_back(w, "ها"@.len() as int), seq!["ها"@])
    } else if suffix_fires(w, "ه"@) {
        (strip_back(w, "ه"@.len() as int), seq!["ه"@])
    } else if suffix_fires(w, "ك"@) {
        (strip_back(w, "ك"@.len() as int), seq!["ك"@])
    } else if suffix_fires(w, "ي"@) {
        (strip_back(w, "ي"@.len() as int), seq!["ي"@])
    } else {
        (w, seq![])
    }
}

/// Result of the number/gender rule, under the same guard and priority
/// policy as the pronoun rule.
pub open spec fn spec_strip_number_gender(w: Seq<char>) -> (Seq<char>, Seq<Seq<char>>) {
    if suffix_fires(w, "ون"@) {
        (strip_back(w, "ون"@.len() as int), seq!["ون"@])
    } else if suffix_fires(w, "ين"@) {
        (strip_back(w, "ين"@.len() as int), seq!["ين"@])
    } else if suffix_fires(w, "ات"@) {
        (strip_back(w, "ات"@.len() as int), seq!["ات"@])
    } else if suffix_fires(w, "ان"@) {
        (strip_back(w, "ان"@.len() as int), seq!["ان"@])
    } else if suffix_fires(w, "ة"@) {
        (strip_back(w, "ة"@.len() as int), seq!["ة"@])
    } else {
        (w, seq![])
    }
}

/// Result of the whole suffix cascade: pronoun rule first, then number/gender
/// rule on its residual; tokens are collected in detection order.
pub open spec fn spec_strip_suffixes(w: Seq<char>) -> (Seq<char>, Seq<Seq<char>>) {
    let (r1, pron) = spec_strip_pronoun_suffixes(w);
    let (r2, num) = spec_strip_number_gender(r1);
    (r2, pron + num)
}

/// Removes `suffix` from the end of `stem` when it matches there and the
/// remainder keeps at least two characters; returns the remainder.
fn try_strip_suffix(stem: &str, suffix: &str) -> (res: Option<String>)
    ensures
        match res {
            Some(rest) => suffix_fires(stem@, suffix@) && rest@ == strip_back(
                stem@,
                suffix@.len() as int,
            ),
            None => !suffix_fires(stem@, suffix@),
        },
{
    let w_len = stem.unicode_len();
    let s_len = suffix.unicode_len();
    if w_len >= 2 && s_len <= w_len - 2 && ends_with_str(stem, suffix) {
        let rest = stem.substring_char(0, w_len - s_len).to_owned();
        proof {
            assert(rest@ =~= strip_back(stem@, suffix@.len() as int));
        }
        Some(rest)
    } else {
        None
    }
}

/// Strips at most one attached pronoun from the end of `stem`, trying the
/// candidate forms in the fixed priority order.
pub fn strip_pronoun_suffixes(stem: &str) -> (res: (String, Vec<String>))
    ensures
        res.0@ == spec_strip_pronoun_suffixes(stem@).0,
        res.1.deep_view() == spec_strip_pronoun_suffixes(stem@).1,
{
    if let Some(rest) = try_strip_suffix(stem, "هما") {
        let suffixes = vec!["هما".to_owned()];
        proof {
            assert(suffixes.deep_view() =~= spec_strip_pronoun_suffixes(stem@).1);
        }
        return (rest, suffixes);
    }
    if let Some(rest) = try_strip_suffix(stem, "هم") {
        let suffixes = vec!["هم".to_owned()];
        proof {
            assert(suffixes.deep_view() =~= spec_strip_pronoun_suffixes(stem@).1);
        }
        return (rest, suffixes);
    }
    if let Some(rest) = try_strip_suffix(stem, "هن") {
        let suffixes = vec!["هن".to_owned()];
        proof {
            assert(suffixes.deep_view() =~= spec_strip_pronoun_suffixes(stem@).1);
        }
        return (rest, suffixes);
    }
    if let Some(rest) = try_strip_suffix(stem, "كم") {
        let suffixes = vec!["كم".to_owned()];
        proof {
            assert(suffixes.deep_view() =~= spec_strip_pronoun_suffixes(stem@).1);
        }
        return (rest, suffixes);
    }
    if let Some(rest) = try_strip_suffix(stem, "كن") {
        let suffixes = vec!["كن".to_owned()];
        proof {
            assert(suffixes.deep_view() =~= spec_strip_pronoun_suffixes(stem@).1);
        }
        return (rest, suffixes);
    }
    if let Some(rest) = try_strip_suffix(stem, "نا") {
        let suffixes = vec!["نا".to_owned()];
        proof {
            assert(suffixes.deep_view() =~= spec_strip_pronoun_suffixes(stem@).1);
        }
        return (rest, suffixes);
    }
    if let Some(rest) = try_strip_suffix(stem, "ها") {
        let suffixes = vec!["ها".to_owned()];
        proof {
            assert(suffixes.deep_view() =~= spec_strip_pronoun_suffixes(stem@).1);
        }
        return (rest, suffixes);
    }
    if let Some(rest) = try_strip_suffix(stem, "ه") {
        let suffixes = vec!["ه".to_owned()];
        proof {
            assert(suffixes.deep_view() =~= spec_strip_pronoun_suffixes(stem@).1);
        }
        return (rest, suffixes);
    }
    if let Some(rest) = try_strip_suffix(stem, "ك") {
        let suffixes = vec!["ك".to_owned()];
        proof {
            assert(suffixes.deep_view() =~= spec_strip_pronoun_suffixes(stem@).1);
        }
        return (rest, suffixes);
    }
    if let Some(rest) = try_strip_suffix(stem, "ي") {
        let suffixes = vec!["ي".to_owned()];
        proof {
            assert(suffixes.deep_view() =~= spec_strip_pronoun_suffixes(stem@).1);
        }
        return (rest, suffixes);
    }
    let suffixes: Vec<String> = vec![];
    proof {
        assert(suffixes.deep_view() =~= spec_strip_pronoun_suffixes(stem@).1);
    }
    (stem.to_owned(), suffixes)
}

/// Strips at most one number/gender marker from the end of `stem`, trying
/// the candidate forms in the fixed priority order.
pub fn strip_number_gender(stem: &str) -> (res: (String, Vec<String>))
    ensures
        res.0@ == spec_strip_number_gender(stem@).0,
        res.1.deep_view() == spec_strip_number_gender(stem@).1,
{
    if let Some(rest) = try_strip_suffix(stem, "ون") {
        let suffixes = vec!["ون".to_owned()];
        proof {
            assert(suffixes.deep_view() =~= spec_strip_number_gender(stem@).1);
        }
        return (rest, suffixes);
    }
    if let Some(rest) = try_strip_suffix(stem, "ين") {
        let suffixes = vec!["ين".to_owned()];
        proof {
            assert(suffixes.deep_view() =~= spec_strip_number_gender(stem@).1);
        }
        return (rest, suffixes);
    }
    if let Some(rest) = try_strip_suffix(stem, "ات") {
        let suffixes = vec!["ات".to_owned()];
        proof {
            assert(suffixes.deep_view() =~= spec_strip_number_gender(stem@).1);
        }
        return (rest, suffixes);
    }
    if let Some(rest) = try_strip_suffix(stem, "ان") {
        let suffixes = vec!["ان".to_owned()];
        proof {
            assert(suffixes.deep_view() =~= spec_strip_number_gender(stem@).1);
        }
        return (rest, suffixes);
    }
    if let Some(rest) = try_strip_suffix(stem, "ة") {
        let suffixes = vec!["ة".to_owned()];
        proof {
            assert(suffixes.deep_view() =~= spec_strip_number_gender(stem@).1);
        }
        return (rest, suffixes);
    }
    let suffixes: Vec<String> = vec![];
    proof {
        assert(suffixes.deep_view() =~= spec_strip_number_gender(stem@).1);
    }
    (stem.to_owned(), suffixes)
}

/// Runs the full suffix cascade and collects the stripped tokens in
/// detection order: pronoun first, then number/gender marker.
pub fn strip_suffixes(stem: &str) -> (res: (String, Vec<String>))
    ensures
        res.0@ == spec_strip_suffixes(stem@).0,
        res.1.deep_view() == spec_strip_suffixes(stem@).1,
{
    let (rem, mut suffixes) = strip_pronoun_suffixes(stem);
    let (rem, mut num) = strip_number_gender(rem.as_str());
    suffixes.append(&mut num);
    proof {
        assert(suffixes.deep_view() =~= spec_strip_suffixes(stem@).1);
    }
    (rem, suffixes)
}

} // verus!
