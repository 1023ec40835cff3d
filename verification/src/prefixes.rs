//! The prefix stripper: three ordered sub-rules (conjunction, preposition,
//! definite article), each consuming at most one token from the front of the
//! residual left by the previous rule. Every rule carries a minimum-length
//! guard so that the residual never falls below two characters.

use vstd::prelude::*;

verus! {

/// `w` without its first `n` characters.
pub open spec fn drop_front(w: Seq<char>, n: int) -> Seq<char> {
    w.subrange(n, w.len() as int)
}

/// The conjunction rule fires: at least three characters, starting with
/// wa- or fa-.
pub open spec fn conjunction_applies(w: Seq<char>) -> bool {
    w.len() >= 3 && (w[0] == 'و' || w[0] == 'ف')
}

/// Result of the conjunction rule: the stripped tokens and the residual.
pub open spec fn spec_strip_conjunctions(w: Seq<char>) -> (Seq<Seq<char>>, Seq<char>) {
    if conjunction_applies(w) {
        (seq![seq![w[0]]], drop_front(w, 1))
    } else {
        (seq![], w)
    }
}

/// The preposition rule fires: bi- with at least four characters, ka- with at
/// least five, or li- with at least four.
pub open spec fn preposition_applies(w: Seq<char>) -> bool {
    ||| w.len() >= 4 && w[0] == 'ب'
    ||| w.len() >= 5 && w[0] == 'ك'
    ||| w.len() >= 4 && w[0] == 'ل'
}

/// Result of the preposition rule; the three candidates are mutually
/// exclusive and tried in the fixed order bi-, ka-, li-.
pub open spec fn spec_strip_preposition(w: Seq<char>) -> (Seq<Seq<char>>, Seq<char>) {
    if w.len() >= 4 && w[0] == 'ب' {
        (seq![seq!['ب']], drop_front(w, 1))
    } else if w.len() >= 5 && w[0] == 'ك' {
        (seq![seq!['ك']], drop_front(w, 1))
    } else if w.len() >= 4 && w[0] == 'ل' {
        (seq![seq!['ل']], drop_front(w, 1))
    } else {
        (seq![], w)
    }
}

/// The full two-character form of the definite article al- leads `w`.
pub open spec fn article_full_applies(w: Seq<char>) -> bool {
    w.len() >= 4 && w[0] == 'ا' && w[1] == 'ل'
}

/// The reduced one-character article form (bare lam) leads `w`.
pub open spec fn article_reduced_applies(w: Seq<char>) -> bool {
    w.len() >= 3 && w[0] == 'ل'
}

/// The canonical token recorded for either realization of the article.
pub open spec fn article_token() -> Seq<char> {
    seq!['ا', 'ل']
}

/// Result of the definite-article rule: both the two-character and the
/// one-character realization are normalized to the canonical token.
pub open spec fn spec_strip_article(w: Seq<char>) -> (Seq<Seq<char>>, Seq<char>) {
    if article_full_applies(w) {
        (seq![article_token()], drop_front(w, 2))
    } else if article_reduced_applies(w) {
        (seq![article_token()], drop_front(w, 1))
    } else {
        (seq![], w)
    }
}

/// Result of the whole prefix cascade: conjunction, then preposition, then
/// article, each applied to the previous rule's residual.
pub open spec fn spec_strip_prefixes(w: Seq<char>) -> (Seq<Seq<char>>, Seq<char>) {
    let (conj, r1) = spec_strip_conjunctions(w);
    let (prep, r2) = spec_strip_preposition(r1);
    let (art, r3) = spec_strip_article(r2);
    (conj + prep + art, r3)
}

/// Strips a leading conjunction (wa- or fa-) when the word keeps at least
/// two characters afterwards.
pub fn strip_conjunctions(word: &str) -> (res: (Vec<String>, String))
    ensures
        res.0.deep_view() == spec_strip_conjunctions(word@).0,
        res.1@ == spec_strip_conjunctions(word@).1,
{
    let len = word.unicode_len();
    if len >= 3 && (word.get_char(0) == 'و' || word.get_char(0) == 'ف') {
        let token = word.substring_char(0, 1).to_owned();
        let rest = word.substring_char(1, len).to_owned();
        proof {
            assert(token@ =~= seq![word@[0]]);
            assert(rest@ =~= drop_front(word@, 1));
        }
        let prefixes = vec![token];
        proof {
            assert(prefixes.deep_view() =~= spec_strip_conjunctions(word@).0);
        }
        (prefixes, rest)
    } else {
        let prefixes: Vec<String> = vec![];
        proof {
            assert(prefixes.deep_view() =~= spec_strip_conjunctions(word@).0);
        }
        (prefixes, word.to_owned())
    }
}

/// Strips a leading preposition (bi-, ka- or li-) under its length guard;
/// at most one of the three candidates fires.
pub fn strip_preposition(word: &str) -> (res: (Vec<String>, String))
    ensures
        res.0.deep_view() == spec_strip_preposition(word@).0,
        res.1@ == spec_strip_preposition(word@).1,
{
    let len = word.unicode_len();
    let fires = if len >= 4 && word.get_char(0) == 'ب' {
        true
    } else if len >= 5 && word.get_char(0) == 'ك' {
        true
    } else if len >= 4 && word.get_char(0) == 'ل' {
        true
    } else {
        false
    };
    if fires {
        let token = word.substring_char(0, 1).to_owned();
        let rest = word.substring_char(1, len).to_owned();
        proof {
            assert(token@ =~= seq![word@[0]]);
            assert(rest@ =~= drop_front(word@, 1));
        }
        let prefixes = vec![token];
        proof {
            assert(prefixes.deep_view() =~= spec_strip_preposition(word@).0);
        }
        (prefixes, rest)
    } else {
        let prefixes: Vec<String> = vec![];
        proof {
            assert(prefixes.deep_view() =~= spec_strip_preposition(word@).0);
        }
        (prefixes, word.to_owned())
    }
}

/// Strips a leading definite article, recording the canonical token for both
/// the two-character form and the reduced bare-lam form.
pub fn strip_article(word: &str) -> (res: (Vec<String>, String))
    ensures
        res.0.deep_view() == spec_strip_article(word@).0,
        res.1@ == spec_strip_article(word@).1,
{
    let len = word.unicode_len();
    if len >= 4 && word.get_char(0) == 'ا' && word.get_char(1) == 'ل' {
        let token = word.substring_char(0, 2).to_owned();
        let rest = word.substring_char(2, len).to_owned();
        proof {
            assert(token@ =~= article_token());
            assert(rest@ =~= drop_front(word@, 2));
        }
        let prefixes = vec![token];
        proof {
            assert(prefixes.deep_view() =~= spec_strip_article(word@).0);
        }
        (prefixes, rest)
    } else if len >= 3 && word.get_char(0) == 'ل' {
        let token = "ال".to_owned();
        let rest = word.substring_char(1, len).to_owned();
        proof {
            reveal_strlit("ال");
            assert(token@ =~= article_token());
            assert(rest@ =~= drop_front(word@, 1));
        }
        let prefixes = vec![token];
        proof {
            assert(prefixes.deep_view() =~= spec_strip_article(word@).0);
        }
        (prefixes, rest)
    } else {
        let prefixes: Vec<String> = vec![];
        proof {
            assert(prefixes.deep_view() =~= spec_strip_article(word@).0);
        }
        (prefixes, word.to_owned())
    }
}

/// Runs the full prefix cascade and collects the stripped tokens in
/// application order: conjunction, then preposition, then article.
pub fn strip_prefixes(word: &str) -> (res: (Vec<String>, String))
    ensures
        res.0.deep_view() == spec_strip_prefixes(word@).0,
        res.1@ == spec_strip_prefixes(word@).1,
{
    let (mut prefixes, rem) = strip_conjunctions(word);
    let (mut prep, rem) = strip_preposition(rem.as_str());
    prefixes.append(&mut prep);
    let (mut art, rem) = strip_article(rem.as_str());
    prefixes.append(&mut art);
    proof {
        assert(prefixes.deep_view() =~= spec_strip_prefixes(word@).0);
    }
    (prefixes, rem)
}

} // verus!
