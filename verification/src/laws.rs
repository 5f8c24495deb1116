//! The laws of the transform: identity on non-Hangul text, idempotence
//! of that passthrough, the shape of an open syllable's expansion, the
//! shape of a compound-trailing syllable's expansion, and preservation
//! of input order.

use vstd::prelude::*;

use crate::char_expansion;
use crate::cluster_split;
use crate::is_hangul_syllable;
use crate::jamo::compound_split;
use crate::jamo::leading_jamo;
use crate::jamo::trailing_jamo;
use crate::jamo::trailing_jamo_char;
use crate::jamo::vowel_jamo;
use crate::leading_index;
use crate::split_text;
use crate::trailing_index;
use crate::vowel_index;

verus! {

/// Law: the transform of a one-character text is that character's
/// expansion.
pub proof fn lemma_split_text_single(c: char, break_all: bool)
    ensures
        split_text(seq![c], break_all) == char_expansion(c, break_all),
{
    assert(seq![c].drop_first() =~= Seq::<char>::empty());
    assert(split_text(Seq::<char>::empty(), break_all) == Seq::<char>::empty());
    assert(char_expansion(c, break_all) + Seq::<char>::empty() =~= char_expansion(c, break_all));
}

/// Law: a character outside the Hangul syllable block expands to
/// itself, whatever the flag.
pub proof fn lemma_non_hangul_char_identity(c: char, break_all: bool)
    requires
        !is_hangul_syllable(c),
    ensures
        char_expansion(c, break_all) == seq![c],
        split_text(seq![c], break_all) == seq![c],
{
    lemma_split_text_single(c, break_all);
}

/// Law: text holding no Hangul syllable passes through the transform
/// unchanged, whatever the flag.
pub proof fn lemma_non_hangul_text_identity(s: Seq<char>, break_all: bool)
    requires
        forall|i: int| 0 <= i < s.len() ==> !is_hangul_syllable(s[i]),
    ensures
        split_text(s, break_all) == s,
    decreases s.len(),
{
    if s.len() == 0 {
        assert(split_text(s, break_all) =~= s);
    } else {
        lemma_non_hangul_text_identity(s.drop_first(), break_all);
        assert(split_text(s, break_all) =~= seq![s[0]] + s.drop_first());
        assert(seq![s[0]] + s.drop_first() =~= s);
    }
}

/// Law: one application of the transform leaves non-Hangul text as it
/// was, so a second application returns the same result as the first.
pub proof fn lemma_non_hangul_idempotent(s: Seq<char>, break_all: bool)
    requires
        forall|i: int| 0 <= i < s.len() ==> !is_hangul_syllable(s[i]),
    ensures
        split_text(split_text(s, break_all), break_all) == split_text(s, break_all),
{
    lemma_non_hangul_text_identity(s, break_all);
}

/// Law: a syllable without a trailing consonant expands to exactly its
/// leading consonant and its vowel, and the flag makes no difference.
pub proof fn lemma_open_syllable(c: char)
    requires
        is_hangul_syllable(c),
        trailing_index(c) == 0,
    ensures
        char_expansion(c, false) == char_expansion(c, true),
        char_expansion(c, true) == seq![leading_jamo(leading_index(c)), vowel_jamo(vowel_index(c))],
        split_text(seq![c], false) == split_text(seq![c], true),
        split_text(seq![c], true) == seq![leading_jamo(leading_index(c)), vowel_jamo(vowel_index(c))],
        split_text(seq![c], true).len() == 2,
{
    let pair = seq![leading_jamo(leading_index(c)), vowel_jamo(vowel_index(c))];
    assert(trailing_jamo(0) =~= Seq::<char>::empty());
    assert(char_expansion(c, false) =~= pair);
    assert(char_expansion(c, true) =~= pair);
    lemma_split_text_single(c, false);
    lemma_split_text_single(c, true);
}

/// Law: a syllable whose trailing consonant is one of the 11 compounds
/// expands to four characters when clusters are broken (leading, vowel,
/// and the compound's two components) and to three characters when they
/// are not (leading, vowel, and the compound itself).
pub proof fn lemma_compound_trailing(c: char)
    requires
        is_hangul_syllable(c),
        trailing_index(c) != 0,
        compound_split(trailing_jamo_char(trailing_index(c))) is Some,
    ensures
        split_text(seq![c], false) == seq![
            leading_jamo(leading_index(c)),
            vowel_jamo(vowel_index(c)),
            trailing_jamo_char(trailing_index(c)),
        ],
        split_text(seq![c], false).len() == 3,
        split_text(seq![c], true) == seq![
            leading_jamo(leading_index(c)),
            vowel_jamo(vowel_index(c)),
            (compound_split(trailing_jamo_char(trailing_index(c)))->0).0,
            (compound_split(trailing_jamo_char(trailing_index(c)))->0).1,
        ],
        split_text(seq![c], true).len() == 4,
{
    let t = trailing_jamo_char(trailing_index(c));
    let p = compound_split(t)->0;
    assert(trailing_jamo(trailing_index(c)) =~= seq![t]);
    assert(cluster_split(seq![t]) =~= seq![p.0, p.1]);
    assert(char_expansion(c, false) =~= seq![
        leading_jamo(leading_index(c)),
        vowel_jamo(vowel_index(c)),
        t,
    ]);
    assert(char_expansion(c, true) =~= seq![
        leading_jamo(leading_index(c)),
        vowel_jamo(vowel_index(c)),
        p.0,
        p.1,
    ]);
    lemma_split_text_single(c, false);
    lemma_split_text_single(c, true);
}

/// Law: the transform distributes over concatenation, so the expansions
/// of earlier characters stand before those of later characters and the
/// transform never reorders its input.
pub proof fn lemma_split_text_append(s1: Seq<char>, s2: Seq<char>, break_all: bool)
    ensures
        split_text(s1 + s2, break_all) == split_text(s1, break_all) + split_text(s2, break_all),
    decreases s1.len(),
{
    if s1.len() == 0 {
        assert(s1 + s2 =~= s2);
        assert(split_text(s1, break_all) + split_text(s2, break_all) =~= split_text(
            s2,
            break_all,
        ));
    } else {
        lemma_split_text_append(s1.drop_first(), s2, break_all);
        assert((s1 + s2).drop_first() =~= s1.drop_first() + s2);
        assert((s1 + s2)[0] == s1[0]);
        assert(split_text(s1 + s2, break_all) == char_expansion(s1[0], break_all) + split_text(
            s1.drop_first() + s2,
            break_all,
        ));
        assert(char_expansion(s1[0], break_all) + (split_text(s1.drop_first(), break_all)
            + split_text(s2, break_all)) =~= (char_expansion(s1[0], break_all) + split_text(
            s1.drop_first(),
            break_all,
        )) + split_text(s2, break_all));
    }
}

} // verus!
