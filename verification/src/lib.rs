//! Decomposition of precomposed Hangul syllables into their constituent jamo.
//!
//! Every character in the Unicode block U+AC00..=U+D7A3 is a precomposed
//! modern Korean syllable, built from a leading consonant (one of 19), a
//! vowel (one of 21) and an optional trailing consonant (one of 27, or
//! none).  The block is laid out arithmetically, so the three components
//! are recovered by integer division and remainder.  Eleven of the
//! trailing consonants are compounds of two letters and can optionally be
//! split further.

use vstd::prelude::*;
use vstd::string::StrSliceExecFns;

pub mod jamo;
pub mod laws;

use crate::jamo::compound_split;
use crate::jamo::leading_char;
use crate::jamo::leading_jamo;
use crate::jamo::split_compound;
use crate::jamo::trailing_char;
use crate::jamo::trailing_jamo;
use crate::jamo::vowel_char;
use crate::jamo::vowel_jamo;

verus! {

/// First codepoint of the precomposed Hangul syllable block, "가".
pub const HANGUL_BASE: u32 = 0xAC00;

/// Last codepoint of the precomposed Hangul syllable block, "힣".
pub const HANGUL_LAST: u32 = 0xD7A3;

/// Number of vowel slots per leading consonant times trailing slots: 21 * 28.
pub const VOWEL_TRAILING_COUNT: u32 = 588;

/// Number of trailing-consonant slots per vowel (including "none").
pub const TRAILING_COUNT: u32 = 28;

/// Number of vowel slots.
pub const VOWEL_COUNT: u32 = 21;

/// A character is a precomposed Hangul syllable iff its codepoint lies in
/// the inclusive block U+AC00..=U+D7A3.
pub open spec fn is_hangul_syllable(c: char) -> bool {
    HANGUL_BASE <= c as u32 <= HANGUL_LAST
}

/// Position of a syllable within the Hangul block.
pub open spec fn syllable_offset(c: char) -> int {
    c as int - HANGUL_BASE
}

/// Index of the syllable's leading consonant, in 0..19.
pub open spec fn leading_index(c: char) -> int {
    syllable_offset(c) / (VOWEL_TRAILING_COUNT as int)
}

/// Index of the syllable's vowel, in 0..21.
pub open spec fn vowel_index(c: char) -> int {
    (syllable_offset(c) / (TRAILING_COUNT as int)) % (VOWEL_COUNT as int)
}

/// Index of the syllable's trailing consonant, in 0..28; 0 means the
/// syllable has no trailing consonant.
pub open spec fn trailing_index(c: char) -> int {
    syllable_offset(c) % (TRAILING_COUNT as int)
}

/// Reports whether a character lies in the precomposed Hangul syllable block.
#[allow(non_snake_case)]
pub fn IsInHangul(input_char: char) -> (r: bool)
    ensures
        r == is_hangul_syllable(input_char),
{
    let n: u32 = input_char as u32;
    HANGUL_BASE <= n && n <= HANGUL_LAST
}

/// The three component indices of one Hangul syllable.
pub struct CharNum {
    /// Index into the leading-consonant table, in 0..19.
    pub first_char: u8,
    /// Index into the vowel table, in 0..21.
    pub middle_char: u8,
    /// Index into the trailing-consonant table, in 0..28; 0 means none.
    pub final_char: u8,
}

/// Decomposes a Hangul syllable codepoint into its three component
/// indices by the arithmetic of the syllable block.
#[allow(non_snake_case)]
pub fn GetCharNum(input_char: char) -> (r: CharNum)
    requires
        is_hangul_syllable(input_char),
    ensures
        r.first_char == leading_index(input_char),
        r.middle_char == vowel_index(input_char),
        r.final_char == trailing_index(input_char),
        0 <= r.first_char < 19,
        0 <= r.middle_char < 21,
        0 <= r.final_char < 28,
{
    let char_num: u32 = input_char as u32 - HANGUL_BASE;
    let first: u32 = char_num / VOWEL_TRAILING_COUNT;
    let middle: u32 = (char_num / TRAILING_COUNT) % VOWEL_COUNT;
    let last: u32 = char_num % TRAILING_COUNT;
    CharNum { first_char: first as u8, middle_char: middle as u8, final_char: last as u8 }
}

/// The result of applying the cluster-split rule to one trailing entry:
/// a single compound trailing consonant becomes its two component
/// letters; everything else, the empty entry included, is unchanged.
pub open spec fn cluster_split(s: Seq<char>) -> Seq<char> {
    if s.len() == 1 {
        match compound_split(s[0]) {
            Some(p) => seq![p.0, p.1],
            None => s,
        }
    } else {
        s
    }
}

/// The replacement for one input character: a Hangul syllable becomes
/// its leading consonant, its vowel, and its trailing entry (split into
/// two letters when `break_all` is set and the trailing consonant is a
/// compound); any other character stands for itself.
pub open spec fn char_expansion(c: char, break_all: bool) -> Seq<char> {
    if is_hangul_syllable(c) {
        let trailing = trailing_jamo(trailing_index(c));
        seq![leading_jamo(leading_index(c)), vowel_jamo(vowel_index(c))] + (if break_all {
            cluster_split(trailing)
        } else {
            trailing
        })
    } else {
        seq![c]
    }
}

/// The whole transform: each character's expansion, concatenated in
/// input order.
pub open spec fn split_text(s: Seq<char>, break_all: bool) -> Seq<char>
    decreases s.len(),
{
    if s.len() == 0 {
        Seq::<char>::empty()
    } else {
        char_expansion(s[0], break_all) + split_text(s.drop_first(), break_all)
    }
}

/// Relies on String::push: appends one character to the end of the string.
#[verifier::external_body]
fn push_char(s: &mut String, c: char)
    ensures
        final(s)@ == old(s)@.push(c),
{
    s.push(c);
}

/// Applies the cluster-split rule to one trailing entry, given as a
/// string: a string holding exactly one compound trailing consonant
/// becomes the two-letter expansion; any other string is returned
/// unchanged.
#[allow(non_snake_case)]
pub fn SplitIfDoubleFinal(input_char: String) -> (r: String)
    ensures
        r@ == cluster_split(input_char@),
{
    let len: usize = input_char.as_str().unicode_len();
    if len == 1 {
        let c: char = input_char.as_str().get_char(0);
        match split_compound(c) {
            Some(pair) => {
                let mut r = String::new();
                push_char(&mut r, pair.0);
                push_char(&mut r, pair.1);
                proof {
                    assert(r@ =~= seq![pair.0, pair.1]);
                }
                r
            },
            None => input_char,
        }
    } else {
        input_char
    }
}

/// A transform of one more character extends the output by that
/// character's expansion.
proof fn lemma_split_text_push(s: Seq<char>, c: char, break_all: bool)
    ensures
        split_text(s.push(c), break_all) == split_text(s, break_all) + char_expansion(
            c,
            break_all,
        ),
    decreases s.len(),
{
    if s.len() == 0 {
        assert(s.push(c) =~= seq![c]);
        crate::laws::lemma_split_text_single(c, break_all);
        assert(split_text(s, break_all) + char_expansion(c, break_all) =~= char_expansion(
            c,
            break_all,
        ));
    } else {
        assert(s.push(c).drop_first() =~= s.drop_first().push(c));
        lemma_split_text_push(s.drop_first(), c, break_all);
        assert(char_expansion(s[0], break_all) + (split_text(s.drop_first(), break_all)
            + char_expansion(c, break_all)) =~= (char_expansion(s[0], break_all) + split_text(
            s.drop_first(),
            break_all,
        )) + char_expansion(c, break_all));
    }
}

/// Decomposes every Hangul syllable of the input into its jamo and
/// passes every other character through unchanged, preserving order.
/// When `break_all` is set, compound trailing consonants are further
/// split into their two component letters.
#[allow(non_snake_case)]
pub fn Split(input_string: &str, break_all: bool) -> (result: String)
    ensures
        result@ == split_text(input_string@, break_all),
{
    let len: usize = input_string.unicode_len();
    let mut result: String = String::new();
    let mut idx: usize = 0;
    while idx < len
        invariant
            len == input_string@.len(),
            idx <= len,
            result@ == split_text(input_string@.subrange(0, idx as int), break_all),
        decreases len - idx,
    {
        let c: char = input_string.get_char(idx);
        let ghost prefix = input_string@.subrange(0, idx as int);
        let ghost before = result@;
        if !IsInHangul(c) {
            push_char(&mut result, c);
            proof {
                assert(result@ =~= before + char_expansion(c, break_all));
            }
        } else {
            let char_num: CharNum = GetCharNum(c);
            push_char(&mut result, leading_char(char_num.first_char));
            push_char(&mut result, vowel_char(char_num.middle_char));
            if char_num.final_char != 0 {
                let tc: char = trailing_char(char_num.final_char);
                if break_all {
                    match split_compound(tc) {
                        Some(pair) => {
                            push_char(&mut result, pair.0);
                            push_char(&mut result, pair.1);
                        },
                        None => {
                            push_char(&mut result, tc);
                        },
                    }
                } else {
                    push_char(&mut result, tc);
                }
            }
            proof {
                assert(result@ =~= before + char_expansion(c, break_all));
            }
        }
        proof {
            lemma_split_text_push(prefix, c, break_all);
            assert(prefix.push(c) =~= input_string@.subrange(0, idx as int + 1));
        }
        idx = idx + 1;
    }
    proof {
        assert(input_string@.subrange(0, len as int) =~= input_string@);
    }
    result
}

} // verus!
