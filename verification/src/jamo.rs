//! The fixed jamo tables of the Hangul syllable block: the 19 leading
//! consonants, the 21 vowels, the 27 trailing consonants, and the
//! expansion of the 11 compound trailing consonants into their two
//! component letters.  The orders are the canonical ones of the Unicode
//! decomposition formula.

use vstd::prelude::*;

verus! {

/// The leading consonant at a given index of the leading table.
/// Indices outside 0..19 do not occur; they map to the last entry.
pub open spec fn leading_jamo(i: int) -> char {
    if i == 0 { 'ㄱ' }
    else if i == 1 { 'ㄲ' }
    else if i == 2 { 'ㄴ' }
    else if i == 3 { 'ㄷ' }
    else if i == 4 { 'ㄸ' }
    else if i == 5 { 'ㄹ' }
    else if i == 6 { 'ㅁ' }
    else if i == 7 { 'ㅂ' }
    else if i == 8 { 'ㅃ' }
    else if i == 9 { 'ㅅ' }
    else if i == 10 { 'ㅆ' }
    else if i == 11 { 'ㅇ' }
    else if i == 12 { 'ㅈ' }
    else if i == 13 { 'ㅉ' }
    else if i == 14 { 'ㅊ' }
    else if i == 15 { 'ㅋ' }
    else if i == 16 { 'ㅌ' }
    else if i == 17 { 'ㅍ' }
    else { 'ㅎ' }
}

/// The vowel at a given index of the vowel table.
/// Indices outside 0..21 do not occur; they map to the last entry.
pub open spec fn vowel_jamo(i: int) -> char {
    if i == 0 { 'ㅏ' }
    else if i == 1 { 'ㅐ' }
    else if i == 2 { 'ㅑ' }
    else if i == 3 { 'ㅒ' }
    else if i == 4 { 'ㅓ' }
    else if i == 5 { 'ㅔ' }
    else if i == 6 { 'ㅕ' }
    else if i == 7 { 'ㅖ' }
    else if i == 8 { 'ㅗ' }
    else if i == 9 { 'ㅘ' }
    else if i == 10 { 'ㅙ' }
    else if i == 11 { 'ㅚ' }
    else if i == 12 { 'ㅛ' }
    else if i == 13 { 'ㅜ' }
    else if i == 14 { 'ㅝ' }
    else if i == 15 { 'ㅞ' }
    else if i == 16 { 'ㅟ' }
    else if i == 17 { 'ㅠ' }
    else if i == 18 { 'ㅡ' }
    else if i == 19 { 'ㅢ' }
    else { 'ㅣ' }
}

/// The trailing consonant at a given index of the trailing table, for
/// indices 1..28.  Index 0 means "no trailing consonant" and has no
/// character; see [`trailing_jamo`].  Indices outside 1..28 do not
/// occur; they map to the last entry.
pub open spec fn trailing_jamo_char(i: int) -> char {
    if i == 1 { 'ㄱ' }
    else if i == 2 { 'ㄲ' }
    else if i == 3 { 'ㄳ' }
    else if i == 4 { 'ㄴ' }
    else if i == 5 { 'ㄵ' }
    else if i == 6 { 'ㄶ' }
    else if i == 7 { 'ㄷ' }
    else if i == 8 { 'ㄹ' }
    else if i == 9 { 'ㄺ' }
    else if i == 10 { 'ㄻ' }
    else if i == 11 { 'ㄼ' }
    else if i == 12 { 'ㄽ' }
    else if i == 13 { 'ㄾ' }
    else if i == 14 { 'ㄿ' }
    else if i == 15 { 'ㅀ' }
    else if i == 16 { 'ㅁ' }
    else if i == 17 { 'ㅂ' }
    else if i == 18 { 'ㅄ' }
    else if i == 19 { 'ㅅ' }
    else if i == 20 { 'ㅆ' }
    else if i == 21 { 'ㅇ' }
    else if i == 22 { 'ㅈ' }
    else if i == 23 { 'ㅊ' }
    else if i == 24 { 'ㅋ' }
    else if i == 25 { 'ㅌ' }
    else if i == 26 { 'ㅍ' }
    else { 'ㅎ' }
}

/// The trailing entry at a given index of the trailing table as a
/// character sequence: empty at index 0, a single jamo at 1..28.
pub open spec fn trailing_jamo(i: int) -> Seq<char> {
    if i == 0 {
        Seq::<char>::empty()
    } else {
        seq![trailing_jamo_char(i)]
    }
}

/// The two component letters of a compound trailing consonant, in
/// phonetic order, or `None` for any character that is not one of the
/// 11 compounds.
pub open spec fn compound_split(c: char) -> Option<(char, char)> {
    if c == 'ㄳ' { Some(('ㄱ', 'ㅅ')) }
    else if c == 'ㄵ' { Some(('ㄴ', 'ㅈ')) }
    else if c == 'ㄶ' { Some(('ㄴ', 'ㅎ')) }
    else if c == 'ㄺ' { Some(('ㄹ', 'ㄱ')) }
    else if c == 'ㄻ' { Some(('ㄹ', 'ㅁ')) }
    else if c == 'ㄼ' { Some(('ㄹ', 'ㅂ')) }
    else if c == 'ㄽ' { Some(('ㄹ', 'ㅅ')) }
    else if c == 'ㄾ' { Some(('ㄹ', 'ㅌ')) }
    else if c == 'ㄿ' { Some(('ㄹ', 'ㅍ')) }
    else if c == 'ㅀ' { Some(('ㄹ', 'ㅎ')) }
    else if c == 'ㅄ' { Some(('ㅂ', 'ㅅ')) }
    else { None }
}

/// Looks up the leading consonant for a leading index.
pub fn leading_char(i: u8) -> (c: char)
    requires
        i < 19,
    ensures
        c == leading_jamo(i as int),
{
    match i {
        0 => 'ㄱ',
        1 => 'ㄲ',
        2 => 'ㄴ',
        3 => 'ㄷ',
        4 => 'ㄸ',
        5 => 'ㄹ',
        6 => 'ㅁ',
        7 => 'ㅂ',
        8 => 'ㅃ',
        9 => 'ㅅ',
        10 => 'ㅆ',
        11 => 'ㅇ',
        12 => 'ㅈ',
        13 => 'ㅉ',
        14 => 'ㅊ',
        15 => 'ㅋ',
        16 => 'ㅌ',
        17 => 'ㅍ',
        _ => 'ㅎ',
    }
}

/// Looks up the vowel for a vowel index.
pub fn vowel_char(i: u8) -> (c: char)
    requires
        i < 21,
    ensures
        c == vowel_jamo(i as int),
{
    match i {
        0 => 'ㅏ',
        1 => 'ㅐ',
        2 => 'ㅑ',
        3 => 'ㅒ',
        4 => 'ㅓ',
        5 => 'ㅔ',
        6 => 'ㅕ',
        7 => 'ㅖ',
        8 => 'ㅗ',
        9 => 'ㅘ',
        10 => 'ㅙ',
        11 => 'ㅚ',
        12 => 'ㅛ',
        13 => 'ㅜ',
        14 => 'ㅝ',
        15 => 'ㅞ',
        16 => 'ㅟ',
        17 => 'ㅠ',
        18 => 'ㅡ',
        19 => 'ㅢ',
        _ => 'ㅣ',
    }
}

/// Looks up the trailing consonant for a nonzero trailing index.
pub fn trailing_char(i: u8) -> (c: char)
    requires
        1 <= i < 28,
    ensures
        c == trailing_jamo_char(i as int),
{
    match i {
        1 => 'ㄱ',
        2 => 'ㄲ',
        3 => 'ㄳ',
        4 => 'ㄴ',
        5 => 'ㄵ',
        6 => 'ㄶ',
        7 => 'ㄷ',
        8 => 'ㄹ',
        9 => 'ㄺ',
        10 => 'ㄻ',
        11 => 'ㄼ',
        12 => 'ㄽ',
        13 => 'ㄾ',
        14 => 'ㄿ',
        15 => 'ㅀ',
        16 => 'ㅁ',
        17 => 'ㅂ',
        18 => 'ㅄ',
        19 => 'ㅅ',
        20 => 'ㅆ',
        21 => 'ㅇ',
        22 => 'ㅈ',
        23 => 'ㅊ',
        24 => 'ㅋ',
        25 => 'ㅌ',
        26 => 'ㅍ',
        _ => 'ㅎ',
    }
}

/// Looks up the two-letter expansion of a compound trailing consonant.
pub fn split_compound(c: char) -> (r: Option<(char, char)>)
    ensures
        r == compound_split(c),
{
    match c {
        'ㄳ' => Some(('ㄱ', 'ㅅ')),
        'ㄵ' => Some(('ㄴ', 'ㅈ')),
        'ㄶ' => Some(('ㄴ', 'ㅎ')),
        'ㄺ' => Some(('ㄹ', 'ㄱ')),
        'ㄻ' => Some(('ㄹ', 'ㅁ')),
        'ㄼ' => Some(('ㄹ', 'ㅂ')),
        'ㄽ' => Some(('ㄹ', 'ㅅ')),
        'ㄾ' => Some(('ㄹ', 'ㅌ')),
        'ㄿ' => Some(('ㄹ', 'ㅍ')),
        'ㅀ' => Some(('ㄹ', 'ㅎ')),
        'ㅄ' => Some(('ㅂ', 'ㅅ')),
        _ => None,
    }
}

} // verus!
