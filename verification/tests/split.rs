use hangul_split::jamo::leading_char;
use hangul_split::jamo::split_compound;
use hangul_split::jamo::trailing_char;
use hangul_split::jamo::vowel_char;
use hangul_split::GetCharNum;
use hangul_split::IsInHangul;
use hangul_split::Split;
use hangul_split::SplitIfDoubleFinal;

#[test]
fn empty_input_empty_output() {
    assert_eq!(Split("", true), "");
    assert_eq!(Split("", false), "");
}

#[test]
fn han_decomposes_to_three_jamo() {
    assert_eq!(Split("한", false), "ㅎㅏㄴ");
    assert_eq!(Split("한", true), "ㅎㅏㄴ");
}

#[test]
fn compound_trailing_split_when_requested() {
    assert_eq!(Split("값", true), "ㄱㅏㅂㅅ");
}

#[test]
fn compound_trailing_kept_when_not_requested() {
    assert_eq!(Split("값", false), "ㄱㅏㅄ");
}

#[test]
fn non_hangul_passes_through_unchanged() {
    assert_eq!(Split("abc!? 123", true), "abc!? 123");
    assert_eq!(Split("abc!? 123", false), "abc!? 123");
}

#[test]
fn non_hangul_transform_is_idempotent() {
    let once = Split("hello, world", true);
    let twice = Split(&once, true);
    assert_eq!(twice, once);
}

#[test]
fn open_syllable_gives_two_jamo_whatever_the_flag() {
    assert_eq!(Split("가", false), "ㄱㅏ");
    assert_eq!(Split("가", true), "ㄱㅏ");
}

#[test]
fn compound_trailing_lengths() {
    let kept = Split("닭", false);
    let broken = Split("닭", true);
    assert_eq!(kept, "ㄷㅏㄺ");
    assert_eq!(kept.chars().count(), 3);
    assert_eq!(broken, "ㄷㅏㄹㄱ");
    assert_eq!(broken.chars().count(), 4);
}

#[test]
fn mixed_text_keeps_order() {
    assert_eq!(Split("abc한글", false), "abcㅎㅏㄴㄱㅡㄹ");
    assert_eq!(Split("한a글", true), "ㅎㅏㄴaㄱㅡㄹ");
}

#[test]
fn split_if_double_final_expands_each_compound() {
    let cases = [
        ("ㄳ", "ㄱㅅ"),
        ("ㄵ", "ㄴㅈ"),
        ("ㄶ", "ㄴㅎ"),
        ("ㄺ", "ㄹㄱ"),
        ("ㄻ", "ㄹㅁ"),
        ("ㄼ", "ㄹㅂ"),
        ("ㄽ", "ㄹㅅ"),
        ("ㄾ", "ㄹㅌ"),
        ("ㄿ", "ㄹㅍ"),
        ("ㅀ", "ㄹㅎ"),
        ("ㅄ", "ㅂㅅ"),
    ];
    for (compound, expansion) in cases {
        assert_eq!(SplitIfDoubleFinal(String::from(compound)), expansion);
    }
}

#[test]
fn split_if_double_final_leaves_others_unchanged() {
    assert_eq!(SplitIfDoubleFinal(String::from("")), "");
    assert_eq!(SplitIfDoubleFinal(String::from("ㄱ")), "ㄱ");
    assert_eq!(SplitIfDoubleFinal(String::from("ㅎ")), "ㅎ");
    assert_eq!(SplitIfDoubleFinal(String::from("ㄳㄳ")), "ㄳㄳ");
    assert_eq!(SplitIfDoubleFinal(String::from("x")), "x");
}

#[test]
fn is_in_hangul_matches_block_bounds() {
    assert!(IsInHangul('가'));
    assert!(IsInHangul('힣'));
    assert!(IsInHangul('한'));
    assert!(!IsInHangul('a'));
    assert!(!IsInHangul('\u{ABFF}'));
    assert!(!IsInHangul('\u{D7A4}'));
    assert!(!IsInHangul('ㄱ'));
}

#[test]
fn get_char_num_gives_the_three_indices() {
    let han = GetCharNum('한');
    assert_eq!(han.first_char, 18);
    assert_eq!(han.middle_char, 0);
    assert_eq!(han.final_char, 4);

    let ga = GetCharNum('가');
    assert_eq!(ga.first_char, 0);
    assert_eq!(ga.middle_char, 0);
    assert_eq!(ga.final_char, 0);

    let hih = GetCharNum('힣');
    assert_eq!(hih.first_char, 18);
    assert_eq!(hih.middle_char, 20);
    assert_eq!(hih.final_char, 27);
}

#[test]
fn table_lookups_match_the_canonical_order() {
    assert_eq!(leading_char(0), 'ㄱ');
    assert_eq!(leading_char(18), 'ㅎ');
    assert_eq!(vowel_char(0), 'ㅏ');
    assert_eq!(vowel_char(20), 'ㅣ');
    assert_eq!(trailing_char(1), 'ㄱ');
    assert_eq!(trailing_char(27), 'ㅎ');
    assert_eq!(split_compound('ㅄ'), Some(('ㅂ', 'ㅅ')));
    assert_eq!(split_compound('ㄱ'), None);
}
