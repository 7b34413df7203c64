use metasearch::numbers::digit_of;
use metasearch::numbers::parse_number;
use metasearch::replace::chars_of;
use metasearch::replace::decimal_string;
use metasearch::replace::replace_text;
use metasearch::splice::splice_replacements;
use metasearch::splice::Replacement;
use metasearch::text::char_is_whitespace;
use metasearch::text::collapse;
use metasearch::text::find_next_sequence;
use metasearch::text::normalize_chunk;
use metasearch::text::slice_at;
use metasearch::text::text_eq;

#[test]
fn whitespace_is_the_unicode_property() {
    for c in ['\t', '\n', '\u{b}', '\u{c}', '\r', ' ', '\u{85}', '\u{a0}', '\u{1680}', '\u{2000}',
        '\u{200a}', '\u{2028}', '\u{2029}', '\u{202f}', '\u{205f}', '\u{3000}']
    {
        assert!(char_is_whitespace(c), "{:?}", c);
        assert_eq!(char_is_whitespace(c), c.is_whitespace());
    }
    for c in ['a', '0', '\u{8}', '\u{e}', '\u{200b}', '\u{feff}', '\u{2060}'] {
        assert!(!char_is_whitespace(c), "{:?}", c);
    }
}

#[test]
fn collapse_replaces_each_run_by_one_space() {
    assert_eq!(collapse(""), "");
    assert_eq!(collapse("abc"), "abc");
    assert_eq!(collapse("a  b"), "a b");
    assert_eq!(collapse(" \n\t a \r\n b\u{a0}\u{3000}"), " a b ");
    assert_eq!(collapse("\n"), " ");
}

#[test]
fn collapse_agrees_with_the_pattern_for_white_space() {
    let re = regex::Regex::new(r"[\s\n]+").unwrap();
    for text in ["", "a", " a ", "a \n\n b\t\tc", "\u{2003}x\u{2003}\u{2003}y", "é  ü"] {
        assert_eq!(collapse(text), re.replace_all(text, " ").into_owned());
    }
}

#[test]
fn normalize_chunk_reads_bytes_and_collapses() {
    assert_eq!(normalize_chunk(b"<div>\n   <p>x</p>\n</div>"), "<div> <p>x</p> </div>");
    assert_eq!(normalize_chunk("gr\u{fc}n  blau".as_bytes()), "gr\u{fc}n blau");
}

#[test]
fn normalize_chunk_does_not_fail_on_bad_bytes() {
    assert_eq!(normalize_chunk(&[b'a', 0xff, b'b']), "a\u{fffd}b");
    assert_eq!(normalize_chunk(&[0xc3]), "\u{fffd}");
}

#[test]
fn text_eq_compares_characters() {
    assert!(text_eq("", ""));
    assert!(text_eq("nbsp", "nbsp"));
    assert!(!text_eq("nbsp", "nbs"));
    assert!(!text_eq("Alpha", "alpha"));
    assert!(text_eq("gr\u{fc}n", "gr\u{fc}n"));
}

#[test]
fn slice_at_cuts_between_characters_only() {
    assert_eq!(slice_at("hello", 1, 3), Some("el"));
    assert_eq!(slice_at("hello", 0, 5), Some("hello"));
    assert_eq!(slice_at("hello", 5, 5), Some(""));
    assert_eq!(slice_at("hello", 3, 2), None);
    assert_eq!(slice_at("hello", 0, 6), None);
    assert_eq!(slice_at("a\u{e9}b", 1, 3), Some("\u{e9}"));
    assert_eq!(slice_at("a\u{e9}b", 2, 3), None);
    assert_eq!(slice_at("a\u{e9}b", 1, 2), None);
}

#[test]
fn find_next_sequence_finds_the_first_place() {
    assert_eq!(find_next_sequence("abcabc", "bc", &0), Some(1));
    assert_eq!(find_next_sequence("abcabc", "bc", &2), Some(4));
    assert_eq!(find_next_sequence("abcabc", "bc", &5), None);
    assert_eq!(find_next_sequence("abcabc", "x", &0), None);
    assert_eq!(find_next_sequence("abc", "abcd", &0), None);
    assert_eq!(find_next_sequence("abc", "c", &3), None);
    assert_eq!(find_next_sequence("abc", "c", &100), None);
}

#[test]
fn find_next_sequence_counts_bytes() {
    assert_eq!(find_next_sequence("\u{e9}a", "a", &0), Some(2));
    assert_eq!(find_next_sequence("a\u{e9}\u{e9}", "\u{e9}", &2), Some(3));
}

#[test]
fn find_next_sequence_with_an_empty_sequence() {
    assert_eq!(find_next_sequence("abc", "", &1), Some(1));
    assert_eq!(find_next_sequence("abc", "", &3), None);
    assert_eq!(find_next_sequence("", "", &0), None);
}

#[test]
fn digits_have_their_values() {
    assert_eq!(digit_of('0', 10), Some(0));
    assert_eq!(digit_of('9', 10), Some(9));
    assert_eq!(digit_of('a', 10), None);
    assert_eq!(digit_of('a', 16), Some(10));
    assert_eq!(digit_of('F', 16), Some(15));
    assert_eq!(digit_of('g', 16), None);
    assert_eq!(digit_of('\u{663}', 10), None);
}

#[test]
fn parse_number_reads_decimal_and_hexadecimal() {
    assert_eq!(parse_number("0", 10, 100), Some(0));
    assert_eq!(parse_number("65", 10, u32::MAX as u64), Some(65));
    assert_eq!(parse_number("007", 10, 100), Some(7));
    assert_eq!(parse_number("41", 16, u32::MAX as u64), Some(0x41));
    assert_eq!(parse_number("fFfF", 16, u32::MAX as u64), Some(0xffff));
    assert_eq!(parse_number("4294967295", 10, u32::MAX as u64), Some(4294967295));
}

#[test]
fn parse_number_refuses_what_is_no_number() {
    assert_eq!(parse_number("", 10, 100), None);
    assert_eq!(parse_number("+5", 10, 100), None);
    assert_eq!(parse_number("-5", 10, 100), None);
    assert_eq!(parse_number("1a", 10, 100), None);
    assert_eq!(parse_number("\u{663}", 10, 100), None);
    assert_eq!(parse_number("101", 10, 100), None);
    assert_eq!(parse_number("4294967296", 10, u32::MAX as u64), None);
    assert_eq!(parse_number("99999999999999999999999999", 10, u64::MAX), None);
    assert_eq!(parse_number("18446744073709551615", 10, u64::MAX), Some(u64::MAX));
    assert_eq!(parse_number("18446744073709551616", 10, u64::MAX), None);
}

#[test]
fn parse_number_agrees_with_std_on_digits() {
    for text in ["0", "1", "12", "123456789", "4294967295", "4294967296", "00000000000001"] {
        assert_eq!(
            parse_number(text, 10, u32::MAX as u64),
            text.parse::<u32>().ok().map(|v| v as u64)
        );
    }
}

#[test]
fn chars_of_lists_the_characters() {
    assert_eq!(chars_of("a\u{e9}b"), vec!['a', '\u{e9}', 'b']);
    assert_eq!(chars_of(""), Vec::<char>::new());
}

#[test]
fn replace_text_replaces_from_the_left() {
    assert_eq!(replace_text("a{x}b{x}", "{x}", "1"), "a1b1");
    assert_eq!(replace_text("aaa", "aa", "b"), "ba");
    assert_eq!(replace_text("abc", "abc", ""), "");
    assert_eq!(replace_text("abc", "abcd", "x"), "abc");
    assert_eq!(replace_text("", "a", "x"), "");
    assert_eq!(replace_text("x{% t %}y", "{% t %}", "{% t %}{% t %}"), "x{% t %}{% t %}y");
}

#[test]
fn replace_text_leaves_the_text_for_an_empty_pattern() {
    assert_eq!(replace_text("abc", "", "x"), "abc");
}

#[test]
fn replace_text_agrees_with_std() {
    for (text, from, to) in
        [("hello world", "o", "0"), ("aaaa", "aa", "a"), ("\u{e9}t\u{e9}", "\u{e9}", "e"), ("abc", "bc", "bcbc")]
    {
        assert_eq!(replace_text(text, from, to), text.replace(from, to));
    }
}

#[test]
fn decimal_string_writes_integers() {
    assert_eq!(decimal_string(0), "0");
    assert_eq!(decimal_string(7), "7");
    assert_eq!(decimal_string(1234), "1234");
    assert_eq!(decimal_string(-1), "-1");
    assert_eq!(decimal_string(-120), "-120");
    assert_eq!(decimal_string(i128::MAX), i128::MAX.to_string());
    assert_eq!(decimal_string(i128::MIN), i128::MIN.to_string());
}

fn replacement(start: usize, end: usize, text: Option<&str>) -> Replacement {
    Replacement { start, end, text: text.map(|t| t.to_string()) }
}

#[test]
fn splice_makes_the_replacements_in_order() {
    let reps = vec![replacement(1, 3, Some("X")), replacement(4, 5, Some("YY"))];
    assert_eq!(splice_replacements("abcdef", &reps), "aXdYYf");
    assert_eq!(splice_replacements("abcdef", &vec![]), "abcdef");
    assert_eq!(splice_replacements("abc", &vec![replacement(0, 3, Some(""))]), "");
    assert_eq!(splice_replacements("abc", &vec![replacement(1, 1, Some("-"))]), "a-bc");
}

#[test]
fn splice_leaves_a_piece_without_replacement() {
    let reps = vec![replacement(1, 3, None), replacement(3, 4, Some("!"))];
    assert_eq!(splice_replacements("abcdef", &reps), "abc!ef");
}

#[test]
fn splice_passes_over_what_does_not_apply() {
    let overlapping = vec![replacement(1, 4, Some("X")), replacement(2, 5, Some("Y"))];
    assert_eq!(splice_replacements("abcdef", &overlapping), "aXef");
    let beyond = vec![replacement(4, 9, Some("X"))];
    assert_eq!(splice_replacements("abcdef", &beyond), "abcdef");
    let reversed = vec![replacement(3, 2, Some("X"))];
    assert_eq!(splice_replacements("abcdef", &reversed), "abcdef");
    let inside_a_character = vec![replacement(2, 3, Some("X"))];
    assert_eq!(splice_replacements("a\u{e9}b", &inside_a_character), "a\u{e9}b");
}
