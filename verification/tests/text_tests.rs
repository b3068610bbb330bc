use tambourine::text::char_is_whitespace;
use tambourine::text::char_to_ascii_lowercase;
use tambourine::text::chars_eq;
use tambourine::text::contains_text;
use tambourine::text::find_first;
use tambourine::text::first_position;
use tambourine::text::is_text;
use tambourine::text::occurs_at_index;
use tambourine::text::range_eq_ignore_ascii_case;
use tambourine::text::str_eq;
use tambourine::text::to_chars;
use tambourine::text::trim_bounds;
use tambourine::text::CharClass;

#[test]
fn char_is_whitespace_agrees_with_std_on_every_character() {
    for code in 0u32..=0x10ffff {
        if let Some(c) = char::from_u32(code) {
            assert_eq!(char_is_whitespace(c), c.is_whitespace(), "U+{:04X}", code);
        }
    }
}

#[test]
fn char_to_ascii_lowercase_agrees_with_std_on_every_character() {
    for code in 0u32..=0x10ffff {
        if let Some(c) = char::from_u32(code) {
            assert_eq!(char_to_ascii_lowercase(c), c.to_ascii_lowercase());
        }
    }
}

#[test]
fn to_chars_keeps_every_character() {
    assert_eq!(to_chars("a\u{e9}\u{1f600}z"), vec!['a', '\u{e9}', '\u{1f600}', 'z']);
    assert_eq!(to_chars(""), Vec::<char>::new());
}

#[test]
fn trim_bounds_gives_the_trimmed_range() {
    assert_eq!(trim_bounds(&to_chars("  ab c\t")), (2, 6));
    assert_eq!(trim_bounds(&to_chars("abc")), (0, 3));
    assert_eq!(trim_bounds(&to_chars(" \n ")), (3, 3));
    assert_eq!(trim_bounds(&to_chars("")), (0, 0));
}

#[test]
fn first_position_finds_the_first_character_of_a_class() {
    let chars = to_chars("host:80/a?b#c");
    assert_eq!(first_position(&chars, 0, chars.len(), CharClass::Colon), 4);
    assert_eq!(first_position(&chars, 0, chars.len(), CharClass::AuthorityEnd), 7);
    assert_eq!(first_position(&chars, 8, chars.len(), CharClass::AuthorityEnd), 9);
    assert_eq!(first_position(&chars, 10, chars.len(), CharClass::AuthorityEnd), 11);
    assert_eq!(first_position(&chars, 0, chars.len(), CharClass::Dot), chars.len());
    assert_eq!(first_position(&chars, 0, 4, CharClass::Colon), 4);
    assert_eq!(first_position(&chars, 0, chars.len(), CharClass::Whitespace), chars.len());
    assert!(CharClass::Dot.matches('.'));
    assert!(!CharClass::Dot.matches(','));
}

#[test]
fn find_first_finds_the_first_occurrence() {
    let chars = to_chars("a://b://c");
    let separator = to_chars("://");
    assert_eq!(find_first(&chars, &separator), Some(1));
    assert_eq!(find_first(&to_chars("a:/b"), &separator), None);
    assert_eq!(find_first(&to_chars(":/"), &separator), None);
    assert_eq!(find_first(&to_chars(""), &to_chars("")), Some(0));
    assert_eq!(find_first(&to_chars("abc"), &to_chars("")), Some(0));
    assert_eq!(find_first(&to_chars("abc"), &to_chars("c")), Some(2));
    assert!(occurs_at_index(&chars, &separator, 5));
    assert!(!occurs_at_index(&chars, &separator, 6));
    assert!(!occurs_at_index(&chars, &separator, 7));
    assert!(!occurs_at_index(&chars, &separator, 100));
}

#[test]
fn text_comparisons_compare_characters() {
    assert!(str_eq("chrome", "chrome"));
    assert!(!str_eq("chrome", "Chrome"));
    assert!(!str_eq("chrome", "chrom"));
    assert!(chars_eq(&to_chars(""), &to_chars("")));
    assert!(is_text(&to_chars("edge"), "edge"));
    assert!(!is_text(&to_chars("edge"), "msedge"));
    assert!(contains_text(&to_chars("urlbar-input"), "urlbar"));
    assert!(!contains_text(&to_chars("urlba"), "urlbar"));
    let chars = to_chars("x-LOCALhost-y");
    assert!(range_eq_ignore_ascii_case(&chars, 2, 11, &to_chars("localhost")));
    assert!(!range_eq_ignore_ascii_case(&chars, 2, 10, &to_chars("localhost")));
    assert!(!range_eq_ignore_ascii_case(&chars, 1, 10, &to_chars("localhost")));
}
