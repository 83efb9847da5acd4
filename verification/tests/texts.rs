use winsched_logic::template::fill;
use winsched_logic::template::hundredths_text;
use winsched_logic::template::Blanks;
use winsched_logic::text::comes_before;
use winsched_logic::text::decimal_text;
use winsched_logic::text::eq_ignore_ascii_case;
use winsched_logic::text::is_white_space;
use winsched_logic::text::lower_text;
use winsched_logic::text::push_hexadecimal;
use winsched_logic::text::push_signed;
use winsched_logic::text::text_contains;
use winsched_logic::text::text_starts_with;
use winsched_logic::text::trim_text;

#[test]
fn white_space_is_what_the_standard_says() {
    for code in 0..=0x10_ffffu32 {
        if let Some(ch) = char::from_u32(code) {
            assert_eq!(is_white_space(ch), ch.is_whitespace());
        }
    }
}

#[test]
fn texts_are_compared_like_strings() {
    let samples = ["", "a", "A", "ab", "Ab", "b", "ä", "aä", "\u{10ffff}", "  a "];
    for a in samples {
        for b in samples {
            assert_eq!(comes_before(a, b), a < b);
            assert_eq!(eq_ignore_ascii_case(a, b), a.eq_ignore_ascii_case(b));
            assert_eq!(text_contains(a, b), a.contains(b));
            assert_eq!(text_starts_with(a, b), a.starts_with(b));
        }
        assert_eq!(lower_text(a), a.to_ascii_lowercase());
        assert_eq!(trim_text(a), a.trim());
    }
}

#[test]
fn numbers_are_written_like_the_standard_does() {
    for n in [0, 7, 10, 99, 100, 65_535, u64::MAX] {
        assert_eq!(decimal_text(n), n.to_string());
        let mut hex = String::new();
        push_hexadecimal(&mut hex, n);
        assert_eq!(hex, format!("{n:X}"));
    }
    for n in [0, -1, i64::MIN, i64::MAX] {
        let mut signed = String::new();
        push_signed(&mut signed, n);
        assert_eq!(signed, n.to_string());
    }
    assert_eq!(hundredths_text(5), "0.05");
    assert_eq!(hundredths_text(12_345), "123.45");
}

#[test]
fn templates_take_their_values_in_order() {
    let blanks = Blanks::new().number(1).text("{}").percent(250);
    assert_eq!(fill("a{}b{}c{}d{}", &blanks), "a1b{}c2.50d{}");
    assert_eq!(fill("plain", &blanks), "plain");
}
