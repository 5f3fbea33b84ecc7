use augur::text::{is_blank, push_debug_list, push_decimal, text_lt};

#[test]
fn blank_means_only_white_space() {
    assert!(is_blank(""));
    assert!(is_blank(" \t\n\r\u{b}\u{c}\u{85}\u{1680}\u{2000}\u{200a}\u{202f}\u{205f}\u{3000}"));
    assert!(!is_blank(" a "));
    assert!(!is_blank("\u{200b}"));
    assert!(!is_blank("\u{180e}"));
}

#[test]
fn decimals_render_without_leading_zeros() {
    let mut out = String::from("n=");
    push_decimal(&mut out, 0);
    assert_eq!(out, "n=0");
    let mut out = String::new();
    push_decimal(&mut out, 1_000_500);
    assert_eq!(out, "1000500");
    let mut out = String::new();
    push_debug_list(&mut out, &vec![0, 10, 255]);
    assert_eq!(out, format!("{:?}", vec![0u8, 10, 255]));
}

#[test]
fn texts_order_as_strings_do() {
    let words = ["", "a", "ab", "b", "B", "é", "aa", "hearthstone", "hearthstone-battlegrounds"];
    for x in words {
        for y in words {
            assert_eq!(text_lt(x, y), x < y, "{x:?} < {y:?}");
        }
    }
}

#[test]
fn blank_agrees_with_trim_on_every_character() {
    let mut buf = [0u8; 4];
    for c in (0u32..=0x10ffff).filter_map(char::from_u32) {
        let s: &str = c.encode_utf8(&mut buf);
        assert_eq!(is_blank(s), s.trim().is_empty(), "{c:?}");
    }
}
