use lens::text::{blank, find_from, join2, replace_char, same_text};

#[test]
fn test_blank_texts() {
    assert!(blank(""));
    assert!(blank(" "));
    assert!(blank(" \t\r\n"));
    assert!(blank("\u{a0}\u{2003}\u{3000}"));
    assert!(!blank("a"));
    assert!(!blank("  a  "));
    assert!(!blank("\u{200b}"));
    assert!(!blank("_"));
}

#[test]
fn test_blank_agrees_with_trim() {
    for text in ["", " ", "\n\t", " x", "x ", "  ", "\u{85}", "\u{feff}", "é", " \u{1680} "] {
        assert_eq!(blank(text), text.trim().is_empty(), "{:?}", text);
    }
}

#[test]
fn test_find_from() {
    assert_eq!(find_from("fs:read:~/x", ':', 0), 2);
    assert_eq!(find_from("fs:read:~/x", ':', 2), 2);
    assert_eq!(find_from("fs:read:~/x", ':', 3), 7);
    assert_eq!(find_from("fs:read:~/x", ':', 8), 11);
    assert_eq!(find_from("fs:read:~/x", ':', 40), 11);
    assert_eq!(find_from("", ':', 0), 0);
    assert_eq!(find_from("été:x", ':', 0), 3);
}

#[test]
fn test_replace_char() {
    assert_eq!(replace_char("graphyn-base", '-', '_'), "graphyn_base");
    assert_eq!(replace_char("a-b-c-", '-', '_'), "a_b_c_");
    assert_eq!(replace_char("figma", '-', '_'), "figma");
    assert_eq!(replace_char("", '-', '_'), "");
    assert_eq!(replace_char("é-è", '-', '_'), "é_è");
}

#[test]
fn test_same_text_and_joins() {
    assert!(same_text("abc", "abc"));
    assert!(!same_text("abc", "abd"));
    assert!(!same_text("abc", "ab"));
    assert!(same_text("", ""));
    assert_eq!(join2("ab", "cd"), "abcd");
    assert_eq!(join2("", ""), "");
}

#[test]
fn test_white_space_is_the_unicode_property() {
    let white_space = |c: char| {
        matches!(
            c,
            '\u{9}'..='\u{d}'
                | ' '
                | '\u{85}'
                | '\u{a0}'
                | '\u{1680}'
                | '\u{2000}'..='\u{200a}'
                | '\u{2028}'
                | '\u{2029}'
                | '\u{202f}'
                | '\u{205f}'
                | '\u{3000}'
        )
    };
    let mut buffer = [0u8; 4];
    let mut seen = 0;
    for code in 0..=0x10ffffu32 {
        if let Some(c) = char::from_u32(code) {
            assert_eq!(blank(c.encode_utf8(&mut buffer)), white_space(c), "U+{:04X}", code);
            seen += 1;
        }
    }
    assert_eq!(seen, 0x110000 - 0x800);
}
