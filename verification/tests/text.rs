use context_attribute::text::{chars_of, skip_spaces, skip_spaces_back, space};

#[test]
fn spaces_are_the_white_space_characters() {
    for c in [' ', '\t', '\n', '\u{b}', '\u{c}', '\r', '\u{85}', '\u{a0}', '\u{1680}', '\u{2000}',
        '\u{200a}', '\u{2028}', '\u{2029}', '\u{202f}', '\u{205f}', '\u{3000}']
    {
        assert!(space(c), "{:?}", c);
    }
    for c in ['a', '0', ':', '"', '\u{8}', '\u{e}', '\u{1f}', '!', '\u{84}', '\u{86}', '\u{200b}',
        '\u{2027}', '\u{3001}', '\u{feff}']
    {
        assert!(!space(c), "{:?}", c);
    }
}

#[test]
fn space_agrees_with_std_on_every_character() {
    let mut n: u32 = 0;
    while n <= 0x10ffff {
        if let Some(c) = char::from_u32(n) {
            assert_eq!(space(c), c.is_whitespace(), "{:x}", n);
        }
        n += 1;
    }
}

#[test]
fn characters_of_a_text() {
    assert_eq!(chars_of(""), Vec::<char>::new());
    assert_eq!(chars_of("fn"), vec!['f', 'n']);
    assert_eq!(chars_of("é\u{3000}x"), vec!['é', '\u{3000}', 'x']);
}

#[test]
fn skipping_spaces_forward() {
    let s: Vec<char> = "  a b  ".chars().collect();
    assert_eq!(skip_spaces(&s, 0), 2);
    assert_eq!(skip_spaces(&s, 2), 2);
    assert_eq!(skip_spaces(&s, 3), 4);
    assert_eq!(skip_spaces(&s, 5), 7);
    assert_eq!(skip_spaces(&s, 7), 7);
    assert_eq!(skip_spaces(&Vec::new(), 0), 0);
}

#[test]
fn skipping_spaces_backward() {
    let s: Vec<char> = "  a b  ".chars().collect();
    assert_eq!(skip_spaces_back(&s, 7), 5);
    assert_eq!(skip_spaces_back(&s, 5), 5);
    assert_eq!(skip_spaces_back(&s, 4), 3);
    assert_eq!(skip_spaces_back(&s, 2), 0);
    assert_eq!(skip_spaces_back(&s, 0), 0);
}
