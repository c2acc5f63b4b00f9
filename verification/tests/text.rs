use linkshot::text::{chars_of, concat_str, is_whitespace, join, push_decimal, replace_all, str_eq, take_chars, trim};

#[test]
fn trim_removes_surrounding_whitespace() {
    assert_eq!(trim("  abc \t\n"), "abc");
    assert_eq!(trim("abc"), "abc");
    assert_eq!(trim(" a b "), "a b");
    assert_eq!(trim(" \t "), "");
    assert_eq!(trim(""), "");
    assert_eq!(trim("\u{3000}x\u{2003}"), "x");
}

#[test]
fn trim_is_idempotent_on_examples() {
    for s in ["  x  ", "\n\ty z\r\n", "", "   ", "q"] {
        let once = trim(s);
        assert_eq!(trim(&once), once);
    }
}

#[test]
fn whitespace_agrees_with_std_everywhere() {
    for u in 0..=0x10FFFFu32 {
        if let Some(c) = char::from_u32(u) {
            assert_eq!(is_whitespace(c), c.is_whitespace(), "U+{:04X}", u);
        }
    }
}

#[test]
fn trim_agrees_with_std() {
    for c in [' ', '\t', '\n', '\u{0B}', '\u{0C}', '\r', 'a', '0', '\u{85}', '\u{a0}', '\u{2028}', 'é'] {
        let s = format!("{c}{c}x{c}y{c}");
        assert_eq!(trim(&s), s.trim());
    }
}

#[test]
fn replace_all_replaces_every_placeholder() {
    assert_eq!(replace_all("@OUT@", "@OUT@", "/tmp/x.png"), "/tmp/x.png");
    assert_eq!(replace_all("a@OUT@b@OUT@", "@OUT@", "-"), "a-b-");
    assert_eq!(replace_all("-window", "@OUT@", "/tmp/x.png"), "-window");
    assert_eq!(replace_all("aaa", "aa", "b"), "ba");
    assert_eq!(replace_all("", "x", "y"), "");
}

#[test]
fn replace_all_agrees_with_std() {
    let cases = [("xx@OUT@@OUT@", "@OUT@"), ("ababab", "aba"), ("héllo", "l"), ("@OUT", "@OUT@")];
    for (s, p) in cases {
        assert_eq!(replace_all(s, p, "Z"), s.replace(p, "Z"));
    }
}

#[test]
fn join_puts_separator_between_parts() {
    let parts = vec!["maim".to_string(), "scrot".to_string(), "import".to_string()];
    assert_eq!(join(&parts, ", "), "maim, scrot, import");
    assert_eq!(join(&vec!["grim".to_string()], ", "), "grim");
    assert_eq!(join(&Vec::new(), ", "), "");
}

#[test]
fn decimal_notation() {
    for n in [0u64, 7, 10, 42, 1000, 4294967295, u64::MAX] {
        let mut s = String::from("#");
        push_decimal(&mut s, n);
        assert_eq!(s, format!("#{}", n));
    }
}

#[test]
fn take_chars_counts_characters() {
    assert_eq!(take_chars("héllo", 2), "hé");
    assert_eq!(take_chars("abc", 10), "abc");
    assert_eq!(take_chars("abc", 0), "");
}

#[test]
fn small_string_helpers() {
    assert_eq!(chars_of("añb"), vec!['a', 'ñ', 'b']);
    assert_eq!(concat_str("ab", "cd"), "abcd");
    assert!(str_eq("wayland", "wayland"));
    assert!(!str_eq("wayland", "x11"));
    assert!(!str_eq("way", "wayland"));
}
