use windmill_launcher::commands::greet;
use windmill_launcher::text::append_decimal;
use windmill_launcher::text::append_signed_decimal;
use windmill_launcher::text::chars_of;
use windmill_launcher::text::text_contains;
use windmill_launcher::text::trim_text;
use windmill_launcher::text::white_space;

#[test]
fn greet_builds_the_greeting() {
    assert_eq!(greet("Ada"), "Hello, Ada! You've been greeted from Rust!");
    assert_eq!(greet(""), "Hello, ! You've been greeted from Rust!");
}

#[test]
fn decimal_rendering() {
    for n in [0u64, 7, 10, 5432, 30000, u64::MAX] {
        let mut s = String::from("n=");
        append_decimal(&mut s, n);
        assert_eq!(s, format!("n={}", n));
    }
    for i in [0i64, -1, 15, -9, i64::MIN, i64::MAX] {
        let mut s = String::new();
        append_signed_decimal(&mut s, i);
        assert_eq!(s, i.to_string());
    }
}

#[test]
fn trimming_matches_str_trim() {
    for t in ["  /tmp/dump.sql\n", "\t\r\n", "", "abc", " a b ", "\u{3000}x\u{85}", "\u{200b}y"] {
        assert_eq!(trim_text(t), t.trim());
    }
}

#[test]
fn whitespace_matches_char_is_whitespace() {
    for u in 0u32..0x3100 {
        if let Some(c) = char::from_u32(u) {
            assert_eq!(white_space(c), c.is_whitespace(), "code point {:x}", u);
        }
    }
}

#[test]
fn substring_search() {
    assert!(text_contains("applying migration 12", "migration"));
    assert!(text_contains("migrating database", "migrating"));
    assert!(!text_contains("migrat", "migration"));
    assert!(text_contains("anything", ""));
    assert!(text_contains("héllo wörld", "ö"));
    assert!(!text_contains("", "a"));
}

#[test]
fn chars_of_gives_each_char() {
    assert_eq!(chars_of("aé€"), vec!['a', 'é', '€']);
}
