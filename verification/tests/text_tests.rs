use dsh_desktop::paths::join_path;
use dsh_desktop::text::begins_with;
use dsh_desktop::text::blank;
use dsh_desktop::text::code_text;
use dsh_desktop::text::contains;
use dsh_desktop::text::decimal_text;
use dsh_desktop::text::head_line;
use dsh_desktop::text::join;
use dsh_desktop::text::leading_digits;
use dsh_desktop::text::parse_digits;
use dsh_desktop::text::parse_unsigned;
use dsh_desktop::text::replace;
use dsh_desktop::text::signed_text;
use dsh_desktop::text::strip;
use dsh_desktop::text::trim;
use dsh_desktop::text::unquote;

#[test]
fn trimming_agrees_with_std() {
    for s in ["", " ", "a", " a b \n", "\u{3000}名\u{85}", "\t\r\n", "x\u{200b}"] {
        assert_eq!(trim(s), s.trim());
        assert_eq!(blank(s), s.trim().is_empty());
    }
}

#[test]
fn white_space_agrees_with_std() {
    for n in 0..0x11000u32 {
        if let Some(c) = char::from_u32(n) {
            assert_eq!(dsh_desktop::text::is_space(c), c.is_whitespace(), "{:x}", n);
        }
    }
}

#[test]
fn searching_agrees_with_std() {
    for (s, p) in [("", ""), ("abc", ""), ("abc", "bc"), ("abc", "cb"), ("aab", "ab"), ("a", "ab"), ("日本語", "本")] {
        assert_eq!(contains(s, p), s.contains(p));
        assert_eq!(begins_with(s, p), s.starts_with(p));
        assert_eq!(strip(s, p), s.strip_prefix(p));
    }
}

#[test]
fn replacing_agrees_with_std() {
    for s in ["", "http://a", "http://http://", "xhttp:/http://y", "ahttp://b"] {
        assert_eq!(replace(s, "http://", "ws://"), s.replace("http://", "ws://"));
    }
}

#[test]
fn quotes_are_stripped_at_both_ends() {
    for s in ["", "\"", "\"\"", "\"0.1.0-rc.6\"", "a\"b", "\"\"x\""] {
        assert_eq!(unquote(s), s.trim_matches('"'));
    }
}

#[test]
fn first_lines() {
    assert_eq!(head_line("12\n34\n"), "12");
    assert_eq!(head_line("12"), "12");
    assert_eq!(head_line("\n12"), "");
    assert_eq!(head_line(""), "");
}

#[test]
fn numbers_are_read() {
    assert_eq!(parse_digits("65535", 65535), Some(65535));
    assert_eq!(parse_digits("65536", 65535), None);
    assert_eq!(parse_digits("007", 65535), Some(7));
    assert_eq!(parse_digits("", 9), None);
    assert_eq!(parse_digits("+1", 9), None);
    assert_eq!(parse_digits("18446744073709551615", u64::MAX), Some(u64::MAX));
    assert_eq!(parse_digits("18446744073709551616", u64::MAX), None);
    for s in ["", "+", "+7", "-7", "7 ", "4294967295", "4294967296", "++1", "0"] {
        assert_eq!(parse_unsigned(s, u32::MAX as u64), s.parse::<u32>().ok().map(|n| n as u64));
    }
    assert_eq!(leading_digits("80x9"), "80");
    assert_eq!(leading_digits("x"), "");
}

#[test]
fn numbers_are_written() {
    for n in [0u64, 9, 10, 4096, u64::MAX] {
        assert_eq!(decimal_text(n), n.to_string());
    }
    for n in [0i64, -1, i64::MIN, i64::MAX] {
        assert_eq!(signed_text(n), n.to_string());
    }
    for code in [None, Some(0), Some(-9), Some(i32::MIN), Some(i32::MAX)] {
        assert_eq!(code_text(code), format!("{:?}", code));
    }
}

#[test]
fn joining() {
    let parts = vec!["a".to_string(), "".to_string(), "b".to_string()];
    assert_eq!(join(&parts, "\n"), "a\n\nb");
    assert_eq!(join(&Vec::new(), "\n"), "");
}

#[test]
fn paths_are_joined_as_std_joins_them() {
    for (base, rel) in [("/a", "b/c"), ("/a/", "b"), ("", "b"), ("/a", "/b"), ("a", ""), ("/", "b")] {
        let expected = std::path::Path::new(base).join(rel);
        assert_eq!(join_path(base, rel), expected.to_string_lossy());
    }
}
