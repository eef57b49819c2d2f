use users::config::{config_from_settings, parse_port};
use users::text::{char_vec, contains_str, str_equal, trim, white_space};

#[test]
fn char_vec_lists_characters() {
    assert_eq!(char_vec("aé😀"), vec!['a', 'é', '😀']);
    assert!(char_vec("").is_empty());
}

#[test]
fn str_equal_compares_characters() {
    assert!(str_equal("dpop+jwt", "dpop+jwt"));
    assert!(!str_equal("dpop+jwt", "dpop+JWT"));
    assert!(!str_equal("a", "ab"));
    assert!(str_equal("", ""));
}

#[test]
fn contains_finds_substrings() {
    assert!(contains_str("status: AlreadyExists (409)", "AlreadyExists"));
    assert!(!contains_str("status: Already Exists", "AlreadyExists"));
    assert!(contains_str("abc", ""));
    assert!(!contains_str("ab", "abc"));
    assert!(contains_str("AlreadyExists", "AlreadyExists"));
}

#[test]
fn trim_drops_unicode_white_space_at_both_ends() {
    assert_eq!(trim("  a b \t\n"), "a b");
    assert_eq!(trim("\u{2003}x\u{205f}"), "x");
    assert_eq!(trim("   "), "");
    assert_eq!(trim(""), "");
    assert_eq!(trim("\u{200b}x"), "\u{200b}x");
    for c in ['\t', '\n', '\u{b}', '\u{c}', '\r', ' ', '\u{85}', '\u{a0}', '\u{1680}', '\u{2000}', '\u{200a}', '\u{2028}', '\u{2029}', '\u{202f}', '\u{205f}', '\u{3000}'] {
        assert!(white_space(c), "{c:?}");
        assert_eq!(white_space(c), c.is_whitespace());
    }
    for c in ['a', '\u{200b}', '\u{1f}', '\u{2100}', '\u{feff}'] {
        assert_eq!(white_space(c), c.is_whitespace(), "{c:?}");
    }
}

#[test]
fn ports_parse_like_u16() {
    for s in ["8080", "+80", "0", "65535", "00065535", "65536", "", "+", "-1", " 80", "80 ", "8o", "99999999999999999999", "++1"] {
        assert_eq!(parse_port(s), s.parse::<u16>().ok(), "{s:?}");
    }
    assert_eq!(parse_port("8084"), Some(8084));
    assert_eq!(parse_port("70000"), None);
}

#[test]
fn config_defaults_apply_to_unset_settings() {
    let c = config_from_settings("proj".to_string(), None, None, None, None, None);
    assert_eq!(c.gcp_project, "proj");
    assert_eq!(c.firestore_database_id, "users-dev");
    assert_eq!(c.port, 8081);
    assert_eq!(c.rp_id, "localhost");
    assert_eq!(c.rp_origin, "http://localhost:8081");
    assert_eq!(c.authorization_url, "http://localhost:8084");
    let c = config_from_settings(
        "p".to_string(),
        Some("prod".to_string()),
        Some("8087".to_string()),
        Some("example.com".to_string()),
        Some("https://example.com".to_string()),
        Some("http://authz".to_string()),
    );
    assert_eq!(c.firestore_database_id, "prod");
    assert_eq!(c.port, 8087);
    assert_eq!(c.rp_id, "example.com");
    assert_eq!(c.rp_origin, "https://example.com");
    assert_eq!(c.authorization_url, "http://authz");
    let c = config_from_settings("p".to_string(), None, Some("not-a-port".to_string()), None, None, None);
    assert_eq!(c.port, 8081);
}

#[test]
fn trimming_twice_is_trimming_once() {
    for s in ["  a  ", "\u{3000}\u{a0}x y\t", "", "   ", "abc"] {
        assert_eq!(trim(trim(s)), trim(s));
        assert_eq!(trim(s), s.trim());
    }
}
