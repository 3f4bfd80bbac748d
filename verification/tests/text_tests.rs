use dsh_desktop::strip_verbatim;
use dsh_desktop::text::{compare_text, decimal, equal_text, trim, trimmed_nonempty, Order};

#[test]
fn decimal_writes_digits() {
    assert_eq!(decimal(0), "0");
    assert_eq!(decimal(7), "7");
    assert_eq!(decimal(10), "10");
    assert_eq!(decimal(3080), "3080");
    assert_eq!(decimal(1234567890), "1234567890");
    assert_eq!(decimal(u64::MAX), "18446744073709551615");
}

#[test]
fn trim_removes_outer_white_space() {
    assert_eq!(trim("  1.2.3\n"), "1.2.3");
    assert_eq!(trim("\t a b \r\n"), "a b");
    assert_eq!(trim(""), "");
    assert_eq!(trim(" \n\t "), "");
    assert_eq!(trim("\u{3000}x\u{a0}\u{2003}"), "x");
    assert_eq!(trim("no-space"), "no-space");
}

#[test]
fn trim_matches_std() {
    for s in ["", " ", "a", " a ", "\u{85}a\u{85}", "\u{200b}a", "a\u{feff}", "\u{1680}b\u{205f}"] {
        assert_eq!(trim(s), s.trim());
    }
}

#[test]
fn trimmed_nonempty_gives_text_or_none() {
    assert_eq!(trimmed_nonempty(" abc \n"), Some("abc".to_string()));
    assert_eq!(trimmed_nonempty(" \n"), None);
}

#[test]
fn strip_verbatim_removes_prefix() {
    assert_eq!(strip_verbatim(r"\\?\C:\Program Files\dsh".to_string()), r"C:\Program Files\dsh");
    assert_eq!(strip_verbatim(r"C:\Program Files\dsh".to_string()), r"C:\Program Files\dsh");
    assert_eq!(strip_verbatim(r"\\?\".to_string()), "");
    assert_eq!(strip_verbatim(r"\\?".to_string()), r"\\?");
    assert_eq!(strip_verbatim(r"\\server\share".to_string()), r"\\server\share");
    assert_eq!(strip_verbatim(r"\\?\\\?\x".to_string()), r"\\?\x");
}

#[test]
fn compare_text_is_lexicographic() {
    assert_eq!(compare_text("abc", "abd"), Order::Less);
    assert_eq!(compare_text("abc", "abc"), Order::Equal);
    assert_eq!(compare_text("abc", "ab"), Order::Greater);
    assert_eq!(compare_text("", "a"), Order::Less);
    assert_eq!(compare_text("é", "z"), Order::Greater);
    assert_eq!(compare_text("?", "1.2.3"), Order::Greater);
    for (a, b) in [("a", "b"), ("1.10", "1.9"), ("", ""), ("中", "z"), ("zz", "z")] {
        let expected = match a.cmp(b) {
            std::cmp::Ordering::Less => Order::Less,
            std::cmp::Ordering::Equal => Order::Equal,
            std::cmp::Ordering::Greater => Order::Greater,
        };
        assert_eq!(compare_text(a, b), expected);
    }
}

#[test]
fn equal_text_compares_whole_texts() {
    assert!(equal_text("active", "active"));
    assert!(!equal_text("active", "activ"));
    assert!(!equal_text("complete", "Complete"));
}
