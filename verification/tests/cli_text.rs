use torrentfind::cli::{plan, CliPlan};
use torrentfind::search::SearchError;
use torrentfind::text::{chars_of, i64_decimal, is_white_space, string_of, trim, u64_decimal};
use torrentfind::pages::newpage;

#[test]
fn numerals() {
    assert_eq!(u64_decimal(0), "0");
    assert_eq!(u64_decimal(1024), "1024");
    assert_eq!(u64_decimal(u64::MAX), "18446744073709551615");
    assert_eq!(i64_decimal(-45), "-45");
    assert_eq!(i64_decimal(i64::MIN), "-9223372036854775808");
    assert_eq!(string_of(&chars_of("héllo")), "héllo");
}

#[test]
fn plans() {
    match plan("dune", Some(" 3 "), None, false, true, false).unwrap() {
        CliPlan::Search { query, page, number, ugly } => {
            assert_eq!(query, "dune");
            assert_eq!(page, Some(3));
            assert_eq!(number, 10);
            assert!(!ugly);
        }
        _ => panic!("expected a search"),
    }
    match plan("dune", None, Some("+4"), false, false, false).unwrap() {
        CliPlan::Search { page, number, ugly, .. } => {
            assert_eq!(page, None);
            assert_eq!(number, 4);
            assert!(ugly);
        }
        _ => panic!("expected a search"),
    }
    match plan("dune", None, None, true, true, true).unwrap() {
        CliPlan::Magnet(name) => assert_eq!(name, "dune"),
        _ => panic!("expected a magnet"),
    }
    assert!(matches!(plan("dune", Some("x"), None, false, true, false), Err(SearchError::ParseError(_))));
    assert!(matches!(plan("rick", None, Some("ten"), false, true, false), Err(SearchError::ParseError(_))));
    assert!(matches!(plan("rick", None, Some(" 7 "), false, true, false), Ok(_)));
    assert!(matches!(plan("dune", None, Some("-1"), false, true, true), Err(SearchError::ParseError(_))));
    assert!(matches!(plan("dune", Some("4294967296"), None, false, true, false), Err(SearchError::ParseError(_))));
}

#[test]
fn numerals_read_back() {
    for n in [0u32, 7, 10, 1024, 4000000000, u32::MAX] {
        let text = u64_decimal(n as u64);
        match plan("q", Some(text.as_str()), Some(text.as_str()), false, true, false).unwrap() {
            CliPlan::Search { page, number, .. } => {
                assert_eq!(page, Some(n));
                assert_eq!(number, n as usize);
            }
            _ => panic!("expected a search"),
        }
    }
}

#[test]
fn trimming() {
    assert_eq!(trim(" \t ten\u{3000}\n"), "ten");
    assert_eq!(trim("a b"), "a b");
    assert_eq!(trim("   "), "");
    assert_eq!(trim(""), "");
    assert_eq!(trim("\u{85}x\u{a0}"), "x");
    assert!(is_white_space('\u{2028}'));
    assert!(!is_white_space('x'));
    for c in ['\u{9}', '\u{d}', ' ', '\u{85}', '\u{a0}', '\u{1680}', '\u{2000}', '\u{200a}', '\u{202f}', '\u{205f}', '\u{3000}', 'a', '\u{200b}', '\u{1}'] {
        assert_eq!(is_white_space(c), c.is_whitespace());
        assert_eq!(trim(&c.to_string()), c.to_string().trim());
    }
}

#[test]
fn queries_are_written_as_json() {
    let v = newpage("a\"\\\n\t\u{1}\u{1f}é", 2, Err(SearchError::Timeout)).unwrap();
    assert_eq!(
        v.rows[0][0].custom_id,
        r#"{"query": "a\"\\\n\t\u0001\u001fé", "page": 2, "action": "b"}"#
    );
}
