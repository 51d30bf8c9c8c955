use hearth_web::json;
use hearth_web::text;

#[test]
fn white_space_is_that_of_the_language() {
    let mut n: u32 = 0;
    while n <= 0x10ffff {
        if let Some(c) = char::from_u32(n) {
            assert_eq!(text::is_white_space(c), c.is_whitespace(), "{n:x}");
        }
        n += 1;
    }
}

#[test]
fn trimming_matches_std() {
    for s in ["", " ", "a", "  a b\t", "\u{a0}x\u{2003}", "no", "\n\r\t", " é "] {
        assert_eq!(text::trim(s), s.trim());
        assert_eq!(text::trim(&text::trim(s)), s.trim());
    }
}

#[test]
fn searching_and_splitting_match_std() {
    let samples = ["", "a", "ab", "abc", "a@b.c", "@", "x=y=z", "Edg/120"];
    for hay in samples {
        for needle in ["", "a", "b", "bc", "@", "=", "Edg/"] {
            assert_eq!(text::contains(hay, needle), hay.contains(needle));
            assert_eq!(text::starts_with(hay, needle), hay.starts_with(needle));
        }
        let split = text::split_once(hay, '=');
        let expected = hay.split_once('=').map(|(a, b)| (a.to_string(), b.to_string()));
        assert_eq!(split, expected);
    }
}

#[test]
fn numbers_are_written_in_decimal() {
    for n in [0u64, 1, 9, 10, 99, 100, 12_345, u64::MAX] {
        assert_eq!(text::decimal_string(n), n.to_string());
    }
    for n in [0i64, -1, 7, -10, i64::MIN, i64::MAX] {
        assert_eq!(text::decimal_int_string(n), n.to_string());
    }
}

#[test]
fn ports_are_read_like_std_reads_them() {
    for s in ["", "+", "-", "0", "+0", "1", "+25", "00025", "65535", "65536", "99999999999", "2 5", "-1", "++1", "1a", "٣"] {
        assert_eq!(text::parse_u16(s), s.parse::<u16>().ok(), "{s}");
    }
}

#[test]
fn small_helpers() {
    assert_eq!(text::take_chars("añb", 2), "añ");
    assert_eq!(text::take_chars("ab", 60), "ab");
    assert_eq!(text::replace_char("a_b_c", '_', ' '), "a b c");
    assert_eq!(text::capitalize("role change"), "Role change");
    assert_eq!(text::capitalize("éa"), "éa");
    assert_eq!(text::capitalize(""), "");
    assert_eq!(text::join("a", "b"), "ab");
    assert!(text::same("a", "a"));
    assert!(!text::same("a", "A"));
    assert_eq!(text::hex_digit_char(11), 'b');
    assert_eq!(text::hex_digit_upper_char(11), 'B');
    assert_eq!(text::hex_value_of('f'), Some(15));
    assert_eq!(text::hex_value_of('F'), Some(15));
    assert_eq!(text::hex_value_of('g'), None);
    assert_eq!(text::lend(&Some("x".to_string())), Some("x"));
    assert_eq!(text::lend(&None), None);
}

#[test]
fn texts_are_ordered_like_std_orders_them() {
    let samples = ["", "a", "b", "ab", "ä", "z", "\u{10000}", "\u{ffff}"];
    for a in samples {
        for b in samples {
            assert_eq!(text::is_less(a, b), a < b);
        }
    }
}

#[test]
fn json_is_indented_where_it_is_json() {
    assert_eq!(json::pretty("{\"b\":1,\"a\":[]}"), "{\n  \"a\": [],\n  \"b\": 1\n}");
    assert_eq!(json::pretty("\"x\""), "\"x\"");
    assert_eq!(json::pretty("not json"), "not json");
    assert_eq!(json::indented_or(Some("t".to_string()), "s"), "t");
    assert_eq!(json::indented_or(None, "s"), "s");
}

#[test]
fn missing_texts_are_blank() {
    assert_eq!(text::blank_or(&Some("a".to_string())), "a");
    assert_eq!(text::blank_or(&None), "");
    assert_eq!(text::copy(&Some("a".to_string())).as_deref(), Some("a"));
    assert_eq!(text::copy(&None), None);
}
