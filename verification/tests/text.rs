use steam_player_role::digest::{digest_text, short_digest};
use steam_player_role::order::sort_texts;
use steam_player_role::text;

const SAMPLES: [&str; 16] = [
    "",
    " ",
    "abc",
    "  abc  ",
    "\u{a0}ü\u{3000}",
    "\u{200b}x",
    "aXbXc",
    "XX",
    "a//",
    "//",
    "Straße",
    "éèê",
    "<b>&amp;</b>",
    "https://a.example/p",
    "\t\r\n mixed \u{2028}",
    "日本",
];

#[test]
fn white_space_is_that_of_unicode() {
    for n in 0..=0x10ffffu32 {
        if let Some(c) = char::from_u32(n) {
            assert_eq!(text::is_white(c), c.is_whitespace(), "{n:x}");
        }
    }
}

#[test]
fn trimming_drops_white_space_at_both_ends() {
    for s in SAMPLES {
        assert_eq!(text::trim(s), s.trim());
        assert_eq!(text::trim_end_matches(s, '/'), s.trim_end_matches('/'));
    }
}

#[test]
fn numbers_are_read_as_rust_reads_them() {
    for s in [
        "",
        "-",
        "+",
        "0",
        "-0",
        "+7",
        "00012",
        "12a",
        " 1",
        "1 ",
        "--1",
        "9223372036854775807",
        "9223372036854775808",
        "-9223372036854775808",
        "-9223372036854775809",
        "18446744073709551615",
        "18446744073709551616",
        "99999999999999999999999",
        "１",
    ] {
        assert_eq!(text::parse_i64(s), s.parse::<i64>().ok(), "{s}");
        assert_eq!(text::parse_u64(s), s.parse::<u64>().ok(), "{s}");
    }
}

#[test]
fn written_numbers_are_read_back() {
    for n in [0, 1, 9, 10, -1, -10, 12345, i64::MAX, i64::MIN, i64::MIN + 1] {
        let mut s = String::from(">");
        text::push_decimal(&mut s, n);
        assert_eq!(s, format!(">{n}"));
        assert_eq!(text::parse_i64(&s[1..]), Some(n));
    }
    let mut s = String::new();
    text::push_decimal_u64(&mut s, u64::MAX);
    text::push_decimal_u128(&mut s, u128::MAX);
    assert_eq!(s, format!("{}{}", u64::MAX, u128::MAX));
}

#[test]
fn searching_and_replacing() {
    for s in SAMPLES {
        for p in ["X", "b", "//", "://", "ß", "zz"] {
            assert_eq!(text::contains(s, p), s.contains(p));
            assert_eq!(text::replace(s, p, "[&]"), s.replace(p, "[&]"));
            assert_eq!(
                text::strip_prefix(s, p),
                s.strip_prefix(p).map(String::from)
            );
        }
        assert!(text::contains(s, ""));
    }
    assert_eq!(text::replace("aaa", "aa", "b"), "ba");
}

#[test]
fn joining_puts_the_separator_between() {
    let list = |v: &[&str]| -> Vec<String> { v.iter().map(|s| s.to_string()).collect() };
    assert_eq!(text::join(&list(&[]), ","), "");
    assert_eq!(text::join(&list(&["a"]), ","), "a");
    assert_eq!(text::join(&list(&["a", "", "c"]), ", "), "a, , c");
}

#[test]
fn letters_of_ascii_lose_their_case() {
    for s in SAMPLES {
        assert_eq!(text::to_ascii_lowercase(s), s.to_ascii_lowercase());
        for t in SAMPLES {
            assert_eq!(
                text::eq_ignore_ascii_case(s, t),
                s.eq_ignore_ascii_case(t)
            );
        }
    }
    assert!(text::eq_ignore_ascii_case("De", "dE"));
    assert!(!text::eq_ignore_ascii_case("É", "é"));
}

#[test]
fn escaped_text_opens_no_tag() {
    assert_eq!(
        text::escape_html("<a href=\"x\">&</a>"),
        "&lt;a href=\"x\"&gt;&amp;&lt;/a&gt;"
    );
    for s in SAMPLES {
        let expected = s
            .replace('&', "&amp;")
            .replace('<', "&lt;")
            .replace('>', "&gt;");
        assert_eq!(text::escape_html(s), expected);
        assert!(!expected.contains('<') && !expected.contains('>'));
    }
}

#[test]
fn slices_are_cut_by_characters() {
    let v = text::chars_of("aéß日");
    assert_eq!(v, vec!['a', 'é', 'ß', '日']);
    assert_eq!(text::slice_text(&v, 1, 3), "éß");
    assert_eq!(text::find_from(&v, "ß", 0), Some(2));
    assert_eq!(text::find_from(&v, "ß", 3), None);
    assert_eq!(text::find_from(&v, "", 4), Some(4));
}

#[test]
fn sorting_is_by_characters_and_forgets_order() {
    let mut v: Vec<String> = [
        "b", "a", "", "ab", "a", "10:1:0", "1:2:0", "é", "z", "Z", "\u{10ffff}", "\u{e000}",
    ]
    .iter()
    .map(|s| s.to_string())
    .collect();
    let sorted = sort_texts(&v);
    v.reverse();
    assert_eq!(sort_texts(&v), sorted);
    v.sort();
    assert_eq!(sorted, v);
}

#[test]
fn digests_are_known_ones() {
    assert_eq!(
        digest_text("abc"),
        "ba7816bf8f01cfea414140de5dae2223b00361a396177a9cb410ff61f20015ad"
    );
    assert_eq!(
        digest_text(""),
        "e3b0c44298fc1c149afbf4c8996fb92427ae41e4649b934ca495991b7852b855"
    );
    assert_eq!(short_digest("abc", 12), "ba7816bf8f01");
    assert_eq!(short_digest("abc", 0), "");
}
