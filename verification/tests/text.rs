use rusty_merge::text::{
    chars_of, contains, count_char, matches_at, parse_u64, push_all, replace_all, slice_of,
    split_bounds,
};

fn text_of(chars: &Vec<char>) -> String {
    chars.iter().collect()
}

#[test]
fn test_chars_of_keeps_order() {
    assert_eq!(chars_of("a/b"), vec!['a', '/', 'b']);
    assert_eq!(chars_of(""), Vec::<char>::new());
    assert_eq!(chars_of("é/ü").len(), 3);
}

#[test]
fn test_replace_all_agrees_with_std() {
    let cases = [
        ("aaa", "aa", "b"),
        ("a//b////c", "//", "/"),
        ("https://github.com/x/y", "https://github.com/", ""),
        ("abc", "abcd", "x"),
        ("", "a", "b"),
        ("ababab", "ab", "ba"),
        ("xxabxx", "ab", ""),
        ("aab", "ab", "c"),
    ];
    for (s, pat, with) in cases {
        let got = replace_all(&chars_of(s), &chars_of(pat), &chars_of(with));
        assert_eq!(text_of(&got), s.replace(pat, with));
    }
}

#[test]
fn test_replace_all_exact_values() {
    assert_eq!(text_of(&replace_all(&chars_of("aaa"), &chars_of("aa"), &chars_of("b"))), "ba");
    assert_eq!(text_of(&replace_all(&chars_of("a///b"), &chars_of("//"), &chars_of("/"))), "a//b");
}

#[test]
fn test_contains_and_matches_at() {
    let s = chars_of("owner/repo/pull/1");
    assert!(contains(&s, &chars_of("pull")));
    assert!(contains(&s, &chars_of("")));
    assert!(contains(&s, &chars_of("/1")));
    assert!(!contains(&s, &chars_of("pulls")));
    assert!(!contains(&chars_of("pul"), &chars_of("pull")));
    assert!(matches_at(&s, 11, &chars_of("pull")));
    assert!(!matches_at(&s, 10, &chars_of("pull")));
    assert!(!matches_at(&s, 15, &chars_of("/12")));
    assert!(matches_at(&s, 17, &chars_of("")));
    assert!(!matches_at(&s, 18, &chars_of("")));
}

#[test]
fn test_replace_all_with_empty_pattern_changes_nothing() {
    assert_eq!(text_of(&replace_all(&chars_of("abc"), &chars_of(""), &chars_of("x"))), "abc");
}

#[test]
fn test_count_char() {
    assert_eq!(count_char(&chars_of("a/b//c"), '/'), 3);
    assert_eq!(count_char(&chars_of(""), '/'), 0);
    assert_eq!(count_char(&chars_of("abc"), '/'), 0);
}

#[test]
fn test_split_bounds_agrees_with_std() {
    for s in ["a/b/c", "", "/", "a//b", "/a/", "abc", "https://github.com/o/r/pull/4"] {
        let chars = chars_of(s);
        let bounds = split_bounds(&chars, '/');
        let got: Vec<String> =
            bounds.iter().map(|b| text_of(&slice_of(&chars, b.0, b.1))).collect();
        let expected: Vec<String> = s.split('/').map(|p| p.to_string()).collect();
        assert_eq!(got, expected);
    }
}

#[test]
fn test_split_bounds_exact_values() {
    assert_eq!(split_bounds(&chars_of("ab/c"), '/'), vec![(0, 2), (3, 4)]);
    assert_eq!(split_bounds(&chars_of(""), '/'), vec![(0, 0)]);
    assert_eq!(split_bounds(&chars_of("/"), '/'), vec![(0, 0), (1, 1)]);
}

#[test]
fn test_parse_u64_agrees_with_std() {
    for s in [
        "0",
        "400",
        "+400",
        "",
        "+",
        "-1",
        "++1",
        "1+",
        "12a",
        " 12",
        "18446744073709551615",
        "18446744073709551616",
        "99999999999999999999999",
        "0000000000000000000000001",
        "\u{663}",
    ] {
        assert_eq!(parse_u64(&chars_of(s)), s.parse::<u64>().ok());
    }
}

#[test]
fn test_parse_u64_exact_values() {
    assert_eq!(parse_u64(&chars_of("400")), Some(400));
    assert_eq!(parse_u64(&chars_of("+7")), Some(7));
    assert_eq!(parse_u64(&chars_of("18446744073709551615")), Some(u64::MAX));
    assert_eq!(parse_u64(&chars_of("18446744073709551616")), None);
    assert_eq!(parse_u64(&chars_of("4x")), None);
    assert_eq!(parse_u64(&chars_of("")), None);
}

#[test]
fn test_push_all_and_slice_of() {
    let mut out = chars_of("ab");
    push_all(&mut out, &chars_of("cd"));
    assert_eq!(text_of(&out), "abcd");
    assert_eq!(text_of(&slice_of(&out, 1, 3)), "bc");
    assert_eq!(text_of(&slice_of(&out, 2, 2)), "");
}
