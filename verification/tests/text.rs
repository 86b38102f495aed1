use scud_core::text::{
    chars_of, count_between, find_after_last, find_between, first_line_of, has_prefix_at,
    parse_number, replace_text, same_text, slice_of, trim_text, white_space,
};

fn chars(text: &str) -> Vec<char> {
    text.chars().collect()
}

#[test]
fn the_characters_of_a_text() {
    assert_eq!(chars_of(""), Vec::<char>::new());
    assert_eq!(chars_of("ab"), vec!['a', 'b']);
    assert_eq!(chars_of("é日"), vec!['é', '日']);
}

#[test]
fn texts_are_the_same_character_by_character() {
    assert!(same_text("", ""));
    assert!(same_text(".git", ".git"));
    assert!(!same_text(".git", ".gi"));
    assert!(!same_text(".git", ".giT"));
    assert!(!same_text("a", ""));
    assert!(same_text("日本", "日本"));
}

#[test]
fn the_first_occurrence_in_a_range() {
    let v = chars("a,b,c");
    assert_eq!(find_between(&v, ',', 0, 5), 1);
    assert_eq!(find_between(&v, ',', 2, 5), 3);
    assert_eq!(find_between(&v, ',', 4, 5), 5);
    assert_eq!(find_between(&v, ',', 0, 1), 1);
    assert_eq!(find_between(&v, 'x', 0, 5), 5);
    assert_eq!(find_between(&v, 'a', 3, 3), 3);
}

#[test]
fn the_place_behind_the_last_occurrence_in_a_range() {
    let v = chars("a[b[c]");
    assert_eq!(find_after_last(&v, '[', 0, 6), 4);
    assert_eq!(find_after_last(&v, '[', 0, 3), 2);
    assert_eq!(find_after_last(&v, '[', 4, 6), 4);
    assert_eq!(find_after_last(&v, 'x', 0, 6), 0);
    assert_eq!(find_after_last(&v, 'x', 2, 6), 2);
    assert_eq!(find_after_last(&v, ']', 0, 6), 6);
}

#[test]
fn occurrences_in_a_range() {
    let v = chars("a b  c");
    assert_eq!(count_between(&v, ' ', 0, 6), 3);
    assert_eq!(count_between(&v, ' ', 0, 2), 1);
    assert_eq!(count_between(&v, ' ', 2, 3), 0);
    assert_eq!(count_between(&v, ' ', 3, 3), 0);
    assert_eq!(count_between(&v, 'x', 0, 6), 0);
}

#[test]
fn decimal_numbers() {
    let v = chars("x0042y");
    assert_eq!(parse_number(&v, 1, 5), Some(42));
    assert_eq!(parse_number(&v, 1, 2), Some(0));
    assert_eq!(parse_number(&v, 0, 5), None);
    assert_eq!(parse_number(&v, 1, 6), None);
    assert_eq!(parse_number(&v, 3, 3), None);
    let big = chars("4294967295");
    assert_eq!(parse_number(&big, 0, 10), Some(u32::MAX));
    let bigger = chars("4294967296");
    assert_eq!(parse_number(&bigger, 0, 10), None);
    let wide = chars("٣");
    assert_eq!(parse_number(&wide, 0, 1), None);
    let huge = chars("000000000000000000000000000000000000000000007");
    assert_eq!(parse_number(&huge, 0, huge.len()), Some(7));
    let overflow = chars("99999999999999999999999999999999999999999999");
    assert_eq!(parse_number(&overflow, 0, overflow.len()), None);
}

#[test]
fn prefixes_at_a_position() {
    let v = chars("ahead 1, behind 2");
    assert!(has_prefix_at(&v, 0, &chars("ahead ")));
    assert!(has_prefix_at(&v, 7, &chars(", behind ")));
    assert!(!has_prefix_at(&v, 1, &chars("ahead ")));
    assert!(!has_prefix_at(&v, 15, &chars(" 2x")));
    assert!(has_prefix_at(&v, 17, &chars("")));
    assert!(!has_prefix_at(&v, 17, &chars("x")));
    assert!(has_prefix_at(&v, 0, &v));
}

#[test]
fn a_range_of_characters_as_a_string() {
    let v = chars("héllo wörld");
    assert_eq!(slice_of(&v, 0, 5), "héllo");
    assert_eq!(slice_of(&v, 6, 11), "wörld");
    assert_eq!(slice_of(&v, 3, 3), "");
    assert_eq!(slice_of(&v, 0, 11), "héllo wörld");
}

#[test]
fn the_first_line() {
    assert_eq!(first_line_of("a\nb\n"), "a");
    assert_eq!(first_line_of("abc"), "abc");
    assert_eq!(first_line_of("\nabc"), "");
    assert_eq!(first_line_of(""), "");
    assert_eq!(first_line_of("a\r\nb"), "a\r");
}

#[test]
fn white_space_is_what_the_standard_library_takes_for_it() {
    for code in 0..=0x10FFFFu32 {
        if let Some(c) = char::from_u32(code) {
            assert_eq!(white_space(c), c.is_whitespace(), "U+{:04X}", code);
        }
    }
}

#[test]
fn white_space_by_name() {
    for c in [' ', '\t', '\n', '\r', '\u{b}', '\u{c}', '\u{85}', '\u{a0}', '\u{3000}', '\u{2028}'] {
        assert!(white_space(c));
    }
    for c in ['a', '0', '\u{8}', '\u{e}', '\u{200b}', '\u{feff}', '\u{1f}', '_'] {
        assert!(!white_space(c));
    }
}

#[test]
fn trimming_strips_both_ends_only() {
    assert_eq!(trim_text("  main  "), "main");
    assert_eq!(trim_text("\t a b \r\n"), "a b");
    assert_eq!(trim_text("main"), "main");
    assert_eq!(trim_text("   "), "");
    assert_eq!(trim_text(""), "");
    assert_eq!(trim_text("\u{3000}日本 語\u{a0}"), "日本 語");
    assert_eq!(trim_text(" x"), "x");
    assert_eq!(trim_text("x "), "x");
}

#[test]
fn trimming_agrees_with_the_standard_library() {
    let samples = [
        "", " ", "a", " a", "a ", "  a  b  ", "\n\ta\u{85}", "\u{2003}x\u{2003}y\u{2003}",
        "\u{200b} a \u{200b}", "\r\n", "* main", "  remotes/origin/main\r",
    ];
    for text in samples {
        assert_eq!(trim_text(text), text.trim(), "{:?}", text);
    }
}

#[test]
fn replacing_takes_matches_from_the_left_without_overlap() {
    assert_eq!(replace_text("?? a\n?? b\n", "??", "A"), "A a\nA b\n");
    assert_eq!(replace_text("aaa", "aa", "b"), "ba");
    assert_eq!(replace_text("aaaa", "aa", "b"), "bb");
    assert_eq!(replace_text("abc", "x", "y"), "abc");
    assert_eq!(replace_text("abc", "abc", ""), "");
    assert_eq!(replace_text("abcabc", "bc", "-"), "a-a-");
    assert_eq!(replace_text("", "a", "b"), "");
    assert_eq!(replace_text("remotes/origin/x", "remotes/origin/", ""), "x");
    assert_eq!(replace_text("日本語", "本", "--"), "日--語");
    assert_eq!(replace_text("aXbXc", "X", "XX"), "aXXbXXc");
}

#[test]
fn replacing_the_empty_text() {
    assert_eq!(replace_text("ab", "", "-"), "-a-b-");
    assert_eq!(replace_text("", "", "-"), "-");
    assert_eq!(replace_text("ab", "", ""), "ab");
}

#[test]
fn replacing_agrees_with_the_standard_library() {
    let texts = ["", "a", "aa", "aaa", "abab", "ababa", "?? x\n??", "xyz", "日本日本", "a b  c"];
    let patterns = ["", "a", "aa", "ab", "aba", "??", "日本", " ", "zz"];
    let replacements = ["", "-", "a", "aa", "XYZ", "日"];
    for text in texts {
        for from in patterns {
            for to in replacements {
                assert_eq!(
                    replace_text(text, from, to),
                    text.replace(from, to),
                    "{:?} {:?} {:?}",
                    text,
                    from,
                    to
                );
            }
        }
    }
}
