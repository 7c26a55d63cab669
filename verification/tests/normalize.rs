use kill_zen_all::normalize::{fold_match, fold_width, format_text};
use kill_zen_all::rules::{apply_replacements, replace_text, Replacement};
use kill_zen_all::width::{fold_one, is_excluded};

fn rule(original: &str, replacement: &str) -> Replacement {
    Replacement {
        original: original.to_string(),
        replacement: replacement.to_string(),
    }
}

#[test]
fn test_format_text_with_replacements_exclusions() {
    let replacements = vec![
        Replacement {
            original: "foo".to_string(),
            replacement: "bar".to_string(),
        },
        Replacement {
            original: "baz".to_string(),
            replacement: "qux".to_string(),
        },
    ];
    let exclusion_list = vec!['！', '？'];

    let input = "foo baz １２３４！？";
    let expected = "bar qux 1234！？";
    let formatted = format_text(input, &replacements, &exclusion_list).unwrap();

    assert_eq!(formatted, expected);
}

#[test]
fn test_format_text_with_replacements_without_exclusions() {
    let replacements = vec![
        Replacement {
            original: "foo".to_string(),
            replacement: "bar".to_string(),
        },
        Replacement {
            original: "baz".to_string(),
            replacement: "qux".to_string(),
        },
    ];
    let exclusion_list = vec![];

    let input = "foo baz １２３４！？";
    let expected = "bar qux 1234!?";
    let formatted = format_text(input, &replacements, &exclusion_list).unwrap();

    assert_eq!(formatted, expected);
}

#[test]
fn test_format_text_without_replacements_with_exclusions() {
    let replacements = vec![];
    let exclusion_list = vec!['！', '？'];

    let input = "foo baz １２３４！？";
    let expected = "foo baz 1234！？";
    let formatted = format_text(input, &replacements, &exclusion_list).unwrap();

    assert_eq!(formatted, expected);
}

#[test]
fn test_format_text_without_replacements_exclusions() {
    let replacements = vec![];
    let exclusion_list = vec![];

    let input = "foo baz １２３４！？";
    let expected = "foo baz 1234!?";
    let formatted = format_text(input, &replacements, &exclusion_list).unwrap();

    assert_eq!(formatted, expected);
}

#[test]
fn test_format_text_with_partial_exclusions() {
    let replacements = vec![
        Replacement {
            original: "foo".to_string(),
            replacement: "bar".to_string(),
        },
        Replacement {
            original: "baz".to_string(),
            replacement: "qux".to_string(),
        },
    ];
    let exclusion_list = vec!['！'];

    let input = "foo baz １２３４！？";
    let expected = "bar qux 1234！?";
    let formatted = format_text(input, &replacements, &exclusion_list).unwrap();

    assert_eq!(formatted, expected);
}

#[test]
fn format_text_without_rules_with_one_exclusion() {
    let replacements: Vec<Replacement> = vec![];
    let exclusion_list = vec!['！'];
    let formatted = format_text("foo baz １２３４！？", &replacements, &exclusion_list).unwrap();
    assert_eq!(formatted, "foo baz 1234！?");
}

#[test]
fn fold_width_covers_the_whole_range() {
    let mut wide = String::new();
    let mut narrow = String::new();
    for code in 0xFF01u32..=0xFF5E {
        wide.push(char::from_u32(code).unwrap());
        narrow.push(char::from_u32(code - 0xFEE0).unwrap());
    }
    assert_eq!(narrow.chars().next(), Some('!'));
    assert_eq!(narrow.chars().last(), Some('~'));
    assert_eq!(fold_width(&wide, &[]).unwrap(), narrow);
}

#[test]
fn fold_width_leaves_neighbours_of_the_range() {
    let text = "\u{ff00}\u{ff5f}\u{3000}abc\u{3042}\u{ffe5}";
    assert_eq!(fold_width(text, &[]).unwrap(), text);
    assert_eq!(fold_width(text, &['\u{3000}', 'a']).unwrap(), text);
}

#[test]
fn fold_width_is_idempotent() {
    let exclusions = vec!['？'];
    let once = fold_width("Ａｂｃ？！ 1２3", &exclusions).unwrap();
    assert_eq!(once, "Abc？! 123");
    let twice = fold_width(&once, &exclusions).unwrap();
    assert_eq!(twice, once);
}

#[test]
fn fold_width_of_empty_text() {
    assert_eq!(fold_width("", &['！']).unwrap(), "");
}

#[test]
fn fold_one_maps_by_the_fixed_offset() {
    assert_eq!(fold_one('Ａ', &[]), 'A');
    assert_eq!(fold_one('！', &[]), '!');
    assert_eq!(fold_one('～', &[]), '~');
    assert_eq!(fold_one('～', &['～']), '～');
    assert_eq!(fold_one('x', &['x']), 'x');
    assert_eq!(fold_one('\u{ff5f}', &[]), '\u{ff5f}');
    assert_eq!(fold_one('５' , &[]) as u32, '５' as u32 - 0xFEE0);
}

#[test]
fn fold_match_answers_with_the_first_character() {
    assert_eq!(fold_match("！", &[]), "!");
    assert_eq!(fold_match("！", &['！']), "！");
    assert_eq!(fold_match("", &[]), "");
    assert_eq!(fold_match("ｚ９", &[]), "z");
}

#[test]
fn is_excluded_finds_members_only() {
    assert!(is_excluded(&['a', 'b'], 'b'));
    assert!(!is_excluded(&['a', 'b'], 'c'));
    assert!(!is_excluded(&[], 'a'));
}

#[test]
fn replace_text_matches_the_standard_library() {
    let cases = [
        ("foo baz foo", "foo", "bar"),
        ("aaaa", "aa", "b"),
        ("aaa", "aa", "b"),
        ("abc", "", "-"),
        ("", "", "-"),
        ("", "a", "b"),
        ("abc", "abcd", "x"),
        ("abcabc", "abc", ""),
        ("頚椎，頚部", "頚", "頸"),
        ("ababab", "aba", "X"),
    ];
    for (text, from, to) in cases {
        assert_eq!(replace_text(text, from, to), text.replace(from, to));
    }
    assert_eq!(replace_text("aaa", "aa", "b"), "ba");
    assert_eq!(replace_text("abc", "", "-"), "-a-b-c-");
}

#[test]
fn rules_apply_in_order_and_see_earlier_output() {
    let rules = vec![rule("a", "b"), rule("b", "c")];
    assert_eq!(apply_replacements("ab", &rules), "cc");
    let reversed = vec![rule("b", "c"), rule("a", "b")];
    assert_eq!(apply_replacements("ab", &reversed), "bc");
    let twice = vec![rule("a", "aa"), rule("a", "aa")];
    assert_eq!(apply_replacements("a", &twice), "aaaa");
    assert_eq!(apply_replacements("a", &[]), "a");
}

#[test]
fn normalising_twice_repeats_rules_that_match_their_own_output() {
    let rules = vec![rule("a", "aa")];
    let once = format_text("a", &rules, &[]).unwrap();
    let twice = format_text(&once, &rules, &[]).unwrap();
    assert_eq!(once, "aa");
    assert_eq!(twice, "aaaa");
}

#[test]
fn rules_run_before_folding() {
    let rules = vec![rule("，", ", "), rule("1", "one")];
    assert_eq!(format_text("１，２", &rules, &[]).unwrap(), "1, 2");
}
