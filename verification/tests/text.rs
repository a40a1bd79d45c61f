use bambu_printers::text::{
    chars_of, clone_optional, content_lines_of, copy_range, find_from, same_text, space, string_of,
    trim_bounds, trimmed,
};

fn chars(text: &str) -> Vec<char> {
    text.chars().collect()
}

#[test]
fn white_space_is_what_unicode_says() {
    let mut count = 0;
    for code in 0u32..=0x10ffff {
        if let Some(c) = char::from_u32(code) {
            assert_eq!(space(c), c.is_whitespace(), "U+{:04X}", code);
            if space(c) {
                count += 1;
            }
        }
    }
    assert_eq!(count, 25);
}

#[test]
fn trimming_agrees_with_the_standard_library() {
    for text in ["", " ", "a", " a", "a ", "  a b  ", "\t\r\n x \u{a0}\u{3000}", "\u{2003}\u{2003}", "x\ny"] {
        assert_eq!(string_of(&trimmed(&chars(text))), text.trim());
    }
}

#[test]
fn trim_bounds_stay_inside_the_range() {
    let text = chars("ab  cd  ef");
    assert_eq!(trim_bounds(&text, 2, 8), (4, 6));
    assert_eq!(trim_bounds(&text, 2, 4), (4, 4));
    assert_eq!(trim_bounds(&text, 0, 10), (0, 10));
    assert_eq!(trim_bounds(&text, 5, 5), (5, 5));
}

#[test]
fn find_from_gives_first_position_or_length() {
    let text = chars("a:b:c");
    assert_eq!(find_from(&text, 0, ':'), 1);
    assert_eq!(find_from(&text, 1, ':'), 1);
    assert_eq!(find_from(&text, 2, ':'), 3);
    assert_eq!(find_from(&text, 4, ':'), 5);
    assert_eq!(find_from(&text, 5, ':'), 5);
    assert_eq!(find_from(&text, 0, 'x'), 5);
}

#[test]
fn content_lines_are_trimmed_and_not_blank() {
    let lines = content_lines_of(&chars("  one \r\n\r\n\ttwo\n \n three"));
    let lines: Vec<String> = lines.iter().map(|line| string_of(line)).collect();
    assert_eq!(lines, vec!["one", "two", "three"]);
    assert!(content_lines_of(&chars("")).is_empty());
    assert!(content_lines_of(&chars("\n\n \r\n")).is_empty());
    assert_eq!(content_lines_of(&chars("x")).len(), 1);
    assert_eq!(content_lines_of(&chars("a\rb\n")), vec![chars("a\rb")]);
}

#[test]
fn content_lines_agree_with_the_standard_library() {
    for text in ["a\nb", "a\r\nb\r\n", "\n a \n\n b", "a\r", "\r\na", "a \r \n b", "no newline", " \u{a0} \n x"] {
        let expected: Vec<String> = text
            .lines()
            .map(|line| line.trim())
            .filter(|line| !line.is_empty())
            .map(|line| line.to_string())
            .collect();
        let found: Vec<String> =
            content_lines_of(&chars(text)).iter().map(|line| string_of(line)).collect();
        assert_eq!(found, expected, "{:?}", text);
    }
}

#[test]
fn strings_and_characters_convert_both_ways() {
    for text in ["", "abc", "B\u{fc}ro \u{1f600}"] {
        assert_eq!(chars_of(text), chars(text));
        assert_eq!(string_of(&chars(text)), text);
    }
}

#[test]
fn same_text_compares_all_characters() {
    assert!(same_text(&chars("abc"), &chars("abc")));
    assert!(same_text(&chars(""), &chars("")));
    assert!(!same_text(&chars("abc"), &chars("abd")));
    assert!(!same_text(&chars("abc"), &chars("ab")));
    assert!(!same_text(&chars("ab"), &chars("abc")));
}

#[test]
fn copy_range_copies_the_range() {
    let text = chars("hello");
    assert_eq!(copy_range(&text, 1, 4), chars("ell"));
    assert_eq!(copy_range(&text, 2, 2), chars(""));
    assert_eq!(copy_range(&text, 0, 5), text);
}

#[test]
fn optional_strings_are_copied() {
    assert_eq!(clone_optional(&Some("x".to_string())), Some("x".to_string()));
    assert_eq!(clone_optional(&None), None);
}
