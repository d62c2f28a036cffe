use hygg::justify::justify;

#[test]
fn test_handles_long_words() {
    let input_text = r#"some text and a very loooooooooooooooooooooooooooooooooooooooooooooooooooooooooooooooooooooooooooooooooooooooooooooooooooooooooooooooooooong word but no cause to panic"#;
    let pretty_short_line_width = 10;
    let result = justify(input_text, pretty_short_line_width);
    assert!(!result.is_empty());
}

#[test]
fn test_handles_line_longer_than_width() {
    let input_text = "This is a line that is definitely longer than the requested width";
    let result = justify(input_text, 20);
    assert!(!result.is_empty());
}

#[test]
fn test_single_word_longer_than_width() {
    let input_text = "supercalifragilisticexpialidocious";
    let result = justify(input_text, 10);
    assert!(!result.is_empty());
    assert!(result.len() > 1);
}

#[test]
fn test_normal_justification() {
    let input_text = "This is a test of the justification system. It should properly justify lines that need to be wrapped.";
    let result = justify(input_text, 20);
    assert!(!result.is_empty());

    let mut found_justified = false;
    for (i, line) in result.iter().enumerate() {
        if !line.is_empty() && i < result.len() - 2 {
            if line.len() == 20 {
                found_justified = true;
                break;
            }
        }
    }
    assert!(found_justified, "Should have at least one justified line");
}

#[test]
fn justify_exact_layout() {
    let result = justify("aaa bb c dddd", 8);
    assert_eq!(result, vec!["aaa bb c".to_string(), "dddd".to_string(), String::new()]);
}

#[test]
fn justify_extra_spaces_go_left() {
    let result = justify("a b c dddddddd", 8);
    assert_eq!(result, vec!["a   b  c".to_string(), "dddddddd".to_string(), String::new()]);
    let result = justify("ab cd ef gh zzzzzzzzzz", 10);
    assert_eq!(result, vec!["ab  cd  ef".to_string(), "gh".to_string(), "zzzzzzzzzz".to_string(), String::new()]);
}

#[test]
fn justify_cuts_long_word_into_pieces() {
    let result = justify("abcdefghij", 4);
    assert_eq!(result, vec!["abcd".to_string(), "efgh".to_string(), "ij".to_string(), String::new()]);
}

#[test]
fn justify_keeps_paragraphs() {
    let result = justify("one two\n\nthree", 20);
    assert_eq!(result, vec!["one two".to_string(), String::new(), "three".to_string(), String::new()]);
}

#[test]
fn justify_empty_text() {
    let result = justify("", 5);
    assert_eq!(result, vec![String::new()]);
}

#[test]
fn justify_zero_width_without_words() {
    let result = justify("  \n\n ", 0);
    assert_eq!(result, vec![String::new(), String::new()]);
}

#[test]
fn justify_no_line_exceeds_width() {
    let text = "The quick brown fox jumps over the lazy dog and keeps running far away";
    for width in 1..30 {
        for line in justify(text, width) {
            assert!(line.chars().count() <= width);
        }
    }
}

#[test]
fn justify_keeps_every_letter() {
    let text = "The quick brown fox\n\njumps over the lazy dog";
    let result = justify(text, 7);
    let before: String = text.chars().filter(|c| !c.is_whitespace()).collect();
    let after: String = result.concat().chars().filter(|c| !c.is_whitespace()).collect();
    assert_eq!(before, after);
}
