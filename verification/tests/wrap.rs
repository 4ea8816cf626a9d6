use druns::textwrap::wrap_command_text;

#[test]
fn test_wrap_command_text_short() {
    let command = vec!["short".to_string(), "command".to_string()];
    let result = wrap_command_text(&command, 20, 3);
    assert_eq!(result, vec!["short command"]);
}

#[test]
fn test_wrap_command_text_long_single_line() {
    let command = vec!["this".to_string(), "is".to_string(), "a".to_string(), "very".to_string(), "long".to_string(), "command".to_string(), "that".to_string(), "should".to_string(), "wrap".to_string()];
    let result = wrap_command_text(&command, 20, 3);
    assert_eq!(result.len(), 3);
    assert_eq!(result[0], "this is a very long\u{21a9}");
    assert_eq!(result[1], " command that shoul\u{21a9}");
    assert_eq!(result[2], "d wrap");
}

#[test]
fn test_wrap_command_text_max_lines() {
    let command = vec!["word1".to_string(), "word2".to_string(), "word3".to_string(), "word4".to_string(), "word5".to_string(), "word6".to_string(), "word7".to_string()];
    let result = wrap_command_text(&command, 10, 2);
    assert_eq!(result.len(), 2);
    assert!(result[1].ends_with("\u{2026}"));
}

#[test]
fn test_wrap_command_text_no_wrap_needed() {
    let command = vec!["hello".to_string(), "world".to_string()];
    let result = wrap_command_text(&command, 20, 3);
    assert_eq!(result, vec!["hello world"]);
}

#[test]
fn test_wrap_pwd_text() {
    let pwd = "/very/long/path/to/some/directory/that/might/wrap".to_string();
    let result = wrap_command_text(&[pwd], 20, 3);
    assert!(result.len() >= 1);
    assert!(result[0].contains("\u{21a9}") || result.len() == 1);
}

#[test]
fn test_wrap_empty_command() {
    let command: Vec<String> = Vec::new();
    let result = wrap_command_text(&command, 20, 3);
    assert!(result.is_empty());
}
