use rtrim::trim::trim_trailing_whitespace;

#[test]
fn test_trim_trailing_spaces() {
    let input = "hello world   \n";
    let result = trim_trailing_whitespace(input);
    assert_eq!(result.content, "hello world\n");
    assert!(result.modified);
}

#[test]
fn test_trim_trailing_tabs() {
    let input = "hello world\t\t\n";
    let result = trim_trailing_whitespace(input);
    assert_eq!(result.content, "hello world\n");
    assert!(result.modified);
}

#[test]
fn test_trim_mixed_whitespace() {
    let input = "hello world \t \t\n";
    let result = trim_trailing_whitespace(input);
    assert_eq!(result.content, "hello world\n");
    assert!(result.modified);
}

#[test]
fn test_trim_multiple_lines() {
    let input = "line1   \nline2\t\nline3 \t \n";
    let result = trim_trailing_whitespace(input);
    assert_eq!(result.content, "line1\nline2\nline3\n");
    assert!(result.modified);
}

#[test]
fn test_trim_no_changes_needed() {
    let input = "hello world\nno trailing\n";
    let result = trim_trailing_whitespace(input);
    assert_eq!(result.content, "hello world\nno trailing\n");
    assert!(!result.modified);
}

#[test]
fn test_trim_preserves_no_final_newline() {
    let input = "no newline at end   ";
    let result = trim_trailing_whitespace(input);
    assert_eq!(result.content, "no newline at end");
    assert!(result.modified);
}

#[test]
fn test_trim_preserves_final_newline() {
    let input = "has newline   \n";
    let result = trim_trailing_whitespace(input);
    assert_eq!(result.content, "has newline\n");
    assert!(result.modified);
}

#[test]
fn test_trim_empty_file() {
    let input = "";
    let result = trim_trailing_whitespace(input);
    assert_eq!(result.content, "");
    assert!(!result.modified);
}

#[test]
fn test_trim_only_newline() {
    let input = "\n";
    let result = trim_trailing_whitespace(input);
    assert_eq!(result.content, "\n");
    assert!(!result.modified);
}

#[test]
fn test_trim_only_whitespace_line() {
    let input = "   \n";
    let result = trim_trailing_whitespace(input);
    assert_eq!(result.content, "\n");
    assert!(result.modified);
}

#[test]
fn test_trim_multiple_empty_lines() {
    let input = "text\n\n\n";
    let result = trim_trailing_whitespace(input);
    assert_eq!(result.content, "text\n\n\n");
    assert!(!result.modified);
}

#[test]
fn test_trim_preserves_leading_whitespace() {
    let input = "    indented line   \n";
    let result = trim_trailing_whitespace(input);
    assert_eq!(result.content, "    indented line\n");
    assert!(result.modified);
}

#[test]
fn test_trim_carriage_return() {
    // A line ending in exactly \r\n carries no trailing whitespace: the
    // \r belongs to the terminator, which normalizes to \n.
    let input = "windows line\r\n";
    let result = trim_trailing_whitespace(input);
    assert_eq!(result.content, "windows line\n");
    assert!(!result.modified);
}

#[test]
fn test_trim_crlf_with_trailing_spaces() {
    // CRLF with actual trailing spaces before \r\n
    let input = "windows line   \r\n";
    let result = trim_trailing_whitespace(input);
    assert_eq!(result.content, "windows line\n");
    assert!(result.modified);
}

#[test]
fn test_trim_twice_reports_unmodified() {
    // Idempotence: the output of a run is a fixed point, and a second
    // run finds nothing to modify.
    let first = trim_trailing_whitespace("alpha  \nbeta\t\r\ngamma");
    let second = trim_trailing_whitespace(&first.content);
    assert!(!second.modified);
    assert_eq!(second.content, first.content);
}

#[test]
fn test_trim_output_has_no_trailing_whitespace() {
    let result = trim_trailing_whitespace("one \t\ntwo\u{c}\nthree   ");
    for line in result.content.split('\n') {
        assert!(!line.ends_with(' '));
        assert!(!line.ends_with('\t'));
        assert!(!line.ends_with('\r'));
    }
}

#[test]
fn test_trim_terminator_kept_both_ways() {
    let with_nl = trim_trailing_whitespace("alpha  \n");
    assert!(with_nl.content.ends_with('\n'));
    let without_nl = trim_trailing_whitespace("alpha  ");
    assert!(!without_nl.content.ends_with('\n'));
}

#[test]
fn test_trim_whitespace_only_final_line_vanishes() {
    // A final line of nothing but whitespace trims away entirely, so
    // the output ends at the previous terminator.
    let result = trim_trailing_whitespace("alpha\n   ");
    assert_eq!(result.content, "alpha\n");
    assert!(result.modified);
}

#[test]
fn test_trim_vertical_tab_and_form_feed() {
    // Vertical tab and form feed are trailing whitespace too.
    let result = trim_trailing_whitespace("a\u{b}\nb\u{c}\n");
    assert_eq!(result.content, "a\nb\n");
    assert!(result.modified);
}

#[test]
fn test_trim_bare_carriage_return_is_trimmed() {
    // A \r not followed by \n is ordinary trailing whitespace.
    let result = trim_trailing_whitespace("alpha\r");
    assert_eq!(result.content, "alpha");
    assert!(result.modified);
}
