use tty_sender::buffer::{Extraction, TextBuffer, MAX_LINE_LEN};

fn buffer_with(text: &str, caret: usize) -> TextBuffer {
    let mut buf = TextBuffer::new();
    buf.set_text(text.chars().collect());
    buf.set_selection(caret);
    buf
}

#[test]
fn line_index_counts_newlines_before_offset() {
    let buf = buffer_with("AB\nC", 0);
    assert_eq!(buf.line_index_of(0), 0);
    assert_eq!(buf.line_index_of(2), 0);
    assert_eq!(buf.line_index_of(3), 1);
    assert_eq!(buf.line_index_of(4), 1);
}

#[test]
fn line_char_offset_finds_line_starts() {
    let buf = buffer_with("AB\nC", 0);
    assert_eq!(buf.line_char_offset(0), Some(0));
    assert_eq!(buf.line_char_offset(1), Some(3));
    assert_eq!(buf.line_char_offset(2), None);
}

#[test]
fn set_selection_clamps_to_buffer_end() {
    let mut buf = buffer_with("AB", 0);
    buf.set_selection(100);
    assert_eq!(buf.get_selection(), 2);
    buf.set_selection(1);
    assert_eq!(buf.get_selection(), 1);
}

#[test]
fn extract_on_empty_buffer_reports_no_more() {
    let mut buf = TextBuffer::new();
    assert!(matches!(buf.extract_line(), Extraction::NoMore));
}

#[test]
fn extract_first_line_advances_to_next_line_start() {
    let mut buf = buffer_with("AB\nC", 0);
    match buf.extract_line() {
        Extraction::Line { text, next_caret } => {
            assert_eq!(text, vec!['A', 'B']);
            assert_eq!(next_caret, Some(3));
        }
        _ => panic!("expected a line"),
    }
    assert_eq!(buf.get_selection(), 3);
}

#[test]
fn extract_last_line_reports_no_following_line() {
    let mut buf = buffer_with("AB\nC", 3);
    match buf.extract_line() {
        Extraction::Line { text, next_caret } => {
            assert_eq!(text, vec!['C']);
            assert_eq!(next_caret, None);
        }
        _ => panic!("expected a line"),
    }
    assert_eq!(buf.get_selection(), 3);
}

#[test]
fn extract_blank_line_reports_no_more() {
    let mut buf = buffer_with("\nX", 0);
    assert!(matches!(buf.extract_line(), Extraction::NoMore));
    assert_eq!(buf.get_selection(), 0);
}

#[test]
fn extract_after_trailing_newline_reports_no_more() {
    let mut buf = buffer_with("A\n", 0);
    match buf.extract_line() {
        Extraction::Line { text, next_caret } => {
            assert_eq!(text, vec!['A']);
            assert_eq!(next_caret, Some(2));
        }
        _ => panic!("expected a line"),
    }
    assert!(matches!(buf.extract_line(), Extraction::NoMore));
}

#[test]
fn extract_line_at_cap_is_accepted() {
    let text: String = "x".repeat(MAX_LINE_LEN);
    let mut buf = buffer_with(&text, 0);
    match buf.extract_line() {
        Extraction::Line { text, next_caret } => {
            assert_eq!(text.len(), MAX_LINE_LEN);
            assert_eq!(next_caret, None);
        }
        _ => panic!("expected a line"),
    }
}

#[test]
fn extract_line_over_cap_is_rejected_with_its_length() {
    let text: String = "x".repeat(MAX_LINE_LEN + 1);
    let mut buf = buffer_with(&text, 0);
    match buf.extract_line() {
        Extraction::TooLong { length } => assert_eq!(length, MAX_LINE_LEN + 1),
        _ => panic!("expected a too-long report"),
    }
    assert_eq!(buf.get_selection(), 0);
}

#[test]
fn addressed_span_includes_the_terminator() {
    // 1024 characters plus the terminating newline span 1025: over the cap.
    let mut text: String = "x".repeat(MAX_LINE_LEN);
    text.push('\n');
    text.push('y');
    let mut buf = buffer_with(&text, 0);
    match buf.extract_line() {
        Extraction::TooLong { length } => assert_eq!(length, MAX_LINE_LEN + 1),
        _ => panic!("expected a too-long report"),
    }
}

#[test]
fn caret_inside_a_line_extracts_that_whole_line() {
    let mut buf = buffer_with("hello\nworld", 2);
    match buf.extract_line() {
        Extraction::Line { text, next_caret } => {
            assert_eq!(text, vec!['h', 'e', 'l', 'l', 'o']);
            assert_eq!(next_caret, Some(6));
        }
        _ => panic!("expected a line"),
    }
}

#[test]
fn get_line_text_excludes_the_terminator() {
    let buf = buffer_with("AB\nC", 0);
    assert_eq!(buf.get_line_text(0, 1024), vec!['A', 'B']);
    assert_eq!(buf.get_line_text(1, 1024), vec!['C']);
    assert_eq!(buf.get_line_text(2, 1024), Vec::<char>::new());
}

#[test]
fn get_line_text_honours_the_length_cap() {
    let buf = buffer_with("hello\nworld", 0);
    assert_eq!(buf.get_line_text(0, 3), vec!['h', 'e', 'l']);
    assert_eq!(buf.get_line_text(1, 0), Vec::<char>::new());
}

#[test]
fn get_text_and_length_report_the_contents() {
    let buf = buffer_with("AB\nC", 0);
    assert_eq!(buf.text_length(), 4);
    assert_eq!(buf.get_text(), &vec!['A', 'B', '\n', 'C']);
}
