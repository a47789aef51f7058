use deb822_repository::{line_number, locate, SyntaxError};

#[test]
fn first_line_is_line_one() {
    assert_eq!(line_number("", 0), 1);
    assert_eq!(line_number("abc", 0), 1);
    assert_eq!(line_number("abc", 2), 1);
}

#[test]
fn a_line_feed_belongs_to_the_line_that_it_ends() {
    let text = "a\nb\nc";
    assert_eq!(line_number(text, 0), 1);
    assert_eq!(line_number(text, 1), 1);
    assert_eq!(line_number(text, 2), 2);
    assert_eq!(line_number(text, 3), 2);
    assert_eq!(line_number(text, 4), 3);
}

#[test]
fn offset_past_the_end_counts_as_the_end() {
    assert_eq!(line_number("a\nb\nc", 5), 3);
    assert_eq!(line_number("a\nb\nc", 100), 3);
    assert_eq!(line_number("a\nb\n", usize::MAX), 3);
    assert_eq!(line_number("", 7), 1);
}

#[test]
fn blank_lines_are_counted() {
    assert_eq!(line_number("\n\n\nx", 3), 4);
    assert_eq!(line_number("\n\n\nx", 2), 3);
}

#[test]
fn offsets_are_in_bytes_and_carriage_returns_end_no_line() {
    assert_eq!(line_number("\u{e9}\nx", 2), 1);
    assert_eq!(line_number("\u{e9}\nx", 3), 2);
    assert_eq!(line_number("a\r\nb\rc", 3), 2);
    assert_eq!(line_number("a\r\nb\rc", 5), 2);
}

#[test]
fn findings_are_located_one_for_one() {
    let findings = vec![
        ("second".to_string(), 4, 6),
        ("first".to_string(), 0, 1),
        ("beyond".to_string(), 40, 41),
    ];
    let errors = locate("ab\ncd ef\ngh\n", &findings);
    assert_eq!(
        errors,
        vec![
            SyntaxError { message: "second".to_string(), line: 2, start: 4, end: 6 },
            SyntaxError { message: "first".to_string(), line: 1, start: 0, end: 1 },
            SyntaxError { message: "beyond".to_string(), line: 4, start: 40, end: 41 },
        ]
    );
}

#[test]
fn no_findings_give_no_errors() {
    assert_eq!(locate("A: b\n", &Vec::new()), Vec::new());
}
