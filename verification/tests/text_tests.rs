use hecto::editor::buffer::Buffer as StringBuffer;
use hecto::editor::text::text_lines;
use hecto::editor::view::buffer::Buffer;
use hecto::editor::view::Location;

fn std_lines(text: &str) -> Vec<String> {
    text.lines().map(String::from).collect()
}

#[test]
fn text_lines_like_std() {
    let samples = [
        "",
        "\n",
        "\n\n",
        "a",
        "a\n",
        "a\nb",
        "a\r\nb\r\n",
        "a\r",
        "a\r\r\n",
        "\r",
        "\r\n",
        "x\ry\n\rz",
        "héllo\nwörld\n",
        "one\n\ntwo\n\n",
    ];
    for sample in samples {
        assert_eq!(text_lines(sample), std_lines(sample), "text {sample:?}");
    }
}

#[test]
fn text_lines_final_newline_optional() {
    assert_eq!(text_lines("a\nb"), text_lines("a\nb\n"));
    assert_eq!(text_lines("a\nb"), vec!["a".to_string(), "b".to_string()]);
    // a bare carriage return at the end is kept, and goes with a final "\n"
    assert_eq!(text_lines("a\r"), vec!["a\r".to_string()]);
    assert_eq!(text_lines("a\r\n"), vec!["a".to_string()]);
}

#[test]
fn string_buffer_new() {
    let b = StringBuffer::new(Some("first\nsecond\r\n"));
    assert_eq!(b.lines, vec!["first".to_string(), "second".to_string()]);
    let empty = StringBuffer::new(None);
    assert!(empty.lines.is_empty());
}

fn texts(buffer: &Buffer) -> Vec<String> {
    buffer.lines.iter().map(|l| l.get(0..usize::MAX)).collect()
}

#[test]
fn buffer_from_text() {
    let b = Buffer::from_text("ab\ncd");
    assert_eq!(texts(&b), vec!["ab", "cd"]);
    let d = Buffer::default();
    assert!(d.lines.is_empty());
}

#[test]
fn buffer_insert_char() {
    let mut b = Buffer::from_text("ab\ncd");
    b.insert_char('x', &Location { grapheme_index: 1, line_index: 1 });
    assert_eq!(texts(&b), vec!["ab", "cxd"]);
    // just past the last line: a new line
    b.insert_char('y', &Location { grapheme_index: 5, line_index: 2 });
    assert_eq!(texts(&b), vec!["ab", "cxd", "y"]);
    // further down: nothing happens
    b.insert_char('z', &Location { grapheme_index: 0, line_index: 9 });
    assert_eq!(texts(&b), vec!["ab", "cxd", "y"]);
    // past the end of a line: appended
    b.insert_char('w', &Location { grapheme_index: 9, line_index: 0 });
    assert_eq!(texts(&b), vec!["abw", "cxd", "y"]);
}
