use hecto::editor::view::line::Line;

#[test]
fn line_from_keeps_text() {
    let line = Line::from("héllo");
    assert_eq!(line.grapheme_count(), 5);
    assert_eq!(line.len(), 6);
    assert_eq!(line.get(0..100), "héllo");
}

#[test]
fn line_get_cuts_at_end() {
    let line = Line::from("hello");
    assert_eq!(line.get(1..3), "el");
    assert_eq!(line.get(3..100), "lo");
    assert_eq!(line.get(5..9), "");
}

#[test]
fn line_get_rejects_bad_ranges() {
    let line = Line::from("héllo");
    // byte 2 lies inside 'é'
    assert_eq!(line.get(0..2), "");
    assert_eq!(line.get(2..4), "");
    assert_eq!(line.get(0..3), "hé");
    // start after end
    assert_eq!(line.get(4..1), "");
    // start past the end
    assert_eq!(line.get(7..9), "");
}

#[test]
fn line_get_matches_str_get() {
    let text = "aé😀b";
    let line = Line::from(text);
    for start in 0..12 {
        for end in 0..12 {
            let expected = text
                .get(start..end.min(text.len()))
                .unwrap_or_default()
                .to_string();
            assert_eq!(line.get(start..end), expected, "range {start}..{end}");
        }
    }
}

#[test]
fn line_len_is_bytes() {
    assert_eq!(Line::from("").len(), 0);
    assert_eq!(Line::from("abc").len(), 3);
    assert_eq!(Line::from("😀").len(), 4);
    assert_eq!(Line::from("😀").grapheme_count(), 1);
}

#[test]
fn line_width_until() {
    let line = Line::from("abcd");
    assert_eq!(line.width_until(0), 0);
    assert_eq!(line.width_until(3), 3);
    assert_eq!(line.width_until(4), 4);
    assert_eq!(line.width_until(10), 4);
}

#[test]
fn line_visible_graphemes() {
    let line = Line::from("abcdef");
    assert_eq!(line.get_visible_graphemes(1..4), "bcd");
    assert_eq!(line.get_visible_graphemes(4..100), "ef");
    assert_eq!(line.get_visible_graphemes(6..10), "");
    assert_eq!(line.get_visible_graphemes(3..3), "");
    assert_eq!(line.get_visible_graphemes(4..2), "");
    let wide = Line::from("äöü");
    assert_eq!(wide.get_visible_graphemes(1..2), "ö");
}

#[test]
fn line_insert_char() {
    let mut line = Line::from("acd");
    line.insert_char('b', 1);
    assert_eq!(line.get(0..10), "abcd");
    line.insert_char('x', 0);
    assert_eq!(line.get(0..10), "xabcd");
    line.insert_char('y', 5);
    assert_eq!(line.get(0..10), "xabcdy");
    line.insert_char('z', 100);
    assert_eq!(line.get(0..10), "xabcdyz");
    assert_eq!(line.grapheme_count(), 7);
}

#[test]
fn line_insert_char_multibyte() {
    let mut line = Line::from("ü");
    line.insert_char('é', 0);
    assert_eq!(line.get(0..10), "éü");
    assert_eq!(line.len(), 4);
}

#[test]
fn line_get_adjacent_ranges_join() {
    let line = Line::from("aé😀b");
    let boundaries = [0usize, 1, 3, 7, 8];
    for &a in &boundaries {
        for &b in &boundaries {
            for &c in &boundaries {
                if a <= b && b <= c {
                    assert_eq!(line.get(a..b) + &line.get(b..c), line.get(a..c));
                }
            }
        }
    }
}

#[test]
fn wide_graphemes_take_two_columns() {
    let line = Line::from("a界b");
    assert_eq!(line.grapheme_count(), 3);
    assert_eq!(line.width_until(0), 0);
    assert_eq!(line.width_until(1), 1);
    assert_eq!(line.width_until(2), 3);
    assert_eq!(line.width_until(3), 4);
    assert_eq!(line.width_until(9), 4);
    assert_eq!(line.checked_width_until(2), Some(3));
}

#[test]
fn combined_graphemes_count_once() {
    // 'e' with a combining acute accent is one grapheme
    let line = Line::from("e\u{301}x");
    assert_eq!(line.grapheme_count(), 2);
    assert_eq!(line.width_until(1), 1);
    let flags = Line::from("🇷🇺🇸🇹");
    assert_eq!(flags.grapheme_count(), 2);
}

#[test]
fn visible_graphemes_by_columns() {
    let line = Line::from("a界b界");
    // columns: a=0, 界=1..3, b=3, 界=4..6
    assert_eq!(line.get_visible_graphemes(0..6), "a界b界");
    assert_eq!(line.get_visible_graphemes(1..3), "界");
    // a wide grapheme cut by an edge shows as an ellipsis
    assert_eq!(line.get_visible_graphemes(2..4), "⋯b");
    assert_eq!(line.get_visible_graphemes(0..2), "a⋯");
    assert_eq!(line.get_visible_graphemes(3..5), "b⋯");
    assert_eq!(line.get_visible_graphemes(6..9), "");
}

#[test]
fn insert_char_goes_before_a_grapheme() {
    let mut line = Line::from("e\u{301}界");
    line.insert_char('x', 1);
    assert_eq!(line.get(0..100), "e\u{301}x界");
    assert_eq!(line.grapheme_count(), 3);
    line.insert_char('y', 7);
    assert_eq!(line.get(0..100), "e\u{301}x界y");
}
