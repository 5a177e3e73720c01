use hecto::editor::editorcommand::{Direction, EditorCommand};
use hecto::editor::terminal::{Position, Size};
use hecto::editor::view::View;

fn view_with(text: &str, width: usize, height: usize) -> View {
    let mut view = View::new(Size { width, height });
    view.load(Some(text));
    view
}

fn go(view: &mut View, direction: Direction) {
    let command = EditorCommand::Move(direction);
    assert!(view.command_fits(&command));
    view.handle_command(command);
}

fn at(view: &View) -> (usize, usize) {
    let p = view.cursor_position();
    (p.x, p.y)
}

#[test]
fn welcome_screen() {
    let mut view = View::new(Size { width: 40, height: 5 });
    let rows = view.render().expect("a redraw is due");
    assert_eq!(rows.len(), 5);
    assert_eq!(rows[0], "~");
    assert_eq!(rows[1], "~");
    assert_eq!(rows[2], "~    hecto editor -- version 0.1.0");
    assert_eq!(rows[3], "~");
    assert_eq!(rows[4], "~");
}

#[test]
fn welcome_message_is_cut_to_width() {
    let mut view = View::new(Size { width: 10, height: 1 });
    let rows = view.render().unwrap();
    assert_eq!(rows, vec!["~hecto edi".to_string()]);
    let mut one = View::new(Size { width: 1, height: 3 });
    assert_eq!(one.render().unwrap(), vec!["~", "~", "~"]);
}

#[test]
fn render_draws_once() {
    let mut view = view_with("abc", 10, 2);
    assert!(view.render().is_some());
    assert!(view.render().is_none());
    go(&mut view, Direction::Right);
    assert!(view.render().is_some());
}

#[test]
fn empty_screen_draws_nothing() {
    let mut view = view_with("abc", 0, 3);
    assert!(view.render().is_none());
    let mut flat = view_with("abc", 5, 0);
    assert!(flat.render().is_none());
    flat.handle_command(EditorCommand::Resize(Size { width: 5, height: 2 }));
    assert_eq!(flat.render().unwrap(), vec!["abc", "~"]);
}

#[test]
fn failed_load_changes_nothing() {
    let mut view = view_with("abc", 5, 2);
    assert!(view.render().is_some());
    view.load(None);
    assert!(view.render().is_none());
}

#[test]
fn rows_show_the_text() {
    let mut view = view_with("first\nsecond", 4, 3);
    assert_eq!(view.render().unwrap(), vec!["firs", "seco", "~"]);
}

#[test]
fn moves_within_text() {
    let mut view = view_with("abc\nde\nfghij", 20, 10);
    assert_eq!(at(&view), (0, 0));
    go(&mut view, Direction::Right);
    go(&mut view, Direction::Right);
    go(&mut view, Direction::Right);
    assert_eq!(at(&view), (3, 0));
    // down to a shorter line: the column is cut to its end
    go(&mut view, Direction::Down);
    assert_eq!(at(&view), (2, 1));
    go(&mut view, Direction::Down);
    assert_eq!(at(&view), (2, 2));
    go(&mut view, Direction::End);
    assert_eq!(at(&view), (5, 2));
    go(&mut view, Direction::Home);
    assert_eq!(at(&view), (0, 2));
    go(&mut view, Direction::Up);
    assert_eq!(at(&view), (0, 1));
}

#[test]
fn down_stops_after_last_line() {
    let mut view = view_with("a\nb", 20, 10);
    go(&mut view, Direction::Down);
    go(&mut view, Direction::Down);
    go(&mut view, Direction::Down);
    go(&mut view, Direction::Down);
    assert_eq!(at(&view), (0, 2));
    go(&mut view, Direction::Up);
    go(&mut view, Direction::Up);
    go(&mut view, Direction::Up);
    go(&mut view, Direction::Up);
    assert_eq!(at(&view), (0, 0));
}

#[test]
fn right_wraps_and_left_wraps_back() {
    let mut view = view_with("ab\ncd", 20, 10);
    go(&mut view, Direction::End);
    assert_eq!(at(&view), (2, 0));
    go(&mut view, Direction::Right);
    assert_eq!(at(&view), (0, 1));
    go(&mut view, Direction::Left);
    assert_eq!(at(&view), (2, 0));
    // Left at the very start goes to the end of the first line
    go(&mut view, Direction::Home);
    go(&mut view, Direction::Left);
    assert_eq!(at(&view), (2, 0));
}

#[test]
fn right_then_left_comes_back() {
    let mut view = view_with("abc\nd", 20, 10);
    go(&mut view, Direction::Right);
    let before = at(&view);
    go(&mut view, Direction::Right);
    go(&mut view, Direction::Left);
    assert_eq!(at(&view), before);
    go(&mut view, Direction::Down);
    let before = at(&view);
    go(&mut view, Direction::Left);
    go(&mut view, Direction::Right);
    assert_eq!(at(&view), before);
}

#[test]
fn pages_move_by_screen_height_less_one() {
    let text: Vec<String> = (0..20).map(|i| format!("line {i}")).collect();
    let mut view = view_with(&text.join("\n"), 20, 5);
    go(&mut view, Direction::PageDown);
    assert_eq!(at(&view), (0, 4));
    go(&mut view, Direction::PageDown);
    // the cursor is on line 8, shown on the last screen row
    assert_eq!(at(&view), (0, 4));
    let rows = view.render().unwrap();
    assert_eq!(rows[4], "line 8");
    assert_eq!(rows[0], "line 4");
    go(&mut view, Direction::PageUp);
    assert_eq!(at(&view), (0, 0));
    assert_eq!(view.render().unwrap()[0], "line 4");
}

#[test]
fn scrolling_follows_the_cursor() {
    let mut view = view_with("0\n1\n2\n3\n4\n5", 10, 3);
    for _ in 0..4 {
        go(&mut view, Direction::Down);
    }
    assert_eq!(at(&view), (0, 2));
    assert_eq!(view.render().unwrap(), vec!["2", "3", "4"]);
    for _ in 0..4 {
        go(&mut view, Direction::Up);
    }
    assert_eq!(at(&view), (0, 0));
    assert_eq!(view.render().unwrap(), vec!["0", "1", "2"]);
}

#[test]
fn horizontal_scrolling() {
    let mut view = view_with("abcdefghij", 4, 2);
    go(&mut view, Direction::End);
    assert_eq!(at(&view), (3, 0));
    assert_eq!(view.render().unwrap(), vec!["hij", "~"]);
    go(&mut view, Direction::Home);
    assert_eq!(at(&view), (0, 0));
    assert_eq!(view.render().unwrap(), vec!["abcd", "~"]);
}

#[test]
fn resize_scrolls_to_the_cursor() {
    let mut view = view_with("0\n1\n2\n3\n4", 10, 5);
    for _ in 0..4 {
        go(&mut view, Direction::Down);
    }
    assert_eq!(at(&view), (0, 4));
    view.handle_command(EditorCommand::Resize(Size { width: 10, height: 2 }));
    assert_eq!(at(&view), (0, 1));
    assert_eq!(view.render().unwrap(), vec!["3", "4"]);
}

#[test]
fn quit_changes_nothing_in_the_view() {
    let mut view = view_with("abc", 10, 2);
    assert!(view.render().is_some());
    view.handle_command(EditorCommand::Quit);
    assert!(view.render().is_none());
    assert_eq!(at(&view), (0, 0));
}

#[test]
fn overflowing_resize_is_refused() {
    let mut view = view_with("0\n1\n2", 10, 1);
    go(&mut view, Direction::Down);
    go(&mut view, Direction::Down);
    assert_eq!(at(&view), (0, 0));
    let huge = EditorCommand::Resize(Size { width: 10, height: usize::MAX });
    assert!(!view.command_fits(&huge));
    assert!(view.command_fits(&EditorCommand::Resize(Size { width: 10, height: 3 })));
    assert!(view.command_fits(&EditorCommand::Quit));
}

#[test]
fn position_defaults_and_subtraction() {
    let p = Position::default();
    assert_eq!(p, Position { x: 0, y: 0 });
    let q = Position { x: 3, y: 1 }.saturating_sub(Position { x: 1, y: 5 });
    assert_eq!(q, Position { x: 2, y: 0 });
    assert_eq!(Size::default(), Size { width: 0, height: 0 });
}

#[test]
fn rows_fit_the_width() {
    let mut view = view_with("a very long line of text\nshort\n", 6, 4);
    for _ in 0..10 {
        go(&mut view, Direction::Right);
    }
    let rows = view.render().unwrap();
    assert_eq!(rows.len(), 4);
    for row in &rows {
        assert!(row.chars().count() <= 6, "row {row:?}");
    }
    assert_eq!(rows[0], "y long");
}

#[test]
fn resizing_to_the_same_size_keeps_the_screen() {
    let mut view = view_with("0\n1\n2\n3\n4\n5", 3, 2);
    for _ in 0..5 {
        go(&mut view, Direction::Down);
    }
    view.handle_command(EditorCommand::Resize(Size { width: 3, height: 2 }));
    let first = view.render().unwrap();
    let cursor = at(&view);
    view.handle_command(EditorCommand::Resize(Size { width: 3, height: 2 }));
    assert_eq!(view.render().unwrap(), first);
    assert_eq!(at(&view), cursor);
    assert_eq!(first, vec!["4", "5"]);
}

#[test]
fn cursor_column_counts_display_width() {
    let mut view = view_with("a界b", 20, 3);
    go(&mut view, Direction::Right);
    go(&mut view, Direction::Right);
    assert_eq!(at(&view), (3, 0));
    go(&mut view, Direction::End);
    assert_eq!(at(&view), (4, 0));
}

#[test]
fn scrolling_follows_display_columns() {
    let mut view = view_with("界界界界", 4, 1);
    go(&mut view, Direction::End);
    // the cursor sits after 8 columns; with 4 columns shown the offset is 5
    assert_eq!(at(&view), (3, 0));
    assert_eq!(view.render().unwrap(), vec!["⋯界"]);
}

#[test]
fn try_handle_command_refuses_overflow() {
    let mut view = view_with("0\n1\n2", 10, 1);
    go(&mut view, Direction::Down);
    go(&mut view, Direction::Down);
    assert!(view.render().is_some());
    let huge = EditorCommand::Resize(Size { width: 10, height: usize::MAX });
    assert!(!view.try_handle_command(huge));
    assert!(view.render().is_none());
    assert!(view.try_handle_command(EditorCommand::Move(Direction::Up)));
    assert_eq!(at(&view), (0, 0));
}
