use hecto::editor::event::{Event, KeyCode, KeyEvent, KeyEventKind, CONTROL};
use hecto::editor::terminal::{Position, Size};
use hecto::editor::view::location::Location;
use hecto::editor::view::View;
use hecto::editor::Editor;

fn key(code: KeyCode, modifiers: u8, kind: KeyEventKind) -> Event {
    Event::Key(KeyEvent { code, modifiers, kind })
}

fn press(code: KeyCode) -> Event {
    key(code, 0, KeyEventKind::Press)
}

fn editor_with(text: &str, width: usize, height: usize) -> Editor {
    let mut view = View::new(Size { width, height });
    view.load(Some(text));
    Editor::new(view)
}

fn send(editor: &mut Editor, event: Event) {
    assert!(editor.event_fits(&event));
    editor.evaluate_event(event);
}

#[test]
fn control_q_quits() {
    let mut editor = editor_with("abc", 10, 3);
    assert!(!editor.should_quit());
    send(&mut editor, press(KeyCode::Char('q')));
    assert!(!editor.should_quit());
    send(&mut editor, key(KeyCode::Char('q'), CONTROL | 1, KeyEventKind::Press));
    assert!(!editor.should_quit());
    send(&mut editor, key(KeyCode::Char('q'), CONTROL, KeyEventKind::Release));
    assert!(!editor.should_quit());
    send(&mut editor, key(KeyCode::Char('q'), CONTROL, KeyEventKind::Press));
    assert!(editor.should_quit());
    // nothing takes it back
    send(&mut editor, press(KeyCode::Down));
    send(&mut editor, Event::Resize(3, 3));
    assert!(editor.should_quit());
}

#[test]
fn arrows_move_the_cursor_cell() {
    let mut editor = editor_with("abc\ndef", 10, 3);
    let (_, p) = editor.refresh_screen();
    assert_eq!(p, Position { x: 0, y: 0 });
    send(&mut editor, press(KeyCode::Right));
    send(&mut editor, press(KeyCode::Down));
    let (rows, p) = editor.refresh_screen();
    assert_eq!(p, Position { x: 1, y: 1 });
    assert_eq!(rows.unwrap(), vec!["abc", "def", "~"]);
    send(&mut editor, press(KeyCode::End));
    assert_eq!(editor.refresh_screen().1, Position { x: 3, y: 1 });
    send(&mut editor, press(KeyCode::Home));
    assert_eq!(editor.refresh_screen().1, Position { x: 0, y: 1 });
    send(&mut editor, press(KeyCode::PageUp));
    assert_eq!(editor.refresh_screen().1, Position { x: 0, y: 0 });
    send(&mut editor, press(KeyCode::PageDown));
    assert_eq!(editor.refresh_screen().1, Position { x: 0, y: 2 });
    send(&mut editor, press(KeyCode::Left));
    assert_eq!(editor.refresh_screen().1, Position { x: 3, y: 1 });
    send(&mut editor, press(KeyCode::Up));
    assert_eq!(editor.refresh_screen().1, Position { x: 3, y: 0 });
}

#[test]
fn held_and_released_keys_are_ignored() {
    let mut editor = editor_with("abc", 10, 3);
    assert!(editor.refresh_screen().0.is_some());
    send(&mut editor, key(KeyCode::Right, 0, KeyEventKind::Repeat));
    send(&mut editor, key(KeyCode::Right, 0, KeyEventKind::Release));
    send(&mut editor, press(KeyCode::Char('x')));
    send(&mut editor, press(KeyCode::Other));
    send(&mut editor, Event::Other);
    let (rows, p) = editor.refresh_screen();
    assert!(rows.is_none());
    assert_eq!(p, Position { x: 0, y: 0 });
}

#[test]
fn resize_redraws_at_the_new_size() {
    let mut editor = editor_with("abcdef", 10, 3);
    assert!(editor.refresh_screen().0.is_some());
    send(&mut editor, Event::Resize(3, 1));
    let (rows, _) = editor.refresh_screen();
    assert_eq!(rows.unwrap(), vec!["abc"]);
}

#[test]
fn location_subtract_saturates() {
    let a = Location { column: 5, row: 2 };
    let b = Location { column: 7, row: 1 };
    assert_eq!(a.subtract(&b), Location { column: 0, row: 1 });
    assert_eq!(a.subtract(&a), Location { column: 0, row: 0 });
    assert_eq!(a.subtract(&Location::default()), a);
    let p: Position = Position::from(a);
    assert_eq!(p, Position { x: 5, y: 2 });
}

#[test]
fn try_evaluate_event_handles_fitting_events() {
    let mut editor = editor_with("a界b", 10, 3);
    assert!(editor.try_evaluate_event(press(KeyCode::End)));
    assert_eq!(editor.refresh_screen().1, Position { x: 4, y: 0 });
    assert!(editor.try_evaluate_event(key(KeyCode::Char('q'), CONTROL, KeyEventKind::Press)));
    assert!(editor.should_quit());
}
