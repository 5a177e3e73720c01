pub mod buffer;
pub mod editorcommand;
pub mod event;
pub mod terminal;
pub mod text;
pub mod view;

use self::editorcommand::{Direction, EditorCommand};
use self::event::{Event, KeyCode, KeyEvent, KeyEventKind, CONTROL};
use self::terminal::{Position, Size};
use self::view::{
    command_fits_spec, handle_command_spec, screen_position, View, ViewState,
};
use vstd::prelude::*;
use vstd::view::View as ViewTrait;

verus! {

/// Everything an editor holds, as plain values.
#[verifier::ext_equal]
pub struct EditorState {
    /// The screen cell of the cursor.
    pub position: Position,
    /// Whether the user asked to quit.
    pub should_quit: bool,
    /// The text view.
    pub view: ViewState,
}

/// The direction in which a key moves the cursor, if it moves it.
pub open spec fn direction_of(code: KeyCode) -> Option<Direction> {
    match code {
        KeyCode::Up => Some(Direction::Up),
        KeyCode::Down => Some(Direction::Down),
        KeyCode::Left => Some(Direction::Left),
        KeyCode::Right => Some(Direction::Right),
        KeyCode::PageUp => Some(Direction::PageUp),
        KeyCode::PageDown => Some(Direction::PageDown),
        KeyCode::Home => Some(Direction::Home),
        KeyCode::End => Some(Direction::End),
        _ => None,
    }
}

/// Whether the key event is Control and `q` pressed, which quits.
pub open spec fn is_quit_key(code: KeyCode, modifiers: u8) -> bool {
    code == KeyCode::Char('q') && modifiers == CONTROL
}

/// The view command that an event leads to, if any.
pub open spec fn command_of(event: Event) -> Option<EditorCommand> {
    match event {
        Event::Key(key) => if key.kind == KeyEventKind::Press && !is_quit_key(
            key.code,
            key.modifiers,
        ) {
            match direction_of(key.code) {
                Some(direction) => Some(EditorCommand::Move(direction)),
                None => None,
            }
        } else {
            None
        },
        Event::Resize(width, height) => Some(
            EditorCommand::Resize(Size { width: width as usize, height: height as usize }),
        ),
        Event::Other => None,
    }
}

/// Handling `event` stays within `usize`.
pub open spec fn event_fits_spec(e: EditorState, event: Event) -> bool {
    match command_of(event) {
        Some(command) => command_fits_spec(e.view, command),
        None => true,
    }
}

/// The state after `event`: Control and `q` pressed asks to quit; a pressed
/// movement key moves the cursor and puts the cursor cell where it now
/// shows; a resize goes to the view and leaves the cursor cell as it was;
/// anything else changes nothing.
pub open spec fn evaluate_event_spec(e: EditorState, event: Event) -> EditorState {
    match event {
        Event::Key(key) => if key.kind == KeyEventKind::Press && is_quit_key(
            key.code,
            key.modifiers,
        ) {
            EditorState { should_quit: true, ..e }
        } else {
            match command_of(event) {
                Some(command) => {
                    let v = handle_command_spec(e.view, command);
                    EditorState { view: v, position: screen_position(v), ..e }
                },
                None => e,
            }
        },
        Event::Resize(..) => match command_of(event) {
            Some(command) => EditorState { view: handle_command_spec(e.view, command), ..e },
            None => e,
        },
        Event::Other => e,
    }
}

/// The editor asks to quit after an event exactly when it did before, or
/// the event is Control and `q` pressed.
pub proof fn lemma_should_quit_exact(e: EditorState, event: Event)
    ensures
        evaluate_event_spec(e, event).should_quit == (e.should_quit || match event {
            Event::Key(key) => key.kind == KeyEventKind::Press && is_quit_key(
                key.code,
                key.modifiers,
            ),
            _ => false,
        }),
{
}

/// Once the user asked to quit, no event takes it back.
pub proof fn lemma_quit_is_kept(e: EditorState, event: Event)
    requires
        e.should_quit,
    ensures
        evaluate_event_spec(e, event).should_quit,
{
}

/// Keys that are held or let go change nothing; only pressed keys count.
pub proof fn lemma_only_pressed_keys_count(e: EditorState, key: KeyEvent)
    requires
        key.kind != KeyEventKind::Press,
    ensures
        evaluate_event_spec(e, Event::Key(key)) == e,
{
}

/// The editor: the text view, the cell where the cursor shows, and whether
/// the user asked to quit.
pub struct Editor {
    position: Position,
    should_quit: bool,
    view: View,
}

impl Editor {
    /// Everything the editor holds, as plain values.
    pub closed spec fn state(&self) -> EditorState {
        EditorState {
            position: self.position,
            should_quit: self.should_quit,
            view: self.view.state(),
        }
    }

    /// An editor on `view`, with the cursor cell at the top left and no
    /// request to quit.
    pub fn new(view: View) -> (e: Self)
        ensures
            e.state() == (EditorState {
                position: Position { x: 0, y: 0 },
                should_quit: false,
                view: view.state(),
            }),
    {
        Self { position: Position::default(), should_quit: false, view }
    }

    /// Whether the user asked to quit.
    pub fn should_quit(&self) -> (b: bool)
        ensures
            b == self.state().should_quit,
    {
        self.should_quit
    }

    /// Whether `event` can be handled with every index within `usize`.
    pub fn event_fits(&self, event: &Event) -> (fits: bool)
        ensures
            fits == event_fits_spec(self.state(), *event),
    {
        match Self::command_of(event) {
            Some(command) => self.view.command_fits(&command),
            None => true,
        }
    }

    /// The view command that an event leads to, if any.
    fn command_of(event: &Event) -> (command: Option<EditorCommand>)
        ensures
            command == command_of(*event),
    {
        match event {
            Event::Key(key) => {
                let quit = match key.code {
                    KeyCode::Char(c) => c == 'q' && key.modifiers == CONTROL,
                    _ => false,
                };
                let pressed = match key.kind {
                    KeyEventKind::Press => true,
                    _ => false,
                };
                if pressed && !quit {
                    match key.code {
                        KeyCode::Up => Some(EditorCommand::Move(Direction::Up)),
                        KeyCode::Down => Some(EditorCommand::Move(Direction::Down)),
                        KeyCode::Left => Some(EditorCommand::Move(Direction::Left)),
                        KeyCode::Right => Some(EditorCommand::Move(Direction::Right)),
                        KeyCode::PageUp => Some(EditorCommand::Move(Direction::PageUp)),
                        KeyCode::PageDown => Some(EditorCommand::Move(Direction::PageDown)),
                        KeyCode::Home => Some(EditorCommand::Move(Direction::Home)),
                        KeyCode::End => Some(EditorCommand::Move(Direction::End)),
                        _ => None,
                    }
                } else {
                    None
                }
            },
            Event::Resize(width_u16, height_u16) => {
                let height = *height_u16 as usize;
                let width = *width_u16 as usize;
                Some(EditorCommand::Resize(Size { height, width }))
            },
            Event::Other => None,
        }
    }

    fn move_cursor(&mut self, direction: Direction)
        requires
            command_fits_spec(old(self).state().view, EditorCommand::Move(direction)),
        ensures
            final(self).state() == ({
                let v = handle_command_spec(old(self).state().view, EditorCommand::Move(direction));
                EditorState { view: v, position: screen_position(v), ..old(self).state() }
            }),
    {
        self.view.handle_command(EditorCommand::Move(direction));
        self.position = self.view.cursor_position();
    }

    /// Handles one event from the terminal: Control and `q` pressed asks to
    /// quit; a pressed movement key moves the cursor; a resize goes to the
    /// view; anything else is ignored.
    pub fn evaluate_event(&mut self, event: Event)
        requires
            event_fits_spec(old(self).state(), event),
        ensures
            final(self).state() == evaluate_event_spec(old(self).state(), event),
            final(self).state().should_quit == (old(self).state().should_quit || match event {
                Event::Key(key) => key.kind == KeyEventKind::Press && is_quit_key(
                    key.code,
                    key.modifiers,
                ),
                _ => false,
            }),
    {
        proof {
            lemma_should_quit_exact(self.state(), event);
        }
        match event {
            Event::Key(key) => {
                let pressed = match key.kind {
                    KeyEventKind::Press => true,
                    _ => false,
                };
                if pressed {
                    match key.code {
                        KeyCode::Char('q') if key.modifiers == CONTROL => {
                            self.should_quit = true;
                        },
                        KeyCode::Up => self.move_cursor(Direction::Up),
                        KeyCode::Down => self.move_cursor(Direction::Down),
                        KeyCode::Left => self.move_cursor(Direction::Left),
                        KeyCode::Right => self.move_cursor(Direction::Right),
                        KeyCode::PageUp => self.move_cursor(Direction::PageUp),
                        KeyCode::PageDown => self.move_cursor(Direction::PageDown),
                        KeyCode::Home => self.move_cursor(Direction::Home),
                        KeyCode::End => self.move_cursor(Direction::End),
                        _ => {},
                    }
                }
            },
            Event::Resize(width_u16, height_u16) => {
                let height = height_u16 as usize;
                let width = width_u16 as usize;
                self.view.handle_command(EditorCommand::Resize(Size { height, width }));
            },
            Event::Other => {},
        }
    }

    /// Handles `event` when it fits in `usize` (see `event_fits`) and says
    /// whether it did; otherwise nothing changes.
    pub fn try_evaluate_event(&mut self, event: Event) -> (handled: bool)
        ensures
            handled == event_fits_spec(old(self).state(), event),
            handled ==> final(self).state() == evaluate_event_spec(old(self).state(), event),
            !handled ==> final(self).state() == old(self).state(),
    {
        if self.event_fits(&event) {
            self.evaluate_event(event);
            true
        } else {
            false
        }
    }

    /// What the screen shows now: the rows to draw, if a redraw is due, and
    /// the cell where the cursor goes.
    pub fn refresh_screen(&mut self) -> (screen: (Option<Vec<String>>, Position))
        ensures
            screen.1 == old(self).state().position,
            final(self).state().position == old(self).state().position,
            final(self).state().should_quit == old(self).state().should_quit,
            ({
                let v = old(self).state().view;
                match screen.0 {
                    None => {
                        &&& !v.needs_redraw || v.size.width == 0 || v.size.height == 0
                        &&& final(self).state().view == v
                    },
                    Some(rows) => {
                        &&& v.needs_redraw && v.size.width > 0 && v.size.height > 0
                        &&& self::text::strings_view(rows@) == self::view::frame(v)
                        &&& final(self).state().view == (ViewState { needs_redraw: false, ..v })
                    },
                }
            }),
    {
        let rows = self.view.render();
        (rows, self.position)
    }
}

} // verus!
