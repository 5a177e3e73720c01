pub mod buffer;
pub mod line;
pub mod location;

use self::buffer::Buffer;
use self::line::{grapheme_clusters, min_int, sat_add, visible_graphemes, width_until_spec};
use crate::editor::editorcommand::{Direction, EditorCommand};
use crate::editor::terminal::{sat_sub, Position, Size};
use crate::editor::text::{push_char, split_lines, strings_view};
use vstd::prelude::*;
use vstd::view::View as ViewTrait;
use vstd::string::StrSliceExecFns;
use vstd::string::StringExecFns;

verus! {

/// The name shown in the welcome message.
pub const NAME: &'static str = "hecto";

/// The version shown in the welcome message.
pub const VERSION: &'static str = "0.1.0";

/// A place in the text: the line, and the grapheme within that line.
#[derive(Copy, Clone, Debug, PartialEq, Eq, Structural)]
pub struct Location {
    pub grapheme_index: usize,
    pub line_index: usize,
}

impl Default for Location {
    /// The first grapheme of the first line.
    fn default() -> (l: Self)
        ensures
            l == (Location { grapheme_index: 0, line_index: 0 }),
    {
        Location { grapheme_index: 0, line_index: 0 }
    }
}

/// Everything a view holds, as plain values.
#[verifier::ext_equal]
pub struct ViewState {
    /// The characters of each line of the buffer.
    pub text: Seq<Seq<char>>,
    /// Where the cursor stands in the text.
    pub location: Location,
    /// Whether the screen must be drawn again.
    pub needs_redraw: bool,
    /// The first column and the first line shown on the screen.
    pub scroll_offset: Position,
    /// The size of the screen.
    pub size: Size,
    /// The grapheme index that the last vertical move aimed at.
    pub virtual_grapheme_index: usize,
}

/// The number of graphemes of line `line_index`; a line past the end has
/// none.
pub open spec fn line_width(text: Seq<Seq<char>>, line_index: int) -> int {
    if 0 <= line_index < text.len() {
        grapheme_clusters(text[line_index]).len() as int
    } else {
        0
    }
}

/// The grapheme index `grapheme_index` cut down to the length of line
/// `line_index`; past the last line it is zero.
pub open spec fn snap_index(text: Seq<Seq<char>>, line_index: int, grapheme_index: int) -> int {
    if 0 <= line_index < text.len() {
        min_int(grapheme_clusters(text[line_index]).len() as int, grapheme_index)
    } else {
        0
    }
}

/// The text has at most `usize::MAX` lines of at most `usize::MAX`
/// graphemes each, as the text of every view has.
pub open spec fn text_fits(text: Seq<Seq<char>>) -> bool {
    &&& text.len() <= usize::MAX
    &&& forall|i: int| 0 <= i < text.len() ==> #[trigger] grapheme_clusters(text[i]).len()
        <= usize::MAX
}

/// A location is valid when it stands on a line of the text, or just after
/// the last line, and no further right than the end of its line.
pub open spec fn valid_location(text: Seq<Seq<char>>, location: Location) -> bool {
    &&& location.line_index <= text.len()
    &&& location.grapheme_index <= line_width(text, location.line_index as int)
}

/// The state `m` with the cursor moved to the given line and grapheme.
pub open spec fn with_location(
    m: ViewState,
    line_index: int,
    grapheme_index: int,
    virtual_grapheme_index: int,
) -> ViewState {
    ViewState {
        location: Location {
            grapheme_index: grapheme_index as usize,
            line_index: line_index as usize,
        },
        virtual_grapheme_index: virtual_grapheme_index as usize,
        ..m
    }
}

/// The cursor moved up `step` lines (not above the first), its grapheme
/// index cut to the new line.
pub open spec fn move_up_spec(m: ViewState, step: int) -> ViewState {
    let li = sat_sub(m.location.line_index as int, step);
    let g = snap_index(m.text, li, m.location.grapheme_index as int);
    with_location(m, li, g, g)
}

/// The cursor moved down `step` lines, but not past the line after the
/// last; its grapheme index is cut to the new line.
pub open spec fn move_down_spec(m: ViewState, step: int) -> ViewState {
    let ls = sat_add(m.location.line_index as int, step);
    let g = snap_index(m.text, ls, m.location.grapheme_index as int);
    with_location(m, min_int(ls, m.text.len() as int), g, g)
}

/// The cursor moved to the start of its line.
pub open spec fn start_of_line_spec(m: ViewState) -> ViewState {
    with_location(m, m.location.line_index as int, 0, 0)
}

/// The cursor moved to the end of its line.
pub open spec fn end_of_line_spec(m: ViewState) -> ViewState {
    let w = line_width(m.text, m.location.line_index as int);
    with_location(m, m.location.line_index as int, w, w)
}

/// The cursor moved one grapheme right, or to the start of the next line
/// from the end of a line.
pub open spec fn move_right_spec(m: ViewState) -> ViewState {
    let li = m.location.line_index as int;
    let gi = m.location.grapheme_index as int;
    if gi < line_width(m.text, li) {
        with_location(m, li, gi + 1, m.virtual_grapheme_index as int)
    } else {
        move_down_spec(start_of_line_spec(m), 1)
    }
}

/// The cursor moved one grapheme left, or to the end of the line above from
/// the start of a line.
pub open spec fn move_left_spec(m: ViewState) -> ViewState {
    let li = m.location.line_index as int;
    let gi = m.location.grapheme_index as int;
    if gi > 0 {
        with_location(m, li, gi - 1, m.virtual_grapheme_index as int)
    } else {
        end_of_line_spec(move_up_spec(m, 1))
    }
}

/// The cursor moved in `direction`; a page is the screen height less one.
pub open spec fn moved(m: ViewState, direction: Direction) -> ViewState {
    match direction {
        Direction::Up => move_up_spec(m, 1),
        Direction::Down => move_down_spec(m, 1),
        Direction::Left => move_left_spec(m),
        Direction::Right => move_right_spec(m),
        Direction::PageUp => move_up_spec(m, sat_sub(m.size.height as int, 1)),
        Direction::PageDown => move_down_spec(m, sat_sub(m.size.height as int, 1)),
        Direction::Home => start_of_line_spec(m),
        Direction::End => end_of_line_spec(m),
    }
}

/// The screen cell of the cursor, counted from the start of the text: the
/// width of the graphemes before it on its line, and its line.
pub open spec fn text_position(m: ViewState) -> Position {
    let li = m.location.line_index as int;
    Position {
        x: (if li < m.text.len() {
            width_until_spec(m.text[li], m.location.grapheme_index as int)
        } else {
            0
        }) as usize,
        y: m.location.line_index,
    }
}

/// The new first shown index along one axis: the same when `pos` is shown
/// already, else the least change that shows it.
pub open spec fn scroll_axis(offset: int, pos: int, extent: int) -> int {
    if pos < offset {
        pos
    } else if pos >= offset + extent {
        pos - extent + 1
    } else {
        offset
    }
}

/// Scrolling along one axis stays within `usize`.
pub open spec fn axis_fits(offset: int, pos: int, extent: int) -> bool {
    pos < offset || (offset + extent <= usize::MAX && (pos < offset + extent || pos - extent + 1
        <= usize::MAX))
}

/// The width of the graphemes before the cursor on its line fits in
/// `usize`.
pub open spec fn position_fits(m: ViewState) -> bool {
    let li = m.location.line_index as int;
    li < m.text.len() ==> width_until_spec(m.text[li], m.location.grapheme_index as int)
        <= usize::MAX
}

/// Finding the cursor's column, and scrolling to it, stay within `usize`
/// along both axes.
pub open spec fn scroll_fits(m: ViewState) -> bool {
    let p = text_position(m);
    &&& position_fits(m)
    &&& axis_fits(m.scroll_offset.y as int, p.y as int, m.size.height as int)
    &&& axis_fits(m.scroll_offset.x as int, p.x as int, m.size.width as int)
}

/// The screen scrolled so that the cursor is shown; a redraw is due exactly
/// when the offset moved.
pub open spec fn scroll_spec(m: ViewState) -> ViewState {
    let p = text_position(m);
    let y = scroll_axis(m.scroll_offset.y as int, p.y as int, m.size.height as int);
    let x = scroll_axis(m.scroll_offset.x as int, p.x as int, m.size.width as int);
    ViewState {
        scroll_offset: Position { x: x as usize, y: y as usize },
        needs_redraw: x != m.scroll_offset.x || y != m.scroll_offset.y,
        ..m
    }
}

/// The screen cell of the cursor: its place in the text less the scroll
/// offset, stopping at zero.
pub open spec fn screen_position(m: ViewState) -> Position {
    Position {
        x: sat_sub(text_position(m).x as int, m.scroll_offset.x as int) as usize,
        y: sat_sub(text_position(m).y as int, m.scroll_offset.y as int) as usize,
    }
}

/// The state in which the screen scrolls to the cursor when `command` is
/// handled.
pub open spec fn before_scroll(m: ViewState, command: EditorCommand) -> ViewState {
    match command {
        EditorCommand::Move(direction) => moved(m, direction),
        EditorCommand::Resize(size) => ViewState { size, ..m },
        EditorCommand::Quit => m,
    }
}

/// Handling `command` stays within `usize`.
pub open spec fn command_fits_spec(m: ViewState, command: EditorCommand) -> bool {
    match command {
        EditorCommand::Quit => true,
        _ => scroll_fits(before_scroll(m, command)),
    }
}

/// The state after `command`: a move or a resize scrolls to the cursor and
/// asks for a redraw; quitting changes nothing here.
pub open spec fn handle_command_spec(m: ViewState, command: EditorCommand) -> ViewState {
    match command {
        EditorCommand::Quit => m,
        _ => ViewState { needs_redraw: true, ..scroll_spec(before_scroll(m, command)) },
    }
}

/// The text of the welcome message.
pub open spec fn welcome_text() -> Seq<char> {
    NAME@ + " editor -- version "@ + VERSION@
}

/// The welcome message for a screen `width` columns wide: a `~`, spaces
/// that put the message about the middle, and the message, cut to `width`.
pub open spec fn welcome_message(width: int) -> Seq<char> {
    let msg = welcome_text();
    let padding = sat_sub(width, msg.len() as int) / 2;
    let spaces = Seq::new(sat_sub(padding, 1) as nat, |i: int| ' ');
    let full = seq!['~'] + spaces + msg;
    if width < full.len() {
        full.take(width)
    } else {
        full
    }
}

/// The text shown in screen row `row`: the visible part of the line there,
/// the welcome message in the middle row of an empty buffer, or `~`.
pub open spec fn row_text(m: ViewState, row: int) -> Seq<char> {
    let row_idx = sat_add(row, m.scroll_offset.y as int);
    if row_idx < m.text.len() {
        visible_graphemes(
            m.text[row_idx],
            m.scroll_offset.x as int,
            sat_add(m.scroll_offset.x as int, m.size.width as int),
        )
    } else if row == m.size.height / 2 && m.text.len() == 0 {
        welcome_message(m.size.width as int)
    } else {
        seq!['~']
    }
}

/// The rows of the screen, top to bottom.
pub open spec fn frame(m: ViewState) -> Seq<Seq<char>> {
    Seq::new(m.size.height as nat, |row: int| row_text(m, row))
}

/// Scrolling shows the cursor: on a screen with at least one row and one
/// column, after scrolling the cursor's line lies within the shown lines
/// and its column within the shown columns, so its screen cell lies on the
/// screen.
pub proof fn lemma_scroll_shows_cursor(m: ViewState)
    requires
        m.size.width > 0,
        m.size.height > 0,
    ensures
        ({
            let s = scroll_spec(m);
            let p = text_position(m);
            &&& s.scroll_offset.y <= p.y < s.scroll_offset.y + m.size.height
            &&& s.scroll_offset.x <= p.x < s.scroll_offset.x + m.size.width
            &&& screen_position(s).y < m.size.height
            &&& screen_position(s).x < m.size.width
        }),
{
}

/// After a move or a resize to a screen with at least one row and one
/// column, the cursor shows on the screen.
pub proof fn lemma_command_shows_cursor(m: ViewState, command: EditorCommand)
    requires
        command != EditorCommand::Quit,
        before_scroll(m, command).size.width > 0,
        before_scroll(m, command).size.height > 0,
    ensures
        ({
            let r = handle_command_spec(m, command);
            &&& screen_position(r).y < r.size.height
            &&& screen_position(r).x < r.size.width
        }),
{
    lemma_scroll_shows_cursor(before_scroll(m, command));
}

/// Scrolling twice is scrolling once: on a screen with at least one row and
/// one column, the second scroll keeps the offset and asks for no redraw.
pub proof fn lemma_scroll_idempotent(m: ViewState)
    requires
        m.size.width > 0,
        m.size.height > 0,
    ensures
        scroll_spec(scroll_spec(m)).scroll_offset == scroll_spec(m).scroll_offset,
        !scroll_spec(scroll_spec(m)).needs_redraw,
{
    lemma_scroll_shows_cursor(m);
}

/// Moving the cursor keeps a valid location valid.
pub proof fn lemma_move_keeps_location_valid(m: ViewState, direction: Direction)
    requires
        text_fits(m.text),
        valid_location(m.text, m.location),
    ensures
        valid_location(moved(m, direction).text, moved(m, direction).location),
{
}

/// Moving down, by a line or a page, always gives a valid location.
pub proof fn lemma_move_down_makes_location_valid(m: ViewState)
    requires
        text_fits(m.text),
    ensures
        valid_location(m.text, moved(m, Direction::Down).location),
        valid_location(m.text, moved(m, Direction::PageDown).location),
{
}

/// Left undoes Right: from a valid location on a line of the text (not
/// past the last line), moving right and then left comes back.
pub proof fn lemma_right_then_left(m: ViewState)
    requires
        text_fits(m.text),
        valid_location(m.text, m.location),
        m.location.line_index < m.text.len(),
    ensures
        move_left_spec(move_right_spec(m)).location == m.location,
{
    let li = m.location.line_index as int;
    let gi = m.location.grapheme_index as int;
    if gi >= line_width(m.text, li) {
        assert(move_up_spec(move_right_spec(m), 1).location.line_index == li);
    }
}

/// Right undoes Left: from a valid location other than the very start of
/// the text, moving left and then right comes back.
pub proof fn lemma_left_then_right(m: ViewState)
    requires
        text_fits(m.text),
        valid_location(m.text, m.location),
        m.location.line_index > 0 || m.location.grapheme_index > 0,
    ensures
        move_right_spec(move_left_spec(m)).location == m.location,
{
    let li = m.location.line_index as int;
    let gi = m.location.grapheme_index as int;
    if gi == 0 {
        let l = move_left_spec(m);
        assert(l.location.line_index == li - 1);
        assert(move_down_spec(start_of_line_spec(l), 1).location.line_index == li);
    }
}

/// Handling a command keeps a valid location valid; the text is unchanged.
pub proof fn lemma_command_keeps_location_valid(m: ViewState, command: EditorCommand)
    requires
        text_fits(m.text),
        valid_location(m.text, m.location),
    ensures
        handle_command_spec(m, command).text == m.text,
        valid_location(m.text, handle_command_spec(m, command).location),
{
    if let EditorCommand::Move(direction) = command {
        lemma_move_keeps_location_valid(m, direction);
    }
}

/// The Left command undoes the Right command on a line of the text, and the
/// Right command undoes the Left command anywhere but the very start.
pub proof fn lemma_commands_left_right_undo(m: ViewState)
    requires
        text_fits(m.text),
        valid_location(m.text, m.location),
    ensures
        m.location.line_index < m.text.len() ==> handle_command_spec(
            handle_command_spec(m, EditorCommand::Move(Direction::Right)),
            EditorCommand::Move(Direction::Left),
        ).location == m.location,
        (m.location.line_index > 0 || m.location.grapheme_index > 0) ==> handle_command_spec(
            handle_command_spec(m, EditorCommand::Move(Direction::Left)),
            EditorCommand::Move(Direction::Right),
        ).location == m.location,
{
    if m.location.line_index < m.text.len() {
        lemma_right_then_left(m);
    }
    if m.location.line_index > 0 || m.location.grapheme_index > 0 {
        lemma_left_then_right(m);
    }
}

/// Scrolling changes the offset as little as it can: along each axis the
/// new offset shows the cursor and lies at least as close to the old offset
/// as any other offset that shows the cursor. In particular, when the
/// cursor lies before the first shown line (column), that line (column)
/// becomes the first shown; when it lies past the last shown, it becomes
/// the last shown.
pub proof fn lemma_scroll_least_change(m: ViewState, oy: int, ox: int)
    requires
        m.size.width > 0,
        m.size.height > 0,
    ensures
        ({
            let s = scroll_spec(m);
            let p = text_position(m);
            let h = m.size.height as int;
            let w = m.size.width as int;
            &&& (oy <= p.y < oy + h) ==> (if s.scroll_offset.y >= m.scroll_offset.y {
                s.scroll_offset.y - m.scroll_offset.y
            } else {
                m.scroll_offset.y - s.scroll_offset.y
            }) <= (if oy >= m.scroll_offset.y {
                oy - m.scroll_offset.y
            } else {
                m.scroll_offset.y - oy
            })
            &&& (ox <= p.x < ox + w) ==> (if s.scroll_offset.x >= m.scroll_offset.x {
                s.scroll_offset.x - m.scroll_offset.x
            } else {
                m.scroll_offset.x - s.scroll_offset.x
            }) <= (if ox >= m.scroll_offset.x {
                ox - m.scroll_offset.x
            } else {
                m.scroll_offset.x - ox
            })
            &&& p.y < m.scroll_offset.y ==> s.scroll_offset.y == p.y
            &&& p.x < m.scroll_offset.x ==> s.scroll_offset.x == p.x
            &&& p.y >= m.scroll_offset.y + h ==> s.scroll_offset.y + h == p.y + 1
            &&& p.x >= m.scroll_offset.x + w ==> s.scroll_offset.x + w == p.x + 1
        }),
{
}

/// Up, Down, PageUp and PageDown keep the cursor's grapheme index where the
/// new line is long enough, and put it at the end of the new line
/// otherwise (at zero past the last line): it never grows, never passes the
/// end of the new line, and is either kept or at that end. Up goes one line
/// up (not above the first) and Down one line down (not past the line
/// after the last).
pub proof fn lemma_vertical_moves_keep_column(m: ViewState, direction: Direction)
    requires
        text_fits(m.text),
        direction == Direction::Up || direction == Direction::Down || direction
            == Direction::PageUp || direction == Direction::PageDown,
    ensures
        ({
            let r = handle_command_spec(m, EditorCommand::Move(direction)).location;
            let count = if (r.line_index as int) < m.text.len() {
                grapheme_clusters(m.text[r.line_index as int]).len() as int
            } else {
                0
            };
            &&& r.grapheme_index <= m.location.grapheme_index
            &&& r.grapheme_index <= count
            &&& r.grapheme_index == m.location.grapheme_index || r.grapheme_index == count
            &&& direction == Direction::Up ==> r.line_index == (if m.location.line_index >= 1 {
                m.location.line_index - 1
            } else {
                0
            })
            &&& direction == Direction::Down ==> r.line_index == (if m.location.line_index
                < m.text.len() {
                m.location.line_index + 1
            } else {
                m.text.len() as int
            })
        }),
{
}

/// A text view: the buffer, the cursor and the part of the text that is
/// shown on the screen.
pub struct View {
    buffer: Buffer,
    location: Location,
    needs_redraw: bool,
    scroll_offset: Position,
    size: Size,
    virtual_grapheme_index: usize,
}

impl View {
    /// The lines of the buffer are well formed.
    #[verifier::type_invariant]
    spec fn buffer_wf(&self) -> bool {
        self.buffer.wf()
    }

    /// Everything the view holds, as plain values.
    pub closed spec fn state(&self) -> ViewState {
        ViewState {
            text: self.buffer.text(),
            location: self.location,
            needs_redraw: self.needs_redraw,
            scroll_offset: self.scroll_offset,
            size: self.size,
            virtual_grapheme_index: self.virtual_grapheme_index,
        }
    }

    /// A view of an empty buffer on a screen of `size`, with the cursor at
    /// the start and a redraw due.
    pub fn new(size: Size) -> (v: Self)
        ensures
            v.state() == (ViewState {
                text: Seq::empty(),
                location: Location { grapheme_index: 0, line_index: 0 },
                needs_redraw: true,
                scroll_offset: Position { x: 0, y: 0 },
                size,
                virtual_grapheme_index: 0,
            }),
    {
        Self {
            buffer: Buffer::default(),
            location: Location::default(),
            needs_redraw: true,
            scroll_offset: Position::default(),
            size,
            virtual_grapheme_index: 0,
        }
    }

    /// Draws nothing when no redraw is due or the screen has no cells.
    /// Otherwise gives back the text of each screen row, top to bottom, and
    /// marks the screen as drawn.
    pub fn render(&mut self) -> (rows: Option<Vec<String>>)
        ensures
            match rows {
                None => {
                    &&& !old(self).state().needs_redraw || old(self).state().size.width == 0
                        || old(self).state().size.height == 0
                    &&& final(self).state() == old(self).state()
                },
                Some(rows) => {
                    &&& old(self).state().needs_redraw
                    &&& old(self).state().size.width > 0
                    &&& old(self).state().size.height > 0
                    &&& strings_view(rows@) == frame(old(self).state())
                    &&& final(self).state() == (ViewState {
                        needs_redraw: false,
                        ..old(self).state()
                    })
                },
            },
    {
        proof {
            use_type_invariant(&*self);
        }
        if !self.needs_redraw {
            return None;
        }
        let Size { width, height } = self.size;
        if width == 0 || height == 0 {
            return None;
        }
        let ghost m = self.state();
        let vertical_center = height / 2;
        let mut rows: Vec<String> = Vec::new();
        for current_row in 0..height
            invariant
                m == self.state(),
                self.buffer.wf(),
                width == m.size.width,
                height == m.size.height,
                vertical_center == height / 2,
                strings_view(rows@) =~= Seq::new(current_row as nat, |row: int| row_text(m, row)),
        {
            let row_idx = current_row.saturating_add(self.scroll_offset.y);
            let text = if row_idx < self.buffer.lines.len() {
                let start = self.scroll_offset.x;
                let end = self.scroll_offset.x.saturating_add(width);
                self.buffer.lines[row_idx].get_visible_graphemes(start..end)
            } else if current_row == vertical_center && self.buffer.lines.len() == 0 {
                Self::get_welcome_message_string(width)
            } else {
                let mut tilde = String::new();
                push_char(&mut tilde, '~');
                tilde
            };
            let ghost before = strings_view(rows@);
            rows.push(text);
            assert(strings_view(rows@) =~= before.push(text@));
        }
        self.needs_redraw = false;
        Some(rows)
    }

    /// Carries out `command`: a move or a resize scrolls to the cursor and
    /// asks for a redraw; quitting changes nothing here.
    pub fn handle_command(&mut self, command: EditorCommand)
        requires
            command_fits_spec(old(self).state(), command),
        ensures
            final(self).state() == handle_command_spec(old(self).state(), command),
            valid_location(old(self).state().text, old(self).state().location) ==> valid_location(
                final(self).state().text,
                final(self).state().location,
            ),
    {
        proof {
            use_type_invariant(&*self);
            self.buffer.lemma_text_fits();
            if valid_location(self.state().text, self.state().location) {
                lemma_command_keeps_location_valid(self.state(), command);
            }
        }
        match command {
            EditorCommand::Resize(size) => self.resize(size),
            EditorCommand::Move(direction) => self.move_text_location(&direction),
            EditorCommand::Quit => {},
        }
    }

    /// Carries out `command` when it fits in `usize` (see `command_fits`)
    /// and says whether it did; otherwise nothing changes.
    pub fn try_handle_command(&mut self, command: EditorCommand) -> (handled: bool)
        ensures
            handled == command_fits_spec(old(self).state(), command),
            handled ==> final(self).state() == handle_command_spec(old(self).state(), command),
            !handled ==> final(self).state() == old(self).state(),
    {
        if self.command_fits(&command) {
            self.handle_command(command);
            true
        } else {
            false
        }
    }

    /// Whether `command` can be carried out with every index within `usize`.
    pub fn command_fits(&self, command: &EditorCommand) -> (fits: bool)
        ensures
            fits == command_fits_spec(self.state(), *command),
    {
        proof {
            use_type_invariant(&*self);
        }
        match command {
            EditorCommand::Resize(size) => self.scroll_fits_at(self.location, *size),
            EditorCommand::Move(direction) => {
                let location = self.location_after(direction);
                self.scroll_fits_at(location, self.size)
            },
            EditorCommand::Quit => true,
        }
    }

    /// Takes the lines of a file that was read: `Some` with its text, or
    /// `None` when it could not be read, which changes nothing.
    pub fn load(&mut self, contents: Option<&str>)
        ensures
            match contents {
                Some(text) => final(self).state() == (ViewState {
                    text: split_lines(text@),
                    needs_redraw: true,
                    ..old(self).state()
                }),
                None => final(self).state() == old(self).state(),
            },
    {
        proof {
            use_type_invariant(&*self);
        }
        if let Some(text) = contents {
            self.buffer = Buffer::from_text(text);
            self.needs_redraw = true;
        }
    }

    /// The screen cell of the cursor: its place in the text less the scroll
    /// offset, stopping at zero.
    pub fn cursor_position(&self) -> (p: Position)
        requires
            position_fits(self.state()),
        ensures
            p == screen_position(self.state()),
    {
        proof {
            use_type_invariant(&*self);
        }
        self.text_location_to_position().saturating_sub(self.scroll_offset)
    }

    fn move_text_location(&mut self, direction: &Direction)
        requires
            scroll_fits(moved(old(self).state(), *direction)),
        ensures
            final(self).state() == (ViewState {
                needs_redraw: true,
                ..scroll_spec(moved(old(self).state(), *direction))
            }),
    {
        proof {
            use_type_invariant(&*self);
        }
        let Size { height, .. } = self.size;
        match direction {
            Direction::Up => self.move_up(1),
            Direction::Down => self.move_down(1),
            Direction::Left => self.move_left(),
            Direction::Right => self.move_right(),
            Direction::PageUp => self.move_up(height.saturating_sub(1)),
            Direction::PageDown => self.move_down(height.saturating_sub(1)),
            Direction::Home => self.move_to_start_of_line(),
            Direction::End => self.move_to_end_of_line(),
        }
        self.scroll();
        proof {
            use_type_invariant(&*self);
        }
        self.needs_redraw = true;
    }

    fn move_up(&mut self, step: usize)
        ensures
            final(self).state() == move_up_spec(old(self).state(), step as int),
    {
        proof {
            use_type_invariant(&*self);
        }
        self.location.line_index = self.location.line_index.saturating_sub(step);
        self.snap_to_valid_grapheme();
    }

    fn move_down(&mut self, step: usize)
        ensures
            final(self).state() == move_down_spec(old(self).state(), step as int),
    {
        proof {
            use_type_invariant(&*self);
        }
        self.location.line_index = self.location.line_index.saturating_add(step);
        self.snap_to_valid_grapheme();
        self.snap_to_valid_line();
    }

    fn move_right(&mut self)
        ensures
            final(self).state() == move_right_spec(old(self).state()),
    {
        proof {
            use_type_invariant(&*self);
        }
        let line_width = self.current_line_width();
        if self.location.grapheme_index < line_width {
            self.location.grapheme_index += 1;
        } else {
            self.move_to_start_of_line();
            self.move_down(1);
        }
    }

    fn move_left(&mut self)
        ensures
            final(self).state() == move_left_spec(old(self).state()),
    {
        proof {
            use_type_invariant(&*self);
        }
        if self.location.grapheme_index > 0 {
            self.location.grapheme_index -= 1;
        } else {
            self.move_up(1);
            self.move_to_end_of_line();
        }
    }

    fn move_to_start_of_line(&mut self)
        ensures
            final(self).state() == start_of_line_spec(old(self).state()),
    {
        proof {
            use_type_invariant(&*self);
        }
        self.location.grapheme_index = 0;
        self.virtual_grapheme_index = 0;
    }

    fn move_to_end_of_line(&mut self)
        ensures
            final(self).state() == end_of_line_spec(old(self).state()),
    {
        proof {
            use_type_invariant(&*self);
        }
        self.location.grapheme_index = self.current_line_width();
        self.virtual_grapheme_index = self.location.grapheme_index;
    }

    /// The number of graphemes of the cursor's line; none past the end.
    fn current_line_width(&self) -> (w: usize)
        ensures
            w == line_width(self.state().text, self.state().location.line_index as int),
    {
        proof {
            use_type_invariant(&*self);
        }
        let li = self.location.line_index;
        if li < self.buffer.lines.len() {
            self.buffer.lines[li].grapheme_count()
        } else {
            0
        }
    }

    /// Ensures the grapheme index points to a valid grapheme by snapping it
    /// to the end of the line if it lies further right. Does not scroll.
    fn snap_to_valid_grapheme(&mut self)
        ensures
            final(self).state() == ({
                let m = old(self).state();
                let g = snap_index(m.text, m.location.line_index as int, m.location.grapheme_index as int);
                with_location(m, m.location.line_index as int, g, g)
            }),
            final(self).state().location.grapheme_index <= line_width(
                final(self).state().text,
                final(self).state().location.line_index as int,
            ),
    {
        proof {
            use_type_invariant(&*self);
        }
        let li = self.location.line_index;
        self.location.grapheme_index = if li < self.buffer.lines.len() {
            let count = self.buffer.lines[li].grapheme_count();
            if count < self.location.grapheme_index {
                count
            } else {
                self.location.grapheme_index
            }
        } else {
            0
        };
        self.virtual_grapheme_index = self.location.grapheme_index;
    }

    /// Ensures the line index points to a valid line by snapping it to the
    /// line after the last if it lies further down. Does not scroll.
    fn snap_to_valid_line(&mut self)
        ensures
            final(self).state() == ({
                let m = old(self).state();
                with_location(
                    m,
                    min_int(m.location.line_index as int, m.text.len() as int),
                    m.location.grapheme_index as int,
                    m.virtual_grapheme_index as int,
                )
            }),
            final(self).state().location.line_index <= final(self).state().text.len(),
    {
        proof {
            use_type_invariant(&*self);
        }
        let len = self.buffer.lines.len();
        if len < self.location.line_index {
            self.location.line_index = len;
        }
    }

    /// The screen cell of `location`, counted from the start of the text.
    fn position_of(&self, location: Location) -> (p: Option<Position>)
        ensures
            match p {
                Some(p) => position_fits(ViewState { location, ..self.state() }) && p
                    == text_position(ViewState { location, ..self.state() }),
                None => !position_fits(ViewState { location, ..self.state() }),
            },
    {
        proof {
            use_type_invariant(&*self);
        }
        let row = location.line_index;
        if row < self.buffer.lines.len() {
            match self.buffer.lines[row].checked_width_until(location.grapheme_index) {
                Some(col) => Some(Position { x: col, y: row }),
                None => None,
            }
        } else {
            Some(Position { x: 0, y: row })
        }
    }

    fn text_location_to_position(&self) -> (p: Position)
        requires
            position_fits(self.state()),
        ensures
            p == text_position(self.state()),
    {
        proof {
            use_type_invariant(&*self);
        }
        let row = self.location.line_index;
        let col = if row < self.buffer.lines.len() {
            self.buffer.lines[row].width_until(self.location.grapheme_index)
        } else {
            0
        };
        Position { x: col, y: row }
    }

    fn scroll(&mut self)
        requires
            scroll_fits(old(self).state()),
        ensures
            final(self).state() == scroll_spec(old(self).state()),
    {
        proof {
            use_type_invariant(&*self);
        }
        let Size { width, height } = self.size;
        let Position { x: col, y: row } = self.text_location_to_position();
        let mut scroll_offset = self.scroll_offset;
        let mut offset_changed = false;

        if row < scroll_offset.y {
            scroll_offset.y = row;
            offset_changed = true;
        } else if row >= scroll_offset.y + height {
            scroll_offset.y = row - height + 1;
            offset_changed = true;
        }
        if col < scroll_offset.x {
            scroll_offset.x = col;
            offset_changed = true;
        } else if col >= scroll_offset.x + width {
            scroll_offset.x = col - width + 1;
            offset_changed = true;
        }
        self.scroll_offset = scroll_offset;
        self.needs_redraw = offset_changed;
    }

    fn resize(&mut self, to: Size)
        requires
            scroll_fits(ViewState { size: to, ..old(self).state() }),
        ensures
            final(self).state() == (ViewState {
                needs_redraw: true,
                ..scroll_spec(ViewState { size: to, ..old(self).state() })
            }),
    {
        proof {
            use_type_invariant(&*self);
        }
        self.size = to;
        self.scroll();
        proof {
            use_type_invariant(&*self);
        }
        self.needs_redraw = true;
    }

    /// Where the cursor goes when it moves in `direction`.
    fn location_after(&self, direction: &Direction) -> (l: Location)
        ensures
            l == moved(self.state(), *direction).location,
    {
        proof {
            use_type_invariant(&*self);
        }
        let li = self.location.line_index;
        let gi = self.location.grapheme_index;
        let len = self.buffer.lines.len();
        let page = self.size.height.saturating_sub(1);
        match direction {
            Direction::Up => self.snapped(li.saturating_sub(1), gi),
            Direction::PageUp => self.snapped(li.saturating_sub(page), gi),
            Direction::Down | Direction::PageDown => {
                let step = if let Direction::Down = direction {
                    1
                } else {
                    page
                };
                let ls = li.saturating_add(step);
                let l = self.snapped(ls, gi);
                Location {
                    grapheme_index: l.grapheme_index,
                    line_index: if ls < len {
                        ls
                    } else {
                        len
                    },
                }
            },
            Direction::Home => Location { grapheme_index: 0, line_index: li },
            Direction::End => Location { grapheme_index: self.current_line_width(), line_index: li },
            Direction::Right => {
                if gi < self.current_line_width() {
                    Location { grapheme_index: gi + 1, line_index: li }
                } else {
                    let ls = li.saturating_add(1);
                    Location {
                        grapheme_index: 0,
                        line_index: if ls < len {
                            ls
                        } else {
                            len
                        },
                    }
                }
            },
            Direction::Left => {
                if gi > 0 {
                    Location { grapheme_index: gi - 1, line_index: li }
                } else {
                    let up = li.saturating_sub(1);
                    let w = if up < len {
                        self.buffer.lines[up].grapheme_count()
                    } else {
                        0
                    };
                    Location { grapheme_index: w, line_index: up }
                }
            },
        }
    }

    /// The location on line `line_index` with the grapheme index cut to
    /// that line.
    fn snapped(&self, line_index: usize, grapheme_index: usize) -> (l: Location)
        ensures
            l.line_index == line_index,
            l.grapheme_index == snap_index(self.state().text, line_index as int, grapheme_index as int),
    {
        proof {
            use_type_invariant(&*self);
        }
        let g = if line_index < self.buffer.lines.len() {
            let count = self.buffer.lines[line_index].grapheme_count();
            if count < grapheme_index {
                count
            } else {
                grapheme_index
            }
        } else {
            0
        };
        Location { grapheme_index: g, line_index }
    }

    /// Whether scrolling to `location` on a screen of `size` stays within
    /// `usize`.
    fn scroll_fits_at(&self, location: Location, size: Size) -> (fits: bool)
        ensures
            fits == scroll_fits(ViewState { location, size, ..self.state() }),
    {
        proof {
            use_type_invariant(&*self);
        }
        match self.position_of(location) {
            Some(p) => Self::axis_fits(self.scroll_offset.y, p.y, size.height) && Self::axis_fits(
                self.scroll_offset.x,
                p.x,
                size.width,
            ),
            None => false,
        }
    }

    fn axis_fits(offset: usize, pos: usize, extent: usize) -> (fits: bool)
        ensures
            fits == axis_fits(offset as int, pos as int, extent as int),
    {
        if pos < offset {
            true
        } else if offset > usize::MAX - extent {
            false
        } else if pos < offset + extent {
            true
        } else {
            pos - extent < usize::MAX
        }
    }

    fn get_welcome_message_string(width: usize) -> (s: String)
        ensures
            s@ == welcome_message(width as int),
    {
        let mut message = NAME.to_owned();
        message.append(" editor -- version ");
        message.append(VERSION);
        let len = message.as_str().unicode_len();
        let padding = width.saturating_sub(len) / 2;
        let count = padding.saturating_sub(1);
        let mut line = String::new();
        push_char(&mut line, '~');
        let mut i: usize = 0;
        while i < count
            invariant
                i <= count,
                line@ =~= seq!['~'] + Seq::new(i as nat, |j: int| ' '),
            decreases count - i,
        {
            push_char(&mut line, ' ');
            i += 1;
        }
        line.append(message.as_str());
        let full_len = line.as_str().unicode_len();
        if width < full_len {
            line.as_str().substring_char(0, width).to_owned()
        } else {
            line
        }
    }
}

} // verus!
