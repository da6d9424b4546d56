use crate::row::{line_len, slice_text};
use crate::terminal::{key_of, resized, Event, KeyCode, KeyEvent, KeyModifiers, Size};
use vstd::prelude::*;

verus! {

/// A column `x` and a line `y` as mathematical numbers.
pub struct Point {
    pub x: nat,
    pub y: nat,
}

impl Point {
    /// The top-left corner.
    pub open spec fn origin() -> Point {
        Point { x: 0, y: 0 }
    }

    /// Whether both numbers are machine words, as those of every position
    /// that a program holds are.
    pub open spec fn is_position(self) -> bool {
        self.x <= usize::MAX && self.y <= usize::MAX
    }

    /// The componentwise difference, where a component that would fall below
    /// zero is zero.
    pub open spec fn minus(self, other: Point) -> Point {
        Point {
            x: if self.x >= other.x { (self.x - other.x) as nat } else { 0 },
            y: if self.y >= other.y { (self.y - other.y) as nat } else { 0 },
        }
    }
}

/// One thing that the terminal is asked to do.
pub enum DrawOp {
    HideCursor,
    ShowCursor,
    /// Put the terminal's cursor on this cell of the screen.
    MoveTo(Point),
    ClearScreen,
    ClearLine,
    /// Write the text and go to the start of the next screen row.
    PrintLine(Seq<char>),
    Flush,
}

/// The text of the line that greets the user of an empty document.
pub open spec fn welcome_text() -> Seq<char> {
    "hecto version -- "@ + crate::editor::VERSION@
}

/// The greeting as it is drawn on a screen `width` cells wide: the marker of
/// a row without content, then blanks that bring the text to the middle, then
/// the text, and of all this no more than fits the width.
pub open spec fn welcome_line(width: nat) -> Seq<char> {
    let message = welcome_text();
    let padding = if width >= message.len() { (width - message.len()) / 2 } else { 0 };
    let line = seq!['~'] + Seq::new((padding + 1) as nat, |i: int| ' ') + message;
    if width < line.len() { line.take(width as int) } else { line }
}

/// Where a window of `extent` cells that started at `offset` starts once it
/// has followed `cursor`: it stays where it is while the cursor is inside,
/// and else moves just far enough to take the cursor in at its near edge. A
/// start that no machine word can hold stops at the largest one, which only
/// a window without extent can reach.
pub open spec fn scrolled_axis(cursor: nat, offset: nat, extent: nat) -> nat {
    if cursor < offset {
        cursor
    } else if cursor >= offset + extent {
        let start = cursor - extent + 1;
        if start <= usize::MAX { start as nat } else { usize::MAX as nat }
    } else {
        offset
    }
}

/// Whether `key` is the one that ends the session: `q` with control, and no
/// other modifier, held down.
pub open spec fn is_quit(key: KeyEvent) -> bool {
    key.code == KeyCode::Char('q') && key.modifiers == (KeyModifiers {
        shift: false,
        control: true,
        alt: false,
    })
}

/// Whether `code` is one of the eight keys that move the cursor.
pub open spec fn is_navigation(code: KeyCode) -> bool {
    code is Up || code is Down || code is Left || code is Right || code is Home || code is End
        || code is PageUp || code is PageDown
}

/// All that the viewer knows at one moment.
pub struct EditorState {
    /// Whether the user has asked to leave.
    pub should_quit: bool,
    /// The terminal's size.
    pub size: Size,
    /// The cursor, in document coordinates.
    pub cursor: Point,
    /// The document coordinate shown in the top-left cell of the screen.
    pub offset: Point,
    /// The document's lines.
    pub lines: Seq<Seq<char>>,
}

impl EditorState {
    /// The cursor is on a line of the document or on the row just after the
    /// last one.
    pub open spec fn wf(self) -> bool {
        self.cursor.y <= self.lines.len()
    }

    /// The length of line `y`, and zero where the document has no such line.
    pub open spec fn line_len_at(self, y: int) -> nat {
        if 0 <= y < self.lines.len() {
            line_len(self.lines[y])
        } else {
            0
        }
    }

    /// Where the cursor is after the key `code`.
    ///
    /// Moving up or down does not touch the column, so the cursor may come to
    /// stand beyond the end of a shorter line; the keys that move it sideways
    /// go by the length of the line it is then on.
    pub open spec fn moved(self, code: KeyCode) -> Point {
        let x = self.cursor.x;
        let y = self.cursor.y;
        let height = self.lines.len();
        let page = self.size.height as nat;
        let width = self.line_len_at(y as int);
        match code {
            KeyCode::Up => Point { x, y: if y > 0 { (y - 1) as nat } else { y } },
            KeyCode::Down => Point { x, y: if y < height { y + 1 } else { y } },
            KeyCode::Left => if x > 0 {
                Point { x: (x - 1) as nat, y }
            } else if y > 0 {
                Point { x: self.line_len_at(y - 1), y: (y - 1) as nat }
            } else {
                Point { x, y }
            },
            KeyCode::Right => Point { x: if x < width { x + 1 } else { x }, y },
            KeyCode::Home => Point { x: 0, y },
            KeyCode::End => Point { x: width, y },
            KeyCode::PageUp => Point { x, y: if y > page { (y - page) as nat } else { 0 } },
            KeyCode::PageDown => Point { x, y: if y + page < height { y + page } else { height } },
            _ => Point { x, y },
        }
    }

    /// The state after the cursor has followed the key `code`.
    pub open spec fn move_cursor(self, code: KeyCode) -> EditorState {
        EditorState { cursor: self.moved(code), ..self }
    }

    /// The state after the window has followed the cursor.
    pub open spec fn scroll(self) -> EditorState {
        EditorState {
            offset: Point {
                x: scrolled_axis(self.cursor.x, self.offset.x, self.size.width as nat),
                y: scrolled_axis(self.cursor.y, self.offset.y, self.size.height as nat),
            },
            ..self
        }
    }

    /// The state after a key press: the quit key is noted, a navigation key
    /// moves the cursor, any other key does nothing; then the window follows.
    pub open spec fn process_keypress(self, key: KeyEvent) -> EditorState {
        if is_quit(key) {
            EditorState { should_quit: true, ..self }.scroll()
        } else if is_navigation(key.code) {
            self.move_cursor(key.code).scroll()
        } else {
            self.scroll()
        }
    }

    /// The state after one event from the terminal: a resize replaces the
    /// size and nothing else, a key press is processed, the rest is ignored.
    pub open spec fn process_event(self, event: Event) -> EditorState {
        let seen = EditorState { size: resized(self.size, event), ..self };
        match key_of(event) {
            Some(key) => seen.process_keypress(key),
            None => seen,
        }
    }

    /// The cell of the screen on which the cursor is shown.
    pub open spec fn screen_position(self) -> Point {
        self.cursor.minus(self.offset)
    }

    /// The text drawn on the screen row `row`: the visible columns of the
    /// document line shown there; on a row past the document's end the marker
    /// `~`, but for the greeting a third of the way down an empty document.
    pub open spec fn row_text(self, row: int) -> Seq<char> {
        let y = row + self.offset.y;
        if 0 <= y < self.lines.len() {
            slice_text(self.lines[y], self.offset.x as int, self.offset.x + self.size.width)
        } else if self.lines.len() == 0 && row == self.size.height as int / 3 {
            welcome_line(self.size.width as nat)
        } else {
            seq!['~']
        }
    }

    /// The number of screen rows that show the document: all but the last.
    pub open spec fn text_rows(self) -> nat {
        if self.size.height > 0 { (self.size.height - 1) as nat } else { 0 }
    }

    /// The `i`-th step of drawing the rows: each row takes two, it is cleared
    /// and then written.
    pub open spec fn draw_rows_step(self, i: int) -> DrawOp {
        if i % 2 == 0 {
            DrawOp::ClearLine
        } else {
            DrawOp::PrintLine(self.row_text(i / 2))
        }
    }

    /// What draws the first `rows` rows of the screen, from the top.
    pub open spec fn draw_rows_to(self, rows: nat) -> Seq<DrawOp> {
        Seq::new(2 * rows, |i: int| self.draw_rows_step(i))
    }

    /// What draws the rows that show the document.
    pub open spec fn draw_rows(self) -> Seq<DrawOp> {
        self.draw_rows_to(self.text_rows())
    }

    /// What draws one frame. While the session lasts, the rows are drawn and
    /// the cursor is shown where it stands in the window; once the user has
    /// quit, the screen is cleared and a farewell is written instead.
    pub open spec fn refresh_screen(self) -> Seq<DrawOp> {
        let body = if self.should_quit {
            seq![DrawOp::ClearScreen, DrawOp::PrintLine("Goodbye."@)]
        } else {
            self.draw_rows().push(DrawOp::MoveTo(self.screen_position()))
        };
        seq![DrawOp::HideCursor, DrawOp::MoveTo(Point::origin())] + body + seq![
            DrawOp::ShowCursor,
            DrawOp::Flush,
        ]
    }

    /// The state in which a session ends that starts in this state and is fed
    /// `events` one by one. Once the user has quit, nothing is taken in any
    /// more.
    pub open spec fn run(self, events: Seq<Event>) -> EditorState
        decreases events.len(),
    {
        if self.should_quit || events.len() == 0 {
            self
        } else {
            self.process_event(events[0]).run(events.drop_first())
        }
    }

    /// What such a session draws after its first frame: one frame after each
    /// key press that is taken in.
    pub open spec fn run_draws(self, events: Seq<Event>) -> Seq<DrawOp>
        decreases events.len(),
    {
        if self.should_quit || events.len() == 0 {
            Seq::empty()
        } else {
            let next = self.process_event(events[0]);
            let frame = if events[0] is Key { next.refresh_screen() } else { Seq::empty() };
            frame + next.run_draws(events.drop_first())
        }
    }

    /// The state after the cursor has followed the keys `codes` one by one.
    pub open spec fn after_moves(self, codes: Seq<KeyCode>) -> EditorState
        decreases codes.len(),
    {
        if codes.len() == 0 {
            self
        } else {
            self.move_cursor(codes[0]).after_moves(codes.drop_first())
        }
    }
}

/// However the cursor is moved, and however often, it stays on a line of the
/// document or on the row just after the last one, if it started there.
pub proof fn lemma_moves_keep_vertical_bound(state: EditorState, codes: Seq<KeyCode>)
    requires
        state.wf(),
    ensures
        state.after_moves(codes).wf(),
        state.after_moves(codes).lines == state.lines,
        0 <= state.after_moves(codes).cursor.y <= state.lines.len(),
    decreases codes.len(),
{
    if codes.len() > 0 {
        lemma_moves_keep_vertical_bound(state.move_cursor(codes[0]), codes.drop_first());
    }
}

/// A key press or any other event leaves the cursor on a line of the document
/// or on the row just after the last one.
pub proof fn lemma_event_keeps_vertical_bound(state: EditorState, event: Event)
    requires
        state.wf(),
    ensures
        state.process_event(event).wf(),
        state.process_event(event).lines == state.lines,
{
}

/// After scrolling, the cursor is inside the window, in each direction in
/// which the window has any extent.
pub proof fn lemma_scroll_shows_cursor(state: EditorState)
    requires
        state.cursor.is_position(),
    ensures
        state.size.height > 0 ==> state.scroll().offset.y <= state.cursor.y < state.scroll().offset.y
            + state.size.height,
        state.size.width > 0 ==> state.scroll().offset.x <= state.cursor.x < state.scroll().offset.x
            + state.size.width,
        state.scroll().cursor == state.cursor,
{
}

/// At the start of a line, the left key takes the cursor to the end of the
/// line above; on the first line it does nothing.
pub proof fn lemma_left_wraps(state: EditorState)
    requires
        state.cursor.x == 0,
    ensures
        state.cursor.y > 0 ==> state.moved(KeyCode::Left) == (Point {
            x: state.line_len_at(state.cursor.y - 1),
            y: (state.cursor.y - 1) as nat,
        }),
        state.cursor.y == 0 ==> state.move_cursor(KeyCode::Left) == state,
{
}

} // verus!
