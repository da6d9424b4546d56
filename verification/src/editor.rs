use crate::document::Document;
use crate::model::{welcome_line, EditorState, Point};
use crate::row::{slice_text, Row};
use crate::screen::{ops, DrawCommand};
use crate::terminal::{Event, KeyCode, KeyEvent, KeyModifiers, Terminal};
use vstd::prelude::*;
use vstd::std_specs::ops::SubSpecImpl;
use vstd::string::*;

verus! {

/// A column `x` and a line `y`, counted from zero.
///
/// The same shape serves two roles: a place in the document, and the document
/// coordinate shown in the top-left cell of the screen.
#[derive(Clone, Copy, Debug, PartialEq, Eq, Structural)]
pub struct Position {
    pub x: usize,
    pub y: usize,
}

impl Default for Position {
    fn default() -> (r: Self)
        ensures
            r == (Position { x: 0, y: 0 }),
    {
        Position { x: 0, y: 0 }
    }
}

impl View for Position {
    type V = Point;

    open spec fn view(&self) -> Point {
        Point { x: self.x as nat, y: self.y as nat }
    }
}

impl SubSpecImpl for Position {
    open spec fn obeys_sub_spec() -> bool {
        true
    }

    open spec fn sub_req(self, other: Position) -> bool {
        true
    }

    open spec fn sub_spec(self, other: Position) -> Position {
        Position {
            x: if self.x >= other.x { (self.x - other.x) as usize } else { 0 },
            y: if self.y >= other.y { (self.y - other.y) as usize } else { 0 },
        }
    }
}

/// The componentwise difference, where a component that would fall below
/// zero is zero.
impl core::ops::Sub for Position {
    type Output = Position;

    fn sub(self, other: Position) -> (r: Position)
        ensures
            r@ == self@.minus(other@),
    {
        Position {
            x: if self.x >= other.x { self.x - other.x } else { 0 },
            y: if self.y >= other.y { self.y - other.y } else { 0 },
        }
    }
}

/// The version that the greeting names.
pub const VERSION: &'static str = "0.1.0";

/// The viewer: a document, the terminal's size, the cursor in the document
/// and the window through which the document is seen.
pub struct Editor {
    should_quit: bool,
    terminal: Terminal,
    cursor_position: Position,
    offset: Position,
    document: Document,
}

impl View for Editor {
    type V = EditorState;

    closed spec fn view(&self) -> EditorState {
        EditorState {
            should_quit: self.should_quit,
            size: self.terminal@,
            cursor: self.cursor_position@,
            offset: self.offset@,
            lines: self.document@,
        }
    }
}

impl Editor {
    #[verifier::type_invariant]
    spec fn cursor_on_a_row(self) -> bool {
        self.cursor_position.y <= self.document@.len()
    }

    /// A viewer of `document` on `terminal`, with the cursor and the window
    /// at the document's start.
    pub fn new(terminal: Terminal, document: Document) -> (editor: Editor)
        ensures
            editor@ == (EditorState {
                should_quit: false,
                size: terminal@,
                cursor: Point::origin(),
                offset: Point::origin(),
                lines: document@,
            }),
            editor@.wf(),
    {
        Editor {
            should_quit: false,
            terminal,
            cursor_position: Position { x: 0, y: 0 },
            offset: Position { x: 0, y: 0 },
            document,
        }
    }

    /// Moves the cursor as the key `key` asks; keys that do not move it leave
    /// it where it is. The window is not touched.
    pub fn move_cursor(&mut self, key: KeyEvent)
        ensures
            final(self)@ == old(self)@.move_cursor(key.code),
            final(self)@.wf(),
            key.code == KeyCode::Left && old(self)@.cursor.x == 0 && old(self)@.cursor.y > 0 ==> {
                &&& final(self)@.cursor.y == old(self)@.cursor.y - 1
                &&& final(self)@.cursor.x == old(self)@.line_len_at(old(self)@.cursor.y - 1)
            },
            key.code == KeyCode::Left && old(self)@.cursor.x == 0 && old(self)@.cursor.y == 0
                ==> final(self)@ == old(self)@,
    {
        proof {
            use_type_invariant(&*self);
        }
        let mut x = self.cursor_position.x;
        let mut y = self.cursor_position.y;
        let height = self.document.len();
        let terminal_height = self.terminal.size().height as usize;
        let width = match self.document.row(y) {
            Some(row) => row.len(),
            None => 0,
        };
        match key.code {
            KeyCode::Up => {
                if y > 0 {
                    y = y - 1;
                }
            },
            KeyCode::Down => {
                if y < height {
                    y = y + 1;
                }
            },
            KeyCode::Left => {
                if x > 0 {
                    x = x - 1;
                } else if y > 0 {
                    y = y - 1;
                    x = match self.document.row(y) {
                        Some(row) => row.len(),
                        None => 0,
                    };
                }
            },
            KeyCode::Right => {
                if x < width {
                    x = x + 1;
                }
            },
            KeyCode::Home => {
                x = 0;
            },
            KeyCode::End => {
                x = width;
            },
            KeyCode::PageUp => {
                y = if y > terminal_height { y - terminal_height } else { 0 };
            },
            KeyCode::PageDown => {
                y = if y.saturating_add(terminal_height) < height {
                    y + terminal_height
                } else {
                    height
                };
            },
            _ => {},
        }
        self.cursor_position = Position { x, y };
    }

    /// Lets the window follow the cursor: in each direction it stays where it
    /// is while the cursor is inside, and else moves just far enough to take
    /// the cursor in. Afterwards the cursor is inside the window, in each
    /// direction in which the terminal has any extent.
    pub fn scroll(&mut self)
        ensures
            final(self)@ == old(self)@.scroll(),
            final(self)@.wf(),
            final(self)@.size.height > 0 ==> final(self)@.offset.y <= final(self)@.cursor.y
                < final(self)@.offset.y + final(self)@.size.height,
            final(self)@.size.width > 0 ==> final(self)@.offset.x <= final(self)@.cursor.x
                < final(self)@.offset.x + final(self)@.size.width,
    {
        proof {
            use_type_invariant(&*self);
        }
        let x = self.cursor_position.x;
        let y = self.cursor_position.y;
        let width = self.terminal.size().width as usize;
        let height = self.terminal.size().height as usize;
        let mut offset = self.offset;
        if y < offset.y {
            offset.y = y;
        } else if y - offset.y >= height {
            offset.y = (y - height).saturating_add(1);
        }
        if x < offset.x {
            offset.x = x;
        } else if x - offset.x >= width {
            offset.x = (x - width).saturating_add(1);
        }
        self.offset = offset;
    }

    /// Takes in a key press: the quit key is noted, a navigation key moves the
    /// cursor, any other key does nothing; then the window follows the cursor.
    pub fn process_keypress(&mut self, key: KeyEvent)
        ensures
            final(self)@ == old(self)@.process_keypress(key),
            final(self)@.wf(),
            final(self)@.size.height > 0 ==> final(self)@.offset.y <= final(self)@.cursor.y
                < final(self)@.offset.y + final(self)@.size.height,
            final(self)@.size.width > 0 ==> final(self)@.offset.x <= final(self)@.cursor.x
                < final(self)@.offset.x + final(self)@.size.width,
    {
        proof {
            use_type_invariant(&*self);
        }
        match key {
            KeyEvent {
                code: KeyCode::Char('q'),
                modifiers: KeyModifiers { shift: false, control: true, alt: false },
            } => self.should_quit = true,
            KeyEvent { code, modifiers: _ } => match code {
                KeyCode::Up
                | KeyCode::Down
                | KeyCode::Left
                | KeyCode::Right
                | KeyCode::Home
                | KeyCode::End
                | KeyCode::PageUp
                | KeyCode::PageDown => self.move_cursor(key),
                _ => (),
            },
        }
        self.scroll();
    }

    /// Takes in one event from the terminal and says whether it was a key
    /// press, after which the screen is to be drawn anew. A resize is applied
    /// at once, and with anything but a key press the caller goes on waiting.
    pub fn process_event(&mut self, event: Event) -> (pressed: bool)
        ensures
            final(self)@ == old(self)@.process_event(event),
            final(self)@.wf(),
            pressed == (event is Key),
    {
        proof {
            use_type_invariant(&*self);
        }
        match self.terminal.handle_event(event) {
            Some(key) => {
                self.process_keypress(key);
                true
            },
            None => false,
        }
    }

    /// The text that shows `row` in the window: its columns from the
    /// window's left edge to just before its right edge.
    pub fn draw_row(&self, row: &Row) -> (text: String)
        ensures
            text@ == slice_text(
                row@,
                self@.offset.x as int,
                self@.offset.x + self@.size.width,
            ),
    {
        let start = self.offset.x;
        let width = self.terminal.size().width as usize;
        let end = match start.checked_add(width) {
            Some(end) => end,
            None => row.len(),
        };
        row.render(start, end)
    }

    /// The line that greets the user of an empty document, as it fits the
    /// terminal's width.
    pub fn draw_welcome_message(&self) -> (line: String)
        ensures
            line@ == welcome_line(self@.size.width as nat),
    {
        let mut message = String::from_str("hecto version -- ");
        message.append(VERSION);
        let width = self.terminal.size().width as usize;
        let len = message.as_str().unicode_len();
        let padding = width.saturating_sub(len) / 2;
        let mut line = String::from_str("~");
        let mut blanks: usize = 0;
        proof {
            reveal_strlit("~");
        }
        while blanks <= padding
            invariant
                blanks <= padding + 1,
                padding < u16::MAX,
                line@ == seq!['~'] + Seq::new(blanks as nat, |i: int| ' '),
            decreases padding + 1 - blanks,
        {
            line.append(" ");
            blanks = blanks + 1;
            proof {
                reveal_strlit(" ");
            }
        }
        line.append(message.as_str());
        if width < line.as_str().unicode_len() {
            line.as_str().substring_char(0, width).to_owned()
        } else {
            line
        }
    }

    /// What draws the rows that show the document, all but the last row of
    /// the terminal: each is cleared and then written, from the top. A row on
    /// which a line of the document falls shows the line's visible columns; a
    /// row past the document's end shows the marker `~`, but for the greeting
    /// a third of the way down an empty document.
    pub fn draw_rows(&self) -> (commands: Vec<DrawCommand>)
        ensures
            ops(commands@) == self@.draw_rows(),
    {
        let height = self.terminal.size().height as usize;
        let rows = if height > 0 { height - 1 } else { 0 };
        let length = self.document.len();
        let mut commands: Vec<DrawCommand> = Vec::new();
        let mut terminal_row: usize = 0;
        while terminal_row < rows
            invariant
                terminal_row <= rows,
                rows == self@.text_rows(),
                height == self@.size.height,
                length == self@.lines.len(),
                ops(commands@) == self@.draw_rows_to(terminal_row as nat),
            decreases rows - terminal_row,
        {
            let ghost before = commands@;
            commands.push(DrawCommand::ClearLine);
            let text = match self.document.row(terminal_row.saturating_add(self.offset.y)) {
                Some(row) => self.draw_row(row),
                None => if length == 0 && terminal_row == height / 3 {
                    self.draw_welcome_message()
                } else {
                    proof {
                        reveal_strlit("~");
                        assert("~"@ =~= seq!['~']);
                    }
                    String::from_str("~")
                },
            };
            commands.push(DrawCommand::PrintLine(text));
            proof {
                // The steps drawn before are untouched, and the two new ones
                // are those of this row.
                let drawn = self@.draw_rows_to((terminal_row + 1) as nat);
                assert(ops(before).len() == before.len());
                assert forall|i: int| 0 <= i < drawn.len() implies ops(commands@)[i] == drawn[i] by {
                    if i < 2 * terminal_row {
                        assert(ops(commands@)[i] == ops(before)[i]);
                    }
                }
            }
            terminal_row = terminal_row + 1;
        }
        commands
    }

    /// What draws one frame. While the session lasts, the rows are drawn and
    /// the cursor is shown where it stands in the window; once the user has
    /// quit, the screen is cleared and a farewell is written instead.
    pub fn refresh_screen(&self) -> (commands: Vec<DrawCommand>)
        ensures
            ops(commands@) == self@.refresh_screen(),
    {
        let mut commands: Vec<DrawCommand> = Vec::new();
        commands.push(DrawCommand::HideCursor);
        commands.push(DrawCommand::MoveTo(Position::default()));
        if self.should_quit {
            commands.push(DrawCommand::ClearScreen);
            commands.push(DrawCommand::PrintLine(String::from_str("Goodbye.")));
        } else {
            let mut rows = self.draw_rows();
            commands.append(&mut rows);
            commands.push(DrawCommand::MoveTo(self.cursor_position - self.offset));
        }
        commands.push(DrawCommand::ShowCursor);
        commands.push(DrawCommand::Flush);
        commands
    }

    /// Runs a session on the events that the terminal delivers, in order,
    /// and gives back all that is to be drawn: a first frame, then one frame
    /// after each key press. The session ends with the frame that follows the
    /// quit key, whatever events remain, or when the events run out.
    pub fn run(&mut self, events: &Vec<Event>) -> (commands: Vec<DrawCommand>)
        ensures
            final(self)@ == old(self)@.run(events@),
            final(self)@.wf(),
            ops(commands@) == old(self)@.refresh_screen() + old(self)@.run_draws(events@),
    {
        proof {
            use_type_invariant(&*self);
        }
        let ghost start = self@;
        let mut commands = self.refresh_screen();
        let mut taken: usize = 0;
        proof {
            assert(events@.subrange(0, events@.len() as int) =~= events@);
        }
        while taken < events.len() && !self.should_quit
            invariant
                taken <= events.len(),
                self@.wf(),
                start.run(events@) == self@.run(events@.subrange(taken as int, events@.len() as int)),
                start.refresh_screen() + start.run_draws(events@) == ops(commands@)
                    + self@.run_draws(events@.subrange(taken as int, events@.len() as int)),
            decreases events.len() - taken,
        {
            let ghost drawn = ops(commands@);
            let ghost rest = events@.subrange(taken as int, events@.len() as int);
            let pressed = self.process_event(events[taken]);
            let ghost frame = if pressed { self@.refresh_screen() } else { Seq::empty() };
            if pressed {
                let mut frame = self.refresh_screen();
                commands.append(&mut frame);
            }
            taken = taken + 1;
            proof {
                // One event of the rest is taken in, and its frame is drawn.
                assert(rest.drop_first() =~= events@.subrange(taken as int, events@.len() as int));
                assert(ops(commands@) =~= drawn + frame);
            }
        }
        commands
    }

    /// Whether the user has asked to leave.
    pub fn should_quit(&self) -> (quit: bool)
        ensures
            quit == self@.should_quit,
    {
        self.should_quit
    }

    /// The terminal as the viewer knows it.
    pub fn terminal(&self) -> (terminal: &Terminal)
        ensures
            terminal@ == self@.size,
    {
        &self.terminal
    }

    /// The cursor, in document coordinates.
    pub fn cursor_position(&self) -> (cursor: Position)
        ensures
            cursor@ == self@.cursor,
            cursor.y <= self@.lines.len(),
    {
        proof {
            use_type_invariant(self);
        }
        self.cursor_position
    }

    /// The document coordinate shown in the top-left cell of the screen.
    pub fn offset(&self) -> (offset: Position)
        ensures
            offset@ == self@.offset,
    {
        self.offset
    }

    /// The document.
    pub fn document(&self) -> (document: &Document)
        ensures
            document@ == self@.lines,
    {
        &self.document
    }
}

} // verus!
