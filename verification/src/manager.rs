//! The editing session: the terminal's size, the cursor and the document, the
//! rule that picks the page of the document that the terminal shows, and what
//! each command does to the three.

use vstd::prelude::*;
use vstd::arithmetic::div_mod::{
    lemma_fundamental_div_mod, lemma_mod_multiples_basic, lemma_mod_pos_bound,
};
use vstd::arithmetic::mul::lemma_mul_is_commutative;

use crate::buffer_manager::{
    split_down, split_up, with_char, with_line, without_char, without_line, Buffer,
};
use crate::cursor_manager::{extent, Cursor, MainCursor, EDGE, HOME_X, HOME_Y};
use crate::input::{Command, Direction, KeyCode, KeyEvent};
use crate::text::{lines_of, page, rows_shown};

verus! {

/// Columns that never show text: the two-column gutter on the left and the
/// last column on the right.
pub const RESERVED_COLUMNS: u16 = 3;

/// Rows that never show text: the status line on top and the last row.
pub const RESERVED_ROWS: u16 = 2;

/// Columns and rows of the terminal, in this order.
#[derive(Debug, Clone, Copy, PartialEq, Eq, Structural)]
pub struct Size(pub u16, pub u16);

impl Default for Size {
    /// A terminal without any cell.
    fn default() -> (size: Self)
        ensures
            size == Size(0, 0),
    {
        Size(0, 0)
    }
}

impl Size {
    /// The terminal has room for at least one cell of text.
    pub open spec fn wf(self) -> bool {
        self.0 > RESERVED_COLUMNS && self.1 > RESERVED_ROWS
    }

    /// Number of text columns on a page.
    pub open spec fn width(self) -> int {
        self.0 - RESERVED_COLUMNS
    }

    /// Number of text rows on a page.
    pub open spec fn height(self) -> int {
        self.1 - RESERVED_ROWS
    }

    /// Number of text columns on a page; none on a terminal that the
    /// reserved columns fill.
    pub fn text_columns(&self) -> (n: usize)
        requires
            self.0 >= RESERVED_COLUMNS,
        ensures
            n == self.width(),
            n == extent(HOME_X, self.0),
            self.wf() ==> n > 0,
    {
        (self.0 - RESERVED_COLUMNS) as usize
    }

    /// Number of text rows on a page; none on a terminal that the reserved
    /// rows fill.
    pub fn text_rows(&self) -> (n: usize)
        requires
            self.1 >= RESERVED_ROWS,
        ensures
            n == self.height(),
            n == extent(HOME_Y, self.1),
            self.wf() ==> n > 0,
    {
        (self.1 - RESERVED_ROWS) as usize
    }
}

/// Index of the page that holds the coordinate `pos` when each page is
/// `extent` cells long.
pub open spec fn page_of(pos: int, extent: int) -> int {
    pos / extent
}

/// First coordinate of the page that holds `pos`.
pub open spec fn origin_of(pos: int, extent: int) -> int {
    page_of(pos, extent) * extent
}

/// The origin of a page is a multiple of the page's length, and a coordinate
/// lies on its page: at or after the origin, and less than one page's length
/// after it.
pub proof fn lemma_origin_is_page_aligned(pos: int, extent: int)
    requires
        0 <= pos,
        0 < extent,
    ensures
        origin_of(pos, extent) % extent == 0,
        0 <= pos - origin_of(pos, extent) < extent,
        pos - origin_of(pos, extent) == pos % extent,
{
    lemma_fundamental_div_mod(pos, extent);
    lemma_mod_pos_bound(pos, extent);
    lemma_mul_is_commutative(pos / extent, extent);
    lemma_mod_multiples_basic(pos / extent, extent);
}

/// First coordinate of the page that holds `pos`.
fn origin(pos: usize, extent: usize) -> (first: usize)
    requires
        extent > 0,
    ensures
        first == origin_of(pos as int, extent as int),
{
    proof {
        lemma_origin_is_page_aligned(pos as int, extent as int);
    }
    (pos / extent) * extent
}

/// What is left to do outside the session once a command has changed it.
#[derive(Debug, Clone, Copy, PartialEq, Eq, Structural)]
pub enum Action {
    /// Paint the page anew.
    Render,
    /// Write the document out, and paint the page anew.
    Save,
    /// Ask the terminal for its size, hand it to `Manager::resize`, and paint
    /// the page anew.
    Resize,
    /// Give the terminal back and leave.
    Quit,
}

/// The editing session.
pub struct Manager {
    pub size: Size,
    pub cursor: Cursor,
    pub buffer: Buffer,
}

impl Manager {
    /// The screen cursor shows the document cursor on its page, along both
    /// axes.
    pub open spec fn in_step(self) -> bool {
        self.cursor.in_step_x(self.size.0) && self.cursor.in_step_y(self.size.1)
    }

    /// The document position of the top-left text cell: column first, then
    /// row.
    pub open spec fn origin(self) -> (int, int) {
        (
            origin_of(self.cursor.main.x as int, self.size.width()),
            origin_of(self.cursor.main.y as int, self.size.height()),
        )
    }

    /// The cursor after the command.
    pub open spec fn cursor_after(self, command: Command) -> Cursor {
        match command {
            Command::MoveCursor(Direction::Left) | Command::DeleteCharBackward => {
                self.cursor.moved_left(self.size.0)
            },
            Command::MoveCursor(Direction::Right) | Command::InsertChar(_) => {
                self.cursor.moved_right(self.size.0)
            },
            Command::MoveCursor(Direction::Up) => self.cursor.moved_top(self.size.1),
            Command::MoveCursor(Direction::Down) | Command::NewLine => {
                self.cursor.moved_bottom(self.size.1)
            },
            _ => self.cursor,
        }
    }

    /// The document after the command. Every edit acts at the cursor's
    /// document position but the backward delete, which acts one column to the
    /// left of it.
    pub open spec fn lines_after(self, command: Command) -> Seq<Seq<char>> {
        let row = self.cursor.main.y as int;
        let col = self.cursor.main.x as int;
        match command {
            Command::InsertChar(ch) => with_char(self.buffer@, row, col, ch),
            Command::DeleteCharBackward => without_char(
                self.buffer@,
                row,
                self.cursor.moved_left(self.size.0).main.x as int,
            ),
            Command::NewLine => with_line(self.buffer@, row),
            Command::RemoveLine => without_line(self.buffer@, row),
            Command::SplitUpward => split_up(self.buffer@, row, col),
            Command::SplitDownward => split_down(self.buffer@, row, col),
            _ => self.buffer@,
        }
    }

    /// The command moves the document cursor as far as it asks to: the
    /// coordinate that it increases does not already hold the largest value of
    /// its type.
    pub open spec fn has_room(self, command: Command) -> bool {
        match command {
            Command::MoveCursor(Direction::Right) | Command::InsertChar(_) => {
                self.cursor.main.x < usize::MAX
            },
            Command::MoveCursor(Direction::Down) | Command::NewLine => {
                self.cursor.main.y < usize::MAX
            },
            _ => true,
        }
    }

    /// A session on a terminal of `columns` by `rows` cells, with an empty
    /// document and the cursor on the first cell of both the document and the
    /// screen.
    pub fn new(columns: u16, rows: u16) -> (manager: Self)
        ensures
            manager.size == Size(columns, rows),
            manager.cursor == (Cursor { x: 0, y: 0, main: MainCursor { x: 0, y: 0 } }),
            manager.buffer@ == Seq::<Seq<char>>::empty(),
    {
        Manager {
            size: Size(columns, rows),
            cursor: Cursor { x: 0, y: 0, main: MainCursor { x: 0, y: 0 } },
            buffer: Buffer::default(),
        }
    }

    /// Replaces the document by the lines of a file's content.
    pub fn read_file(&mut self, content: &str)
        ensures
            final(self).buffer@ == lines_of(content@),
            final(self).size == old(self).size,
            final(self).cursor == old(self).cursor,
    {
        self.buffer.read_from_file(content);
    }

    /// Takes up a new terminal size. The screen cursor goes to the first text
    /// cell; the document cursor and the document stay.
    pub fn resize(&mut self, columns: u16, rows: u16)
        ensures
            final(self).size == Size(columns, rows),
            final(self).cursor == (Cursor {
                x: HOME_X,
                y: HOME_Y,
                main: old(self).cursor.main,
            }),
            final(self).buffer == old(self).buffer,
    {
        self.size = Size(columns, rows);
        self.cursor.x = HOME_X;
        self.cursor.y = HOME_Y;
    }

    /// The document position of the top-left text cell of the page that holds
    /// the cursor: column first, then row. Each coordinate is a multiple of
    /// the page's length along its axis, and the cursor lies less than one
    /// page's length after it. The session stays as it is.
    pub fn nearest_cursors(&mut self) -> (nearest: (usize, usize))
        requires
            old(self).size.wf(),
        ensures
            (nearest.0 as int, nearest.1 as int) == old(self).origin(),
            nearest.0 as int % old(self).size.width() == 0,
            nearest.1 as int % old(self).size.height() == 0,
            0 <= old(self).cursor.main.x - nearest.0 < old(self).size.width(),
            0 <= old(self).cursor.main.y - nearest.1 < old(self).size.height(),
            *final(self) == *old(self),
    {
        let width = self.size.text_columns();
        let height = self.size.text_rows();
        proof {
            lemma_origin_is_page_aligned(self.cursor.main.x as int, width as int);
            lemma_origin_is_page_aligned(self.cursor.main.y as int, height as int);
        }
        (origin(self.cursor.main.x, width), origin(self.cursor.main.y, height))
    }

    /// The rows of the page that holds the cursor, as the terminal is to show
    /// them below the status line and right of the gutter. The session stays
    /// as it is.
    pub fn handle_buffer(&mut self) -> (rows: Vec<String>)
        requires
            old(self).size.wf(),
        ensures
            rows.deep_view() == page(
                old(self).buffer@,
                old(self).origin().1,
                old(self).origin().0,
                old(self).size.width(),
                old(self).size.height(),
            ),
            rows@.len() == old(self).size.height(),
            forall|i: int|
                0 <= i < rows@.len() ==> (#[trigger] rows@[i])@.len() <= old(self).size.width(),
            forall|i: int|
                rows_shown(old(self).buffer@, old(self).origin().1, old(self).size.height()) <= i
                    < rows@.len() ==> (#[trigger] rows@[i])@.len() == 0,
            *final(self) == *old(self),
    {
        let nearest = self.nearest_cursors();
        let top_left = Cursor {
            x: self.cursor.x,
            y: self.cursor.y,
            main: MainCursor { x: nearest.0, y: nearest.1 },
        };
        self.buffer.print_lines(&top_left, &self.size)
    }

    /// Number of rows of the page that holds the cursor that show a line of
    /// the document; the rows after them are blank because the document has
    /// ended. The session stays as it is.
    pub fn rows_on_page(&mut self) -> (n: usize)
        requires
            old(self).size.wf(),
        ensures
            n == rows_shown(old(self).buffer@, old(self).origin().1, old(self).size.height()),
            n <= old(self).size.height(),
            n <= old(self).buffer@.len(),
            *final(self) == *old(self),
    {
        let nearest = self.nearest_cursors();
        let top_left = Cursor {
            x: self.cursor.x,
            y: self.cursor.y,
            main: MainCursor { x: nearest.0, y: nearest.1 },
        };
        self.buffer.rows_on_page(&top_left, &self.size)
    }

    /// Moves the cursor by one cell.
    fn move_cursor(&mut self, direction: Direction)
        requires
            old(self).size.wf(),
        ensures
            final(self).cursor == old(self).cursor_after(Command::MoveCursor(direction)),
            final(self).size == old(self).size,
            final(self).buffer == old(self).buffer,
            old(self).in_step() && old(self).has_room(Command::MoveCursor(direction)) 
                ==> final(self).in_step(),
    {
        match direction {
            Direction::Left => self.cursor.move_left(self.size.0),
            Direction::Right => self.cursor.move_right(self.size.0),
            Direction::Up => self.cursor.move_top(self.size.1),
            Direction::Down => self.cursor.move_bottom(self.size.1),
        }
    }

    /// Acts on an arrow key: with the control key the up and down arrows
    /// split the cursor's line, every other arrow moves the cursor. Any other
    /// key changes nothing.
    pub fn handle_arrows(&mut self, key: KeyEvent)
        requires
            old(self).size.wf(),
        ensures
            final(self).size == old(self).size,
            key.code.is_arrow() ==> {
                &&& final(self).cursor == old(self).cursor_after(key.command().unwrap())
                &&& final(self).buffer@ == old(self).lines_after(key.command().unwrap())
            },
            !key.code.is_arrow() ==> *final(self) == *old(self),
    {
        match key.code {
            KeyCode::Left => self.move_cursor(Direction::Left),
            KeyCode::Right => self.move_cursor(Direction::Right),
            KeyCode::Up => {
                if key.control {
                    self.buffer.split_to_up(&self.cursor);
                } else {
                    self.move_cursor(Direction::Up);
                }
            },
            KeyCode::Down => {
                if key.control {
                    self.buffer.split_to_down(&self.cursor);
                } else {
                    self.move_cursor(Direction::Down);
                }
            },
            _ => {},
        }
    }

    /// Types a character at the cursor and steps to the right.
    pub fn type_char(&mut self, character: char)
        requires
            old(self).size.wf(),
        ensures
            final(self).size == old(self).size,
            final(self).cursor == old(self).cursor.moved_right(old(self).size.0),
            final(self).buffer@ == with_char(
                old(self).buffer@,
                old(self).cursor.main.y as int,
                old(self).cursor.main.x as int,
                character,
            ),
            old(self).in_step() && old(self).cursor.main.x < usize::MAX ==> final(self).in_step(),
    {
        self.buffer.add_character(&self.cursor, character);
        self.cursor.move_right(self.size.0);
    }

    /// Carries out a command and says what is left to do outside the session.
    ///
    /// Saving, resizing and leaving change nothing here and are carried out by
    /// the caller. Every other command changes the cursor, the document or
    /// both, and asks for the page to be painted anew. A screen cursor that shows the document cursor on its
    /// page still does so afterwards, provided that the command had room to
    /// move the document cursor.
    pub fn execute(&mut self, command: Command) -> (action: Action)
        requires
            old(self).size.wf(),
        ensures
            final(self).size == old(self).size,
            final(self).cursor == old(self).cursor_after(command),
            final(self).buffer@ == old(self).lines_after(command),
            action == command.action(),
            old(self).in_step() && old(self).has_room(command) ==> final(self).in_step(),
    {
        match command {
            Command::MoveCursor(direction) => {
                self.move_cursor(direction);
                Action::Render
            },
            Command::InsertChar(character) => {
                self.type_char(character);
                Action::Render
            },
            Command::DeleteCharBackward => {
                self.cursor.move_left(self.size.0);
                self.buffer.delete_character(&self.cursor);
                Action::Render
            },
            Command::NewLine => {
                self.buffer.add_line(&self.cursor);
                self.cursor.move_bottom(self.size.1);
                Action::Render
            },
            Command::RemoveLine => {
                self.buffer.remove_line(&self.cursor);
                Action::Render
            },
            Command::SplitUpward => {
                self.buffer.split_to_up(&self.cursor);
                Action::Render
            },
            Command::SplitDownward => {
                self.buffer.split_to_down(&self.cursor);
                Action::Render
            },
            Command::Save => Action::Save,
            Command::Resize => Action::Resize,
            Command::Quit => Action::Quit,
        }
    }

    /// Acts on a key press: carries out the command that the key stands for,
    /// and changes nothing for a key that stands for none.
    pub fn handle_key(&mut self, key: KeyEvent) -> (action: Option<Action>)
        requires
            old(self).size.wf(),
        ensures
            match key.command() {
                Some(command) => {
                    &&& final(self).size == old(self).size
                    &&& final(self).cursor == old(self).cursor_after(command)
                    &&& final(self).buffer@ == old(self).lines_after(command)
                    &&& action == Some(command.action())
                    &&& old(self).in_step() && old(self).has_room(command) 
                ==> final(self).in_step()
                },
                None => action.is_none() && *final(self) == *old(self),
            },
    {
        match key.to_command() {
            Some(command) => Some(self.execute(command)),
            None => None,
        }
    }
}

/// A screen cursor that shows the document cursor on its page lies on the
/// text area, and the document cursor is the page's origin plus the screen
/// cursor's offset from the first text cell.
pub proof fn lemma_in_step_ties_screen_to_document(manager: Manager)
    requires
        manager.size.wf(),
        manager.in_step(),
    ensures
        manager.cursor.main.x == manager.origin().0 + (manager.cursor.x - HOME_X),
        manager.cursor.main.y == manager.origin().1 + (manager.cursor.y - HOME_Y),
        HOME_X <= manager.cursor.x <= manager.size.0 - EDGE,
        HOME_Y <= manager.cursor.y <= manager.size.1 - EDGE,
{
    lemma_origin_is_page_aligned(manager.cursor.main.x as int, manager.size.width());
    lemma_origin_is_page_aligned(manager.cursor.main.y as int, manager.size.height());
}

} // verus!
