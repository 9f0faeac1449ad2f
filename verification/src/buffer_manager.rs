//! The document: an ordered sequence of lines, each a sequence of characters.
//!
//! Positions count characters, never bytes. Edits that insert grow the
//! document until the position exists; edits that remove or split act only on
//! what is there and leave the document alone otherwise.

use vstd::prelude::*;
use vstd::string::StringExecFns;

use crate::cursor_manager::Cursor;
use crate::manager::{Size, RESERVED_COLUMNS, RESERVED_ROWS};
use crate::text::{grown, joined, line_at, lines_of, padded, page, rows_shown, LINE_BREAK};

verus! {

/// `std::string::String::push` appends the character to the end of the string
/// and leaves the characters before it as they were.
pub assume_specification[ String::push ](s: &mut String, ch: char)
    ensures
        final(s)@ == old(s)@.push(ch),
;

/// The document after `ch` is typed at (`row`, `col`): the document grows
/// until `row` exists, the line grows by spaces until it has `col` characters,
/// and `ch` becomes the character at `col`.
pub open spec fn with_char(lines: Seq<Seq<char>>, row: int, col: int, ch: char) -> Seq<Seq<char>> {
    let g = grown(lines, row + 1);
    g.update(row, padded(g[row], col).insert(col, ch))
}

/// The document after the character at (`row`, `col`) is deleted. An empty
/// line is taken out of the document; a position that does not exist changes
/// nothing.
pub open spec fn without_char(lines: Seq<Seq<char>>, row: int, col: int) -> Seq<Seq<char>> {
    if !(0 <= row < lines.len()) {
        lines
    } else if lines[row].len() == 0 {
        lines.remove(row)
    } else if 0 <= col < lines[row].len() {
        lines.update(row, lines[row].remove(col))
    } else {
        lines
    }
}

/// The document after an empty line is opened at `row`. A document that ends
/// before `row` first grows until `row` exists.
pub open spec fn with_line(lines: Seq<Seq<char>>, row: int) -> Seq<Seq<char>> {
    let g = if lines.len() < row {
        grown(lines, row + 1)
    } else {
        lines
    };
    g.insert(row, Seq::empty())
}

/// The document after the line at `row` is taken out, if there is one.
pub open spec fn without_line(lines: Seq<Seq<char>>, row: int) -> Seq<Seq<char>> {
    if 0 <= row < lines.len() {
        lines.remove(row)
    } else {
        lines
    }
}

/// The line at `row` can be split at `col` in favour of the line at `other`:
/// both lines exist and `col` lies within the line or at its end.
pub open spec fn can_split(lines: Seq<Seq<char>>, row: int, col: int, other: int) -> bool {
    &&& 0 <= row < lines.len()
    &&& 0 <= other < lines.len()
    &&& 0 <= col <= lines[row].len()
}

/// The document after the line at `row` keeps its first `col` characters and
/// hands the rest to the end of the line at `other`.
pub open spec fn split_into(lines: Seq<Seq<char>>, row: int, col: int, other: int) -> Seq<
    Seq<char>,
> {
    lines.update(other, lines[other] + lines[row].skip(col)).update(row, lines[row].take(col))
}

/// The document after a split at (`row`, `col`) towards the line above.
/// Nothing changes on the first line, on a line that does not exist, or for a
/// column past the end of the line.
pub open spec fn split_up(lines: Seq<Seq<char>>, row: int, col: int) -> Seq<Seq<char>> {
    if can_split(lines, row, col, row - 1) {
        split_into(lines, row, col, row - 1)
    } else {
        lines
    }
}

/// The document after a split at (`row`, `col`) towards the line below.
/// Nothing changes on the last line, on a line that does not exist, or for a
/// column past the end of the line.
pub open spec fn split_down(lines: Seq<Seq<char>>, row: int, col: int) -> Seq<Seq<char>> {
    if can_split(lines, row, col, row + 1) {
        split_into(lines, row, col, row + 1)
    } else {
        lines
    }
}

/// The lines of a document.
pub struct Buffer {
    lines: Vec<String>,
}

impl View for Buffer {
    type V = Seq<Seq<char>>;

    closed spec fn view(&self) -> Seq<Seq<char>> {
        self.lines.deep_view()
    }
}

impl Default for Buffer {
    /// A document without lines.
    fn default() -> (buffer: Self)
        ensures
            buffer@ == Seq::<Seq<char>>::empty(),
    {
        let buffer = Buffer { lines: Vec::new() };
        assert(buffer@ =~= Seq::<Seq<char>>::empty());
        buffer
    }
}

impl Buffer {
    /// A document of the given lines.
    pub fn from_lines(lines: Vec<String>) -> (buffer: Self)
        ensures
            buffer@ == lines.deep_view(),
    {
        Buffer { lines }
    }

    /// The lines of the document, first to last.
    pub fn lines(&self) -> (lines: &Vec<String>)
        ensures
            lines.deep_view() == self@,
    {
        &self.lines
    }

    /// Number of lines of the document.
    pub fn len(&self) -> (n: usize)
        ensures
            n == self@.len(),
    {
        self.lines.len()
    }

    /// Replaces the document by the lines of a file's content.
    ///
    /// A line break ends a line; what follows the last line break is a line of
    /// its own unless it is empty. An empty content yields no line.
    pub fn read_from_file(&mut self, content: &str)
        ensures
            final(self)@ == lines_of(content@),
    {
        let mut lines: Vec<String> = Vec::new();
        let mut current = String::new();
        for c in it: content.chars()
            invariant
                it.seq() == content@,
                lines.deep_view() == crate::text::ended_lines(content@.take(it.index())),
                current@ == crate::text::tail(content@.take(it.index())),
        {
            let ghost seen = content@.take(it.index());
            assert(content@.take(it.index() + 1).drop_last() =~= seen);
            if c == LINE_BREAK {
                let ghost before = lines.deep_view();
                lines.push(current);
                assert(lines.deep_view() =~= before.push(current@));
                current = String::new();
            } else {
                current.push(c);
            }
        }
        assert(content@.take(content@.len() as int) =~= content@);
        if !current.as_str().is_empty() {
            let ghost before = lines.deep_view();
            lines.push(current);
            assert(lines.deep_view() =~= before.push(current@));
        }
        self.lines = lines;
    }

    /// The text of the document as a file holds it: the lines with one line
    /// break between each two neighbours and none at the end. The document
    /// stays as it is.
    pub fn save_buffer(&mut self) -> (text: String)
        ensures
            text@ == joined(old(self)@),
            *final(self) == *old(self),
    {
        let mut text = String::new();
        let n = self.lines.len();
        let mut i: usize = 0;
        while i < n
            invariant
                n == self.lines@.len(),
                i <= n,
                i < n ==> text@ == crate::text::terminated(self@.take(i as int)),
                i == n ==> text@ == joined(self@),
            decreases n - i,
        {
            assert(self@.take(i + 1).drop_last() =~= self@.take(i as int));
            text.append(self.lines[i].as_str());
            i += 1;
            if i < n {
                text.push(LINE_BREAK);
            } else {
                assert(self@.take(i as int) =~= self@);
            }
        }
        text
    }

    /// What a terminal of the given size shows of the document when the
    /// top-left cell of its text area is the cursor's document position: one
    /// row for each text row of the terminal, each cut to the text columns,
    /// blank where the document has nothing to show. A terminal that the
    /// reserved rows fill shows no row, and one that the reserved columns fill
    /// shows blank rows only. The document stays as it is.
    pub fn print_lines(&mut self, cursor: &Cursor, size: &Size) -> (rows: Vec<String>)
        requires
            size.0 >= RESERVED_COLUMNS,
            size.1 >= RESERVED_ROWS,
        ensures
            rows.deep_view() == page(
                old(self)@,
                cursor.main.y as int,
                cursor.main.x as int,
                size.width(),
                size.height(),
            ),
            rows@.len() == size.height(),
            forall|i: int|
                0 <= i < rows@.len() ==> (#[trigger] rows@[i])@.len() <= size.width(),
            forall|i: int|
                rows_shown(old(self)@, cursor.main.y as int, size.height()) <= i < rows@.len()
                    ==> (#[trigger] rows@[i])@.len() == 0,
            *final(self) == *old(self),
    {
        let width = size.text_columns();
        let height = size.text_rows();
        let top = cursor.main.y;
        let left = cursor.main.x;
        let count = self.lines.len();
        let mut rows: Vec<String> = Vec::new();
        let mut i: usize = 0;
        while i < height
            invariant
                i <= height,
                count == self.lines@.len(),
                rows.deep_view() == page(self@, top as int, left as int, width as int, i as int),
            decreases height - i,
        {
            let mut row = String::new();
            if top < count && i < count - top {
                let line = self.lines[top + i].as_str();
                let len = line.unicode_len();
                if left < len {
                    let end = if width < len - left {
                        left + width
                    } else {
                        len
                    };
                    row = String::from_str(line.substring_char(left, end));
                }
            }
            let ghost before = rows.deep_view();
            rows.push(row);
            assert(rows.deep_view() =~= before.push(row@));
            assert(rows.deep_view() =~= page(
                self@,
                top as int,
                left as int,
                width as int,
                i + 1,
            ));
            i += 1;
        }
        assert forall|i: int| 0 <= i < rows@.len() implies (#[trigger] rows@[i])@
            == rows.deep_view()[i] by {}
        rows
    }

    /// Number of rows that show a line of the document on a terminal of the
    /// given size when the top-left cell of its text area is the cursor's
    /// document position: the lines from the cursor's row on, as far as the
    /// text rows reach, and none when the document ends before that row.
    pub fn rows_on_page(&self, cursor: &Cursor, size: &Size) -> (n: usize)
        requires
            size.1 >= RESERVED_ROWS,
        ensures
            n == rows_shown(self@, cursor.main.y as int, size.height()),
            n <= size.height(),
            n <= self@.len(),
            cursor.main.y >= self@.len() ==> n == 0,
    {
        let height = size.text_rows();
        let top = cursor.main.y;
        let count = self.lines.len();
        if top >= count {
            0
        } else if height < count - top {
            height
        } else {
            count - top
        }
    }

    /// Appends empty lines until the document has more than `row` lines.
    fn grow(&mut self, row: usize)
        ensures
            final(self)@ == grown(old(self)@, row + 1),
            final(self)@.len() > row,
    {
        while self.lines.len() <= row
            invariant
                self@ == grown(old(self)@, self@.len() as int),
                old(self)@.len() <= self@.len(),
                self@.len() <= row + 1 || self@.len() == old(self)@.len(),
            decreases row + 1 - self@.len(),
        {
            let ghost prev = self@;
            self.lines.push(String::new());
            assert(self@ =~= prev.push(Seq::empty()));
            assert(grown(old(self)@, prev.len() as int + 1) =~= prev.push(Seq::empty()));
        }
        assert(self@ =~= grown(old(self)@, row + 1));
    }

    /// Puts `line` in the place of the line at `row`.
    fn replace(&mut self, row: usize, line: String)
        requires
            row < old(self)@.len(),
        ensures
            final(self)@ == old(self)@.update(row as int, line@),
    {
        self.lines[row] = line;
        assert(self@ =~= old(self)@.update(row as int, line@));
    }

    /// Deletes the character at the cursor's document position.
    ///
    /// On an empty line the line itself leaves the document. A position past
    /// the end of the document or of its line deletes nothing.
    pub fn delete_character(&mut self, cursor: &Cursor)
        ensures
            final(self)@ == without_char(old(self)@, cursor.main.y as int, cursor.main.x as int),
            cursor.main.y < old(self)@.len() && old(self)@[cursor.main.y as int].len() == 0 ==> {
                &&& final(self)@ == old(self)@.remove(cursor.main.y as int)
                &&& final(self)@.len() == old(self)@.len() - 1
            },
            cursor.main.y < old(self)@.len() && cursor.main.x < old(self)@[cursor.main.y as int].len()
                ==> {
                &&& final(self)@.len() == old(self)@.len()
                &&& final(self)@[cursor.main.y as int] == old(self)@[cursor.main.y as int].remove(
                    cursor.main.x as int,
                )
                &&& final(self)@[cursor.main.y as int].len() == old(self)@[cursor.main.y as int].len()
                    - 1
            },
    {
        let row = cursor.main.y;
        let col = cursor.main.x;
        if row >= self.lines.len() {
            return ;
        }
        let line = self.lines[row].as_str();
        let len = line.unicode_len();
        if len == 0 {
            self.remove_line(cursor);
        } else if col < len {
            let mut edited = String::from_str(line.substring_char(0, col));
            edited.append(line.substring_char(col + 1, len));
            assert(edited@ =~= line@.remove(col as int));
            self.replace(row, edited);
        }
    }

    /// Types `character` at the cursor's document position.
    ///
    /// Never fails: a position past the end of the document or of its line is
    /// made to exist first, by empty lines and by spaces.
    pub fn add_character(&mut self, cursor: &Cursor, character: char)
        ensures
            final(self)@ == with_char(
                old(self)@,
                cursor.main.y as int,
                cursor.main.x as int,
                character,
            ),
            final(self)@.len() == if old(self)@.len() > cursor.main.y {
                old(self)@.len() as int
            } else {
                cursor.main.y + 1
            },
            final(self)@[cursor.main.y as int][cursor.main.x as int] == character,
            cursor.main.x >= line_at(old(self)@, cursor.main.y as int).len() ==> {
                &&& final(self)@[cursor.main.y as int] == padded(
                    line_at(old(self)@, cursor.main.y as int),
                    cursor.main.x as int,
                ).push(character)
                &&& final(self)@[cursor.main.y as int].len() == cursor.main.x + 1
            },
    {
        let row = cursor.main.y;
        let col = cursor.main.x;
        self.grow(row);
        let line = self.lines[row].as_str();
        assert(self@[row as int] == line@);
        assert(grown(old(self)@, row + 1)[row as int] =~= line_at(old(self)@, row as int));
        let len = line.unicode_len();
        let mut edited: String;
        if col >= len {
            edited = String::from_str(line);
            let mut n: usize = len;
            while n < col
                invariant
                    line@.len() <= n <= col,
                    edited@ =~= padded(line@, n as int),
                decreases col - n,
            {
                edited.push(' ');
                assert(padded(line@, n + 1) =~= padded(line@, n as int).push(' '));
                n += 1;
            }
            edited.push(character);
        } else {
            edited = String::from_str(line.substring_char(0, col));
            edited.push(character);
            edited.append(line.substring_char(col, len));
        }
        assert(edited@ =~= padded(line@, col as int).insert(col as int, character));
        self.replace(row, edited);
    }

    /// Opens an empty line at the cursor's document row; the lines from there
    /// on move down by one. A document that ends before the row first grows
    /// until the row exists.
    pub fn add_line(&mut self, cursor: &Cursor)
        ensures
            final(self)@ == with_line(old(self)@, cursor.main.y as int),
    {
        let row = cursor.main.y;
        if self.lines.len() < row {
            self.grow(row);
        }
        let ghost before = self@;
        self.lines.insert(row, String::new());
        assert(self@ =~= before.insert(row as int, Seq::empty()));
    }

    /// Takes the line at the cursor's document row out of the document, if
    /// there is one.
    pub fn remove_line(&mut self, cursor: &Cursor)
        ensures
            final(self)@ == without_line(old(self)@, cursor.main.y as int),
    {
        let row = cursor.main.y;
        if row < self.lines.len() {
            self.lines.remove(row);
            assert(self@ =~= old(self)@.remove(row as int));
        }
    }

    /// Cuts the line at `row` after its first `col` characters and appends the
    /// rest to the line at `other`.
    fn split(&mut self, row: usize, col: usize, other: usize)
        requires
            can_split(old(self)@, row as int, col as int, other as int),
            row != other,
        ensures
            final(self)@ == split_into(old(self)@, row as int, col as int, other as int),
    {
        let line = self.lines[row].as_str();
        let len = line.unicode_len();
        let mut target = String::from_str(self.lines[other].as_str());
        target.append(line.substring_char(col, len));
        let kept = String::from_str(line.substring_char(0, col));
        self.replace(other, target);
        self.replace(row, kept);
    }

    /// Splits the line at the cursor's document position and hands what
    /// follows the cursor to the end of the line above.
    ///
    /// Nothing happens on the first line, on a row past the end of the
    /// document, or for a column past the end of the line.
    pub fn split_to_up(&mut self, cursor: &Cursor)
        ensures
            final(self)@ == split_up(old(self)@, cursor.main.y as int, cursor.main.x as int),
            cursor.main.y == 0 ==> final(self)@ == old(self)@,
            can_split(old(self)@, cursor.main.y as int, cursor.main.x as int, cursor.main.y - 1)
                ==> {
                &&& final(self)@.len() == old(self)@.len()
                &&& final(self)@[cursor.main.y - 1].len() == old(self)@[cursor.main.y - 1].len()
                    + old(self)@[cursor.main.y as int].len() - cursor.main.x
                &&& final(self)@[cursor.main.y as int] == old(self)@[cursor.main.y as int].take(
                    cursor.main.x as int,
                )
                &&& final(self)@[cursor.main.y as int].len() == cursor.main.x
            },
    {
        let row = cursor.main.y;
        let col = cursor.main.x;
        if self.lines.len() <= row || row == 0 {
            return ;
        }
        if self.lines[row].as_str().unicode_len() < col {
            return ;
        }
        self.split(row, col, row - 1);
    }

    /// Splits the line at the cursor's document position and hands what
    /// follows the cursor to the end of the line below.
    ///
    /// Nothing happens on the last line, on a row past the end of the
    /// document, or for a column past the end of the line.
    pub fn split_to_down(&mut self, cursor: &Cursor)
        ensures
            final(self)@ == split_down(old(self)@, cursor.main.y as int, cursor.main.x as int),
            cursor.main.y + 1 >= old(self)@.len() ==> final(self)@ == old(self)@,
            can_split(old(self)@, cursor.main.y as int, cursor.main.x as int, cursor.main.y + 1)
                ==> {
                &&& final(self)@.len() == old(self)@.len()
                &&& final(self)@[cursor.main.y + 1].len() == old(self)@[cursor.main.y + 1].len()
                    + old(self)@[cursor.main.y as int].len() - cursor.main.x
                &&& final(self)@[cursor.main.y as int] == old(self)@[cursor.main.y as int].take(
                    cursor.main.x as int,
                )
                &&& final(self)@[cursor.main.y as int].len() == cursor.main.x
            },
    {
        let row = cursor.main.y;
        let col = cursor.main.x;
        let count = self.lines.len();
        if count <= row || count - 1 == row {
            return ;
        }
        if self.lines[row].as_str().unicode_len() < col {
            return ;
        }
        self.split(row, col, row + 1);
    }
}

} // verus!
