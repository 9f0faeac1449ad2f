//! Text as mathematics: a line is a sequence of characters, a document a
//! sequence of lines, and a file's content one sequence of characters in which
//! a line break ends each line but, possibly, the last.

use vstd::prelude::*;

verus! {

/// The character that separates the lines of a file.
pub const LINE_BREAK: char = '\n';

/// A line of `n` spaces; no character when `n` is not positive.
pub open spec fn spaces(n: int) -> Seq<char> {
    Seq::new(
        if n > 0 {
            n as nat
        } else {
            0
        },
        |i: int| ' ',
    )
}

/// `n` empty lines; none when `n` is not positive.
pub open spec fn empty_lines(n: int) -> Seq<Seq<char>> {
    Seq::new(
        if n > 0 {
            n as nat
        } else {
            0
        },
        |i: int| Seq::<char>::empty(),
    )
}

/// The line at `row`; the empty line where the document has none.
pub open spec fn line_at(lines: Seq<Seq<char>>, row: int) -> Seq<char> {
    if 0 <= row < lines.len() {
        lines[row]
    } else {
        Seq::empty()
    }
}

/// The line, followed by as many spaces as it takes to reach `n` characters.
pub open spec fn padded(line: Seq<char>, n: int) -> Seq<char> {
    line + spaces(n - line.len())
}

/// The document, followed by as many empty lines as it takes to reach `n`
/// lines.
pub open spec fn grown(lines: Seq<Seq<char>>, n: int) -> Seq<Seq<char>> {
    lines + empty_lines(n - lines.len())
}

/// The part of a line that a window of `width` columns shows when its first
/// column is `col`.
pub open spec fn visible(line: Seq<char>, col: int, width: int) -> Seq<char> {
    if 0 <= col < line.len() && 0 <= width {
        line.subrange(
            col,
            if col + width < line.len() {
                col + width
            } else {
                line.len() as int
            },
        )
    } else {
        Seq::empty()
    }
}

/// What a window of `height` rows and `width` columns shows of the document
/// when its top-left cell is (`row`, `col`): one entry for each row of the
/// window, blank where the document has no line.
pub open spec fn page(lines: Seq<Seq<char>>, row: int, col: int, width: int, height: int) -> Seq<
    Seq<char>,
> {
    Seq::new(
        if height > 0 {
            height as nat
        } else {
            0
        },
        |i: int|
            if 0 <= row + i < lines.len() {
                visible(lines[row + i], col, width)
            } else {
                Seq::empty()
            },
    )
}

/// Number of rows of such a window that show a line of the document: the
/// lines from `row` on, as far as the window's `height` reaches. The rows
/// after them are blank because the document has ended.
pub open spec fn rows_shown(lines: Seq<Seq<char>>, row: int, height: int) -> int {
    if 0 <= row < lines.len() && 0 < height {
        if height < lines.len() - row {
            height
        } else {
            lines.len() - row
        }
    } else {
        0
    }
}

/// The rows of a page after those that show a line of the document are blank,
/// and each row before them shows the visible part of its line.
pub proof fn lemma_page_shows_lines_then_blanks(
    lines: Seq<Seq<char>>,
    row: int,
    col: int,
    width: int,
    height: int,
)
    requires
        0 <= row,
        0 <= height,
    ensures
        page(lines, row, col, width, height).len() == height,
        0 <= rows_shown(lines, row, height) <= height,
        forall|i: int|
            0 <= i < rows_shown(lines, row, height) ==> #[trigger] page(
                lines,
                row,
                col,
                width,
                height,
            )[i] == visible(lines[row + i], col, width),
        forall|i: int|
            rows_shown(lines, row, height) <= i < height ==> #[trigger] page(
                lines,
                row,
                col,
                width,
                height,
            )[i].len() == 0,
{
}

/// The lines, each followed by a line break, one after the other.
pub open spec fn terminated(lines: Seq<Seq<char>>) -> Seq<char>
    decreases lines.len(),
{
    if lines.len() == 0 {
        Seq::empty()
    } else {
        terminated(lines.drop_last()) + lines.last().push(LINE_BREAK)
    }
}

/// The lines with one line break between each two neighbours and none at the
/// end.
pub open spec fn joined(lines: Seq<Seq<char>>) -> Seq<char> {
    if lines.len() == 0 {
        Seq::empty()
    } else {
        terminated(lines.drop_last()) + lines.last()
    }
}

/// What follows the last line break of the text; the whole text when it has
/// none.
pub open spec fn tail(text: Seq<char>) -> Seq<char>
    decreases text.len(),
{
    if text.len() == 0 || text.last() == LINE_BREAK {
        Seq::empty()
    } else {
        tail(text.drop_last()).push(text.last())
    }
}

/// The lines of the text that a line break ends, without their line breaks.
pub open spec fn ended_lines(text: Seq<char>) -> Seq<Seq<char>>
    decreases text.len(),
{
    if text.len() == 0 {
        Seq::empty()
    } else if text.last() == LINE_BREAK {
        ended_lines(text.drop_last()).push(tail(text.drop_last()))
    } else {
        ended_lines(text.drop_last())
    }
}

/// The lines of a file's content: the lines that a line break ends, and then
/// what follows the last line break unless that is empty. An empty file has no
/// line, and a line break at the very end opens no further line.
pub open spec fn lines_of(text: Seq<char>) -> Seq<Seq<char>> {
    if tail(text).len() > 0 {
        ended_lines(text).push(tail(text))
    } else {
        ended_lines(text)
    }
}

/// The text without the line break at its end, if it has one there.
pub open spec fn chomped(text: Seq<char>) -> Seq<char> {
    if text.len() > 0 && text.last() == LINE_BREAK {
        text.drop_last()
    } else {
        text
    }
}

/// No character of the line is a line break.
pub open spec fn unbroken(line: Seq<char>) -> bool {
    forall|i: int| 0 <= i < line.len() ==> line[i] != LINE_BREAK
}

/// The ended lines, each with its line break, and then the tail make up the
/// text again; the tail holds no line break.
pub proof fn lemma_text_is_lines_then_tail(text: Seq<char>)
    ensures
        terminated(ended_lines(text)) + tail(text) == text,
        unbroken(tail(text)),
    decreases text.len(),
{
    if text.len() == 0 {
        assert(terminated(ended_lines(text)) + tail(text) =~= text);
    } else {
        let front = text.drop_last();
        lemma_text_is_lines_then_tail(front);
        if text.last() == LINE_BREAK {
            let lines = ended_lines(text);
            assert(lines.drop_last() =~= ended_lines(front));
            assert(lines.last() == tail(front));
            assert(terminated(lines) + tail(text) =~= (terminated(ended_lines(front)) + tail(
                front,
            )).push(LINE_BREAK));
            assert(front.push(LINE_BREAK) =~= text);
        } else {
            assert(terminated(ended_lines(text)) + tail(text) =~= (terminated(ended_lines(front))
                + tail(front)).push(text.last()));
            assert(front.push(text.last()) =~= text);
        }
    }
}

/// Writing a document out and reading it back: the lines of a file, joined
/// again, are the file's content without the line break at its end.
pub proof fn lemma_join_of_lines(text: Seq<char>)
    ensures
        joined(lines_of(text)) == chomped(text),
{
    lemma_text_is_lines_then_tail(text);
    if tail(text).len() > 0 {
        assert(lines_of(text).drop_last() =~= ended_lines(text));
    } else if text.len() > 0 {
        let front = text.drop_last();
        lemma_text_is_lines_then_tail(front);
        assert(ended_lines(text).drop_last() =~= ended_lines(front));
    } else {
    }
}

/// No line of a file holds a line break.
pub proof fn lemma_lines_are_unbroken(text: Seq<char>)
    ensures
        forall|i: int| 0 <= i < lines_of(text).len() ==> unbroken(#[trigger] lines_of(text)[i]),
        forall|i: int| 0 <= i < ended_lines(text).len() ==> unbroken(#[trigger] ended_lines(text)[i]),
    decreases text.len(),
{
    lemma_text_is_lines_then_tail(text);
    if text.len() > 0 {
        let front = text.drop_last();
        lemma_lines_are_unbroken(front);
        lemma_text_is_lines_then_tail(front);
    }
}

/// After a text that is empty or ends in a line break, a run of characters
/// without a line break is the tail and ends no line.
proof fn lemma_unbroken_run(text: Seq<char>, run: Seq<char>)
    requires
        text.len() == 0 || text.last() == LINE_BREAK,
        unbroken(run),
    ensures
        tail(text + run) == run,
        ended_lines(text + run) == ended_lines(text),
    decreases run.len(),
{
    if run.len() == 0 {
        assert(text + run =~= text);
        assert(tail(text) =~= run);
    } else {
        let front = run.drop_last();
        lemma_unbroken_run(text, front);
        assert((text + run).drop_last() =~= text + front);
        assert(front.push(run.last()) =~= run);
    }
}

/// Lines without line breaks, each written with its line break, are read
/// back as they were.
proof fn lemma_lines_of_terminated(lines: Seq<Seq<char>>)
    requires
        forall|i: int| 0 <= i < lines.len() ==> unbroken(#[trigger] lines[i]),
    ensures
        ended_lines(terminated(lines)) == lines,
        tail(terminated(lines)).len() == 0,
        terminated(lines).len() == 0 || terminated(lines).last() == LINE_BREAK,
    decreases lines.len(),
{
    if lines.len() == 0 {
        assert(ended_lines(terminated(lines)) =~= lines);
    } else {
        let front = lines.drop_last();
        lemma_lines_of_terminated(front);
        lemma_unbroken_run(terminated(front), lines.last());
        let text = terminated(lines);
        assert(text.drop_last() =~= terminated(front) + lines.last());
        assert(front.push(lines.last()) =~= lines);
    }
}

/// Reading back what was written out: a document whose lines hold no line
/// break and whose last line is not empty is the lines of its own text.
pub proof fn lemma_lines_of_join(lines: Seq<Seq<char>>)
    requires
        forall|i: int| 0 <= i < lines.len() ==> unbroken(#[trigger] lines[i]),
        lines.len() > 0 ==> lines.last().len() > 0,
    ensures
        lines_of(joined(lines)) == lines,
{
    if lines.len() == 0 {
        assert(lines_of(joined(lines)) =~= lines);
    } else {
        let front = lines.drop_last();
        lemma_lines_of_terminated(front);
        lemma_unbroken_run(terminated(front), lines.last());
        assert(front.push(lines.last()) =~= lines);
    }
}

/// Only an empty file has no line.
pub proof fn lemma_no_line_iff_empty(text: Seq<char>)
    ensures
        lines_of(text).len() == 0 <==> text.len() == 0,
{
}

} // verus!
