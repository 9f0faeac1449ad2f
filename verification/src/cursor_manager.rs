//! The edit cursor: one position on the screen, one in the document.
//!
//! The document position is the source of truth for addressing the buffer and
//! may lie past the end of a line or of the document. The screen position is
//! where the terminal shows the cursor; it stays on the text area of the page
//! and wraps to the opposite edge when a step would leave it.

use vstd::prelude::*;
use vstd::arithmetic::div_mod::{
    lemma_fundamental_div_mod, lemma_fundamental_div_mod_converse, lemma_mod_pos_bound,
    lemma_small_mod,
};

verus! {

/// First screen column that shows text; the columns before it hold the gutter.
pub const HOME_X: u16 = 2;

/// First screen row that shows text; the row above it holds the status line.
pub const HOME_Y: u16 = 1;

/// The last screen coordinate that shows text lies this far below the
/// terminal's length along the same axis.
pub const EDGE: u16 = 2;

/// Position in the document: `x` is the column, `y` the row, both from zero.
#[derive(Debug, Clone, Copy, PartialEq, Eq, Structural)]
pub struct MainCursor {
    pub x: usize,
    pub y: usize,
}

impl Default for MainCursor {
    /// The first cell of the document.
    fn default() -> (main: Self)
        ensures
            main == (MainCursor { x: 0, y: 0 }),
    {
        MainCursor { x: 0, y: 0 }
    }
}

/// Position on the screen (`x`, `y`) together with the position in the
/// document (`main`).
#[derive(Debug, Clone, Copy, PartialEq, Eq, Structural)]
pub struct Cursor {
    pub x: u16,
    pub y: u16,
    pub main: MainCursor,
}

impl Default for Cursor {
    /// The first cell of the document, shown on the first cell of the screen.
    fn default() -> (cursor: Self)
        ensures
            cursor == (Cursor { x: 0, y: 0, main: MainCursor { x: 0, y: 0 } }),
    {
        Cursor { x: 0, y: 0, main: MainCursor { x: 0, y: 0 } }
    }
}

/// Document coordinate after one step towards zero.
pub open spec fn before(pos: usize) -> usize {
    if pos > 0 {
        (pos - 1) as usize
    } else {
        pos
    }
}

/// Document coordinate after one step away from zero; the coordinate type's
/// largest value is the only bound.
pub open spec fn after(pos: usize) -> usize {
    if pos < usize::MAX {
        (pos + 1) as usize
    } else {
        pos
    }
}

/// Screen coordinate after one step towards `home` on an axis of length `max`.
/// On `home` itself the coordinate wraps to the far edge of the page, unless
/// the document position has arrived at zero (`at_start`).
pub open spec fn retreat(pos: u16, home: u16, max: u16, at_start: bool) -> u16 {
    if pos > home {
        (pos - 1) as u16
    } else if pos == home && !at_start {
        (max - EDGE) as u16
    } else {
        pos
    }
}

/// Screen coordinate after one step away from `home` on an axis of length
/// `max`. On the far edge of the page the coordinate wraps to `home`.
pub open spec fn advance(pos: u16, home: u16, max: u16) -> u16 {
    if pos == max - EDGE {
        home
    } else if pos < max {
        (pos + 1) as u16
    } else {
        pos
    }
}

/// Number of text cells along an axis of length `max` whose first text cell is
/// `home`: the cells from `home` to `max - EDGE`.
pub open spec fn extent(home: u16, max: u16) -> int {
    max - EDGE - home + 1
}

/// The screen coordinate `pos` shows the document coordinate `logical` on the
/// page that holds it: it is the offset of `logical` within its page, counted
/// from `home`.
pub open spec fn in_step(pos: u16, logical: usize, home: u16, max: u16) -> bool {
    extent(home, max) > 0 && pos == home + (logical as int) % extent(home, max)
}

/// One step forward within a page moves the offset by one, or from the last
/// offset back to zero.
proof fn lemma_mod_step(a: int, e: int)
    requires
        0 <= a,
        0 < e,
    ensures
        (a + 1) % e == if a % e == e - 1 {
            0
        } else {
            a % e + 1
        },
        0 <= a % e < e,
{
    lemma_fundamental_div_mod(a, e);
    lemma_mod_pos_bound(a, e);
    let q = a / e;
    let r = a % e;
    if r == e - 1 {
        assert(a + 1 == (q + 1) * e + 0) by (nonlinear_arith)
            requires
                a == e * q + r,
                r == e - 1,
        ;
        lemma_fundamental_div_mod_converse(a + 1, e, q + 1, 0);
    } else {
        assert(a + 1 == q * e + (r + 1)) by (nonlinear_arith)
            requires
                a == e * q + r,
        ;
        lemma_fundamental_div_mod_converse(a + 1, e, q, r + 1);
    }
}

impl Cursor {
    /// The cursor at the first cell of the document and of the text area.
    pub open spec fn home() -> Cursor {
        Cursor { x: HOME_X, y: HOME_Y, main: MainCursor { x: 0, y: 0 } }
    }

    /// The cursor one column to the left on a terminal of `max` columns.
    pub open spec fn moved_left(self, max: u16) -> Cursor {
        let column = before(self.main.x);
        Cursor {
            x: retreat(self.x, HOME_X, max, column == 0),
            y: self.y,
            main: MainCursor { x: column, y: self.main.y },
        }
    }

    /// The cursor one column to the right on a terminal of `max` columns.
    pub open spec fn moved_right(self, max: u16) -> Cursor {
        Cursor {
            x: advance(self.x, HOME_X, max),
            y: self.y,
            main: MainCursor { x: after(self.main.x), y: self.main.y },
        }
    }

    /// The cursor one row up on a terminal of `max` rows.
    pub open spec fn moved_top(self, max: u16) -> Cursor {
        let row = before(self.main.y);
        Cursor {
            x: self.x,
            y: retreat(self.y, HOME_Y, max, row == 0),
            main: MainCursor { x: self.main.x, y: row },
        }
    }

    /// The cursor one row down on a terminal of `max` rows.
    pub open spec fn moved_bottom(self, max: u16) -> Cursor {
        Cursor {
            x: self.x,
            y: advance(self.y, HOME_Y, max),
            main: MainCursor { x: self.main.x, y: after(self.main.y) },
        }
    }

    /// The screen column shows the document column on its page.
    pub open spec fn in_step_x(self, max: u16) -> bool {
        in_step(self.x, self.main.x, HOME_X, max)
    }

    /// The screen row shows the document row on its page.
    pub open spec fn in_step_y(self, max: u16) -> bool {
        in_step(self.y, self.main.y, HOME_Y, max)
    }

    /// Moves one column to the left on a terminal of `max` columns.
    ///
    /// The document column stops at zero. The screen column wraps from the
    /// first text column to the last one while the document column has not
    /// reached zero. A screen column that shows the document column on its
    /// page still does so afterwards.
    pub fn move_left(&mut self, max: u16)
        requires
            max >= EDGE,
        ensures
            *final(self) == old(self).moved_left(max),
            old(self).in_step_x(max) ==> final(self).in_step_x(max),
    {
        if self.main.x > 0 {
            self.main.x -= 1;
        }
        if self.x > HOME_X {
            self.x -= 1;
        } else if self.x == HOME_X && self.main.x != 0 {
            self.x = max - EDGE;
        }
        proof {
            if old(self).in_step_x(max) {
                lemma_moved_left_in_step(*old(self), max);
            }
        }
    }

    /// Moves one column to the right on a terminal of `max` columns.
    ///
    /// The document column grows unless it already holds the largest value of
    /// its type. The screen column wraps from the last text column to the
    /// first one. A screen column that shows the document column on its page
    /// still does so afterwards, provided that the document column grew.
    pub fn move_right(&mut self, max: u16)
        requires
            max >= EDGE,
        ensures
            *final(self) == old(self).moved_right(max),
            old(self).in_step_x(max) && old(self).main.x < usize::MAX ==> final(self).in_step_x(max),
    {
        if self.main.x < usize::MAX {
            self.main.x += 1;
        }
        if self.x == max - EDGE {
            self.x = HOME_X;
        } else if self.x < max {
            self.x += 1;
        }
        proof {
            if old(self).in_step_x(max) && old(self).main.x < usize::MAX {
                lemma_moved_right_in_step(*old(self), max);
            }
        }
    }

    /// Moves one row up on a terminal of `max` rows.
    ///
    /// The document row stops at zero. The screen row wraps from the first text
    /// row to the last one while the document row has not reached zero. A
    /// screen row that shows the document row on its page still does so
    /// afterwards.
    pub fn move_top(&mut self, max: u16)
        requires
            max >= EDGE,
        ensures
            *final(self) == old(self).moved_top(max),
            old(self).in_step_y(max) ==> final(self).in_step_y(max),
    {
        if self.main.y > 0 {
            self.main.y -= 1;
        }
        if self.y > HOME_Y {
            self.y -= 1;
        } else if self.y == HOME_Y && self.main.y != 0 {
            self.y = max - EDGE;
        }
        proof {
            if old(self).in_step_y(max) {
                lemma_moved_top_in_step(*old(self), max);
            }
        }
    }

    /// Moves one row down on a terminal of `max` rows.
    ///
    /// The document row grows unless it already holds the largest value of its
    /// type. The screen row wraps from the last text row to the first one. A
    /// screen row that shows the document row on its page still does so
    /// afterwards, provided that the document row grew.
    pub fn move_bottom(&mut self, max: u16)
        requires
            max >= EDGE,
        ensures
            *final(self) == old(self).moved_bottom(max),
            old(self).in_step_y(max) && old(self).main.y < usize::MAX ==> final(self).in_step_y(max),
    {
        if self.main.y < usize::MAX {
            self.main.y += 1;
        }
        if self.y == max - EDGE {
            self.y = HOME_Y;
        } else if self.y < max {
            self.y += 1;
        }
        proof {
            if old(self).in_step_y(max) && old(self).main.y < usize::MAX {
                lemma_moved_bottom_in_step(*old(self), max);
            }
        }
    }

    /// Puts the cursor on the first cell of the document and of the text area.
    pub fn reset(&mut self)
        ensures
            *final(self) == Cursor::home(),
    {
        self.x = HOME_X;
        self.y = HOME_Y;
        self.main.x = 0;
        self.main.y = 0;
    }
}

/// The home position shows the first cell of the document on every terminal
/// that has a text area along both axes.
pub proof fn lemma_home_is_in_step(columns: u16, rows: u16)
    requires
        extent(HOME_X, columns) > 0,
        extent(HOME_Y, rows) > 0,
    ensures
        Cursor::home().in_step_x(columns),
        Cursor::home().in_step_y(rows),
{
    lemma_small_mod(0, extent(HOME_X, columns) as nat);
    lemma_small_mod(0, extent(HOME_Y, rows) as nat);
}

/// A step to the left keeps the screen column on the cell that shows the
/// document column.
pub proof fn lemma_moved_left_in_step(cursor: Cursor, max: u16)
    requires
        cursor.in_step_x(max),
    ensures
        cursor.moved_left(max).in_step_x(max),
{
    lemma_small_mod(0, extent(HOME_X, max) as nat);
    if cursor.main.x > 0 {
        lemma_mod_step(cursor.main.x - 1, extent(HOME_X, max));
    }
}

/// A step to the right keeps the screen column on the cell that shows the
/// document column, as long as the document column can still grow.
pub proof fn lemma_moved_right_in_step(cursor: Cursor, max: u16)
    requires
        cursor.in_step_x(max),
        cursor.main.x < usize::MAX,
    ensures
        cursor.moved_right(max).in_step_x(max),
{
    lemma_mod_step(cursor.main.x as int, extent(HOME_X, max));
}

/// A step up keeps the screen row on the cell that shows the document row.
pub proof fn lemma_moved_top_in_step(cursor: Cursor, max: u16)
    requires
        cursor.in_step_y(max),
    ensures
        cursor.moved_top(max).in_step_y(max),
{
    lemma_small_mod(0, extent(HOME_Y, max) as nat);
    if cursor.main.y > 0 {
        lemma_mod_step(cursor.main.y - 1, extent(HOME_Y, max));
    }
}

/// A step down keeps the screen row on the cell that shows the document row,
/// as long as the document row can still grow.
pub proof fn lemma_moved_bottom_in_step(cursor: Cursor, max: u16)
    requires
        cursor.in_step_y(max),
        cursor.main.y < usize::MAX,
    ensures
        cursor.moved_bottom(max).in_step_y(max),
{
    lemma_mod_step(cursor.main.y as int, extent(HOME_Y, max));
}

} // verus!
