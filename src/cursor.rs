use vstd::prelude::*;

verus! {

/// Screen position of the caret on a grid of `width` printable columns and
/// `height` rows.
///
/// As a caret position, `x` ranges over `0..=width`: `x == width` means that
/// the caret stands just past the last column of row `y` and has not wrapped
/// yet. A drawing slot is always a cell of the grid (`x < width`); the
/// caret's slot is given by `get_draw_letter_position`.
pub struct CursorPointer {
    pub x_backup: usize,
    pub y_backup: usize,
    pub x: usize,
    pub y: usize,
    pub width: usize,
    pub height: usize,
}

/// The drawing slot of caret position (`x`, `y`): a caret past the end of
/// its row writes at the start of the next one.
pub open spec fn slot_of(x: nat, y: nat, width: nat) -> (nat, nat) {
    if x == width {
        (0, y + 1)
    } else {
        (x, y)
    }
}

impl CursorPointer {
    /// Grid of at least 2 x 2 cells; caret and saved position on it.
    pub open spec fn wf(&self) -> bool {
        &&& 2 <= self.width < usize::MAX
        &&& 2 <= self.height < usize::MAX
        &&& self.x <= self.width
        &&& self.y < self.height
        &&& self.x_backup <= self.width
        &&& self.y_backup < self.height
    }

    /// Same grid and same saved position.
    pub open spec fn same_frame(&self, other: &CursorPointer) -> bool {
        &&& self.width == other.width
        &&& self.height == other.height
        &&& self.x_backup == other.x_backup
        &&& self.y_backup == other.y_backup
    }

    /// The caret at (0, 0) of a `width` x `height` grid.
    pub fn new(width: usize, height: usize) -> (r: Self)
        requires
            2 <= width < usize::MAX,
            2 <= height < usize::MAX,
        ensures
            r.wf(),
            r.x == 0 && r.y == 0 && r.x_backup == 0 && r.y_backup == 0,
            r.width == width && r.height == height,
    {
        CursorPointer { x_backup: 0, y_backup: 0, x: 0, y: 0, width, height }
    }

    /// Moves the caret one position forward. Past the end of a row the caret
    /// lands on column 1 of the next row, just after the character drawn in
    /// column 0; past the last row it wraps to the first.
    pub fn increment(&mut self)
        requires
            old(self).wf(),
        ensures
            final(self).wf(),
            final(self).same_frame(old(self)),
            old(self).x < old(self).width ==> final(self).x == old(self).x + 1 && final(self).y
                == old(self).y,
            old(self).x == old(self).width ==> final(self).x == 1 && final(self).y == (if old(
                self,
            ).y + 1 == old(self).height {
                0
            } else {
                old(self).y + 1
            }),
    {
        self.x = self.x + 1;
        if self.x > self.width {
            self.x = 1;
            self.y = self.y + 1;
            if self.y >= self.height {
                self.y = 0;
            }
        }
    }

    /// Moves the caret one position back. From column 0 or 1 the caret goes
    /// to the end of the previous row (the last row, from the first).
    pub fn decrement(&mut self)
        requires
            old(self).wf(),
        ensures
            final(self).wf(),
            final(self).same_frame(old(self)),
            old(self).x > 1 ==> final(self).x == old(self).x - 1 && final(self).y == old(self).y,
            old(self).x <= 1 ==> final(self).x == old(self).width && final(self).y == (if old(
                self,
            ).y == 0 {
                old(self).height - 1
            } else {
                old(self).y - 1
            }),
    {
        if self.x <= 1 {
            self.x = self.width;
            if self.y == 0 {
                self.y = self.height - 1;
            } else {
                self.y = self.y - 1;
            }
        } else {
            self.x = self.x - 1;
        }
    }

    /// Moves to the previous drawing slot: from column 0 to the last column
    /// of the previous row (the last row, from the first).
    pub fn decrement_slot(&mut self)
        requires
            old(self).wf(),
        ensures
            final(self).wf(),
            final(self).same_frame(old(self)),
            old(self).x > 0 ==> final(self).x == old(self).x - 1 && final(self).y == old(self).y,
            old(self).x == 0 ==> final(self).x == old(self).width - 1 && final(self).y == (if old(
                self,
            ).y == 0 {
                old(self).height - 1
            } else {
                old(self).y - 1
            }),
    {
        if self.x < 1 {
            self.x = self.width - 1;
            if self.y == 0 {
                self.y = self.height - 1;
            } else {
                self.y = self.y - 1;
            }
        } else {
            self.x = self.x - 1;
        }
    }

    /// Saves the current position.
    pub fn backup(&mut self)
        requires
            old(self).wf(),
        ensures
            final(self).wf(),
            *final(self) == (CursorPointer {
                x_backup: old(self).x,
                y_backup: old(self).y,
                ..*old(self)
            }),
    {
        self.x_backup = self.x;
        self.y_backup = self.y;
    }

    /// Returns to the saved position.
    pub fn restore(&mut self)
        requires
            old(self).wf(),
        ensures
            final(self).wf(),
            *final(self) == (CursorPointer { x: old(self).x_backup, y: old(self).y_backup, ..*old(self) }),
    {
        self.x = self.x_backup;
        self.y = self.y_backup;
    }

    /// Whether the caret is at the top-left cell.
    pub fn is_at_canvas_start(&self) -> (r: bool)
        ensures
            r == (self.x == 0 && self.y == 0),
    {
        self.x == 0 && self.y == 0
    }

    /// Whether the caret stands past the end of the last row, where it has no
    /// further position.
    pub fn is_at_canvas_end(&self) -> (r: bool)
        requires
            self.wf(),
        ensures
            r == (self.x == self.width && self.y == self.height - 1),
    {
        self.x == self.width && self.y == self.height - 1
    }

    /// Whether the caret is on the last column of its row.
    pub fn is_at_line_end(&self) -> (r: bool)
        requires
            self.wf(),
        ensures
            r == (self.x == self.width - 1),
    {
        self.x == self.width - 1
    }

    /// Whether the caret is in column 0.
    pub fn is_at_line_start(&self) -> (r: bool)
        ensures
            r == (self.x == 0),
    {
        self.x == 0
    }

    /// Whether the caret is on the bottom row.
    pub fn is_last_line(&self) -> (r: bool)
        requires
            self.wf(),
        ensures
            r == (self.y == self.height - 1),
    {
        self.y == self.height - 1
    }

    /// Whether the caret is on the top row.
    pub fn is_first_line(&self) -> (r: bool)
        ensures
            r == (self.y == 0),
    {
        self.y == 0
    }

    /// Moves the caret to column 0 of its row.
    pub fn to_line_beginning(&mut self)
        ensures
            *final(self) == (CursorPointer { x: 0, ..*old(self) }),
    {
        self.x = 0;
    }

    /// Moves the caret one row down; the caller keeps it on the grid.
    pub fn to_next_line(&mut self)
        requires
            old(self).wf(),
            old(self).y + 1 < old(self).height,
        ensures
            *final(self) == (CursorPointer { y: (old(self).y + 1) as usize, ..*old(self) }),
    {
        self.y = self.y + 1;
    }

    /// Moves the caret one row up; the caller keeps it on the grid.
    pub fn to_previous_line(&mut self)
        requires
            old(self).y > 0,
        ensures
            *final(self) == (CursorPointer { y: (old(self).y - 1) as usize, ..*old(self) }),
    {
        self.y = self.y - 1;
    }

    /// The caret position, as shown on screen.
    pub fn get_draw_cursor_position(&self) -> (r: (usize, usize))
        ensures
            r == (self.x, self.y),
    {
        (self.x, self.y)
    }

    /// The drawing slot where the next character lands. A caret past the end
    /// of the last row has no slot, so callers handle that case first.
    pub fn get_draw_letter_position(&self) -> (r: (usize, usize))
        requires
            self.wf(),
            !(self.x == self.width && self.y == self.height - 1),
        ensures
            (r.0 as nat, r.1 as nat) == slot_of(self.x as nat, self.y as nat, self.width as nat),
            r.0 < self.width,
            r.1 < self.height,
    {
        if self.x == self.width {
            (0, self.y + 1)
        } else {
            (self.x, self.y)
        }
    }
}

} // verus!
