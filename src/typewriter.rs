use vstd::prelude::*;

use crate::config::{CHAR_HEIGHT, CHAR_WIDTH, MEMORY_SIZE, NEWLINE};
use crate::cursor::{slot_of, CursorPointer};
use crate::font::Font;
use crate::keys::{resolve_symbol, symbol_of, Key};
use crate::layout::{
    back_walk, blank_rows, blank_run, cmd, fwd_walk, last_slot, lemma_trailing_run, lemma_wrap_step,
    rebuilt_cache, cache_scan, top_line_walk, trailing_run, wrapped_column, EditorState,
};
use crate::memory::Memory;

pub use crate::layout::{Outcome, Violation};

verus! {

/// A draw command: render glyph `id` (0 is blank) at cell (`pos_x`, `pos_y`).
#[derive(Clone, Copy, Debug, PartialEq, Eq, Structural)]
pub struct LetterInstruction {
    pub pos_x: usize,
    pub pos_y: usize,
    pub id: u8,
}

/// A typewriter: the text, the caret on screen and the line-length cache.
/// Each input event edits the text, moves the caret and appends the draw
/// commands that bring the screen up to date.
pub struct Typewriter {
    pub cursor: CursorPointer,
    pub memory: Memory,
    pub line_cache: Vec<usize>,
}

impl Default for Typewriter {
    /// A typewriter on the default grid with the default capacity.
    fn default() -> (r: Self)
        ensures
            r.wf(),
            r.cursor.x == 0 && r.cursor.y == 0,
            r.cursor.width == CHAR_WIDTH && r.cursor.height == CHAR_HEIGHT,
            r.memory@.before.len() == 0,
            r.memory@.after.len() == 0,
            r.memory@.capacity == MEMORY_SIZE,
            r.line_cache@ == Seq::new(CHAR_HEIGHT as nat, |i: int| 0usize),
    {
        Typewriter::new(CHAR_WIDTH, CHAR_HEIGHT, MEMORY_SIZE)
    }
}

impl Typewriter {
    /// Well-formed parts, one cache entry per row, each at most a row wide.
    pub open spec fn wf(&self) -> bool {
        &&& self.cursor.wf()
        &&& self.memory.wf()
        &&& self.line_cache@.len() == self.cursor.height
        &&& forall|i: int| 0 <= i < self.line_cache@.len() ==> #[trigger] self.line_cache@[i] <= self.cursor.width
    }

    /// The abstract state; the cursor's saved position is scratch space of
    /// the repaint walks and not part of it.
    pub open spec fn state(&self) -> EditorState {
        EditorState {
            mem: self.memory@,
            x: self.cursor.x as nat,
            y: self.cursor.y as nat,
            width: self.cursor.width as nat,
            height: self.cursor.height as nat,
            cache: self.line_cache@,
        }
    }

    /// A well-formed typewriter has a well-formed abstract state.
    pub proof fn lemma_state_wf(&self)
        requires
            self.wf(),
        ensures
            self.state().wf(),
    {
        self.memory.lemma_wf();
    }

    /// Printable columns per row.
    pub open spec fn width(&self) -> nat {
        self.cursor.width as nat
    }

    /// Rows of the grid.
    pub open spec fn height(&self) -> nat {
        self.cursor.height as nat
    }

    /// A typewriter on a `width` x `height` grid with room for `capacity`
    /// characters, empty, with the caret at (0, 0).
    pub fn new(width: usize, height: usize, capacity: usize) -> (r: Self)
        requires
            2 <= width < usize::MAX,
            2 <= height < usize::MAX,
        ensures
            r.wf(),
            r.cursor.x == 0 && r.cursor.y == 0,
            r.cursor.width == width && r.cursor.height == height,
            r.memory@.before.len() == 0,
            r.memory@.after.len() == 0,
            r.memory@.capacity == capacity,
            r.line_cache@ == Seq::new(height as nat, |i: int| 0usize),
    {
        let line_cache = vec![0usize; height];
        assert(line_cache@ =~= Seq::new(height as nat, |i: int| 0usize));
        Typewriter {
            cursor: CursorPointer::new(width, height),
            memory: Memory::new(capacity),
            line_cache,
        }
    }

    /// Appends blanks from the caret to the end of its row.
    pub fn clear_from_cursor(&self, letter_instructions: &mut Vec<LetterInstruction>)
        requires
            self.wf(),
        ensures
            final(letter_instructions)@ == old(letter_instructions)@ + self.state().clear_from(),
    {
        let mut x: usize = self.cursor.x;
        while x < self.cursor.width
            invariant
                self.wf(),
                self.cursor.x <= x <= self.cursor.width,
                letter_instructions@ == old(letter_instructions)@ + blank_run(
                    self.cursor.x as nat,
                    x as nat,
                    self.cursor.y as nat,
                ),
            decreases self.cursor.width - x,
        {
            letter_instructions.push(LetterInstruction { pos_x: x, pos_y: self.cursor.y, id: 0 });
            x = x + 1;
            assert(letter_instructions@ =~= old(letter_instructions)@ + blank_run(
                self.cursor.x as nat,
                x as nat,
                self.cursor.y as nat,
            ));
        }
    }

    /// Appends blanks from the start of the caret's row up to and including
    /// its column, as far as the row reaches.
    pub fn clear_to_cursor(&self, letter_instructions: &mut Vec<LetterInstruction>)
        requires
            self.wf(),
        ensures
            final(letter_instructions)@ == old(letter_instructions)@ + self.state().clear_to(),
    {
        let end: usize = if self.cursor.x < self.cursor.width {
            self.cursor.x + 1
        } else {
            self.cursor.width
        };
        let mut x: usize = 0;
        while x < end
            invariant
                self.wf(),
                end <= self.cursor.width,
                end == (if self.cursor.x < self.cursor.width { (self.cursor.x + 1) as nat } else { self.cursor.width as nat }),
                x <= end,
                letter_instructions@ == old(letter_instructions)@ + blank_run(
                    0,
                    x as nat,
                    self.cursor.y as nat,
                ),
            decreases end - x,
        {
            letter_instructions.push(LetterInstruction { pos_x: x, pos_y: self.cursor.y, id: 0 });
            x = x + 1;
            assert(letter_instructions@ =~= old(letter_instructions)@ + blank_run(
                0,
                x as nat,
                self.cursor.y as nat,
            ));
        }
    }

    /// Appends blanks for whole rows `from..to`.
    fn clear_rows(&self, from: usize, to: usize, letter_instructions: &mut Vec<LetterInstruction>)
        requires
            self.wf(),
            to <= self.cursor.height,
        ensures
            final(letter_instructions)@ == old(letter_instructions)@ + blank_rows(
                from as nat,
                to as nat,
                self.cursor.width as nat,
            ),
    {
        let mut y: usize = from;
        if to <= from {
            assert(letter_instructions@ =~= old(letter_instructions)@ + blank_rows(
                from as nat,
                to as nat,
                self.cursor.width as nat,
            ));
            return ;
        }
        assert(blank_rows(from as nat, from as nat, self.cursor.width as nat) =~= Seq::empty());
        assert(letter_instructions@ =~= old(letter_instructions)@ + blank_rows(
            from as nat,
            from as nat,
            self.cursor.width as nat,
        ));
        while y < to
            invariant
                self.wf(),
                from <= y <= to <= self.cursor.height,
                letter_instructions@ == old(letter_instructions)@ + blank_rows(
                    from as nat,
                    y as nat,
                    self.cursor.width as nat,
                ),
            decreases to - y,
        {
            let ghost start = letter_instructions@;
            let mut x: usize = 0;
            while x < self.cursor.width
                invariant
                    self.wf(),
                    x <= self.cursor.width,
                    y < self.cursor.height,
                    letter_instructions@ == start + blank_run(0, x as nat, y as nat),
                decreases self.cursor.width - x,
            {
                letter_instructions.push(LetterInstruction { pos_x: x, pos_y: y, id: 0 });
                x = x + 1;
                assert(letter_instructions@ =~= start + blank_run(0, x as nat, y as nat));
            }
            y = y + 1;
            assert(letter_instructions@ =~= old(letter_instructions)@ + blank_rows(
                from as nat,
                y as nat,
                self.cursor.width as nat,
            ));
        }
    }

    /// Appends blanks for every row below the caret's.
    pub fn clear_below_cursor(&self, letter_instructions: &mut Vec<LetterInstruction>)
        requires
            self.wf(),
        ensures
            final(letter_instructions)@ == old(letter_instructions)@ + self.state().clear_below(),
    {
        self.clear_rows(self.cursor.y + 1, self.cursor.height, letter_instructions);
    }

    /// Appends blanks for every row above the caret's.
    pub fn clear_above_cursor(&self, letter_instructions: &mut Vec<LetterInstruction>)
        requires
            self.wf(),
        ensures
            final(letter_instructions)@ == old(letter_instructions)@ + self.state().clear_above(),
    {
        self.clear_rows(0, self.cursor.y, letter_instructions);
    }

    /// Appends a command that draws `letter_id` at the caret's drawing slot.
    pub fn write_letter_by_id(&self, letter_instructions: &mut Vec<LetterInstruction>, letter_id: u8)
        requires
            self.wf(),
            !(self.cursor.x == self.cursor.width && self.cursor.y + 1 == self.cursor.height),
        ensures
            final(letter_instructions)@ == old(letter_instructions)@.push(
                cmd(
                    slot_of(self.cursor.x as nat, self.cursor.y as nat, self.width()).0,
                    slot_of(self.cursor.x as nat, self.cursor.y as nat, self.width()).1,
                    letter_id,
                ),
            ),
    {
        let (x, y) = self.cursor.get_draw_letter_position();
        letter_instructions.push(LetterInstruction { pos_x: x, pos_y: y, id: letter_id });
    }

    /// Appends a command that blanks the caret's drawing slot.
    pub fn write_space(&self, letter_instructions: &mut Vec<LetterInstruction>)
        requires
            self.wf(),
            !(self.cursor.x == self.cursor.width && self.cursor.y + 1 == self.cursor.height),
        ensures
            final(letter_instructions)@ == old(letter_instructions)@.push(
                cmd(
                    slot_of(self.cursor.x as nat, self.cursor.y as nat, self.width()).0,
                    slot_of(self.cursor.x as nat, self.cursor.y as nat, self.width()).1,
                    0,
                ),
            ),
    {
        self.write_letter_by_id(letter_instructions, 0);
    }

    /// Caret column that ends the line before the caret, found by scanning
    /// back to the previous line break.
    pub fn find_line_end(&self) -> (r: usize)
        requires
            self.wf(),
        ensures
            r == wrapped_column(trailing_run(self.memory@.before), self.width()),
            r <= self.width(),
    {
        let ghost before = self.memory@.before;
        let len = self.memory.before_len();
        let mut counter: usize = 0;
        let mut index: usize = len;
        let mut found = false;
        proof {
            lemma_wrap_step(0, self.width());
        }
        while index != 0 && !found
            invariant
                self.wf(),
                before == self.memory@.before,
                len == before.len(),
                index <= len,
                found ==> index < len && before[index as int] == NEWLINE,
                forall|j: int| index < j < len ==> before[j] != NEWLINE,
                !found ==> forall|j: int| index <= j < len ==> before[j] != NEWLINE,
                counter == wrapped_column(
                    (len - index - (if found {
                        1int
                    } else {
                        0
                    })) as nat,
                    self.width(),
                ),
                counter <= self.width(),
            decreases index,
        {
            index = index - 1;
            let value = self.memory.before_at(index);
            if value == NEWLINE {
                found = true;
            } else {
                proof {
                    lemma_wrap_step((len - index - 1) as nat, self.width());
                }
                counter = counter + 1;
                if counter > self.cursor.width {
                    counter = 1;
                }
            }
        }
        proof {
            if found {
                lemma_trailing_run(before, index + 1);
            } else {
                lemma_trailing_run(before, 0);
            }
        }
        counter
    }

    /// Rebuilds the line-length cache by scanning the text before the caret
    /// backward.
    pub fn update_line_cache(&mut self)
        requires
            old(self).wf(),
        ensures
            final(self).wf(),
            final(self).cursor == old(self).cursor,
            final(self).memory@ == old(self).memory@,
            final(self).line_cache@ == rebuilt_cache(
                old(self).memory@.before,
                old(self).width(),
                old(self).height(),
                old(self).line_cache@,
            ),
    {
        let ghost before = self.memory@.before;
        let ghost w = self.width();
        let ghost h = self.height();
        let ghost cache0 = self.line_cache@;
        let len = self.memory.before_len();
        if len == 0 {
            self.line_cache.set(0, 0);
            return ;
        }
        let mut remaining: usize = len;
        let mut line: usize = 0;
        let mut counter: usize = 0;
        let mut visible: usize = 0;
        let mut done = false;
        assert(before.subrange(0, len as int) =~= before);
        while remaining > 0 && !done
            invariant
                self.wf(),
                self.cursor == old(self).cursor,
                self.memory == old(self).memory,
                before == self.memory@.before,
                w == self.width(),
                h == self.height(),
                len == before.len(),
                remaining <= len,
                line <= visible,
                line < h,
                visible <= len - remaining,
                counter <= w,
                !done ==> cache_scan(
                    before.subrange(0, remaining as int),
                    w,
                    h,
                    self.line_cache@,
                    line as nat,
                    counter as nat,
                    visible as nat,
                ) == cache_scan(before, w, h, cache0, 0, 0, 0),
                done ==> self.line_cache@ == cache_scan(before, w, h, cache0, 0, 0, 0),
            decreases remaining,
        {
            let ghost s = before.subrange(0, remaining as int);
            assert(s.drop_last() =~= before.subrange(0, remaining - 1));
            let value = self.memory.before_at(remaining - 1);
            if value != NEWLINE {
                counter = counter + 1;
                if counter > self.cursor.width {
                    counter = 1;
                    visible = visible + 1;
                }
            }
            if value == NEWLINE || remaining == 1 {
                self.line_cache.set(line, counter);
                if remaining == 1 || visible + 1 >= self.cursor.height {
                    done = true;
                } else {
                    counter = 0;
                    line = line + 1;
                    visible = visible + 1;
                }
            }
            remaining = remaining - 1;
        }
        assert(before.subrange(0, len as int) =~= before);
    }

    /// Repaints the text before the caret into the row of the caret and the
    /// rows above it, walking backward from the caret with the help of the
    /// line-length cache; then puts the caret at the column that the cache
    /// gives for its row.
    pub fn redraw_before_cursor(&mut self, letter_instructions: &mut Vec<LetterInstruction>)
        requires
            old(self).wf(),
        ensures
            final(self).wf(),
            final(self).memory == old(self).memory,
            final(self).line_cache == old(self).line_cache,
            final(self).cursor == (CursorPointer {
                x: old(self).line_cache@[0],
                x_backup: old(self).cursor.x,
                y_backup: old(self).cursor.y,
                ..old(self).cursor
            }),
            final(letter_instructions)@ == old(letter_instructions)@ + back_walk(
                old(self).memory@.before,
                old(self).line_cache@,
                old(self).width(),
                old(self).height(),
                old(self).memory@.before.len(),
                last_slot(old(self).line_cache@[0] as nat, old(self).width()),
                old(self).cursor.y as nat,
                0,
                false,
            ),
    {
        let ghost before = self.memory@.before;
        let ghost cache = self.line_cache@;
        let ghost w = self.width();
        let ghost h = self.height();
        let ghost target = back_walk(
            before,
            cache,
            w,
            h,
            before.len(),
            last_slot(cache[0] as nat, w),
            self.cursor.y as nat,
            0,
            false,
        );
        self.cursor.backup();
        let ghost c0 = self.cursor;
        let mut line: usize = 0;
        let new_cursor_position = self.line_cache[0];
        self.cursor.x = (if new_cursor_position == 0 {
            self.cursor.width
        } else {
            new_cursor_position
        }) - 1;
        let mut remaining: usize = self.memory.before_len();
        let mut just_had_line_wrap = false;
        let mut done = false;
        while remaining > 0 && !done
            invariant
                self.wf(),
                self.memory == old(self).memory,
                self.line_cache == old(self).line_cache,
                self.cursor.same_frame(&c0),
                before == self.memory@.before,
                cache == self.line_cache@,
                w == self.width(),
                h == self.height(),
                remaining <= before.len(),
                line < h,
                self.cursor.x < w,
                !done ==> old(letter_instructions)@ + target == letter_instructions@ + back_walk(
                    before,
                    cache,
                    w,
                    h,
                    remaining as nat,
                    self.cursor.x as nat,
                    self.cursor.y as nat,
                    line as nat,
                    just_had_line_wrap,
                ),
                done ==> letter_instructions@ == old(letter_instructions)@ + target,
            decreases remaining,
        {
            let value = self.memory.before_at(remaining - 1);
            let ghost prev = letter_instructions@;
            let ghost x0 = self.cursor.x as nat;
            let ghost y0 = self.cursor.y as nat;
            let ghost line0 = line as nat;
            let ghost jw0 = just_had_line_wrap;
            if value == NEWLINE {
                if line + 1 >= self.cursor.height {
                    done = true;
                } else if !just_had_line_wrap && self.cursor.is_first_line() {
                    done = true;
                } else {
                    line = line + 1;
                    if !just_had_line_wrap {
                        self.cursor.to_previous_line();
                    }
                    just_had_line_wrap = false;
                    let c = self.line_cache[line];
                    self.cursor.x = (if c == 0 {
                        self.cursor.width
                    } else {
                        c
                    }) - 1;
                }
            } else {
                self.write_letter_by_id(letter_instructions, value);
                if self.cursor.is_at_canvas_start() {
                    done = true;
                    assert(letter_instructions@ =~= old(letter_instructions)@ + target);
                } else {
                    just_had_line_wrap = self.cursor.x < 1;
                    self.cursor.decrement_slot();
                    assert(prev + back_walk(before, cache, w, h, remaining as nat, x0, y0, line0, jw0)
                        =~= letter_instructions@ + back_walk(
                        before,
                        cache,
                        w,
                        h,
                        (remaining - 1) as nat,
                        self.cursor.x as nat,
                        self.cursor.y as nat,
                        line as nat,
                        just_had_line_wrap,
                    ));
                }
            }
            remaining = remaining - 1;
        }
        self.cursor.restore();
        self.cursor.x = new_cursor_position;
    }


    /// Repaints the text after the caret from the caret onward, leaving the
    /// caret where it was.
    pub fn redraw_from_cursor(&mut self, letter_instructions: &mut Vec<LetterInstruction>)
        requires
            old(self).wf(),
        ensures
            final(self).wf(),
            final(self).state() == old(self).state(),
            final(letter_instructions)@ == old(letter_instructions)@ + old(self).state().forward(),
            final(self).memory == old(self).memory,
            final(self).line_cache == old(self).line_cache,
            final(self).cursor == (CursorPointer {
                x_backup: old(self).cursor.x,
                y_backup: old(self).cursor.y,
                ..old(self).cursor
            }),
            final(letter_instructions)@ == old(letter_instructions)@ + fwd_walk(
                old(self).memory@.after,
                old(self).width(),
                old(self).height(),
                0,
                old(self).cursor.x as nat,
                old(self).cursor.y as nat,
            ),
    {
        let ghost after = self.memory@.after;
        let ghost w = self.width();
        let ghost h = self.height();
        let ghost target = fwd_walk(after, w, h, 0, self.cursor.x as nat, self.cursor.y as nat);
        self.cursor.backup();
        let ghost c0 = self.cursor;
        let len = self.memory.after_len();
        let mut i: usize = 0;
        let mut done = false;
        while i < len && !done
            invariant
                self.wf(),
                self.memory == old(self).memory,
                self.line_cache == old(self).line_cache,
                self.cursor.same_frame(&c0),
                after == self.memory@.after,
                w == self.width(),
                h == self.height(),
                len == after.len(),
                i <= len,
                !done ==> old(letter_instructions)@ + target == letter_instructions@ + fwd_walk(
                    after,
                    w,
                    h,
                    i as nat,
                    self.cursor.x as nat,
                    self.cursor.y as nat,
                ),
                done ==> letter_instructions@ == old(letter_instructions)@ + target,
            decreases len - i,
        {
            let ghost prev = letter_instructions@;
            let ghost x0 = self.cursor.x as nat;
            let ghost y0 = self.cursor.y as nat;
            if self.cursor.is_at_canvas_end() {
                done = true;
                assert(letter_instructions@ =~= old(letter_instructions)@ + target);
            } else {
                let value = self.memory.after_at(i);
                if value == NEWLINE {
                    if self.cursor.is_last_line() {
                        done = true;
                        assert(letter_instructions@ =~= old(letter_instructions)@ + target);
                    } else {
                        self.cursor.to_next_line();
                        self.cursor.to_line_beginning();
                    }
                } else {
                    self.write_letter_by_id(letter_instructions, value);
                    if self.cursor.is_last_line() && self.cursor.is_at_line_end() {
                        done = true;
                        assert(letter_instructions@ =~= old(letter_instructions)@ + target);
                    } else {
                        self.cursor.increment();
                        assert(prev + fwd_walk(after, w, h, i as nat, x0, y0) =~= letter_instructions@
                            + fwd_walk(
                            after,
                            w,
                            h,
                            (i + 1) as nat,
                            self.cursor.x as nat,
                            self.cursor.y as nat,
                        ));
                    }
                }
            }
            i = i + 1;
        }
        if !done {
            assert(letter_instructions@ =~= old(letter_instructions)@ + target);
        }
        self.cursor.restore();
        assert(self.state() =~= old(self).state());
    }

    /// Repaints the caret's row from its start up to the caret with the
    /// characters just before the caret, leaving the caret where it was.
    pub fn redraw_before_cursor_top_line(&mut self, letter_instructions: &mut Vec<LetterInstruction>)
        requires
            old(self).wf(),
        ensures
            final(self).wf(),
            final(self).memory == old(self).memory,
            final(self).line_cache == old(self).line_cache,
            final(self).cursor == (CursorPointer {
                x_backup: old(self).cursor.x,
                y_backup: old(self).cursor.y,
                ..old(self).cursor
            }),
            final(letter_instructions)@ == old(letter_instructions)@ + top_line_walk(
                old(self).memory@.before,
                old(self).cursor.x as nat,
                old(self).cursor.y as nat,
            ),
    {
        let ghost before = self.memory@.before;
        let ghost x0 = self.cursor.x as nat;
        let ghost y0 = self.cursor.y as nat;
        self.cursor.backup();
        let ghost c0 = self.cursor;
        let len = self.memory.before_len();
        let mut k: usize = 0;
        while !self.cursor.is_at_line_start() && k < len
            invariant
                self.wf(),
                self.memory == old(self).memory,
                self.line_cache == old(self).line_cache,
                self.cursor.same_frame(&c0),
                before == self.memory@.before,
                len == before.len(),
                x0 <= self.cursor.width,
                k <= len,
                k <= x0,
                self.cursor.x == x0 - k,
                self.cursor.y == y0,
                letter_instructions@ == old(letter_instructions)@ + Seq::new(
                    k as nat,
                    |i: int| cmd((x0 - 1 - i) as nat, y0, before[before.len() - 1 - i]),
                ),
            decreases len - k,
        {
            self.cursor.decrement_slot();
            let v = self.memory.before_at(len - 1 - k);
            self.write_letter_by_id(letter_instructions, v);
            k = k + 1;
            assert(letter_instructions@ =~= old(letter_instructions)@ + Seq::new(
                k as nat,
                |i: int| cmd((x0 - 1 - i) as nat, y0, before[before.len() - 1 - i]),
            ));
        }
        assert(letter_instructions@ =~= old(letter_instructions)@ + top_line_walk(before, x0, y0));
        self.cursor.restore();
    }


    /// Clears the canvas from the caret on and repaints the text after the
    /// caret, when there is any.
    fn redraw_tail(&mut self, letter_instructions: &mut Vec<LetterInstruction>)
        requires
            old(self).wf(),
        ensures
            final(self).wf(),
            final(self).state() == old(self).state(),
            final(letter_instructions)@ == old(letter_instructions)@ + old(self).state().tail(),
    {
        if !self.memory.cursor_at_end() {
            self.clear_from_cursor(letter_instructions);
            self.clear_below_cursor(letter_instructions);
            self.redraw_from_cursor(letter_instructions);
        }
        assert(self.state() =~= old(self).state());
    }

    /// Rebuilds the line cache and repaints the text before the caret.
    fn relayout(&mut self, letter_instructions: &mut Vec<LetterInstruction>)
        requires
            old(self).wf(),
        ensures
            final(self).wf(),
            final(self).state() == old(self).state().relayout().0,
            final(letter_instructions)@ == old(letter_instructions)@ + old(self).state().relayout().1,
    {
        self.update_line_cache();
        self.redraw_before_cursor(letter_instructions);
        assert(self.state() =~= old(self).state().relayout().0);
    }

    /// Moves the caret to column 0, clears the canvas above and right of
    /// it, and lays out again the text before the caret.
    fn scroll(&mut self, letter_instructions: &mut Vec<LetterInstruction>)
        requires
            old(self).wf(),
        ensures
            final(self).wf(),
            final(self).state() == old(self).state().with_pos(0, old(self).cursor.y as nat).relayout().0,
            final(letter_instructions)@ == old(letter_instructions)@ + old(self).state().with_pos(0, old(self).cursor.y as nat).clear_above()
                + old(self).state().with_pos(0, old(self).cursor.y as nat).clear_from()
                + old(self).state().with_pos(0, old(self).cursor.y as nat).relayout().1,
    {
        let ghost s0 = old(self).state().with_pos(0, old(self).cursor.y as nat);
        self.cursor.to_line_beginning();
        assert(self.state() =~= s0);
        self.clear_above_cursor(letter_instructions);
        self.clear_from_cursor(letter_instructions);
        self.relayout(letter_instructions);
        assert(letter_instructions@ =~= old(letter_instructions)@ + s0.clear_above() + s0.clear_from() + s0.relayout().1);
    }

    /// Types the glyph `id` at the caret.
    pub fn type_glyph(&mut self, letter_instructions: &mut Vec<LetterInstruction>, id: u8) -> (r: Outcome)
        requires
            old(self).wf(),
        ensures
            final(self).wf(),
            final(self).state() == old(self).state().type_step(id).0,
            final(letter_instructions)@ == old(letter_instructions)@ + old(self).state().type_step(id).1,
            r == old(self).state().type_step(id).2,
    {
        let ghost s = old(self).state();
        if self.memory.memory_full() {
            assert(letter_instructions@ =~= old(letter_instructions)@ + s.type_step(id).1);
            return Outcome::Rejected;
        }
        self.memory.insert(id);
        if !self.cursor.is_at_canvas_end() {
            self.write_space(letter_instructions);
            self.write_letter_by_id(letter_instructions, id);
            self.cursor.increment();
            if !self.cursor.is_at_canvas_end() {
                self.redraw_tail(letter_instructions);
            }
            assert(letter_instructions@ =~= old(letter_instructions)@ + s.type_step(id).1);
        } else {
            self.scroll(letter_instructions);
            if !self.cursor.is_at_canvas_end() {
                self.redraw_tail(letter_instructions);
            }
            assert(letter_instructions@ =~= old(letter_instructions)@ + s.type_step(id).1);
        }
        assert(self.state() =~= s.type_step(id).0);
        Outcome::Applied
    }

    /// Positions the caret after the text before it has lost its last
    /// character (`passed`, deleted or moved past the caret), handling row
    /// boundaries, and repaints what follows the caret when needed.
    fn move_cursor_back(
        &mut self,
        letter_instructions: &mut Vec<LetterInstruction>,
        passed: u8,
        must_update_after_cursor: bool,
    ) -> (r: Outcome)
        requires
            old(self).wf(),
        ensures
            final(self).wf(),
            final(self).state() == old(self).state().back_step(passed, must_update_after_cursor).0,
            final(letter_instructions)@ == old(letter_instructions)@ + old(self).state().back_step(
                passed,
                must_update_after_cursor,
            ).1,
            r == old(self).state().back_step(passed, must_update_after_cursor).2,
    {
        let ghost s = old(self).state();
        let ghost res = s.back_step(passed, must_update_after_cursor);
        let mut must_update = must_update_after_cursor;
        if self.cursor.x <= 1 {
            let mut go_line_up = false;
            if self.cursor.x == 0 {
                if passed != NEWLINE {
                    assert(letter_instructions@ =~= old(letter_instructions)@ + res.1);
                    return Outcome::Corrupt(Violation::ExpectedNewline);
                }
                if self.memory.cursor_at_beginning() {
                    self.cursor.y = 0;
                } else {
                    self.cursor.x = self.find_line_end();
                    go_line_up = true;
                }
            } else {
                if passed == NEWLINE {
                    assert(letter_instructions@ =~= old(letter_instructions)@ + res.1);
                    return Outcome::Corrupt(Violation::UnexpectedNewline);
                }
                if self.memory.cursor_at_beginning() || self.memory.before_at(
                    self.memory.before_len() - 1,
                ) == NEWLINE {
                    self.cursor.x = 0;
                } else {
                    self.cursor.x = self.cursor.width;
                    go_line_up = true;
                }
            }
            if go_line_up {
                if self.cursor.is_first_line() {
                    self.clear_to_cursor(letter_instructions);
                    self.redraw_before_cursor_top_line(letter_instructions);
                    must_update = true;
                } else {
                    self.cursor.to_previous_line();
                }
            }
        } else {
            if self.memory.cursor_at_beginning() {
                assert(letter_instructions@ =~= old(letter_instructions)@ + res.1);
                return Outcome::Corrupt(Violation::EmptyMemory);
            }
            if passed == NEWLINE {
                assert(letter_instructions@ =~= old(letter_instructions)@ + res.1);
                return Outcome::Corrupt(Violation::UnexpectedNewline);
            }
            self.cursor.decrement();
        }
        if must_update {
            self.redraw_tail(letter_instructions);
        }
        assert(self.state() =~= res.0);
        assert(letter_instructions@ =~= old(letter_instructions)@ + res.1);
        Outcome::Applied
    }

    /// Deletes the character before the caret.
    pub fn backspace(&mut self, letter_instructions: &mut Vec<LetterInstruction>) -> (r: Outcome)
        requires
            old(self).wf(),
        ensures
            final(self).wf(),
            final(self).state() == old(self).state().backspace_step().0,
            final(letter_instructions)@ == old(letter_instructions)@ + old(self).state().backspace_step().1,
            r == old(self).state().backspace_step().2,
    {
        let ghost s = old(self).state();
        if self.memory.cursor_at_beginning() {
            assert(letter_instructions@ =~= old(letter_instructions)@ + s.backspace_step().1);
            return Outcome::Rejected;
        }
        let passed = self.memory.before_at(self.memory.before_len() - 1);
        self.memory.delete_backwards();
        if self.memory.cursor_at_end() && self.cursor.x != 0 {
            self.cursor.x = self.cursor.x - 1;
            self.write_space(letter_instructions);
            self.cursor.x = self.cursor.x + 1;
        }
        let r = self.move_cursor_back(letter_instructions, passed, true);
        assert(letter_instructions@ =~= old(letter_instructions)@ + s.backspace_step().1);
        r
    }

    /// Moves the caret one character left.
    pub fn move_left(&mut self, letter_instructions: &mut Vec<LetterInstruction>) -> (r: Outcome)
        requires
            old(self).wf(),
        ensures
            final(self).wf(),
            final(self).state() == old(self).state().left_step().0,
            final(letter_instructions)@ == old(letter_instructions)@ + old(self).state().left_step().1,
            r == old(self).state().left_step().2,
    {
        let ghost s = old(self).state();
        if self.memory.cursor_at_beginning() {
            assert(letter_instructions@ =~= old(letter_instructions)@ + s.left_step().1);
            return Outcome::Rejected;
        }
        let passed = self.memory.before_at(self.memory.before_len() - 1);
        self.memory.move_after_cursor();
        self.move_cursor_back(letter_instructions, passed, false)
    }

    /// Moves the caret one character right.
    pub fn move_right(&mut self, letter_instructions: &mut Vec<LetterInstruction>) -> (r: Outcome)
        requires
            old(self).wf(),
        ensures
            final(self).wf(),
            final(self).state() == old(self).state().right_step().0,
            final(letter_instructions)@ == old(letter_instructions)@ + old(self).state().right_step().1,
            r == old(self).state().right_step().2,
    {
        let ghost s = old(self).state();
        if self.memory.cursor_at_end() {
            assert(letter_instructions@ =~= old(letter_instructions)@ + s.right_step().1);
            return Outcome::Rejected;
        }
        let passed = self.memory.after_at(0);
        self.memory.move_before_cursor();
        let mut scroll_into_next_line = false;
        if passed == NEWLINE {
            if self.cursor.is_last_line() {
                scroll_into_next_line = true;
            } else {
                self.cursor.to_line_beginning();
                self.cursor.to_next_line();
            }
        } else {
            if self.cursor.is_at_canvas_end() {
                scroll_into_next_line = true;
            } else {
                self.cursor.increment();
            }
        }
        if scroll_into_next_line {
            self.scroll(letter_instructions);
            if !self.memory.cursor_at_end() {
                self.redraw_from_cursor(letter_instructions);
            }
        }
        assert(self.state() =~= s.right_step().0);
        assert(letter_instructions@ =~= old(letter_instructions)@ + s.right_step().1);
        Outcome::Applied
    }

    /// Breaks the line at the caret.
    pub fn enter(&mut self, letter_instructions: &mut Vec<LetterInstruction>) -> (r: Outcome)
        requires
            old(self).wf(),
        ensures
            final(self).wf(),
            final(self).state() == old(self).state().enter_step().0,
            final(letter_instructions)@ == old(letter_instructions)@ + old(self).state().enter_step().1,
            r == old(self).state().enter_step().2,
    {
        let ghost s = old(self).state();
        if self.memory.memory_full() {
            assert(letter_instructions@ =~= old(letter_instructions)@ + s.enter_step().1);
            return Outcome::Rejected;
        }
        self.memory.insert(NEWLINE);
        if self.cursor.is_last_line() {
            self.cursor.to_line_beginning();
            self.clear_above_cursor(letter_instructions);
            self.relayout(letter_instructions);
            self.clear_from_cursor(letter_instructions);
        } else {
            if !self.memory.cursor_at_end() {
                self.clear_from_cursor(letter_instructions);
                self.clear_below_cursor(letter_instructions);
            }
            self.cursor.to_next_line();
            self.cursor.to_line_beginning();
        }
        if !self.memory.cursor_at_end() {
            self.redraw_from_cursor(letter_instructions);
        }
        assert(self.state() =~= s.enter_step().0);
        assert(letter_instructions@ =~= old(letter_instructions)@ + s.enter_step().1);
        Outcome::Applied
    }


    /// Handles one key press: a key that types a character the font draws
    /// types its glyph; Backspace, the arrows and Return edit; anything else
    /// is ignored.
    pub fn handle_input(
        &mut self,
        key: Key,
        shift: bool,
        letter_instructions: &mut Vec<LetterInstruction>,
        font: &Font,
    ) -> (r: Outcome)
        requires
            old(self).wf(),
            font.wf(),
        ensures
            final(self).wf(),
            ({
                let s = old(self).state();
                let step = match symbol_of(key, shift) {
                    Some(c) => if s.mem.is_full() {
                        (s, Seq::empty(), Outcome::Rejected)
                    } else {
                        match font.glyph_of(c) {
                            Some(id) => s.type_step(id),
                            None => (s, Seq::empty(), Outcome::Ignored),
                        }
                    },
                    None => match key {
                        Key::Backspace => s.backspace_step(),
                        Key::Left => s.left_step(),
                        Key::Right => s.right_step(),
                        Key::Return => s.enter_step(),
                        _ => (s, Seq::empty(), Outcome::Ignored),
                    },
                };
                &&& final(self).state() == step.0
                &&& final(letter_instructions)@ == old(letter_instructions)@ + step.1
                &&& r == step.2
            }),
    {
        match resolve_symbol(key, shift) {
            Some(c) => {
                if self.memory.memory_full() {
                    assert(letter_instructions@ =~= old(letter_instructions)@ + Seq::empty());
                    return Outcome::Rejected;
                }
                match font.id_by_key(c) {
                    Some(id) => self.type_glyph(letter_instructions, id),
                    None => {
                        assert(letter_instructions@ =~= old(letter_instructions)@ + Seq::empty());
                        Outcome::Ignored
                    },
                }
            },
            None => match key {
                Key::Backspace => self.backspace(letter_instructions),
                Key::Left => self.move_left(letter_instructions),
                Key::Right => self.move_right(letter_instructions),
                Key::Return => self.enter(letter_instructions),
                _ => {
                    assert(letter_instructions@ =~= old(letter_instructions)@ + Seq::empty());
                    Outcome::Ignored
                },
            },
        }
    }

}

} // verus!
