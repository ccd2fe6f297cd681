use vstd::prelude::*;

use vstd::arithmetic::div_mod::lemma_fundamental_div_mod_converse;

use crate::config::NEWLINE;
use crate::cursor::slot_of;
use crate::memory::{Edit, MemoryView};
use crate::typewriter::LetterInstruction;

verus! {

/// The command that draws glyph `id` at cell (`x`, `y`).
pub open spec fn cmd(x: nat, y: nat, id: u8) -> LetterInstruction {
    LetterInstruction { pos_x: x as usize, pos_y: y as usize, id }
}

/// Blanks for the cells `from..to` of row `y`.
pub open spec fn blank_run(from: nat, to: nat, y: nat) -> Seq<LetterInstruction> {
    Seq::new((to - from) as nat, |i: int| cmd((from + i) as nat, y, 0))
}

/// Blanks for every cell of the rows `from..to`, row by row.
pub open spec fn blank_rows(from: nat, to: nat, width: nat) -> Seq<LetterInstruction>
    decreases to,
{
    if to <= from {
        Seq::empty()
    } else {
        blank_rows(from, (to - 1) as nat, width) + blank_run(0, width, (to - 1) as nat)
    }
}

/// Number of characters after the last line break of `s` (all of `s` when it
/// holds none).
pub open spec fn trailing_run(s: Seq<u8>) -> nat
    decreases s.len(),
{
    if s.len() == 0 || s.last() == NEWLINE {
        0
    } else {
        1 + trailing_run(s.drop_last())
    }
}

/// Caret column after `k` characters of one line on rows `width` wide: a
/// full row keeps the caret at its end (`width`) until one more character
/// wraps it.
pub open spec fn wrapped_column(k: nat, width: nat) -> nat {
    if k == 0 {
        0
    } else {
        ((k - 1) % (width as int) + 1) as nat
    }
}

/// The last drawing slot of a row whose caret column is `c`; an empty row
/// counts as a full one.
pub open spec fn last_slot(c: nat, width: nat) -> nat {
    ((if c == 0 {
        width
    } else {
        c
    }) - 1) as nat
}

/// The caret position one step forward (see `CursorPointer::increment`).
pub open spec fn advanced(x: nat, y: nat, width: nat, height: nat) -> (nat, nat) {
    if x < width {
        (x + 1, y)
    } else {
        (1, if y + 1 == height {
            0
        } else {
            y + 1
        })
    }
}

/// Line-length cache rebuilt by scanning `s` backward from its end: `line`
/// is the cache row being counted, `counter` the characters counted on it so
/// far, `visible` the screen rows used so far.
pub open spec fn cache_scan(
    s: Seq<u8>,
    width: nat,
    height: nat,
    cache: Seq<usize>,
    line: nat,
    counter: nat,
    visible: nat,
) -> Seq<usize>
    decreases s.len(),
{
    if s.len() == 0 {
        cache
    } else {
        let v = s.last();
        let wraps = v != NEWLINE && counter + 1 > width;
        let counter1: nat = if v == NEWLINE {
            counter
        } else if wraps {
            1
        } else {
            counter + 1
        };
        let visible1: nat = if wraps {
            visible + 1
        } else {
            visible
        };
        if v == NEWLINE || s.len() == 1 {
            let cache1 = cache.update(line as int, counter1 as usize);
            if s.len() == 1 || visible1 + 1 >= height {
                cache1
            } else {
                cache_scan(s.drop_last(), width, height, cache1, line + 1, 0, visible1 + 1)
            }
        } else {
            cache_scan(s.drop_last(), width, height, cache, line, counter1, visible1)
        }
    }
}

/// The line-length cache rebuilt from the text before the caret: row 0 (the
/// caret's row) first, then each earlier line, until `height` screen rows
/// are accounted for or the text is exhausted.
pub open spec fn rebuilt_cache(before: Seq<u8>, width: nat, height: nat, cache: Seq<usize>) -> Seq<
    usize,
> {
    if before.len() == 0 {
        cache.update(0, 0)
    } else {
        cache_scan(before, width, height, cache, 0, 0, 0)
    }
}

/// Commands of the backward repaint walk: the `n` characters of `before`
/// that are left are painted last-first, starting at slot (`x`, `y`). A line
/// break moves to the end of the previous row (`last_slot` of the cache row
/// for that line) unless the walk has just wrapped onto that row already.
/// The walk stops at the text's start, at the canvas start, at the first row
/// or after `height` lines.
pub open spec fn back_walk(
    before: Seq<u8>,
    cache: Seq<usize>,
    width: nat,
    height: nat,
    n: nat,
    x: nat,
    y: nat,
    line: nat,
    wrapped: bool,
) -> Seq<LetterInstruction>
    decreases n,
{
    if n == 0 || n > before.len() {
        Seq::empty()
    } else {
        let v = before[n - 1];
        if v == NEWLINE {
            if line + 1 >= height || (!wrapped && y == 0) {
                Seq::empty()
            } else {
                back_walk(
                    before,
                    cache,
                    width,
                    height,
                    (n - 1) as nat,
                    last_slot(cache[line + 1int] as nat, width),
                    if wrapped {
                        y
                    } else {
                        (y - 1) as nat
                    },
                    line + 1,
                    false,
                )
            }
        } else {
            seq![cmd(x, y, v)] + if x == 0 && y == 0 {
                Seq::empty()
            } else {
                back_walk(
                    before,
                    cache,
                    width,
                    height,
                    (n - 1) as nat,
                    if x == 0 {
                        (width - 1) as nat
                    } else {
                        (x - 1) as nat
                    },
                    if x == 0 {
                        (y - 1) as nat
                    } else {
                        y
                    },
                    line,
                    x == 0,
                )
            }
        }
    }
}

/// Commands of the forward repaint walk: `after[i..]` is painted in reading
/// order from caret position (`x`, `y`). A line break moves to the start of
/// the next row. The walk stops at the text's end, at the last cell of the
/// canvas, at a line break on the last row, or at once when the caret has no
/// slot left.
pub open spec fn fwd_walk(after: Seq<u8>, width: nat, height: nat, i: nat, x: nat, y: nat) -> Seq<
    LetterInstruction,
>
    decreases after.len() - i,
{
    if i >= after.len() || (x == width && y + 1 == height) {
        Seq::empty()
    } else if after[i as int] == NEWLINE {
        if y + 1 >= height {
            Seq::empty()
        } else {
            fwd_walk(after, width, height, i + 1, 0, y + 1)
        }
    } else {
        let s = slot_of(x, y, width);
        seq![cmd(s.0, s.1, after[i as int])] + if y + 1 == height && x + 1 == width {
            Seq::empty()
        } else {
            let a = advanced(x, y, width, height);
            fwd_walk(after, width, height, i + 1, a.0, a.1)
        }
    }
}

/// The last `min(x, before.len())` characters of `before`, painted backward
/// from column `x - 1` of row `y`.
pub open spec fn top_line_walk(before: Seq<u8>, x: nat, y: nat) -> Seq<LetterInstruction> {
    Seq::new(
        if x < before.len() {
            x
        } else {
            before.len()
        },
        |i: int| cmd((x - 1 - i) as nat, y, before[before.len() - 1 - i]),
    )
}

/// One more character moves the wrapped column one step, back to 1 past
/// the row's end.
pub proof fn lemma_wrap_step(k: nat, width: nat)
    requires
        width >= 1,
    ensures
        wrapped_column(k, width) <= width,
        wrapped_column(k + 1, width) == if wrapped_column(k, width) + 1 > width {
            1
        } else {
            wrapped_column(k, width) + 1
        },
{
    let w = width as int;
    if k == 0 {
        lemma_fundamental_div_mod_converse(0, w, 0, 0);
    } else {
        let a = (k - 1) % w;
        let q = (k - 1) / w;
        vstd::arithmetic::div_mod::lemma_fundamental_div_mod(k - 1, w);
        vstd::arithmetic::div_mod::lemma_mod_bound(k - 1, w);
        if a + 1 < w {
            assert(k == q * w + (a + 1)) by (nonlinear_arith)
                requires
                    k - 1 == w * q + a,
            ;
            lemma_fundamental_div_mod_converse(k as int, w, q, a + 1);
        } else {
            assert(k == (q + 1) * w + 0) by (nonlinear_arith)
                requires
                    k - 1 == w * q + a,
                    a + 1 == w,
            ;
            lemma_fundamental_div_mod_converse(k as int, w, q + 1, 0);
        }
    }
}

/// The trailing run of `s` starts right after the line break at `i - 1`
/// (or at the start).
pub proof fn lemma_trailing_run(s: Seq<u8>, i: int)
    requires
        0 <= i <= s.len(),
        i == 0 || s[i - 1] == NEWLINE,
        forall|j: int| i <= j < s.len() ==> s[j] != NEWLINE,
    ensures
        trailing_run(s) == s.len() - i,
    decreases s.len(),
{
    if s.len() > i {
        lemma_trailing_run(s.drop_last(), i);
    }
}

/// What `move_cursor_back` found inconsistent between the text and the
/// caret's screen position.
#[derive(Clone, Copy, Debug, PartialEq, Eq, Structural)]
pub enum Violation {
    /// The caret was in column 0 but the character passed over was not a
    /// line break.
    ExpectedNewline,
    /// The caret was past column 0 but the character passed over was a line
    /// break.
    UnexpectedNewline,
    /// The caret was past column 1 but no text is left before it.
    EmptyMemory,
}

/// Result of one input event.
#[derive(Clone, Copy, Debug, PartialEq, Eq, Structural)]
pub enum Outcome {
    /// The event was carried out.
    Applied,
    /// The event was refused at a buffer boundary; nothing changed.
    Rejected,
    /// The event means nothing to the typewriter; nothing changed.
    Ignored,
    /// The event was cut short on an inconsistent state.
    Corrupt(Violation),
}

/// Abstract state of a typewriter: text, caret position, grid and
/// line-length cache.
#[verifier::ext_equal]
pub struct EditorState {
    pub mem: MemoryView,
    pub x: nat,
    pub y: nat,
    pub width: nat,
    pub height: nat,
    pub cache: Seq<usize>,
}

impl EditorState {
    /// The same state with text `mem`.
    pub open spec fn with_mem(self, mem: MemoryView) -> EditorState {
        EditorState { mem, ..self }
    }

    /// The same state with the caret at (`x`, `y`).
    pub open spec fn with_pos(self, x: nat, y: nat) -> EditorState {
        EditorState { x, y, ..self }
    }

    /// Whether the caret is past the end of the last row.
    pub open spec fn at_canvas_end(self) -> bool {
        self.x == self.width && self.y + 1 == self.height
    }

    /// The caret's drawing slot.
    pub open spec fn slot(self) -> (nat, nat) {
        slot_of(self.x, self.y, self.width)
    }

    /// Blanks from the caret to the end of its row.
    pub open spec fn clear_from(self) -> Seq<LetterInstruction> {
        blank_run(self.x, self.width, self.y)
    }

    /// Blanks from the start of the caret's row up to and including its
    /// column, as far as the row reaches.
    pub open spec fn clear_to(self) -> Seq<LetterInstruction> {
        blank_run(
            0,
            if self.x < self.width {
                self.x + 1
            } else {
                self.width
            },
            self.y,
        )
    }

    /// Blanks for every row below the caret's.
    pub open spec fn clear_below(self) -> Seq<LetterInstruction> {
        blank_rows(self.y + 1, self.height, self.width)
    }

    /// Blanks for every row above the caret's.
    pub open spec fn clear_above(self) -> Seq<LetterInstruction> {
        blank_rows(0, self.y, self.width)
    }

    /// The forward repaint of the text after the caret.
    pub open spec fn forward(self) -> Seq<LetterInstruction> {
        fwd_walk(self.mem.after, self.width, self.height, 0, self.x, self.y)
    }

    /// Clearing the rest of the canvas from the caret on and repainting the
    /// text after the caret, when there is any.
    pub open spec fn tail(self) -> Seq<LetterInstruction> {
        if self.mem.after.len() > 0 {
            self.clear_from() + self.clear_below() + self.forward()
        } else {
            Seq::empty()
        }
    }

    /// Rebuilding the line cache and repainting the text before the caret
    /// upward from the caret's row; the caret ends at the cached column.
    pub open spec fn relayout(self) -> (EditorState, Seq<LetterInstruction>) {
        let cache = rebuilt_cache(self.mem.before, self.width, self.height, self.cache);
        (
            EditorState { x: cache[0] as nat, cache, ..self },
            back_walk(
                self.mem.before,
                cache,
                self.width,
                self.height,
                self.mem.before.len(),
                last_slot(cache[0] as nat, self.width),
                self.y,
                0,
                false,
            ),
        )
    }

    /// Typing glyph `id`.
    pub open spec fn type_step(self, id: u8) -> (EditorState, Seq<LetterInstruction>, Outcome) {
        if self.mem.is_full() {
            (self, Seq::empty(), Outcome::Rejected)
        } else {
            let s1 = self.with_mem(self.mem.apply(Edit::Insert(id)));
            if !self.at_canvas_end() {
                let a = advanced(self.x, self.y, self.width, self.height);
                let s2 = s1.with_pos(a.0, a.1);
                let sl = self.slot();
                (
                    s2,
                    seq![cmd(sl.0, sl.1, 0), cmd(sl.0, sl.1, id)] + if s2.at_canvas_end() {
                        Seq::empty()
                    } else {
                        s2.tail()
                    },
                    Outcome::Applied,
                )
            } else {
                let s0 = s1.with_pos(0, self.y);
                let r = s0.relayout();
                (
                    r.0,
                    s0.clear_above() + s0.clear_from() + r.1 + if r.0.at_canvas_end() {
                        Seq::empty()
                    } else {
                        r.0.tail()
                    },
                    Outcome::Applied,
                )
            }
        }
    }

    /// Ends the caret's move back onto `self`, appending the tail repaint
    /// when `redraw` asks for it.
    pub open spec fn settle(self, cmds: Seq<LetterInstruction>, redraw: bool) -> (
        EditorState,
        Seq<LetterInstruction>,
        Outcome,
    ) {
        (
            self,
            cmds + if redraw {
                self.tail()
            } else {
                Seq::empty()
            },
            Outcome::Applied,
        )
    }

    /// Moving the caret up one row to column `self.x`; on the first row the
    /// row is repainted in place instead.
    pub open spec fn line_up(self, redraw: bool) -> (EditorState, Seq<LetterInstruction>, Outcome) {
        if self.y == 0 {
            self.settle(self.clear_to() + top_line_walk(self.mem.before, self.x, 0), true)
        } else {
            self.with_pos(self.x, (self.y - 1) as nat).settle(Seq::empty(), redraw)
        }
    }

    /// Moving the caret back over `passed`, once the text has been changed.
    pub open spec fn back_step(self, passed: u8, redraw: bool) -> (
        EditorState,
        Seq<LetterInstruction>,
        Outcome,
    ) {
        let before = self.mem.before;
        if self.x == 0 {
            if passed != NEWLINE {
                (self, Seq::empty(), Outcome::Corrupt(Violation::ExpectedNewline))
            } else if before.len() == 0 {
                self.with_pos(0, 0).settle(Seq::empty(), redraw)
            } else {
                self.with_pos(wrapped_column(trailing_run(before), self.width), self.y).line_up(
                    redraw,
                )
            }
        } else if self.x == 1 {
            if passed == NEWLINE {
                (self, Seq::empty(), Outcome::Corrupt(Violation::UnexpectedNewline))
            } else if before.len() == 0 || before.last() == NEWLINE {
                self.with_pos(0, self.y).settle(Seq::empty(), redraw)
            } else {
                self.with_pos(self.width, self.y).line_up(redraw)
            }
        } else if before.len() == 0 {
            (self, Seq::empty(), Outcome::Corrupt(Violation::EmptyMemory))
        } else if passed == NEWLINE {
            (self, Seq::empty(), Outcome::Corrupt(Violation::UnexpectedNewline))
        } else {
            self.with_pos((self.x - 1) as nat, self.y).settle(Seq::empty(), redraw)
        }
    }

    /// Backspace.
    pub open spec fn backspace_step(self) -> (EditorState, Seq<LetterInstruction>, Outcome) {
        if self.mem.before.len() == 0 {
            (self, Seq::empty(), Outcome::Rejected)
        } else {
            let passed = self.mem.before.last();
            let s1 = self.with_mem(self.mem.apply(Edit::DeleteBackwards));
            let blank = if s1.mem.after.len() == 0 && self.x != 0 {
                seq![cmd((self.x - 1) as nat, self.y, 0)]
            } else {
                Seq::empty()
            };
            let r = s1.back_step(passed, true);
            (r.0, blank + r.1, r.2)
        }
    }

    /// Arrow left.
    pub open spec fn left_step(self) -> (EditorState, Seq<LetterInstruction>, Outcome) {
        if self.mem.before.len() == 0 {
            (self, Seq::empty(), Outcome::Rejected)
        } else {
            let passed = self.mem.before.last();
            self.with_mem(self.mem.apply(Edit::MoveLeft)).back_step(passed, false)
        }
    }

    /// Arrow right.
    pub open spec fn right_step(self) -> (EditorState, Seq<LetterInstruction>, Outcome) {
        if self.mem.after.len() == 0 {
            (self, Seq::empty(), Outcome::Rejected)
        } else {
            let passed = self.mem.after[0];
            let s1 = self.with_mem(self.mem.apply(Edit::MoveRight));
            let scroll = if passed == NEWLINE {
                self.y + 1 == self.height
            } else {
                self.at_canvas_end()
            };
            if !scroll {
                if passed == NEWLINE {
                    (s1.with_pos(0, self.y + 1), Seq::empty(), Outcome::Applied)
                } else {
                    let a = advanced(self.x, self.y, self.width, self.height);
                    (s1.with_pos(a.0, a.1), Seq::empty(), Outcome::Applied)
                }
            } else {
                let s0 = s1.with_pos(0, self.y);
                let r = s0.relayout();
                (
                    r.0,
                    s0.clear_above() + s0.clear_from() + r.1 + if s1.mem.after.len() > 0 {
                        r.0.forward()
                    } else {
                        Seq::empty()
                    },
                    Outcome::Applied,
                )
            }
        }
    }

    /// Enter.
    pub open spec fn enter_step(self) -> (EditorState, Seq<LetterInstruction>, Outcome) {
        if self.mem.is_full() {
            (self, Seq::empty(), Outcome::Rejected)
        } else {
            let s1 = self.with_mem(self.mem.apply(Edit::Insert(NEWLINE)));
            let more = s1.mem.after.len() > 0;
            if self.y + 1 == self.height {
                let s0 = s1.with_pos(0, self.y);
                let r = s0.relayout();
                (
                    r.0,
                    s0.clear_above() + r.1 + r.0.clear_from() + if more {
                        r.0.forward()
                    } else {
                        Seq::empty()
                    },
                    Outcome::Applied,
                )
            } else {
                let s2 = s1.with_pos(0, self.y + 1);
                (
                    s2,
                    if more {
                        s1.clear_from() + s1.clear_below() + s2.forward()
                    } else {
                        Seq::empty()
                    },
                    Outcome::Applied,
                )
            }
        }
    }
}

impl EditorState {
    /// Grid bounds, caret within them, cache one entry per row.
    pub open spec fn wf(self) -> bool {
        &&& 2 <= self.width < usize::MAX
        &&& 2 <= self.height < usize::MAX
        &&& self.x <= self.width
        &&& self.y < self.height
        &&& self.mem.wf()
        &&& self.cache.len() == self.height
    }

    /// The caret's column agrees with the text before it: column 0 only at
    /// the start of the text or after a line break, any other column only
    /// after some text, and the end of a row only after a character that is
    /// not a line break.
    pub open spec fn caret_consistent(self) -> bool {
        &&& self.x == 0 ==> (self.mem.before.len() == 0 || self.mem.before.last() == NEWLINE)
        &&& self.x > 0 ==> self.mem.before.len() > 0
        &&& self.x == self.width ==> self.mem.before.last() != NEWLINE
    }
}

/// Typing a glyph and then pressing Backspace restores the text, the caret
/// position and the line cache, whenever the glyph fits without scrolling.
pub proof fn lemma_type_then_backspace(s: EditorState, id: u8)
    requires
        s.wf(),
        s.caret_consistent(),
        !s.mem.is_full(),
        !s.at_canvas_end(),
        id != NEWLINE,
    ensures
        s.type_step(id).2 == Outcome::Applied,
        s.type_step(id).0.backspace_step().2 == Outcome::Applied,
        s.type_step(id).0.backspace_step().0 == s,
{
    let t = s.type_step(id).0;
    assert(t.mem.before.last() == id);
    assert(t.mem.apply(Edit::DeleteBackwards).before =~= s.mem.before);
    assert(t.mem.apply(Edit::DeleteBackwards) =~= s.mem);
    assert(t.backspace_step().0 =~= s);
}

/// Repainting from the caret leaves the state as it was, so a second
/// repaint right after the first emits the same commands and again leaves
/// the state unchanged.
pub proof fn lemma_redraw_from_cursor_twice(
    s: EditorState,
    s1: EditorState,
    c1: Seq<LetterInstruction>,
    s2: EditorState,
    c2: Seq<LetterInstruction>,
)
    requires
        s1 == s,
        c1 == s.forward(),
        s2 == s1,
        c2 == s1.forward(),
    ensures
        c2 == c1,
        s2 == s,
{
}

proof fn lemma_scan_run(
    s: Seq<u8>,
    width: nat,
    height: nat,
    cache: Seq<usize>,
    line: nat,
    counter: nat,
    visible: nat,
)
    requires
        s.len() > 0,
        forall|i: int| 0 <= i < s.len() ==> s[i] != NEWLINE,
        counter + s.len() <= width,
        width <= usize::MAX,
        line < cache.len(),
    ensures
        cache_scan(s, width, height, cache, line, counter, visible)[line as int] == counter + s.len(),
    decreases s.len(),
{
    if s.len() > 1 {
        lemma_scan_run(s.drop_last(), width, height, cache, line, counter + 1, visible);
    }
}

/// After a run of fewer than `width` characters without a line break, the
/// rebuilt cache gives the run's length for the caret's row.
pub proof fn lemma_cache_after_run(before: Seq<u8>, width: nat, height: nat, cache: Seq<usize>)
    requires
        forall|i: int| 0 <= i < before.len() ==> before[i] != NEWLINE,
        before.len() < width,
        width <= usize::MAX,
        cache.len() == height,
        height >= 1,
    ensures
        rebuilt_cache(before, width, height, cache)[0] == before.len(),
{
    if before.len() > 0 {
        lemma_scan_run(before, width, height, cache, 0, 0, 0);
    }
}

/// Enter on a full buffer is refused, changes nothing and draws nothing.
pub proof fn lemma_enter_when_full(s: EditorState)
    requires
        s.mem.is_full(),
    ensures
        s.enter_step() == (s, Seq::<LetterInstruction>::empty(), Outcome::Rejected),
{
}

} // verus!
