use vstd::prelude::*;

use crate::config::MEMORY_SIZE;

verus! {

/// Logical content of a gap buffer: the characters before the caret and the
/// characters after it, both in reading order, and the fixed capacity.
pub struct MemoryView {
    pub before: Seq<u8>,
    pub after: Seq<u8>,
    pub capacity: nat,
}

/// One primitive operation on the gap buffer.
pub enum Edit {
    Insert(u8),
    DeleteBackwards,
    MoveLeft,
    MoveRight,
}

impl MemoryView {
    /// Number of characters held.
    pub open spec fn len(self) -> nat {
        self.before.len() + self.after.len()
    }

    /// Reading-order content.
    pub open spec fn content(self) -> Seq<u8> {
        self.before + self.after
    }

    /// Whether the gap is empty.
    pub open spec fn is_full(self) -> bool {
        self.len() == self.capacity
    }

    /// The content fits in the capacity.
    pub open spec fn wf(self) -> bool {
        self.len() <= self.capacity
    }

    /// Whether `e` may be applied in this state.
    pub open spec fn allows(self, e: Edit) -> bool {
        match e {
            Edit::Insert(_) => !self.is_full(),
            Edit::DeleteBackwards => self.before.len() > 0,
            Edit::MoveLeft => self.before.len() > 0,
            Edit::MoveRight => self.after.len() > 0,
        }
    }

    /// The state after applying `e`.
    pub open spec fn apply(self, e: Edit) -> MemoryView {
        match e {
            Edit::Insert(c) => MemoryView { before: self.before.push(c), ..self },
            Edit::DeleteBackwards => MemoryView { before: self.before.drop_last(), ..self },
            Edit::MoveLeft => MemoryView {
                before: self.before.drop_last(),
                after: seq![self.before.last()] + self.after,
                ..self
            },
            Edit::MoveRight => MemoryView {
                before: self.before.push(self.after[0]),
                after: self.after.drop_first(),
                ..self
            },
        }
    }

    /// Whether every edit of `edits` is allowed in the state it is applied to.
    pub open spec fn allows_all(self, edits: Seq<Edit>) -> bool
        decreases edits.len(),
    {
        edits.len() == 0 || (self.allows(edits[0]) && self.apply(edits[0]).allows_all(
            edits.drop_first(),
        ))
    }

    /// The state after applying `edits` in order.
    pub open spec fn apply_all(self, edits: Seq<Edit>) -> MemoryView
        decreases edits.len(),
    {
        if edits.len() == 0 {
            self
        } else {
            self.apply(edits[0]).apply_all(edits.drop_first())
        }
    }
}

/// Insertions minus deletions in `edits`.
pub open spec fn net_insertions(edits: Seq<Edit>) -> int
    decreases edits.len(),
{
    if edits.len() == 0 {
        0
    } else {
        let d: int = match edits[0] {
            Edit::Insert(_) => 1,
            Edit::DeleteBackwards => -1,
            _ => 0,
        };
        d + net_insertions(edits.drop_first())
    }
}

/// Occupancy law: along any sequence of allowed edits, the number of held
/// characters changes by exactly the insertions minus the deletions, and it
/// never exceeds the capacity (the gap never has negative size).
pub proof fn lemma_occupancy(v: MemoryView, edits: Seq<Edit>)
    requires
        v.wf(),
        v.allows_all(edits),
    ensures
        v.apply_all(edits).len() == v.len() + net_insertions(edits),
        v.apply_all(edits).wf(),
        v.apply_all(edits).capacity == v.capacity,
    decreases edits.len(),
{
    if edits.len() > 0 {
        let n = v.apply(edits[0]);
        assert(n.wf());
        lemma_occupancy(n, edits.drop_first());
    }
}

/// A gap buffer of fixed capacity: the characters before the caret fill
/// `memory[0..pointer_before_cursor]`, those after it fill
/// `memory[gap_end..]`, and the gap lies in between.
pub struct Memory {
    memory: Vec<u8>,
    pointer_before_cursor: usize,
    gap_end: usize,
}

impl View for Memory {
    type V = MemoryView;

    closed spec fn view(&self) -> MemoryView {
        MemoryView {
            before: self.memory@.subrange(0, self.pointer_before_cursor as int),
            after: self.memory@.subrange(self.gap_end as int, self.memory@.len() as int),
            capacity: self.memory@.len(),
        }
    }
}

impl Default for Memory {
    fn default() -> (r: Self)
        ensures
            r.wf(),
            r@.before.len() == 0,
            r@.after.len() == 0,
            r@.capacity == MEMORY_SIZE,
    {
        Memory::new(MEMORY_SIZE)
    }
}

impl Memory {
    /// The gap lies between the two regions, inside the storage.
    pub closed spec fn wf(&self) -> bool {
        &&& self.pointer_before_cursor <= self.gap_end
        &&& self.gap_end <= self.memory@.len()
        &&& self.memory@.len() <= usize::MAX
    }

    /// An empty buffer with room for `capacity` characters.
    pub fn new(capacity: usize) -> (r: Self)
        ensures
            r.wf(),
            r@.before.len() == 0,
            r@.after.len() == 0,
            r@.capacity == capacity,
    {
        let memory = vec![0u8; capacity];
        Memory { memory, pointer_before_cursor: 0, gap_end: capacity }
    }

    /// A well-formed buffer has a well-formed view.
    pub proof fn lemma_wf(&self)
        requires
            self.wf(),
        ensures
            self@.wf(),
    {
    }

    /// Writes `id` just before the caret.
    pub fn insert(&mut self, id: u8)
        requires
            old(self).wf(),
            !old(self)@.is_full(),
        ensures
            final(self).wf(),
            final(self)@ == old(self)@.apply(Edit::Insert(id)),
    {
        self.memory.set(self.pointer_before_cursor, id);
        self.pointer_before_cursor = self.pointer_before_cursor + 1;
        assert(self@.before =~= old(self)@.before.push(id));
        assert(self@.after =~= old(self)@.after);
    }

    /// Drops the character just before the caret.
    pub fn delete_backwards(&mut self)
        requires
            old(self).wf(),
            old(self)@.before.len() > 0,
        ensures
            final(self).wf(),
            final(self)@ == old(self)@.apply(Edit::DeleteBackwards),
    {
        self.pointer_before_cursor = self.pointer_before_cursor - 1;
        assert(self@.before =~= old(self)@.before.drop_last());
    }

    /// Whether no text stands before the caret.
    pub fn cursor_at_beginning(&self) -> (r: bool)
        requires
            self.wf(),
        ensures
            r == (self@.before.len() == 0),
    {
        self.pointer_before_cursor == 0
    }

    /// Whether the buffer is full.
    pub fn memory_full(&self) -> (r: bool)
        requires
            self.wf(),
        ensures
            r == self@.is_full(),
    {
        self.pointer_before_cursor == self.gap_end
    }

    /// Whether no text stands after the caret.
    pub fn cursor_at_end(&self) -> (r: bool)
        requires
            self.wf(),
        ensures
            r == (self@.after.len() == 0),
    {
        self.gap_end == self.memory.len()
    }

    /// Moves the caret one character to the left.
    pub fn move_after_cursor(&mut self)
        requires
            old(self).wf(),
            old(self)@.before.len() > 0,
        ensures
            final(self).wf(),
            final(self)@ == old(self)@.apply(Edit::MoveLeft),
    {
        self.pointer_before_cursor = self.pointer_before_cursor - 1;
        self.gap_end = self.gap_end - 1;
        let c = self.memory[self.pointer_before_cursor];
        self.memory.set(self.gap_end, c);
        assert(self@.before =~= old(self)@.before.drop_last());
        assert(self@.after =~= seq![old(self)@.before.last()] + old(self)@.after);
    }

    /// Moves the caret one character to the right.
    pub fn move_before_cursor(&mut self)
        requires
            old(self).wf(),
            old(self)@.after.len() > 0,
        ensures
            final(self).wf(),
            final(self)@ == old(self)@.apply(Edit::MoveRight),
    {
        let c = self.memory[self.gap_end];
        self.memory.set(self.pointer_before_cursor, c);
        self.pointer_before_cursor = self.pointer_before_cursor + 1;
        self.gap_end = self.gap_end + 1;
        assert(self@.before =~= old(self)@.before.push(old(self)@.after[0]));
        assert(self@.after =~= old(self)@.after.drop_first());
    }

    /// Number of characters before the caret.
    pub fn before_len(&self) -> (r: usize)
        requires
            self.wf(),
        ensures
            r == self@.before.len(),
    {
        self.pointer_before_cursor
    }

    /// Number of characters after the caret.
    pub fn after_len(&self) -> (r: usize)
        requires
            self.wf(),
        ensures
            r == self@.after.len(),
    {
        self.memory.len() - self.gap_end
    }

    /// The character `i` places from the start of the text before the caret.
    pub fn before_at(&self, i: usize) -> (r: u8)
        requires
            self.wf(),
            i < self@.before.len(),
        ensures
            r == self@.before[i as int],
    {
        self.memory[i]
    }

    /// The character `i` places after the caret.
    pub fn after_at(&self, i: usize) -> (r: u8)
        requires
            self.wf(),
            i < self@.after.len(),
        ensures
            r == self@.after[i as int],
    {
        self.memory[self.gap_end + i]
    }

    /// The whole text in reading order.
    pub fn content(&self) -> (r: Vec<u8>)
        requires
            self.wf(),
        ensures
            r@ == self@.content(),
    {
        let mut r: Vec<u8> = Vec::new();
        let mut i: usize = 0;
        while i < self.pointer_before_cursor
            invariant
                self.wf(),
                i <= self.pointer_before_cursor,
                r@ == self@.before.subrange(0, i as int),
            decreases self.pointer_before_cursor - i,
        {
            r.push(self.memory[i]);
            i = i + 1;
            assert(r@ =~= self@.before.subrange(0, i as int));
        }
        let mut j: usize = self.gap_end;
        while j < self.memory.len()
            invariant
                self.wf(),
                self.gap_end <= j <= self.memory@.len(),
                r@ == self@.before + self@.after.subrange(0, j - self.gap_end),
            decreases self.memory.len() - j,
        {
            r.push(self.memory[j]);
            j = j + 1;
            assert(r@ =~= self@.before + self@.after.subrange(0, j - self.gap_end));
        }
        assert(self@.after.subrange(0, self@.after.len() as int) =~= self@.after);
        r
    }
}

} // verus!
