use vstd::prelude::*;

verus! {

/// A one-line text editor: a buffer of characters and a cursor between them.
#[derive(Debug)]
pub struct LineEditor {
    buffer: Vec<char>,
    cursor: usize,
}

impl View for LineEditor {
    type V = (Seq<char>, nat);

    closed spec fn view(&self) -> (Seq<char>, nat) {
        (self.buffer@, self.cursor as nat)
    }
}

/// The buffer after inserting `c` at the cursor.
pub open spec fn inserted(s: (Seq<char>, nat), c: char) -> (Seq<char>, nat) {
    (s.0.insert(s.1 as int, c), s.1 + 1)
}

/// The buffer after deleting the character before the cursor, if any.
pub open spec fn backspaced(s: (Seq<char>, nat)) -> (Seq<char>, nat) {
    if s.1 == 0 {
        s
    } else {
        (s.0.remove(s.1 - 1), (s.1 - 1) as nat)
    }
}

/// The cursor one step left, stopping at the start.
pub open spec fn moved_left(s: (Seq<char>, nat)) -> (Seq<char>, nat) {
    if s.1 == 0 {
        s
    } else {
        (s.0, (s.1 - 1) as nat)
    }
}

/// The cursor one step right, stopping at the end.
pub open spec fn moved_right(s: (Seq<char>, nat)) -> (Seq<char>, nat) {
    if s.1 >= s.0.len() {
        (s.0, s.0.len())
    } else {
        (s.0, s.1 + 1)
    }
}

/// The cursor stands within the buffer.
pub open spec fn cursor_ok(s: (Seq<char>, nat)) -> bool {
    s.1 <= s.0.len()
}

impl LineEditor {
    pub open spec fn wf(&self) -> bool {
        cursor_ok(self@)
    }

    /// An empty buffer, the cursor at its start.
    pub fn new() -> (r: LineEditor)
        ensures
            r.wf(),
            r@ == (Seq::<char>::empty(), 0nat),
    {
        let r = LineEditor { buffer: Vec::new(), cursor: 0 };
        assert(r@.0 =~= Seq::<char>::empty());
        r
    }

    /// Tests that the cursor stands within the buffer.
    pub fn is_wf(&self) -> (r: bool)
        ensures
            r == self.wf(),
    {
        self.cursor <= self.buffer.len()
    }

    pub fn cursor(&self) -> (r: usize)
        ensures
            r == self@.1,
    {
        self.cursor
    }

    pub fn text(&self) -> (r: &Vec<char>)
        ensures
            r@ == self@.0,
    {
        &self.buffer
    }

    pub fn is_empty(&self) -> (r: bool)
        ensures
            r == (self@.0.len() == 0),
    {
        self.buffer.len() == 0
    }

    /// Inserts `c` at the cursor and moves the cursor past it.
    pub fn enter_char(&mut self, c: char)
        requires
            old(self).wf(),
            old(self)@.0.len() < usize::MAX,
        ensures
            final(self).wf(),
            final(self)@ == inserted(old(self)@, c),
    {
        self.buffer.insert(self.cursor, c);
        self.cursor = self.cursor + 1;
    }

    /// Deletes the character before the cursor; nothing at the start of the line.
    pub fn delete_char(&mut self)
        requires
            old(self).wf(),
        ensures
            final(self).wf(),
            final(self)@ == backspaced(old(self)@),
    {
        if self.cursor != 0 {
            self.buffer.remove(self.cursor - 1);
            self.cursor = self.cursor - 1;
        }
    }

    pub fn move_cursor_left(&mut self)
        requires
            old(self).wf(),
        ensures
            final(self).wf(),
            final(self)@ == moved_left(old(self)@),
    {
        let moved = if self.cursor > 0 { self.cursor - 1 } else { 0 };
        self.cursor = self.clamp_cursor(moved);
    }

    pub fn move_cursor_right(&mut self)
        requires
            old(self).wf(),
        ensures
            final(self).wf(),
            final(self)@ == moved_right(old(self)@),
    {
        if self.cursor < self.buffer.len() {
            self.cursor = self.cursor + 1;
        } else {
            self.cursor = self.clamp_cursor(self.cursor);
        }
        assert(self.buffer@ == old(self)@.0);
    }

    /// The position nearest to `pos` that lies within the buffer.
    pub fn clamp_cursor(&self, pos: usize) -> (r: usize)
        ensures
            r == if pos > self@.0.len() { self@.0.len() } else { pos as nat },
    {
        if pos > self.buffer.len() {
            self.buffer.len()
        } else {
            pos
        }
    }

    /// Empties the buffer and puts the cursor at the start.
    pub fn reset(&mut self)
        ensures
            final(self).wf(),
            final(self)@ == (Seq::<char>::empty(), 0nat),
    {
        self.buffer = Vec::new();
        self.cursor = 0;
        assert(self@.0 =~= Seq::<char>::empty());
    }
}

/// An editing operation of the prompt line.
pub enum EditOp {
    Insert(char),
    Backspace,
    Left,
    Right,
}

pub open spec fn apply_op(s: (Seq<char>, nat), op: EditOp) -> (Seq<char>, nat) {
    match op {
        EditOp::Insert(c) => inserted(s, c),
        EditOp::Backspace => backspaced(s),
        EditOp::Left => moved_left(s),
        EditOp::Right => moved_right(s),
    }
}

/// The state after applying `ops` in order.
pub open spec fn apply_ops(s: (Seq<char>, nat), ops: Seq<EditOp>) -> (Seq<char>, nat)
    decreases ops.len(),
{
    if ops.len() == 0 {
        s
    } else {
        apply_ops(apply_op(s, ops[0]), ops.drop_first())
    }
}

/// For any sequence of insertions, deletions and cursor moves, the cursor stays
/// within the buffer after every operation.
pub proof fn lemma_edits_keep_cursor(s: (Seq<char>, nat), ops: Seq<EditOp>)
    requires
        cursor_ok(s),
    ensures
        forall|k: int| 0 <= k <= ops.len() ==> #[trigger] cursor_ok(apply_ops(s, ops.subrange(0, k))),
    decreases ops.len(),
{
    if ops.len() > 0 {
        let s1 = apply_op(s, ops[0]);
        assert(cursor_ok(s1));
        lemma_edits_keep_cursor(s1, ops.drop_first());
        assert forall|k: int| 0 <= k <= ops.len() implies #[trigger] cursor_ok(apply_ops(s, ops.subrange(0, k))) by {
            if k > 0 {
                let pre = ops.subrange(0, k);
                assert(pre.drop_first() =~= ops.drop_first().subrange(0, k - 1));
                assert(pre[0] == ops[0]);
                assert(cursor_ok(apply_ops(s1, ops.drop_first().subrange(0, k - 1))));
                assert(apply_ops(s, pre) == apply_ops(s1, pre.drop_first()));
            } else {
                assert(ops.subrange(0, k).len() == 0);
            }
        }
    } else {
        assert forall|k: int| 0 <= k <= ops.len() implies #[trigger] cursor_ok(apply_ops(s, ops.subrange(0, k))) by {
            assert(ops.subrange(0, k).len() == 0);
        }
    }
}

} // verus!
