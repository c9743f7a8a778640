//! The mathematical model of the input editor: a text and a cursor in it.

use vstd::prelude::*;

verus! {

/// A text under edit and the cursor in it, counted in characters from the
/// left end. The cursor may stand before any character or behind the last
/// one.
pub struct InputBuffer {
    pub text: Seq<char>,
    pub cursor: nat,
}

/// One editing step.
pub enum EditOp {
    /// Type a character at the cursor.
    Insert(char),
    /// Delete the character left of the cursor.
    Delete,
    /// Move the cursor one character to the left.
    Left,
    /// Move the cursor one character to the right.
    Right,
}

impl InputBuffer {
    /// The buffer with no text and the cursor at 0.
    pub open spec fn empty() -> InputBuffer {
        InputBuffer { text: Seq::empty(), cursor: 0 }
    }

    /// The cursor stands within `[0, length]`.
    pub open spec fn wf(self) -> bool {
        self.cursor <= self.text.len()
    }

    /// `pos`, or the end of the text if `pos` lies behind it.
    pub open spec fn clamp(self, pos: nat) -> nat {
        if pos <= self.text.len() {
            pos
        } else {
            self.text.len()
        }
    }

    /// The cursor moved one character to the left; it stays at 0.
    pub open spec fn left(self) -> InputBuffer {
        let target = if self.cursor == 0 {
            0
        } else {
            (self.cursor - 1) as nat
        };
        InputBuffer { text: self.text, cursor: self.clamp(target) }
    }

    /// The cursor moved one character to the right; it stays at the end.
    pub open spec fn right(self) -> InputBuffer {
        InputBuffer { text: self.text, cursor: self.clamp(self.cursor + 1) }
    }

    /// `c` typed at the cursor, which then stands behind it.
    pub open spec fn insert(self, c: char) -> InputBuffer
        recommends
            self.wf(),
    {
        InputBuffer { text: self.text.insert(self.cursor as int, c), cursor: self.cursor + 1 }
    }

    /// The character left of the cursor deleted and the cursor moved onto
    /// its place. Nothing changes with the cursor at 0.
    pub open spec fn delete(self) -> InputBuffer {
        if self.cursor == 0 {
            self
        } else if self.cursor <= self.text.len() {
            InputBuffer { text: self.text.remove(self.cursor - 1), cursor: (self.cursor - 1) as nat }
        } else {
            InputBuffer { text: self.text, cursor: self.text.len() }
        }
    }

    /// The buffer after one editing step.
    pub open spec fn apply(self, op: EditOp) -> InputBuffer {
        match op {
            EditOp::Insert(c) => self.insert(c),
            EditOp::Delete => self.delete(),
            EditOp::Left => self.left(),
            EditOp::Right => self.right(),
        }
    }

    /// The buffer after a sequence of editing steps, first step first.
    pub open spec fn apply_all(self, ops: Seq<EditOp>) -> InputBuffer
        decreases ops.len(),
    {
        if ops.len() == 0 {
            self
        } else {
            self.apply(ops[0]).apply_all(ops.drop_first())
        }
    }

    /// One editing step on a buffer whose cursor is within the text leaves
    /// the cursor within the text.
    pub proof fn lemma_apply_keeps_cursor_in_text(self, op: EditOp)
        requires
            self.wf(),
        ensures
            self.apply(op).wf(),
    {
    }

    /// Whatever sequence of insert, delete and move steps is run on a buffer
    /// whose cursor is within the text, the cursor is within the text at the
    /// end.
    pub proof fn lemma_apply_all_keeps_cursor_in_text(self, ops: Seq<EditOp>)
        requires
            self.wf(),
        ensures
            self.apply_all(ops).wf(),
        decreases ops.len(),
    {
        if ops.len() > 0 {
            self.lemma_apply_keeps_cursor_in_text(ops[0]);
            self.apply(ops[0]).lemma_apply_all_keeps_cursor_in_text(ops.drop_first());
        }
    }

    /// The cursor invariant: starting from the empty buffer, after every
    /// step of any sequence of insert, delete and move steps the cursor
    /// lies within `[0, length]`.
    pub proof fn lemma_cursor_invariant(ops: Seq<EditOp>, k: int)
        requires
            0 <= k <= ops.len(),
        ensures
            Self::empty().apply_all(ops.take(k)).wf(),
            Self::empty().apply_all(ops.take(k)).cursor <= Self::empty().apply_all(
                ops.take(k),
            ).text.len(),
    {
        Self::empty().lemma_apply_all_keeps_cursor_in_text(ops.take(k));
    }
}

} // verus!
