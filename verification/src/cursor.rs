//! A cursor over a list: a selected position and the length of the list.
//!
//! The cursor moves one entry at a time and stops at either end; it never
//! wraps around. It knows nothing of what the list holds or of how a list
//! is drawn.

use vstd::prelude::*;

verus! {

/// The selected position in a list of known length.
#[derive(Debug, Clone, Copy, PartialEq, Eq)]
pub struct Cursor {
    index: usize,
    len: usize,
}

/// A cursor as a mathematical value.
pub struct CursorView {
    pub index: nat,
    pub len: nat,
}

impl CursorView {
    /// The position is one of the list's, or is zero where the list is empty.
    pub open spec fn wf(self) -> bool {
        self.index < self.len || (self.index == 0 && self.len == 0)
    }

    /// The cursor at `index` in a list of `len` entries, or at the first
    /// entry where the list has no such position.
    pub open spec fn at(index: nat, len: nat) -> CursorView {
        CursorView { index: if index < len { index } else { 0 }, len }
    }

    /// The cursor after one move towards the start of the list.
    pub open spec fn up(self) -> CursorView {
        if self.index > 0 {
            CursorView { index: (self.index - 1) as nat, ..self }
        } else {
            self
        }
    }

    /// The cursor after one move towards the end of the list.
    pub open spec fn down(self) -> CursorView {
        if self.index + 1 < self.len {
            CursorView { index: self.index + 1, ..self }
        } else {
            self
        }
    }

    /// The cursor after `moves` moves towards the end of the list.
    pub open spec fn down_by(self, moves: nat) -> CursorView
        decreases moves,
    {
        if moves == 0 {
            self
        } else {
            self.down().down_by((moves - 1) as nat)
        }
    }
}

impl View for Cursor {
    type V = CursorView;

    closed spec fn view(&self) -> CursorView {
        CursorView { index: self.index as nat, len: self.len as nat }
    }
}

impl Cursor {
    /// A cursor at `index` in a list of `len` entries; at the first entry
    /// where `index` is not a position of the list.
    pub fn at(index: usize, len: usize) -> (cursor: Cursor)
        ensures
            cursor@ == CursorView::at(index as nat, len as nat),
            cursor@.wf(),
    {
        Cursor { index: if index < len { index } else { 0 }, len }
    }

    /// The selected position.
    pub fn index(&self) -> (index: usize)
        ensures
            index == self@.index,
    {
        self.index
    }

    /// The length of the list.
    pub fn len(&self) -> (len: usize)
        ensures
            len == self@.len,
    {
        self.len
    }

    /// Moves one entry towards the start; stays at the first entry.
    pub fn up(&mut self)
        ensures
            final(self)@ == old(self)@.up(),
            old(self)@.wf() ==> final(self)@.wf(),
    {
        if self.index > 0 {
            self.index = self.index - 1;
        }
    }

    /// Moves one entry towards the end; stays at the last entry.
    pub fn down(&mut self)
        ensures
            final(self)@ == old(self)@.down(),
            old(self)@.wf() ==> final(self)@.wf(),
    {
        if self.len > 0 && self.index < self.len - 1 {
            self.index = self.index + 1;
        }
    }
}

/// Moving up at the first entry changes nothing.
pub proof fn lemma_up_stays_at_first(cursor: CursorView)
    requires
        cursor.index == 0,
    ensures
        cursor.up() == cursor,
{
}

/// Moving down at the last entry changes nothing.
pub proof fn lemma_down_stays_at_last(cursor: CursorView)
    requires
        cursor.len > 0,
        cursor.index == cursor.len - 1,
    ensures
        cursor.down() == cursor,
{
}

/// Where a number of moves down leads: that many entries further, but not
/// past the last entry.
pub proof fn lemma_down_by(cursor: CursorView, moves: nat)
    requires
        cursor.wf(),
        cursor.len > 0,
    ensures
        cursor.down_by(moves).len == cursor.len,
        cursor.down_by(moves).index == if cursor.index + moves < cursor.len {
            cursor.index + moves
        } else {
            (cursor.len - 1) as nat
        },
    decreases moves,
{
    if moves > 0 {
        lemma_down_by(cursor.down(), (moves - 1) as nat);
    }
}

/// From any position of a list of `len` entries, `len - 1` moves down are
/// enough to reach the last entry, and further moves stay there.
pub proof fn lemma_down_reaches_last(cursor: CursorView, moves: nat)
    requires
        cursor.wf(),
        cursor.len > 0,
        moves >= cursor.len - 1,
    ensures
        cursor.down_by(moves).index == cursor.len - 1,
{
    lemma_down_by(cursor, moves);
}

} // verus!
