//! The selection cursor: which record of the registry is highlighted.

use vstd::prelude::*;

verus! {

/// The index that follows `i` in a registry of `len` records, going back to the
/// first one after the last.
pub open spec fn next_index(i: nat, len: nat) -> nat {
    if i + 1 >= len {
        0
    } else {
        i + 1
    }
}

/// The index that precedes `i` in a registry of `len` records, going to the
/// last one before the first.
pub open spec fn previous_index(i: nat, len: nat) -> nat {
    if i > 0 {
        (i - 1) as nat
    } else {
        (len - 1) as nat
    }
}

/// Where the cursor rests once the record at `removed` is gone: on its
/// predecessor, or on the first record if it had none.
pub open spec fn index_after_removal(removed: nat) -> nat {
    if removed > 0 {
        (removed - 1) as nat
    } else {
        0
    }
}

/// A selection moved one record forward; no selection stays none.
pub open spec fn advanced(selection: Option<nat>, len: nat) -> Option<nat> {
    match selection {
        Some(i) => Some(next_index(i, len)),
        None => None,
    }
}

/// A selection moved one record back; no selection stays none.
pub open spec fn retreated(selection: Option<nat>, len: nat) -> Option<nat> {
    match selection {
        Some(i) => Some(previous_index(i, len)),
        None => None,
    }
}

/// The selection left by removing the record at `removed`, given how many
/// records remain: nothing if none remain.
pub open spec fn reclamped(removed: nat, len_after: nat) -> Option<nat> {
    if len_after == 0 {
        None
    } else {
        Some(index_after_removal(removed))
    }
}

/// A selection names a record of a registry of `len` records whenever the
/// registry has any.
pub open spec fn selection_valid(selection: Option<nat>, len: nat) -> bool {
    len > 0 ==> (selection matches Some(i) && i < len)
}

/// The highlighted index, or nothing.
#[derive(Clone, Copy, Debug, PartialEq, Eq)]
pub struct SelectionCursor {
    selected: Option<usize>,
}

impl View for SelectionCursor {
    type V = Option<nat>;

    closed spec fn view(&self) -> Option<nat> {
        match self.selected {
            Some(i) => Some(i as nat),
            None => None,
        }
    }
}

impl SelectionCursor {
    /// Whether the cursor names a record of a registry of `len` records.
    pub open spec fn valid_for(self, len: nat) -> bool {
        selection_valid(self@, len)
    }

    /// A cursor on the first record.
    pub fn new() -> (cursor: Self)
        ensures
            cursor@ == Some(0nat),
    {
        SelectionCursor { selected: Some(0) }
    }

    /// The highlighted index.
    pub fn selected(&self) -> (index: Option<usize>)
        ensures
            match index {
                Some(i) => self@ == Some(i as nat),
                None => self@ is None,
            },
    {
        self.selected
    }

    /// Puts the cursor on `index`, or on nothing.
    pub fn select(&mut self, index: Option<usize>)
        ensures
            match index {
                Some(i) => final(self)@ == Some(i as nat),
                None => final(self)@ is None,
            },
    {
        self.selected = index;
    }

    /// Moves to the next record of a registry of `len` records, wrapping
    /// from the last to the first. A cursor beyond the end lands on the first
    /// record, so the result always names a record.
    pub fn advance(&mut self, len: usize)
        requires
            len > 0,
        ensures
            final(self)@ == advanced(old(self)@, len as nat),
            old(self)@ is Some ==> final(self).valid_for(len as nat),
    {
        if let Some(i) = self.selected {
            if i >= len - 1 {
                self.selected = Some(0);
            } else {
                self.selected = Some(i + 1);
            }
        }
    }

    /// Moves to the previous record of a registry of `len` records, wrapping
    /// from the first to the last.
    pub fn retreat(&mut self, len: usize)
        requires
            len > 0,
        ensures
            final(self)@ == retreated(old(self)@, len as nat),
            old(self).valid_for(len as nat) ==> final(self).valid_for(len as nat),
    {
        if let Some(i) = self.selected {
            if i > 0 {
                self.selected = Some(i - 1);
            } else {
                self.selected = Some(len - 1);
            }
        }
    }

    /// Settles the cursor after the record at `removed_index` left a registry
    /// that now has `len_after` records: on the predecessor of the removed
    /// record, on the first record if there was none, on nothing if the
    /// registry is empty.
    pub fn clamp_after_removal(&mut self, removed_index: usize, len_after: usize)
        ensures
            final(self)@ == reclamped(removed_index as nat, len_after as nat),
            removed_index <= len_after ==> final(self).valid_for(len_after as nat),
    {
        if len_after == 0 {
            self.selected = None;
        } else if removed_index > 0 {
            self.selected = Some(removed_index - 1);
        } else {
            self.selected = Some(0);
        }
    }
}

/// Moving forward and then back, or back and then forward, over a registry
/// whose length does not change returns a valid cursor to where it was.
pub proof fn lemma_advance_retreat_cancel(selection: Option<nat>, len: nat)
    requires
        len > 0,
        selection_valid(selection, len),
    ensures
        retreated(advanced(selection, len), len) == selection,
        advanced(retreated(selection, len), len) == selection,
{
}

/// Moving the cursor keeps it valid, and moving forward makes any selection
/// valid again.
pub proof fn lemma_moves_keep_validity(selection: Option<nat>, len: nat)
    requires
        len > 0,
    ensures
        selection is Some ==> selection_valid(advanced(selection, len), len),
        selection_valid(selection, len) ==> selection_valid(retreated(selection, len), len),
{
}

} // verus!
