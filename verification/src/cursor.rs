//! Selection cursor for the lists shown by the controller.
//!
//! A `ListCursor` is a cursor over an ordered sequence of `len` items with an
//! optional selected index and wraparound navigation: stepping past the last
//! index returns to the first, and stepping before the first returns to the
//! last. On an empty sequence every movement is a no-op.

use vstd::prelude::*;

verus! {

/// Selection state for a list of items.
#[derive(Clone, Copy, Debug, PartialEq, Eq)]
pub struct ListCursor {
    /// The selected index, if any item is selected.
    pub position: Option<usize>,
}

/// Index selected after moving one step forward with wraparound.
///
/// A missing selection is treated as index `0`, as is an index at or past the
/// end of the list.
pub open spec fn wrap_next(sel: Option<usize>, len: usize) -> Option<usize> {
    if len == 0 {
        sel
    } else {
        let cur: int = match sel {
            Some(i) => i as int,
            None => 0,
        };
        if cur >= len - 1 {
            Some(0usize)
        } else {
            Some((cur + 1) as usize)
        }
    }
}

/// Index selected after moving one step backward with wraparound.
pub open spec fn wrap_previous(sel: Option<usize>, len: usize) -> Option<usize> {
    if len == 0 {
        sel
    } else {
        let cur: int = match sel {
            Some(i) => i as int,
            None => 0,
        };
        if cur == 0 {
            Some((len - 1) as usize)
        } else {
            Some((cur - 1) as usize)
        }
    }
}

impl ListCursor {
    /// A cursor with no selection.
    pub fn new() -> (c: ListCursor)
        ensures
            c.position is None,
    {
        ListCursor { position: None }
    }

    /// Sets the selection to exactly `index`.
    pub fn select(&mut self, index: Option<usize>)
        ensures
            final(self).position == index,
    {
        self.position = index;
    }

    /// Returns the current selection.
    pub fn selected(&self) -> (r: Option<usize>)
        ensures
            r == self.position,
    {
        self.position
    }

    /// Moves the selection one step forward; wraps from the last index to `0`.
    /// Leaves an empty list untouched.
    pub fn next(&mut self, len: usize)
        ensures
            *final(self) == (ListCursor { position: wrap_next(old(self).position, len) }),
            len == 0 ==> *final(self) == *old(self),
    {
        if len == 0 {
            return ;
        }
        let cur: usize = match self.position {
            Some(i) => i,
            None => 0,
        };
        let new_pos: usize = if cur >= len - 1 {
            0
        } else {
            cur + 1
        };
        self.position = Some(new_pos);
    }

    /// Moves the selection one step backward; wraps from index `0` to the
    /// last index. Leaves an empty list untouched.
    pub fn previous(&mut self, len: usize)
        ensures
            *final(self) == (ListCursor { position: wrap_previous(old(self).position, len) }),
            len == 0 ==> *final(self) == *old(self),
    {
        if len == 0 {
            return ;
        }
        let cur: usize = match self.position {
            Some(i) => i,
            None => 0,
        };
        let new_pos: usize = if cur == 0 {
            len - 1
        } else {
            cur - 1
        };
        self.position = Some(new_pos);
    }

    /// Selects the first index; a no-op on an empty list.
    pub fn first(&mut self, len: usize)
        ensures
            len == 0 ==> *final(self) == *old(self),
            len > 0 ==> final(self).position == Some(0usize),
    {
        if len > 0 {
            self.position = Some(0);
        }
    }

    /// Selects the last index; a no-op on an empty list.
    pub fn last(&mut self, len: usize)
        ensures
            len == 0 ==> *final(self) == *old(self),
            len > 0 ==> final(self).position == Some((len - 1) as usize),
    {
        if len > 0 {
            self.position = Some(len - 1);
        }
    }
}

/// Law: on a list of `n` items, moving forward from the last index selects
/// the first.
pub proof fn lemma_next_wraps_to_first(n: usize)
    requires
        n >= 1,
    ensures
        wrap_next(Some((n - 1) as usize), n) == Some(0usize),
{
}

/// Law: on a list of `n` items, moving backward from the first index
/// selects the last.
pub proof fn lemma_previous_wraps_to_last(n: usize)
    requires
        n >= 1,
    ensures
        wrap_previous(Some(0usize), n) == Some((n - 1) as usize),
{
}

impl Default for ListCursor {
    /// A cursor with no selection.
    fn default() -> (c: ListCursor)
        ensures
            c.position is None,
    {
        ListCursor { position: None }
    }
}

} // verus!
