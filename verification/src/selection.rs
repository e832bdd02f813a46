use vstd::prelude::*;

verus! {

/// Where a cursor lands when it is fitted to a list of `len` rows: nowhere on
/// an empty list, on the first row if it was absent, on the last row if it
/// pointed past the end, and where it was otherwise.
pub open spec fn clamp_cursor(cursor: Option<usize>, len: nat) -> Option<usize> {
    if len == 0 {
        None
    } else {
        match cursor {
            None => Some(0usize),
            Some(i) => if i < len {
                Some(i)
            } else {
                Some((len - 1) as usize)
            },
        }
    }
}

/// The cursor one row further down, stopping at the last row.
pub open spec fn cursor_next(cursor: Option<usize>, len: nat) -> Option<usize> {
    match cursor {
        Some(i) => if i + 1 < len {
            Some((i + 1) as usize)
        } else {
            cursor
        },
        None => None,
    }
}

/// The cursor one row further up, stopping at the first row.
pub open spec fn cursor_previous(cursor: Option<usize>) -> Option<usize> {
    match cursor {
        Some(i) => if i > 0 {
            Some((i - 1) as usize)
        } else {
            cursor
        },
        None => None,
    }
}

/// A cursor is in bounds when it is absent on an empty list and points at a
/// row of a non-empty one.
pub open spec fn cursor_in_bounds(cursor: Option<usize>, len: nat) -> bool {
    match cursor {
        None => len == 0,
        Some(i) => i < len,
    }
}

/// One move of the cursor.
#[derive(Debug, Clone, Copy, PartialEq, Eq, Structural)]
pub enum Move {
    Next,
    Previous,
}

/// The cursor after one move over a list of `len` rows.
pub open spec fn cursor_moved(cursor: Option<usize>, len: nat, m: Move) -> Option<usize> {
    match m {
        Move::Next => cursor_next(cursor, len),
        Move::Previous => cursor_previous(cursor),
    }
}

/// The cursor after a whole sequence of moves, applied left to right.
pub open spec fn cursor_after(cursor: Option<usize>, len: nat, moves: Seq<Move>) -> Option<usize>
    decreases moves.len(),
{
    if moves.len() == 0 {
        cursor
    } else {
        cursor_moved(cursor_after(cursor, len, moves.drop_last()), len, moves.last())
    }
}

/// However the cursor is moved, it stays in bounds: absent on an empty list,
/// on a row of a non-empty one.
pub proof fn lemma_moves_stay_in_bounds(cursor: Option<usize>, len: nat, moves: Seq<Move>)
    requires
        cursor_in_bounds(cursor, len),
    ensures
        cursor_in_bounds(cursor_after(cursor, len, moves), len),
    decreases moves.len(),
{
    if moves.len() > 0 {
        lemma_moves_stay_in_bounds(cursor, len, moves.drop_last());
    }
}

/// Fitting any cursor to a list of `len` rows puts it in bounds, clears it
/// when the list is empty, and leaves a cursor alone that already points at a
/// row of the list.
pub proof fn lemma_clamp_in_bounds(cursor: Option<usize>, len: nat)
    requires
        len <= usize::MAX,
    ensures
        cursor_in_bounds(clamp_cursor(cursor, len), len),
        len == 0 ==> clamp_cursor(cursor, len).is_none(),
        cursor.is_some() && cursor.unwrap() < len ==> clamp_cursor(cursor, len) == cursor,
        cursor.is_some() && cursor.unwrap() >= len && len > 0 ==> clamp_cursor(cursor, len)
            == Some((len - 1) as usize),
{
}

/// A bounded cursor over an ordered list of rows.
#[derive(Debug, Clone, Copy, PartialEq, Eq, Structural)]
pub struct RowSelection {
    len: usize,
    cursor: Option<usize>,
}

impl RowSelection {
    /// Number of rows the cursor ranges over.
    pub closed spec fn rows(self) -> nat {
        self.len as nat
    }

    /// The selected index, if any.
    pub closed spec fn cursor(self) -> Option<usize> {
        self.cursor
    }

    /// The cursor is absent exactly when there are no rows, and otherwise
    /// points at one of them.
    pub open spec fn wf(self) -> bool {
        cursor_in_bounds(self.cursor(), self.rows())
    }

    /// A selection over `len` rows, on the first row if there is one.
    pub fn new(len: usize) -> (r: RowSelection)
        ensures
            r.wf(),
            r.rows() == len,
            r.cursor() == clamp_cursor(None, len as nat),
    {
        RowSelection { len, cursor: if len == 0 { None } else { Some(0) } }
    }

    /// Moves the cursor down by one row; at the last row, or with no rows,
    /// nothing changes.
    pub fn next(&mut self)
        requires
            old(self).wf(),
        ensures
            final(self).wf(),
            final(self).rows() == old(self).rows(),
            final(self).cursor() == cursor_next(old(self).cursor(), old(self).rows()),
    {
        match self.cursor {
            Some(i) => {
                if i + 1 < self.len {
                    self.cursor = Some(i + 1);
                }
            },
            None => {},
        }
    }

    /// Moves the cursor up by one row; at the first row, or with no rows,
    /// nothing changes.
    pub fn previous(&mut self)
        requires
            old(self).wf(),
        ensures
            final(self).wf(),
            final(self).rows() == old(self).rows(),
            final(self).cursor() == cursor_previous(old(self).cursor()),
    {
        match self.cursor {
            Some(i) => {
                if i > 0 {
                    self.cursor = Some(i - 1);
                }
            },
            None => {},
        }
    }

    /// The selected index: `None` exactly when there are no rows.
    pub fn select(&self) -> (r: Option<usize>)
        ensures
            r == self.cursor(),
    {
        self.cursor
    }

    /// Number of rows the cursor ranges over.
    pub fn len(&self) -> (r: usize)
        ensures
            r == self.rows(),
    {
        self.len
    }

    /// Fits the cursor to a list of `new_len` rows.
    pub fn reset_for(&mut self, new_len: usize)
        ensures
            final(self).wf(),
            final(self).rows() == new_len,
            final(self).cursor() == clamp_cursor(old(self).cursor(), new_len as nat),
    {
        self.len = new_len;
        if new_len == 0 {
            self.cursor = None;
        } else {
            match self.cursor {
                None => {
                    self.cursor = Some(0);
                },
                Some(i) => {
                    if i >= new_len {
                        self.cursor = Some(new_len - 1);
                    }
                },
            }
        }
    }
}

} // verus!
