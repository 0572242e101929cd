//! The selected row of a table.

use vstd::prelude::*;

verus! {

/// The selected row of a table and the first row that is shown.
#[derive(Clone, Copy, Debug, PartialEq, Eq, Structural)]
pub struct TableState {
    pub selected: Option<usize>,
    pub offset: usize,
}

/// The table with the row `index` selected. Without a selection the table is shown
/// from its first row on.
pub open spec fn with_selected(t: TableState, index: Option<usize>) -> TableState {
    TableState {
        selected: index,
        offset: if index is None {
            0
        } else {
            t.offset
        },
    }
}

/// The whole number of 0 to `len - 1` that is nearest to `n`.
pub open spec fn clamp_row(n: int, len: nat) -> int {
    if n < 0 {
        0
    } else if n >= len {
        len - 1
    } else {
        n
    }
}

/// The row that counts as selected where none is.
pub open spec fn current_row(t: TableState) -> int {
    match t.selected {
        Some(i) => i as int,
        None => 0,
    }
}

/// The selection moved by `delta` rows within a list of `len` rows. In an empty
/// list nothing moves.
pub open spec fn moved(t: TableState, len: nat, delta: int) -> TableState {
    if len == 0 {
        t
    } else {
        with_selected(t, Some(clamp_row(current_row(t) + delta, len) as usize))
    }
}

/// The row `idx`, or the last one, selected within a list of `len` rows. In an
/// empty list nothing is selected anew.
pub open spec fn moved_to(t: TableState, len: nat, idx: nat) -> TableState {
    if len == 0 {
        t
    } else {
        with_selected(t, Some(clamp_row(idx as int, len) as usize))
    }
}

/// The selection, if any, is a row of a list of `len` rows.
pub open spec fn selection_within(t: TableState, len: nat) -> bool {
    match t.selected {
        Some(i) => i < len,
        None => true,
    }
}

impl TableState {
    /// No selection, shown from the first row on.
    pub fn new() -> (r: TableState)
        ensures
            r == (TableState { selected: None, offset: 0 }),
    {
        TableState { selected: None, offset: 0 }
    }

    /// The selected row.
    pub fn selected(&self) -> (r: Option<usize>)
        ensures
            r == self.selected,
    {
        self.selected
    }

    /// Selects a row, or none.
    pub fn select(&mut self, index: Option<usize>)
        ensures
            *final(self) == with_selected(*old(self), index),
    {
        self.selected = index;
        if index.is_none() {
            self.offset = 0;
        }
    }

    /// Moves the selection by `delta` rows within a list of `len` rows.
    pub fn move_sel(&mut self, len: usize, delta: isize)
        ensures
            *final(self) == moved(*old(self), len as nat, delta as int),
    {
        if len == 0 {
            return;
        }
        let current: usize = match self.selected {
            Some(i) => i,
            None => 0,
        };
        let wanted: i128 = current as i128 + delta as i128;
        let next: usize = if wanted < 0 {
            0
        } else if wanted >= len as i128 {
            len - 1
        } else {
            wanted as usize
        };
        self.select(Some(next));
    }

    /// Selects the row `idx`, or the last one, within a list of `len` rows.
    pub fn sel_to(&mut self, len: usize, idx: usize)
        ensures
            *final(self) == moved_to(*old(self), len as nat, idx as nat),
    {
        if len > 0 {
            let next: usize = if idx < len {
                idx
            } else {
                len - 1
            };
            self.select(Some(next));
        }
    }

    /// Selects the first row of a list of `len` rows, or none where it is empty.
    pub fn select_first_of(&mut self, len: usize)
        ensures
            *final(self) == with_selected(
                *old(self),
                if len == 0 {
                    None
                } else {
                    Some(0)
                },
            ),
    {
        if len == 0 {
            self.select(None);
        } else {
            self.select(Some(0));
        }
    }
}

/// Whatever the moves are, the selection stays a row of the list.
pub proof fn moves_stay_within(t: TableState, len: nat, delta: int, idx: nat)
    requires
        len <= usize::MAX,
        selection_within(t, len),
    ensures
        selection_within(moved(t, len, delta), len),
        selection_within(moved_to(t, len, idx), len),
{
}

/// A step down and a step up lead back to the row, unless it was the last one; so
/// do a step up and a step down, unless it was the first one.
pub proof fn steps_undo_each_other(t: TableState, len: nat)
    requires
        len <= usize::MAX,
        t.selected is Some,
        selection_within(t, len),
    ensures
        current_row(t) + 1 < len ==> moved(moved(t, len, 1), len, -1) == t,
        current_row(t) > 0 ==> moved(moved(t, len, -1), len, 1) == t,
{
}

/// A move leads as many rows up or down as it is asked to, but not past an end of the list;
/// a jump leads to the row that is asked for, or to the last one. Neither scrolls the list,
/// and in an empty list neither does anything. Without a selection the list is shown from
/// its top on.
pub proof fn moves_lead_where_they_are_asked_to(t: TableState, len: nat, delta: int, idx: nat)
    requires
        len <= usize::MAX,
    ensures
        ({
            let from = if t.selected is Some {
                t.selected->0 as int
            } else {
                0
            };
            let to = from + delta;
            &&& len == 0 ==> moved(t, len, delta) == t && moved_to(t, len, idx) == t
            &&& len > 0 ==> moved(t, len, delta).offset == t.offset && moved_to(
                t,
                len,
                idx,
            ).offset == t.offset
            &&& len > 0 && 0 <= to < len ==> moved(t, len, delta).selected == Some(to as usize)
            &&& len > 0 && to < 0 ==> moved(t, len, delta).selected == Some(0usize)
            &&& len > 0 && to >= len ==> moved(t, len, delta).selected == Some((len - 1) as usize)
            &&& idx < len ==> moved_to(t, len, idx).selected == Some(idx as usize)
            &&& 0 < len <= idx ==> moved_to(t, len, idx).selected == Some((len - 1) as usize)
        }),
        with_selected(t, None) == (TableState { selected: None, offset: 0 }),
        forall|row: usize| #[trigger]
            with_selected(t, Some(row)) == (TableState { selected: Some(row), offset: t.offset }),
{
}

} // verus!
