//! A displayed list with its selection cursor.

use vstd::prelude::*;

verus! {

/// A cursor is unset exactly when its list is empty, and otherwise points into
/// the list.
pub open spec fn cursor_ok(sel: Option<usize>, len: nat) -> bool {
    match sel {
        Some(i) => i < len,
        None => len == 0,
    }
}

/// The cursor kept across a change of the list's length: unset for an empty
/// list, the first row where it was unset, clamped to the last row where it
/// fell past the end.
pub open spec fn revalidated(sel: Option<usize>, len: nat) -> Option<usize> {
    if len == 0 {
        None
    } else {
        match sel {
            Some(i) => if i < len {
                Some(i)
            } else {
                Some((len - 1) as usize)
            },
            None => Some(0),
        }
    }
}

/// The cursor on the first row, or unset for an empty list.
pub open spec fn first_row(len: nat) -> Option<usize> {
    if len == 0 {
        None
    } else {
        Some(0)
    }
}

/// The cursor one row up, staying on the first row.
pub open spec fn row_up(sel: Option<usize>) -> Option<usize> {
    match sel {
        Some(i) => if i > 0 {
            Some((i - 1) as usize)
        } else {
            Some(i)
        },
        None => None,
    }
}

/// The cursor one row down, staying on the last row.
pub open spec fn row_down(sel: Option<usize>, len: nat) -> Option<usize> {
    match sel {
        Some(i) => if i + 1 < len {
            Some((i + 1) as usize)
        } else {
            Some(i)
        },
        None => None,
    }
}

/// A list and its selection cursor.
pub struct Listing<T> {
    pub items: Vec<T>,
    pub sel: Option<usize>,
}

impl<T> Listing<T> {
    pub open spec fn wf(&self) -> bool {
        cursor_ok(self.sel, self.items@.len())
    }

    /// An empty list with no row selected.
    pub fn new() -> (r: Self)
        ensures
            r.items@.len() == 0,
            r.sel == None::<usize>,
            r.wf(),
    {
        Listing { items: Vec::new(), sel: None }
    }

    /// Moves the cursor one row up; it stays on the first row.
    pub fn move_up(&mut self)
        requires
            old(self).wf(),
        ensures
            final(self).wf(),
            final(self).items == old(self).items,
            final(self).sel == row_up(old(self).sel),
    {
        if let Some(i) = self.sel {
            if i > 0 {
                self.sel = Some(i - 1);
            }
        }
    }

    /// Moves the cursor one row down; it stays on the last row.
    pub fn move_down(&mut self)
        requires
            old(self).wf(),
        ensures
            final(self).wf(),
            final(self).items == old(self).items,
            final(self).sel == row_down(old(self).sel, old(self).items@.len()),
    {
        if let Some(i) = self.sel {
            if i < self.items.len() - 1 {
                self.sel = Some(i + 1);
            }
        }
    }

    /// Shows new contents, keeping the cursor where it still fits.
    pub fn replace(&mut self, items: Vec<T>)
        ensures
            final(self).wf(),
            final(self).items == items,
            final(self).sel == revalidated(old(self).sel, items@.len()),
    {
        let len = items.len();
        self.items = items;
        if len == 0 {
            self.sel = None;
        } else {
            match self.sel {
                Some(i) => {
                    if i >= len {
                        self.sel = Some(len - 1);
                    }
                },
                None => {
                    self.sel = Some(0);
                },
            }
        }
    }

    /// Shows new contents with the cursor on the first row.
    pub fn reset(&mut self, items: Vec<T>)
        ensures
            final(self).wf(),
            final(self).items == items,
            final(self).sel == first_row(items@.len()),
    {
        let len = items.len();
        self.items = items;
        self.sel = if len == 0 {
            None
        } else {
            Some(0)
        };
    }
}

} // verus!
