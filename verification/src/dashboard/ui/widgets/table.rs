//! A table of rows of which at most one is selected.
use vstd::prelude::*;

verus! {

/// The rows of a table, and which of them is selected. What a row looks like on the screen is
/// decided where the table is drawn.
pub struct StatefulTable<T> {
    items: Vec<T>,
    selected: Option<usize>,
}

/// A table as a mathematical value.
pub struct TableView<T> {
    pub items: Seq<T>,
    pub selected: Option<usize>,
}

impl<T> TableView<T> {
    /// A selection, if there is one, points at a row.
    pub open spec fn wf(self) -> bool {
        self.selected matches Some(i) ==> i < self.items.len()
    }

    /// The selection once the rows have been replaced by `len` rows: none if there are no rows;
    /// else the row at the same place, or the last one if that place is gone.
    pub open spec fn selection_for(self, len: nat) -> Option<usize> {
        match self.selected {
            None => None,
            Some(i) => if len == 0 {
                None
            } else if i < len {
                Some(i)
            } else {
                Some((len - 1) as usize)
            },
        }
    }

    /// The selection after a step down: the next row, the first one after the last and when
    /// nothing was selected. A table without rows selects nothing.
    pub open spec fn next_selection(self) -> Option<usize> {
        if self.items.len() == 0 {
            self.selected
        } else {
            match self.selected {
                None => Some(0),
                Some(i) => if i + 1 >= self.items.len() {
                    Some(0)
                } else {
                    Some((i + 1) as usize)
                },
            }
        }
    }

    /// The selection after a step up: the row before, the last one before the first, and the
    /// first one when nothing was selected. A table without rows selects nothing.
    pub open spec fn previous_selection(self) -> Option<usize> {
        if self.items.len() == 0 {
            self.selected
        } else {
            match self.selected {
                None => Some(0),
                Some(i) => if i == 0 {
                    Some((self.items.len() - 1) as usize)
                } else {
                    Some((i - 1) as usize)
                },
            }
        }
    }
}

impl<T> View for StatefulTable<T> {
    type V = TableView<T>;

    closed spec fn view(&self) -> TableView<T> {
        TableView { items: self.items@, selected: self.selected }
    }
}

impl<T> StatefulTable<T> {
    /// A selection, if there is one, points at a row.
    pub open spec fn wf(&self) -> bool {
        self@.wf()
    }

    /// A table without rows.
    pub fn new() -> (table: Self)
        ensures
            table.wf(),
            table@.items == Seq::<T>::empty(),
            table@.selected == None::<usize>,
    {
        StatefulTable { items: Vec::new(), selected: None }
    }

    /// Replaces the rows. The selection stays on its place as far as there is a row.
    pub fn set_items(&mut self, items: Vec<T>)
        requires
            old(self).wf(),
        ensures
            final(self).wf(),
            final(self)@.items == items@,
            final(self)@.selected == old(self)@.selection_for(items@.len()),
    {
        let len = items.len();
        self.items = items;
        self.selected = match self.selected {
            None => None,
            Some(i) => if len == 0 {
                None
            } else if i < len {
                Some(i)
            } else {
                Some(len - 1)
            },
        };
    }

    /// Moves the selection one row down, from the last row to the first.
    pub fn select_next_wrap(&mut self)
        requires
            old(self).wf(),
        ensures
            final(self).wf(),
            final(self)@.items == old(self)@.items,
            final(self)@.selected == old(self)@.next_selection(),
    {
        let len = self.items.len();
        if len == 0 {
            return ;
        }
        let next = match self.selected {
            None => 0,
            Some(i) => if i >= len - 1 {
                0
            } else {
                i + 1
            },
        };
        self.selected = Some(next);
    }

    /// Moves the selection one row up, from the first row to the last.
    pub fn select_previous_wrap(&mut self)
        requires
            old(self).wf(),
        ensures
            final(self).wf(),
            final(self)@.items == old(self)@.items,
            final(self)@.selected == old(self)@.previous_selection(),
    {
        let len = self.items.len();
        if len == 0 {
            return ;
        }
        let previous = match self.selected {
            None => 0,
            Some(i) => if i == 0 {
                len - 1
            } else {
                i - 1
            },
        };
        self.selected = Some(previous);
    }

    /// Selects nothing.
    pub fn clear_selection(&mut self)
        ensures
            final(self).wf(),
            final(self)@.items == old(self)@.items,
            final(self)@.selected == None::<usize>,
    {
        self.selected = None;
    }

    /// The selected row, if there is one.
    pub fn current_selection(&self) -> (row: Option<&T>)
        requires
            self.wf(),
        ensures
            match self@.selected {
                Some(i) => row == Some(&self@.items[i as int]),
                None => row is None,
            },
    {
        match self.selected {
            Some(i) => Some(&self.items[i]),
            None => None,
        }
    }

    /// The place of the selected row, if there is one.
    pub fn selected_index(&self) -> (index: Option<usize>)
        ensures
            index == self@.selected,
    {
        self.selected
    }

    /// The rows.
    pub fn items(&self) -> (items: &Vec<T>)
        ensures
            items@ == self@.items,
    {
        &self.items
    }
}

} // verus!
