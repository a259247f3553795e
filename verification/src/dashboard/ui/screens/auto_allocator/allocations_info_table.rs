//! The table of the allocations of one allocation queue.
use crate::dashboard::data::alloc_timeline::{AllocationId, AllocationInfo};
use crate::dashboard::ui::widgets::table::{StatefulTable, TableView};
use crate::Timestamp;
use vstd::prelude::*;

verus! {

/// One row of the table: one allocation.
#[derive(Debug, Clone, PartialEq, Eq)]
pub struct AllocationInfoRow {
    pub allocation_id: AllocationId,
    pub num_workers: u64,
    pub queued_time: Timestamp,
    pub start_time: Option<Timestamp>,
    pub finish_time: Option<Timestamp>,
}

/// The row that shows an allocation.
pub open spec fn allocation_row(entry: (AllocationId, AllocationInfo)) -> AllocationInfoRow {
    AllocationInfoRow {
        allocation_id: entry.0,
        num_workers: entry.1.worker_count,
        queued_time: entry.1.queued_time,
        start_time: entry.1.start_time,
        finish_time: entry.1.finish_time,
    }
}

/// The rows that show `allocations`, one for each, in their order.
pub fn create_rows(allocations: &[(AllocationId, AllocationInfo)]) -> (rows: Vec<
    AllocationInfoRow,
>)
    ensures
        rows@ == allocations@.map_values(|e: (AllocationId, AllocationInfo)| allocation_row(e)),
{
    let mut rows: Vec<AllocationInfoRow> = Vec::new();
    let mut i: usize = 0;
    while i < allocations.len()
        invariant
            i <= allocations@.len(),
            rows@ == allocations@.take(i as int).map_values(
                |e: (AllocationId, AllocationInfo)| allocation_row(e),
            ),
        decreases allocations@.len() - i,
    {
        let entry = &allocations[i];
        let row = AllocationInfoRow {
            allocation_id: entry.0.clone(),
            num_workers: entry.1.worker_count,
            queued_time: entry.1.queued_time,
            start_time: entry.1.start_time,
            finish_time: entry.1.finish_time,
        };
        rows.push(row);
        i = i + 1;
    }
    rows
}

/// The table of the allocations of one allocation queue.
pub struct AllocationInfoTable {
    table: StatefulTable<AllocationInfoRow>,
}

impl View for AllocationInfoTable {
    type V = TableView<AllocationInfoRow>;

    closed spec fn view(&self) -> TableView<AllocationInfoRow> {
        self.table@
    }
}

impl AllocationInfoTable {
    /// A selection, if there is one, points at a row.
    pub open spec fn wf(&self) -> bool {
        self@.wf()
    }

    /// A table without rows.
    pub fn new() -> (table: Self)
        ensures
            table.wf(),
            table@.items == Seq::<AllocationInfoRow>::empty(),
            table@.selected == None::<usize>,
    {
        AllocationInfoTable { table: StatefulTable::new() }
    }

    /// Shows `allocation_info` instead of what was shown. The selection stays on its place as
    /// far as there is a row.
    pub fn update(&mut self, allocation_info: &[(AllocationId, AllocationInfo)])
        requires
            old(self).wf(),
        ensures
            final(self).wf(),
            final(self)@.items == allocation_info@.map_values(
                |e: (AllocationId, AllocationInfo)| allocation_row(e),
            ),
            final(self)@.selected == old(self)@.selection_for(allocation_info@.len()),
    {
        let rows = create_rows(allocation_info);
        self.table.set_items(rows);
    }

    /// Moves the selection one row down, from the last row to the first.
    pub fn select_next_allocation(&mut self)
        requires
            old(self).wf(),
        ensures
            final(self).wf(),
            final(self)@.items == old(self)@.items,
            final(self)@.selected == old(self)@.next_selection(),
    {
        self.table.select_next_wrap();
    }

    /// Moves the selection one row up, from the first row to the last.
    pub fn select_previous_allocation(&mut self)
        requires
            old(self).wf(),
        ensures
            final(self).wf(),
            final(self)@.items == old(self)@.items,
            final(self)@.selected == old(self)@.previous_selection(),
    {
        self.table.select_previous_wrap();
    }

    /// The allocation of the selected row, if a row is selected.
    pub fn get_selected_allocation_id(&self) -> (id: Option<&AllocationId>)
        requires
            self.wf(),
        ensures
            match self@.selected {
                Some(i) => id == Some(&self@.items[i as int].allocation_id),
                None => id is None,
            },
    {
        match self.table.current_selection() {
            Some(row) => Some(&row.allocation_id),
            None => None,
        }
    }

    /// Selects nothing.
    pub fn clear_selection(&mut self)
        ensures
            final(self).wf(),
            final(self)@.items == old(self)@.items,
            final(self)@.selected == None::<usize>,
    {
        self.table.clear_selection();
    }

    /// The place of the selected row, if a row is selected.
    pub fn selected_index(&self) -> (index: Option<usize>)
        ensures
            index == self@.selected,
    {
        self.table.selected_index()
    }

    /// The rows.
    pub fn rows(&self) -> (rows: &Vec<AllocationInfoRow>)
        ensures
            rows@ == self@.items,
    {
        self.table.items()
    }
}

impl Default for AllocationInfoTable {
    fn default() -> (table: Self)
        ensures
            table.wf(),
            table@.items == Seq::<AllocationInfoRow>::empty(),
            table@.selected == None::<usize>,
    {
        AllocationInfoTable::new()
    }
}

} // verus!
