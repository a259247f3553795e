//! The table of the allocation queues.
use crate::dashboard::data::alloc_timeline::{AllocationQueueInfo, DescriptorId};
use crate::dashboard::ui::widgets::table::{StatefulTable, TableView};
use crate::Timestamp;
use vstd::prelude::*;

verus! {

/// One row of the table: one allocation queue.
#[derive(Debug, Clone, Copy, PartialEq, Eq, Structural)]
pub struct QueueInfoRow {
    pub descriptor_id: DescriptorId,
    pub num_allocations: usize,
    pub creation_time: Timestamp,
    pub removal_time: Option<Timestamp>,
}

/// The row that shows an allocation queue.
pub open spec fn queue_row(entry: (&DescriptorId, &AllocationQueueInfo)) -> QueueInfoRow {
    QueueInfoRow {
        descriptor_id: *entry.0,
        num_allocations: entry.1.allocations@.len() as usize,
        creation_time: entry.1.creation_time,
        removal_time: entry.1.removal_time,
    }
}

/// The rows that show `queues`, one for each, in their order.
pub fn create_rows(queues: Vec<(&DescriptorId, &AllocationQueueInfo)>) -> (rows: Vec<QueueInfoRow>)
    ensures
        rows@ == queues@.map_values(|e: (&DescriptorId, &AllocationQueueInfo)| queue_row(e)),
{
    let mut rows: Vec<QueueInfoRow> = Vec::new();
    let mut i: usize = 0;
    while i < queues.len()
        invariant
            i <= queues@.len(),
            rows@ == queues@.take(i as int).map_values(
                |e: (&DescriptorId, &AllocationQueueInfo)| queue_row(e),
            ),
        decreases queues@.len() - i,
    {
        let entry = &queues[i];
        let row = QueueInfoRow {
            descriptor_id: *entry.0,
            num_allocations: entry.1.allocations.len(),
            creation_time: entry.1.creation_time,
            removal_time: entry.1.removal_time,
        };
        rows.push(row);
        i = i + 1;
    }
    rows
}

/// The table of the allocation queues.
pub struct AllocationQueueInfoTable {
    table: StatefulTable<QueueInfoRow>,
}

impl View for AllocationQueueInfoTable {
    type V = TableView<QueueInfoRow>;

    closed spec fn view(&self) -> TableView<QueueInfoRow> {
        self.table@
    }
}

impl AllocationQueueInfoTable {
    /// A selection, if there is one, points at a row.
    pub open spec fn wf(&self) -> bool {
        self@.wf()
    }

    /// A table without rows.
    pub fn new() -> (table: Self)
        ensures
            table.wf(),
            table@.items == Seq::<QueueInfoRow>::empty(),
            table@.selected == None::<usize>,
    {
        AllocationQueueInfoTable { table: StatefulTable::new() }
    }

    /// Shows `queue_infos` instead of what was shown. The selection stays on its place as far
    /// as there is a row.
    pub fn update(&mut self, queue_infos: Vec<(&DescriptorId, &AllocationQueueInfo)>)
        requires
            old(self).wf(),
        ensures
            final(self).wf(),
            final(self)@.items == queue_infos@.map_values(
                |e: (&DescriptorId, &AllocationQueueInfo)| queue_row(e),
            ),
            final(self)@.selected == old(self)@.selection_for(queue_infos@.len()),
    {
        let rows = create_rows(queue_infos);
        self.table.set_items(rows);
    }

    /// Moves the selection one row down, from the last row to the first.
    pub fn select_next_queue(&mut self)
        requires
            old(self).wf(),
        ensures
            final(self).wf(),
            final(self)@.items == old(self)@.items,
            final(self)@.selected == old(self)@.next_selection(),
    {
        self.table.select_next_wrap();
    }

    /// Moves the selection one row up, from the first row to the last.
    pub fn select_previous_queue(&mut self)
        requires
            old(self).wf(),
        ensures
            final(self).wf(),
            final(self)@.items == old(self)@.items,
            final(self)@.selected == old(self)@.previous_selection(),
    {
        self.table.select_previous_wrap();
    }

    /// The queue of the selected row, if a row is selected.
    pub fn get_selected_queue_descriptor(&self) -> (id: Option<DescriptorId>)
        requires
            self.wf(),
        ensures
            id == match self@.selected {
                Some(i) => Some(self@.items[i as int].descriptor_id),
                None => None,
            },
    {
        match self.table.current_selection() {
            Some(row) => Some(row.descriptor_id),
            None => None,
        }
    }

    /// The place of the selected row, if a row is selected.
    pub fn selected_index(&self) -> (index: Option<usize>)
        ensures
            index == self@.selected,
    {
        self.table.selected_index()
    }

    /// The rows.
    pub fn rows(&self) -> (rows: &Vec<QueueInfoRow>)
        ensures
            rows@ == self@.items,
    {
        self.table.items()
    }
}

impl Default for AllocationQueueInfoTable {
    fn default() -> (table: Self)
        ensures
            table.wf(),
            table@.items == Seq::<QueueInfoRow>::empty(),
            table@.selected == None::<usize>,
    {
        AllocationQueueInfoTable::new()
    }
}

} // verus!
