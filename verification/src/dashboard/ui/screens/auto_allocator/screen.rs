//! The screen of the automatic allocator.
use crate::dashboard::data::alloc_timeline::{
    AllocationId, AllocationInfo, AllocationQueueInfo, DescriptorId,
};
use crate::dashboard::ui::screen::{Key, ScreenController, ScreenKind};
use crate::dashboard::ui::screens::auto_allocator::allocations_info_table::{
    allocation_row, AllocationInfoRow, AllocationInfoTable,
};
use crate::dashboard::ui::screens::auto_allocator::queue_info_table::{
    queue_row, AllocationQueueInfoTable, QueueInfoRow,
};
use crate::dashboard::ui::widgets::table::TableView;
use vstd::prelude::*;

verus! {

/// The screen of the automatic allocator: the table of the allocation queues, and the table of
/// the allocations of the queue that is selected.
pub struct AutoAllocatorScreen {
    queue_info_table: AllocationQueueInfoTable,
    allocations_info_table: AllocationInfoTable,
}

/// The screen as a mathematical value.
pub struct AutoAllocatorScreenView {
    pub queues: TableView<QueueInfoRow>,
    pub allocations: TableView<AllocationInfoRow>,
}

impl View for AutoAllocatorScreen {
    type V = AutoAllocatorScreenView;

    closed spec fn view(&self) -> AutoAllocatorScreenView {
        AutoAllocatorScreenView {
            queues: self.queue_info_table@,
            allocations: self.allocations_info_table@,
        }
    }
}

impl AutoAllocatorScreen {
    /// In both tables a selection, if there is one, points at a row.
    pub open spec fn wf(&self) -> bool {
        self@.queues.wf() && self@.allocations.wf()
    }

    /// A screen with empty tables.
    pub fn new() -> (screen: Self)
        ensures
            screen.wf(),
            screen@.queues.items == Seq::<QueueInfoRow>::empty(),
            screen@.queues.selected == None::<usize>,
            screen@.allocations.items == Seq::<AllocationInfoRow>::empty(),
            screen@.allocations.selected == None::<usize>,
    {
        AutoAllocatorScreen {
            queue_info_table: AllocationQueueInfoTable::new(),
            allocations_info_table: AllocationInfoTable::new(),
        }
    }

    /// Shows the queues that there are now. If one of them is selected afterwards, the table of
    /// allocations shows its allocations; otherwise that table stays as it is.
    pub fn update(&mut self, queue_infos: Vec<(&DescriptorId, &AllocationQueueInfo)>)
        requires
            old(self).wf(),
        ensures
            final(self).wf(),
            final(self)@.queues.items == queue_infos@.map_values(
                |e: (&DescriptorId, &AllocationQueueInfo)| queue_row(e),
            ),
            final(self)@.queues.selected == old(self)@.queues.selection_for(queue_infos@.len()),
            match final(self)@.queues.selected {
                Some(i) => {
                    &&& final(self)@.allocations.items
                        == queue_infos@[i as int].1.allocations@.map_values(
                        |e: (AllocationId, AllocationInfo)| allocation_row(e),
                    )
                    &&& final(self)@.allocations.selected == old(self)@.allocations.selection_for(
                        queue_infos@[i as int].1.allocations@.len(),
                    )
                },
                None => final(self)@.allocations == old(self)@.allocations,
            },
    {
        let mut selected: Option<&AllocationQueueInfo> = None;
        let chosen = match self.queue_info_table.selected_index() {
            None => None,
            Some(i) => if queue_infos.len() == 0 {
                None
            } else if i < queue_infos.len() {
                Some(i)
            } else {
                Some(queue_infos.len() - 1)
            },
        };
        if let Some(i) = chosen {
            selected = Some(queue_infos[i].1);
        }
        self.queue_info_table.update(queue_infos);
        if let Some(info) = selected {
            self.allocations_info_table.update(info.allocations.as_slice());
        }
    }

    /// Reacts to a key: down and up move the selection in the table of queues, right asks for
    /// the overview of the cluster, and every other key does nothing.
    pub fn handle_key(&mut self, key: Key, controller: &mut ScreenController)
        requires
            old(self).wf(),
        ensures
            final(self).wf(),
            final(self)@.allocations == old(self)@.allocations,
            final(self)@.queues.items == old(self)@.queues.items,
            final(self)@.queues.selected == match key {
                Key::Down => old(self)@.queues.next_selection(),
                Key::Up => old(self)@.queues.previous_selection(),
                _ => old(self)@.queues.selected,
            },
            final(controller).requested == match key {
                Key::Right => Some(ScreenKind::ClusterOverview),
                _ => old(controller).requested,
            },
    {
        match key {
            Key::Down => self.queue_info_table.select_next_queue(),
            Key::Up => self.queue_info_table.select_previous_queue(),
            Key::Right => controller.show_cluster_overview(),
            _ => {},
        }
    }

    /// The queue that is selected, if one is.
    pub fn selected_queue(&self) -> (id: Option<DescriptorId>)
        requires
            self.wf(),
        ensures
            id == match self@.queues.selected {
                Some(i) => Some(self@.queues.items[i as int].descriptor_id),
                None => None,
            },
    {
        self.queue_info_table.get_selected_queue_descriptor()
    }

    /// The table of the allocation queues.
    pub fn queue_info_table(&self) -> (table: &AllocationQueueInfoTable)
        ensures
            table@ == self@.queues,
    {
        &self.queue_info_table
    }

    /// The table of the allocations of the selected queue.
    pub fn allocations_info_table(&self) -> (table: &AllocationInfoTable)
        ensures
            table@ == self@.allocations,
    {
        &self.allocations_info_table
    }
}

impl Default for AutoAllocatorScreen {
    fn default() -> (screen: Self)
        ensures
            screen.wf(),
            screen@.queues.items == Seq::<QueueInfoRow>::empty(),
            screen@.queues.selected == None::<usize>,
            screen@.allocations.items == Seq::<AllocationInfoRow>::empty(),
            screen@.allocations.selected == None::<usize>,
    {
        AutoAllocatorScreen::new()
    }
}

} // verus!
