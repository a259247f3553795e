//! What the screens of the dashboard have in common: the keys that they react to, and the way
//! in which one screen asks for another to be shown.
use vstd::prelude::*;

verus! {

/// A key that was pressed.
#[derive(Debug, Clone, Copy, PartialEq, Eq, Structural)]
pub enum Key {
    Up,
    Down,
    Left,
    Right,
    Char(char),
    /// Any other key.
    Other,
}

/// The screens of the dashboard.
#[derive(Debug, Clone, Copy, PartialEq, Eq, Structural)]
pub enum ScreenKind {
    ClusterOverview,
    AutoAllocator,
    Job,
}

/// Through the controller a screen asks for another screen to be shown.
#[derive(Debug, Clone, Copy, PartialEq, Eq, Structural)]
pub struct ScreenController {
    /// The screen that was asked for last and has not been shown yet.
    pub requested: Option<ScreenKind>,
}

impl ScreenController {
    /// A controller of which nothing has been asked.
    pub fn new() -> (controller: Self)
        ensures
            controller.requested == None::<ScreenKind>,
    {
        ScreenController { requested: None }
    }

    /// Asks for the overview of the cluster.
    pub fn show_cluster_overview(&mut self)
        ensures
            final(self).requested == Some(ScreenKind::ClusterOverview),
    {
        self.requested = Some(ScreenKind::ClusterOverview);
    }

    /// Asks for the screen of the automatic allocator.
    pub fn show_auto_allocator_screen(&mut self)
        ensures
            final(self).requested == Some(ScreenKind::AutoAllocator),
    {
        self.requested = Some(ScreenKind::AutoAllocator);
    }

    /// Asks for the screen of the jobs.
    pub fn show_job_screen(&mut self)
        ensures
            final(self).requested == Some(ScreenKind::Job),
    {
        self.requested = Some(ScreenKind::Job);
    }

    /// Hands out the screen that was asked for, if one was, and forgets it.
    pub fn take_request(&mut self) -> (request: Option<ScreenKind>)
        ensures
            request == old(self).requested,
            final(self).requested == None::<ScreenKind>,
    {
        let request = self.requested;
        self.requested = None;
        request
    }
}

} // verus!
