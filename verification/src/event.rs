use vstd::prelude::*;

verus! {

/// A platform event delivered to the event loop: window lifecycle, input
/// delivery, or an OS signal.
#[derive(Clone, Copy, Debug, PartialEq, Eq, Structural)]
pub enum PlatformEvent {
    /// The user asked to close a top-level window.
    CloseRequested,
    /// Input was delivered to a window.
    Input,
    /// A window gained or lost focus.
    Focus,
    /// A window was resized.
    Resized,
    /// The OS or the runtime asked the application to quit.
    ExitRequested,
}

/// What a shell-level callback asks the runtime to do with an event.
#[derive(Clone, Copy, Debug, PartialEq, Eq, Structural)]
pub enum Disposition {
    /// Let the event fall through to default platform handling.
    PassThrough,
}

/// The shell-level event interception capability. The bootstrap installs
/// `NoOp`, under which every event falls through to default platform
/// handling; a shell that intercepts events would add a variant here.
#[derive(Clone, Copy, Debug, PartialEq, Eq, Structural)]
pub enum EventHandler {
    /// Perform no action for any event.
    NoOp,
}

impl EventHandler {
    /// What this handler asks for a given event.
    pub open spec fn spec_dispatch(self, event: PlatformEvent) -> Disposition {
        match self {
            EventHandler::NoOp => Disposition::PassThrough,
        }
    }

    /// Run the callback on one event. The no-op handler never intercepts.
    pub fn dispatch(&self, event: &PlatformEvent) -> (d: Disposition)
        ensures
            d == self.spec_dispatch(*event),
    {
        match self {
            EventHandler::NoOp => Disposition::PassThrough,
        }
    }
}

} // verus!
