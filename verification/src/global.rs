//! The owning script-execution context and the display device key.
//!
//! The event object never owns the device that raised it: it records only the
//! stable identifier under which the device registry knows the device, so
//! holding an event cannot keep an unreachable device alive. The context is
//! modelled as the arena that registers every event object created in it;
//! a handle into that arena stands for a rooted reference.

use vstd::prelude::*;

use crate::vrdisplayevent::VRDisplayEvent;

verus! {

/// A VR display device, stood for by its stable identifier.
#[derive(Clone, Copy, Debug, PartialEq, Eq, Structural)]
pub struct VRDisplay {
    pub display_id: u32,
}

/// The script execution context that owns object lifetimes. Every event
/// object is registered here at creation; reclamation of the arena itself is
/// the hosting runtime's business.
pub struct GlobalScope {
    pub events: Vec<VRDisplayEvent>,
}

impl GlobalScope {
    /// A context with no event objects registered yet.
    pub fn new() -> (g: GlobalScope)
        ensures
            g.events@.len() == 0,
    {
        GlobalScope { events: Vec::new() }
    }

    /// How many event objects this context has registered.
    pub fn event_count(&self) -> (n: usize)
        ensures
            n == self.events@.len(),
    {
        self.events.len()
    }

    /// The event object behind a handle handed out at construction.
    pub fn event(&self, handle: usize) -> (ev: &VRDisplayEvent)
        requires
            handle < self.events@.len(),
        ensures
            *ev == self.events@[handle as int],
    {
        &self.events[handle]
    }
}

} // verus!
