//! A model of the generic event base this layer builds on.
//!
//! Propagation, phases and default-action handling live with the external
//! event collaborator; this model keeps exactly the fields this layer
//! initializes or reads: the common triple set at construction and the
//! trusted flag it delegates to.

use vstd::prelude::*;

verus! {

/// The generic event base. All fields are write-once at construction time,
/// except the trusted flag, whose assignment the dispatch machinery owns.
pub struct Event {
    pub type_: String,
    pub bubbles: bool,
    pub cancelable: bool,
    /// True only for events the engine itself fires; fresh events carry the
    /// untrusted default until the dispatch machinery marks them.
    pub trusted: bool,
}

impl Event {
    /// A blank base, as allocated before initialization: empty type name,
    /// non-bubbling, non-cancelable, untrusted.
    pub fn new_inherited() -> (e: Event)
        ensures
            e.type_@ == Seq::<char>::empty(),
            e.bubbles == false,
            e.cancelable == false,
            e.trusted == false,
    {
        Event { type_: String::new(), bubbles: false, cancelable: false, trusted: false }
    }

    /// Initializes the common fields: type name, bubbles, cancelable. The
    /// trusted flag is untouched.
    pub fn init_event(&mut self, type_: String, bubbles: bool, cancelable: bool)
        ensures
            final(self).type_ == type_,
            final(self).bubbles == bubbles,
            final(self).cancelable == cancelable,
            final(self).trusted == old(self).trusted,
    {
        self.type_ = type_;
        self.bubbles = bubbles;
        self.cancelable = cancelable;
    }

    /// The hook the dispatch machinery uses to mark an engine-fired event
    /// trusted before delivery; nothing in this layer calls it.
    pub fn set_trusted(&mut self, trusted: bool)
        ensures
            final(self).type_ == old(self).type_,
            final(self).bubbles == old(self).bubbles,
            final(self).cancelable == old(self).cancelable,
            final(self).trusted == trusted,
    {
        self.trusted = trusted;
    }

    /// The base's trusted flag.
    pub fn is_trusted(&self) -> (b: bool)
        ensures
            b == self.trusted,
    {
        self.trusted
    }
}

/// The base-event initializer shape the script-facing constructor reads;
/// members left absent by script default to false.
pub struct EventInit {
    pub bubbles: bool,
    pub cancelable: bool,
}

impl Default for EventInit {
    /// The record with every member absent: bubbles and cancelable false.
    fn default() -> (init: EventInit)
        ensures
            init.bubbles == false,
            init.cancelable == false,
    {
        EventInit { bubbles: false, cancelable: false }
    }
}

} // verus!
