//! The script-visible VR display event object and its two construction paths.
//!
//! Both the internal-producer path and the script-facing constructor converge
//! on one factory, so the construction rule lives in exactly one place. The
//! producer path demands a variant the translation table is defined for; the
//! script path accepts any type string and validates nothing.

use vstd::prelude::*;

use crate::event::{Event, EventInit};
use crate::global::{GlobalScope, VRDisplay};
use crate::reason::{map_reason, VRDisplayEventReason};
use crate::webvr::{
    event_public_reason, event_type_name, event_valid, translate_event, EventTranslation,
    WebVRDisplayEvent,
};

verus! {

/// The script-visible event object. `display` is the non-owning key of the
/// device the event concerns; all fields are write-once at construction.
pub struct VRDisplayEvent {
    pub event: Event,
    pub display: u32,
    pub reason: Option<VRDisplayEventReason>,
}

/// The fields a freshly built event object shows: the common triple on the
/// base, the device key, and the optional public reason.
pub open spec fn is_event_with(
    ev: VRDisplayEvent,
    name: Seq<char>,
    bubbles: bool,
    cancelable: bool,
    display_id: u32,
    reason: Option<VRDisplayEventReason>,
) -> bool {
    &&& ev.event.type_@ == name
    &&& ev.event.bubbles == bubbles
    &&& ev.event.cancelable == cancelable
    &&& ev.display == display_id
    &&& ev.reason == reason
}

/// Construction registers exactly one new event object with the context, at
/// the returned handle, and disturbs none already registered.
pub open spec fn registers_one_event(pre: GlobalScope, post: GlobalScope, handle: usize) -> bool {
    &&& handle == pre.events@.len()
    &&& post.events@.len() == pre.events@.len() + 1
    &&& forall|i: int| 0 <= i < pre.events@.len() ==> post.events@[i] == pre.events@[i]
}

/// The initialization record the script-facing constructor reads: the display
/// is required, the reason optional, and the common pair lives in the base
/// shape with its defaults.
pub struct VRDisplayEventInit {
    pub parent: EventInit,
    pub display: VRDisplay,
    pub reason: Option<VRDisplayEventReason>,
}

impl VRDisplayEventInit {
    /// A record with only the required display member: every optional member
    /// takes its default (reason absent, bubbles and cancelable false).
    pub fn new(display: VRDisplay) -> (init: VRDisplayEventInit)
        ensures
            init.display == display,
            init.reason is None,
            init.parent.bubbles == false,
            init.parent.cancelable == false,
    {
        VRDisplayEventInit { parent: EventInit::default(), display, reason: None }
    }
}

/// A script-facing construction failure. No rule rejects an initialization
/// record today, so no function returns a value of this type; future
/// validation must surface here, typed and catchable, never through the
/// fail-fast path reserved for producer contract violations.
#[derive(Clone, Copy, Debug, PartialEq, Eq, Structural)]
pub enum ConstructionError {
    InvalidInit,
}

impl VRDisplayEvent {
    /// The bare object before base initialization: a blank base, the device
    /// key, and the reason as handed in.
    pub fn new_inherited(display: &VRDisplay, reason: Option<VRDisplayEventReason>) -> (ev:
        VRDisplayEvent)
        ensures
            ev.display == display.display_id,
            ev.reason == reason,
            ev.event.type_@ == Seq::<char>::empty(),
            ev.event.bubbles == false,
            ev.event.cancelable == false,
            ev.event.trusted == false,
    {
        VRDisplayEvent {
            event: Event::new_inherited(),
            display: display.display_id,
            reason,
        }
    }

    /// The single construction rule both entry paths share. Builds the
    /// object, initializes the base with the common triple, registers the
    /// object with the owning context, and hands back its handle. Total:
    /// callers have already validated everything.
    pub fn new(
        global: &mut GlobalScope,
        type_: String,
        bubbles: bool,
        cancelable: bool,
        display: &VRDisplay,
        reason: Option<VRDisplayEventReason>,
    ) -> (handle: usize)
        ensures
            registers_one_event(*old(global), *final(global), handle),
            is_event_with(
                final(global).events@[handle as int],
                type_@,
                bubbles,
                cancelable,
                display.display_id,
                reason,
            ),
            final(global).events@[handle as int].event.trusted == false,
    {
        let mut ev = VRDisplayEvent::new_inherited(display, reason);
        ev.event.init_event(type_, bubbles, cancelable);
        let handle = global.events.len();
        global.events.push(ev);
        handle
    }

    /// Synthesis from an internal device event: the producer path. Demands a
    /// variant the translation table is defined for — a producer handing
    /// anything else to this layer has broken its contract, and the fail-fast
    /// abort on that lives at the producer boundary, never here. The
    /// synthesized event bubbles nowhere, cannot be canceled, and carries the
    /// mapped public reason exactly when the variant carries an internal one.
    pub fn new_from_webvr(
        global: &mut GlobalScope,
        display: &VRDisplay,
        event: &WebVRDisplayEvent,
    ) -> (handle: usize)
        requires
            event_valid(*event),
        ensures
            registers_one_event(*old(global), *final(global), handle),
            is_event_with(
                final(global).events@[handle as int],
                event_type_name(*event),
                false,
                false,
                display.display_id,
                event_public_reason(*event),
            ),
            final(global).events@[handle as int].event.trusted == false,
    {
        match translate_event(event) {
            EventTranslation::Valid { name, reason } => {
                let mapped = match reason {
                    Some(r) => Some(map_reason(r)),
                    None => None,
                };
                VRDisplayEvent::new(global, name, false, false, display, mapped)
            },
            EventTranslation::ContractViolation => vstd::pervasive::unreached(),
        }
    }

    /// The script-facing constructor. The type string passes through
    /// unvalidated — script may name its events anything — and the record's
    /// members are forwarded unchanged, defaults included. Declared fallible
    /// only for parity with the other constructors of its family: every
    /// well-formed record succeeds.
    #[allow(non_snake_case)]
    pub fn Constructor(
        global: &mut GlobalScope,
        type_: String,
        init: &VRDisplayEventInit,
    ) -> (result: Result<usize, ConstructionError>)
        ensures
            ({
                &&& result matches Ok(handle)
                &&& registers_one_event(*old(global), *final(global), handle)
                &&& is_event_with(
                    final(global).events@[handle as int],
                    type_@,
                    init.parent.bubbles,
                    init.parent.cancelable,
                    init.display.display_id,
                    init.reason,
                )
                &&& final(global).events@[handle as int].event.trusted == false
            }),
    {
        Ok(
            VRDisplayEvent::new(
                global,
                type_,
                init.parent.bubbles,
                init.parent.cancelable,
                &init.display,
                init.reason,
            ),
        )
    }

    /// The key of the device passed at construction; the caller looks the
    /// device up under it, and reading it never extends the device's
    /// lifetime.
    #[allow(non_snake_case)]
    pub fn Display(&self) -> (d: u32)
        ensures
            d == self.display,
    {
        self.display
    }

    /// The stored optional public reason, unchanged.
    #[allow(non_snake_case)]
    pub fn GetReason(&self) -> (r: Option<VRDisplayEventReason>)
        ensures
            r == self.reason,
    {
        self.reason
    }

    /// Delegates to the base's trusted flag, whose assignment the dispatch
    /// machinery owns; this layer only reads it.
    #[allow(non_snake_case)]
    pub fn IsTrusted(&self) -> (b: bool)
        ensures
            b == self.event.trusted,
    {
        self.event.is_trusted()
    }
}

/// What the factory records is what the accessors report: an event built with
/// a given type name, device key and reason shows exactly that key behind
/// `Display`, that reason behind `GetReason`, and that name on its base —
/// on both construction paths, which state `is_event_with` of what they
/// registered.
pub proof fn lemma_construction_projections(
    ev: VRDisplayEvent,
    name: Seq<char>,
    bubbles: bool,
    cancelable: bool,
    display_id: u32,
    reason: Option<VRDisplayEventReason>,
)
    requires
        is_event_with(ev, name, bubbles, cancelable, display_id, reason),
    ensures
        ev.display == display_id,
        ev.reason == reason,
        ev.event.type_@ == name,
{
}

} // verus!
