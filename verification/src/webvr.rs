//! The internal device-event vocabulary and its translation to the frozen
//! public type names.
//!
//! The producer's vocabulary is wider than what this layer is defined for:
//! four of its variants exist for other consumers. Meeting one of them here is
//! a contract violation by the producer, routed to an explicit marker that is
//! never mistaken for a recoverable error.

use vstd::prelude::*;

use crate::reason::{reason_mapping, VRDisplayEventReason, WebVRDisplayEventReason};

verus! {

/// A device state-change notification from the engine-internal producer. Each
/// variant carries the stable identifier of the display device that raised it;
/// activate and deactivate also carry why, and a presentation change carries
/// whether the device is now presenting.
#[derive(Clone, Copy, Debug, PartialEq, Eq, Structural)]
pub enum WebVRDisplayEvent {
    Connect(u32),
    Disconnect(u32),
    Activate(u32, WebVRDisplayEventReason),
    Deactivate(u32, WebVRDisplayEventReason),
    Blur(u32),
    Focus(u32),
    PresentChange(u32, bool),
    Change(u32),
    Pause(u32),
    Resume(u32),
    Exit(u32),
}

/// Which internal variants this translation layer is defined for. Change,
/// Pause, Resume and Exit serve other consumers of the internal vocabulary:
/// a producer handing one to this layer has drifted out of contract.
pub open spec fn event_valid(e: WebVRDisplayEvent) -> bool {
    match e {
        WebVRDisplayEvent::Connect(_) => true,
        WebVRDisplayEvent::Disconnect(_) => true,
        WebVRDisplayEvent::Activate(_, _) => true,
        WebVRDisplayEvent::Deactivate(_, _) => true,
        WebVRDisplayEvent::Blur(_) => true,
        WebVRDisplayEvent::Focus(_) => true,
        WebVRDisplayEvent::PresentChange(_, _) => true,
        WebVRDisplayEvent::Change(_) => false,
        WebVRDisplayEvent::Pause(_) => false,
        WebVRDisplayEvent::Resume(_) => false,
        WebVRDisplayEvent::Exit(_) => false,
    }
}

/// The frozen public type name synthesized for a valid internal variant.
pub open spec fn event_type_name(e: WebVRDisplayEvent) -> Seq<char>
    recommends
        event_valid(e),
{
    match e {
        WebVRDisplayEvent::Connect(_) => "vrdisplayconnect"@,
        WebVRDisplayEvent::Disconnect(_) => "vrdisplaydisconnect"@,
        WebVRDisplayEvent::Activate(_, _) => "vrdisplayactivate"@,
        WebVRDisplayEvent::Deactivate(_, _) => "vrdisplaydeactivate"@,
        WebVRDisplayEvent::Blur(_) => "vrdisplayblur"@,
        WebVRDisplayEvent::Focus(_) => "vrdisplayfocus"@,
        WebVRDisplayEvent::PresentChange(_, _) => "vrdisplaypresentchange"@,
        _ => Seq::<char>::empty(),
    }
}

/// The internal reason a variant carries: present exactly for activate and
/// deactivate.
pub open spec fn event_reason(e: WebVRDisplayEvent) -> Option<WebVRDisplayEventReason> {
    match e {
        WebVRDisplayEvent::Activate(_, r) => Some(r),
        WebVRDisplayEvent::Deactivate(_, r) => Some(r),
        _ => None,
    }
}

/// The public reason code the synthesized event will carry: the carried
/// internal reason pushed through the reason mapper, absent where none is
/// carried.
pub open spec fn event_public_reason(e: WebVRDisplayEvent) -> Option<VRDisplayEventReason> {
    match event_reason(e) {
        Some(r) => Some(reason_mapping(r)),
        None => None,
    }
}

impl WebVRDisplayEvent {
    /// True exactly for the variants this layer may translate.
    pub fn is_valid(&self) -> (b: bool)
        ensures
            b == event_valid(*self),
    {
        match *self {
            WebVRDisplayEvent::Connect(_) => true,
            WebVRDisplayEvent::Disconnect(_) => true,
            WebVRDisplayEvent::Activate(_, _) => true,
            WebVRDisplayEvent::Deactivate(_, _) => true,
            WebVRDisplayEvent::Blur(_) => true,
            WebVRDisplayEvent::Focus(_) => true,
            WebVRDisplayEvent::PresentChange(_, _) => true,
            WebVRDisplayEvent::Change(_) => false,
            WebVRDisplayEvent::Pause(_) => false,
            WebVRDisplayEvent::Resume(_) => false,
            WebVRDisplayEvent::Exit(_) => false,
        }
    }
}

/// What translating an internal variant yields: the frozen type name together
/// with the carried internal reason, or the producer-contract-violation
/// marker. The marker is deliberately a variant of its own, not an ordinary
/// error: call sites must never treat it as a recoverable condition.
pub enum EventTranslation {
    Valid { name: String, reason: Option<WebVRDisplayEventReason> },
    ContractViolation,
}

/// Translates an internal device-event variant to its public type name and
/// carried reason. Total: the variants outside the translation table yield
/// the contract-violation marker, and only they do.
pub fn translate_event(event: &WebVRDisplayEvent) -> (t: EventTranslation)
    ensures
        event_valid(*event) ==> (t matches EventTranslation::Valid { name, reason }
            && name@ == event_type_name(*event)
            && reason == event_reason(*event)),
        !event_valid(*event) ==> t is ContractViolation,
{
    match *event {
        WebVRDisplayEvent::Connect(_) => EventTranslation::Valid {
            name: "vrdisplayconnect".to_owned(),
            reason: None,
        },
        WebVRDisplayEvent::Disconnect(_) => EventTranslation::Valid {
            name: "vrdisplaydisconnect".to_owned(),
            reason: None,
        },
        WebVRDisplayEvent::Activate(_, r) => EventTranslation::Valid {
            name: "vrdisplayactivate".to_owned(),
            reason: Some(r),
        },
        WebVRDisplayEvent::Deactivate(_, r) => EventTranslation::Valid {
            name: "vrdisplaydeactivate".to_owned(),
            reason: Some(r),
        },
        WebVRDisplayEvent::Blur(_) => EventTranslation::Valid {
            name: "vrdisplayblur".to_owned(),
            reason: None,
        },
        WebVRDisplayEvent::Focus(_) => EventTranslation::Valid {
            name: "vrdisplayfocus".to_owned(),
            reason: None,
        },
        WebVRDisplayEvent::PresentChange(_, _) => EventTranslation::Valid {
            name: "vrdisplaypresentchange".to_owned(),
            reason: None,
        },
        WebVRDisplayEvent::Change(_) => EventTranslation::ContractViolation,
        WebVRDisplayEvent::Pause(_) => EventTranslation::ContractViolation,
        WebVRDisplayEvent::Resume(_) => EventTranslation::ContractViolation,
        WebVRDisplayEvent::Exit(_) => EventTranslation::ContractViolation,
    }
}

/// The variants this layer is not defined for can never be synthesized: they
/// are invalid here, so translation yields the contract-violation marker and
/// the synthesis path refuses them by precondition. The fail-fast abort on
/// meeting one at run time belongs to the producer boundary, outside this
/// library.
pub proof fn lemma_untranslatable_variants(e: WebVRDisplayEvent)
    requires
        e matches WebVRDisplayEvent::Change(_) || e matches WebVRDisplayEvent::Pause(_)
            || e matches WebVRDisplayEvent::Resume(_) || e matches WebVRDisplayEvent::Exit(_),
    ensures
        !event_valid(e),
{
}

} // verus!
