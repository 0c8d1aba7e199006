//! The two reason vocabularies and the mapper joining them.
//!
//! The internal vocabulary belongs to the device-event producer and may grow
//! to serve other consumers; the public one is frozen API. They are kept as
//! two distinct enumerations joined only by the explicit mapper, so that an
//! internal-only future value can never leak into the public surface.

use vstd::prelude::*;

verus! {

/// Reason code attached by the engine-internal producer to activate and
/// deactivate device events.
#[derive(Clone, Copy, Debug, PartialEq, Eq, Structural)]
pub enum WebVRDisplayEventReason {
    Navigation,
    Mounted,
    Unmounted,
}

/// Public, script-visible reason enumeration; its string spellings are frozen.
#[derive(Clone, Copy, Debug, PartialEq, Eq, Structural)]
pub enum VRDisplayEventReason {
    Navigation,
    Mounted,
    Unmounted,
}

/// The mapping from the internal reason vocabulary to the public one. Only
/// values listed here are representable publicly; an internal value outside
/// this table would be a producer contract violation, caught at compile time
/// by exhaustiveness.
pub open spec fn reason_mapping(r: WebVRDisplayEventReason) -> VRDisplayEventReason {
    match r {
        WebVRDisplayEventReason::Navigation => VRDisplayEventReason::Navigation,
        WebVRDisplayEventReason::Mounted => VRDisplayEventReason::Mounted,
        WebVRDisplayEventReason::Unmounted => VRDisplayEventReason::Unmounted,
    }
}

/// Maps an internal reason code to its public counterpart. Total over the
/// internal vocabulary.
pub fn map_reason(r: WebVRDisplayEventReason) -> (p: VRDisplayEventReason)
    ensures
        p == reason_mapping(r),
{
    match r {
        WebVRDisplayEventReason::Navigation => VRDisplayEventReason::Navigation,
        WebVRDisplayEventReason::Mounted => VRDisplayEventReason::Mounted,
        WebVRDisplayEventReason::Unmounted => VRDisplayEventReason::Unmounted,
    }
}

/// The frozen string spelling of a public reason code.
pub open spec fn reason_token(p: VRDisplayEventReason) -> Seq<char> {
    match p {
        VRDisplayEventReason::Navigation => "navigation"@,
        VRDisplayEventReason::Mounted => "mounted"@,
        VRDisplayEventReason::Unmounted => "unmounted"@,
    }
}

/// The string spelling under which script sees a public reason code.
pub fn reason_as_str(p: VRDisplayEventReason) -> (s: &'static str)
    ensures
        s@ == reason_token(p),
{
    match p {
        VRDisplayEventReason::Navigation => "navigation",
        VRDisplayEventReason::Mounted => "mounted",
        VRDisplayEventReason::Unmounted => "unmounted",
    }
}

/// The mapper is total (by exhaustiveness) and bijective over its
/// three-element domain, and pairs each internal value with the expected
/// public spelling: Navigation with "navigation", Mounted with "mounted",
/// Unmounted with "unmounted". The spellings are pairwise distinct, so the
/// pairing is one-to-one all the way down to the public strings.
pub proof fn lemma_reason_mapping_bijective()
    ensures
        forall|a: WebVRDisplayEventReason, b: WebVRDisplayEventReason|
            reason_mapping(a) == reason_mapping(b) ==> a == b,
        exists|r: WebVRDisplayEventReason|
            #[trigger] reason_mapping(r) == VRDisplayEventReason::Navigation,
        exists|r: WebVRDisplayEventReason|
            #[trigger] reason_mapping(r) == VRDisplayEventReason::Mounted,
        exists|r: WebVRDisplayEventReason|
            #[trigger] reason_mapping(r) == VRDisplayEventReason::Unmounted,
        reason_token(reason_mapping(WebVRDisplayEventReason::Navigation)) == "navigation"@,
        reason_token(reason_mapping(WebVRDisplayEventReason::Mounted)) == "mounted"@,
        reason_token(reason_mapping(WebVRDisplayEventReason::Unmounted)) == "unmounted"@,
        forall|p: VRDisplayEventReason, q: VRDisplayEventReason|
            p != q ==> reason_token(p) != reason_token(q),
{
    assert(reason_mapping(WebVRDisplayEventReason::Navigation)
        == VRDisplayEventReason::Navigation);
    assert(reason_mapping(WebVRDisplayEventReason::Mounted)
        == VRDisplayEventReason::Mounted);
    assert(reason_mapping(WebVRDisplayEventReason::Unmounted)
        == VRDisplayEventReason::Unmounted);
    reveal_strlit("navigation");
    reveal_strlit("mounted");
    reveal_strlit("unmounted");
    assert(reason_token(VRDisplayEventReason::Navigation).len() == 10);
    assert(reason_token(VRDisplayEventReason::Mounted).len() == 7);
    assert(reason_token(VRDisplayEventReason::Unmounted).len() == 9);
}

} // verus!
