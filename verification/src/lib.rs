//! Normalization and synthesis of script-visible VR display events.
//!
//! A closed set of engine-internal device notifications is translated, under
//! strict validity rules, into a public event object with a frozen vocabulary
//! of type names and reason codes. The same factory also serves the
//! script-facing constructor, so both entry paths share one construction rule.

pub mod event;
pub mod global;
pub mod reason;
pub mod vrdisplayevent;
pub mod webvr;
