//! The script-facing constructor and the accessors.

use vr_display_event::event::{Event, EventInit};
use vr_display_event::global::{GlobalScope, VRDisplay};
use vr_display_event::reason::VRDisplayEventReason;
use vr_display_event::vrdisplayevent::{VRDisplayEvent, VRDisplayEventInit};

#[test]
fn constructor_with_defaults() {
    let mut g = GlobalScope::new();
    let d = VRDisplay { display_id: 11 };
    let init = VRDisplayEventInit::new(d);
    let h = VRDisplayEvent::Constructor(&mut g, "custom".to_string(), &init)
        .expect("construction is total");
    let ev = g.event(h);
    assert_eq!(ev.event.type_, "custom");
    assert!(!ev.event.bubbles);
    assert!(!ev.event.cancelable);
    assert_eq!(ev.GetReason(), None);
    assert_eq!(ev.Display(), 11);
}

#[test]
fn constructor_reason_round_trips() {
    let mut g = GlobalScope::new();
    let d = VRDisplay { display_id: 12 };
    let mut init = VRDisplayEventInit::new(d);
    init.reason = Some(VRDisplayEventReason::Mounted);
    let h = VRDisplayEvent::Constructor(&mut g, "vrdisplayactivate".to_string(), &init)
        .expect("construction is total");
    let ev = g.event(h);
    assert_eq!(ev.GetReason(), Some(VRDisplayEventReason::Mounted));
    assert_eq!(
        vr_display_event::reason::reason_as_str(ev.GetReason().unwrap()),
        "mounted"
    );
}

#[test]
fn constructor_forwards_base_members() {
    let mut g = GlobalScope::new();
    let d = VRDisplay { display_id: 13 };
    let init = VRDisplayEventInit {
        parent: EventInit { bubbles: true, cancelable: true },
        display: d,
        reason: None,
    };
    let h = VRDisplayEvent::Constructor(&mut g, "anything at all".to_string(), &init)
        .expect("construction is total");
    let ev = g.event(h);
    assert_eq!(ev.event.type_, "anything at all");
    assert!(ev.event.bubbles);
    assert!(ev.event.cancelable);
}

#[test]
fn constructor_never_fails() {
    let mut g = GlobalScope::new();
    let d = VRDisplay { display_id: 14 };
    let init = VRDisplayEventInit::new(d);
    assert!(VRDisplayEvent::Constructor(&mut g, String::new(), &init).is_ok());
}

#[test]
fn display_references_construction_device_on_both_paths() {
    let mut g = GlobalScope::new();
    let d = VRDisplay { display_id: 21 };
    let script = VRDisplayEvent::Constructor(&mut g, "x".to_string(), &VRDisplayEventInit::new(d))
        .expect("construction is total");
    let internal = VRDisplayEvent::new_from_webvr(
        &mut g,
        &d,
        &vr_display_event::webvr::WebVRDisplayEvent::Focus(21),
    );
    assert_eq!(g.event(script).Display(), 21);
    assert_eq!(g.event(internal).Display(), 21);
}

#[test]
fn events_start_untrusted_on_both_paths() {
    let mut g = GlobalScope::new();
    let d = VRDisplay { display_id: 22 };
    let script = VRDisplayEvent::Constructor(&mut g, "x".to_string(), &VRDisplayEventInit::new(d))
        .expect("construction is total");
    let internal = VRDisplayEvent::new_from_webvr(
        &mut g,
        &d,
        &vr_display_event::webvr::WebVRDisplayEvent::Connect(22),
    );
    assert!(!g.event(script).IsTrusted());
    assert!(!g.event(internal).IsTrusted());
}

#[test]
fn dispatch_hook_marks_the_base_trusted() {
    let mut e = Event::new_inherited();
    assert!(!e.is_trusted());
    e.set_trusted(true);
    assert!(e.is_trusted());
    e.set_trusted(false);
    assert!(!e.is_trusted());
}

#[test]
fn new_inherited_is_blank_but_for_its_arguments() {
    let d = VRDisplay { display_id: 31 };
    let ev = VRDisplayEvent::new_inherited(&d, Some(VRDisplayEventReason::Navigation));
    assert_eq!(ev.event.type_, "");
    assert!(!ev.event.bubbles);
    assert!(!ev.event.cancelable);
    assert!(!ev.event.trusted);
    assert_eq!(ev.display, 31);
    assert_eq!(ev.reason, Some(VRDisplayEventReason::Navigation));
}

#[test]
fn event_init_defaults_are_false() {
    let init = EventInit::default();
    assert!(!init.bubbles);
    assert!(!init.cancelable);
}
