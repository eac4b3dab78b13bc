use fenster::output::{HeadEvent, ModeEvent, OutputHead, OutputMode, OutputTransform, Transform};
use fenster::state::{output_manager_version, HeadAction, ManagerEvent, ModeAction, State};

fn state_with_head(id: u32) -> State {
    let mut s = State::new();
    s.handle_manager_event(ManagerEvent::Head { head: id });
    s
}

#[test]
fn new_head_and_mode_are_blank() {
    let h = OutputHead::new();
    assert_eq!(h.name, None);
    assert!(!h.enabled);
    assert_eq!(h.scale, 256);
    assert_eq!(h.transform, OutputTransform { deg: 0, flipped: false });
    assert!(h.modes.is_empty());
    let m = OutputMode::new();
    assert_eq!((m.size, m.refresh, m.preferred), ((0, 0), 0, false));
}

#[test]
fn transforms_split_into_rotation_and_flip() {
    let all = [
        (Transform::Normal, 0, false),
        (Transform::Rotated90, 90, false),
        (Transform::Rotated180, 180, false),
        (Transform::Rotated270, 270, false),
        (Transform::Flipped, 0, true),
        (Transform::Flipped90, 90, true),
        (Transform::Flipped180, 180, true),
        (Transform::Flipped270, 270, true),
    ];
    for (t, deg, flipped) in all {
        assert_eq!(OutputTransform::from_transform(t), OutputTransform { deg, flipped });
    }
}

#[test]
fn head_events_set_their_fields() {
    let mut s = state_with_head(7);
    assert_eq!(s.handle_head_event(7, HeadEvent::Name { name: "DP-1".to_string() }), HeadAction::Applied);
    s.handle_head_event(7, HeadEvent::Enabled { enabled: 2 });
    s.handle_head_event(7, HeadEvent::Position { x: 1920, y: -5 });
    s.handle_head_event(7, HeadEvent::Transform { transform: Some(Transform::Flipped90) });
    s.handle_head_event(7, HeadEvent::Scale { scale: 384 });
    s.handle_head_event(7, HeadEvent::AdaptiveSync { state: Some(true) });
    s.handle_head_event(7, HeadEvent::CurrentMode { mode: 11 });
    s.handle_head_event(7, HeadEvent::PhysicalSize { width: 600, height: 340 });
    s.handle_head_event(7, HeadEvent::Make { make: "ACME".to_string() });
    let h = &s.output_heads[&7];
    assert_eq!(h.name.as_deref(), Some("DP-1"));
    assert!(h.enabled);
    assert_eq!(h.position, (1920, -5));
    assert_eq!(h.transform, OutputTransform { deg: 90, flipped: true });
    assert_eq!(h.scale, 384);
    assert!(h.adadptive_sync);
    assert_eq!(h.current_mode, Some(11));
    assert_eq!(h.physical_size, Some((600, 340)));
    assert_eq!(h.manufacturer.as_deref(), Some("ACME"));
}

#[test]
fn undefined_values_leave_the_head_alone() {
    let mut s = state_with_head(1);
    s.handle_head_event(1, HeadEvent::Transform { transform: Some(Transform::Rotated180) });
    s.handle_head_event(1, HeadEvent::AdaptiveSync { state: Some(true) });
    s.handle_head_event(1, HeadEvent::Transform { transform: None });
    s.handle_head_event(1, HeadEvent::AdaptiveSync { state: None });
    assert_eq!(s.output_heads[&1].transform, OutputTransform { deg: 180, flipped: false });
    assert!(s.output_heads[&1].adadptive_sync);
    assert_eq!(s.handle_head_event(1, HeadEvent::Unsupported), HeadAction::UnsupportedEvent);
    s.handle_head_event(1, HeadEvent::Enabled { enabled: 0 });
    assert!(!s.output_heads[&1].enabled);
}

#[test]
fn unknown_head_changes_nothing() {
    let mut s = state_with_head(1);
    assert_eq!(s.handle_head_event(2, HeadEvent::Finished), HeadAction::UnknownHead);
    assert_eq!(s.handle_head_event(2, HeadEvent::Name { name: "x".to_string() }), HeadAction::UnknownHead);
    assert_eq!(s.output_heads.len(), 1);
    assert_eq!(s.output_heads[&1].name, None);
}

#[test]
fn other_heads_are_untouched() {
    let mut s = state_with_head(1);
    s.add_head(2);
    s.handle_head_event(2, HeadEvent::Name { name: "HDMI-A-1".to_string() });
    s.handle_head_event(1, HeadEvent::Finished);
    assert!(!s.output_heads.contains_key(&1));
    assert_eq!(s.output_heads[&2].name.as_deref(), Some("HDMI-A-1"));
}

#[test]
fn announced_then_finished_head_is_gone() {
    let mut s = state_with_head(4);
    assert_eq!(s.handle_head_event(4, HeadEvent::Finished), HeadAction::Release);
    assert!(s.output_heads.is_empty());
}

#[test]
fn modes_follow_their_events() {
    let mut s = state_with_head(3);
    assert_eq!(s.handle_head_event(3, HeadEvent::Mode { mode: 20 }), HeadAction::TagMode { mode: 20 });
    assert_eq!(s.handle_mode_event(Some(3), 20, ModeEvent::Size { width: 2560, height: 1440 }), ModeAction::Keep);
    s.handle_mode_event(Some(3), 20, ModeEvent::Refresh { refresh: 143_912 });
    s.handle_mode_event(Some(3), 20, ModeEvent::Preferred);
    let m = s.output_heads[&3].modes[&20];
    assert_eq!((m.size, m.refresh, m.preferred), ((2560, 1440), 143_912, true));
    assert_eq!(s.handle_mode_event(Some(3), 20, ModeEvent::Finished), ModeAction::Release);
    assert!(s.output_heads[&3].modes.is_empty());
}

#[test]
fn mode_events_without_known_owner_are_ignored() {
    let mut s = state_with_head(3);
    assert_eq!(s.handle_mode_event(None, 20, ModeEvent::Finished), ModeAction::Keep);
    assert_eq!(s.handle_mode_event(Some(9), 20, ModeEvent::Preferred), ModeAction::Keep);
    assert!(s.output_heads[&3].modes.is_empty());
}

#[test]
fn mode_event_for_unannounced_mode_adds_it() {
    let mut s = state_with_head(3);
    s.handle_mode_event(Some(3), 5, ModeEvent::Refresh { refresh: 60_000 });
    let m = s.output_heads[&3].modes[&5];
    assert_eq!((m.size, m.refresh, m.preferred), ((0, 0), 60_000, false));
}

#[test]
fn manager_events() {
    let mut s = State::new();
    s.set_output_manager(12);
    s.handle_manager_event(ManagerEvent::Done { serial: 42 });
    assert_eq!(s.output_manager_serial, 42);
    s.handle_manager_event(ManagerEvent::Head { head: 1 });
    s.handle_manager_event(ManagerEvent::Finished);
    assert_eq!(s.output_manager, None);
    assert_eq!(s.output_manager_serial, 0);
    assert_eq!(s.output_heads.len(), 1);
}

#[test]
fn announcing_a_head_again_resets_it() {
    let mut s = state_with_head(1);
    s.handle_head_event(1, HeadEvent::Name { name: "a".to_string() });
    s.handle_manager_event(ManagerEvent::Head { head: 1 });
    assert_eq!(s.output_heads[&1].name, None);
}

#[test]
fn output_manager_binding() {
    let iface = "zwlr_output_manager_v1".to_string();
    assert_eq!(output_manager_version(&iface, 2), Some(2));
    assert_eq!(output_manager_version(&iface, 4), Some(4));
    assert_eq!(output_manager_version(&iface, 9), Some(4));
    assert_eq!(output_manager_version(&"wl_output".to_string(), 4), None);
}
