use neuma::hotkey_listener::{
    classify, parse_key, Action, Inner, TapEvent, CG_EVENT_FLAGS_CHANGED, CG_MASK_FLAGS_CHANGED,
    FLAG_CONTROL, FLAG_FUNCTION, FLAG_OPTION, VK_CONTROL, VK_FUNCTION, VK_OPTION,
    VK_RIGHT_CONTROL, VK_RIGHT_OPTION,
};

#[test]
fn every_key_name_is_known() {
    for name in ["fn", "function"] {
        assert_eq!(parse_key(name), (VK_FUNCTION, FLAG_FUNCTION));
    }
    for name in ["alt", "option", "left_alt", "left_option"] {
        assert_eq!(parse_key(name), (VK_OPTION, FLAG_OPTION));
    }
    for name in ["right_alt", "altgr", "right_option", "alt_right"] {
        assert_eq!(parse_key(name), (VK_RIGHT_OPTION, FLAG_OPTION));
    }
    for name in ["ctrl", "control", "left_ctrl", "left_control"] {
        assert_eq!(parse_key(name), (VK_CONTROL, FLAG_CONTROL));
    }
    for name in ["right_ctrl", "right_control"] {
        assert_eq!(parse_key(name), (VK_RIGHT_CONTROL, FLAG_CONTROL));
    }
}

#[test]
fn key_names_may_be_capital() {
    assert_eq!(parse_key("FN"), (63, 0x0080_0000));
    assert_eq!(parse_key("Right_Ctrl"), (62, 0x0004_0000));
}

#[test]
fn unknown_key_names_mean_alt() {
    assert_eq!(parse_key("shift"), (58, 0x0008_0000));
    assert_eq!(parse_key(""), (58, 0x0008_0000));
    assert_eq!(parse_key("Ünbekannt"), (58, 0x0008_0000));
}

#[test]
fn the_mask_is_the_bit_of_the_event() {
    assert_eq!(CG_MASK_FLAGS_CHANGED, 1 << CG_EVENT_FLAGS_CHANGED);
}

#[test]
fn events_are_told_apart() {
    assert!(classify(0xFFFF_FFFE, true) == TapEvent::Disabled);
    assert!(classify(0xFFFF_FFFF, false) == TapEvent::Disabled);
    assert!(classify(12, true) == TapEvent::FlagsChanged);
    assert!(classify(12, false) == TapEvent::Foreign);
    assert!(classify(10, true) == TapEvent::Foreign);
}

#[test]
fn a_tap_keeps_recording() {
    let mut key = Inner::new("fn");
    assert!(key.flags_changed(63, FLAG_FUNCTION) == Action::Start { timer: 0 });
    assert!(key.flags_changed(63, 0) == Action::Nothing);
    assert!(!key.hold_elapsed(0));
    // A second tap leaves the recording to silence or the Done button.
    assert!(key.flags_changed(63, FLAG_FUNCTION) == Action::Nothing);
    assert!(key.flags_changed(63, 0) == Action::Nothing);
}

#[test]
fn a_recording_that_ended_elsewhere_frees_the_key() {
    let mut key = Inner::new("fn");
    key.flags_changed(63, FLAG_FUNCTION);
    key.flags_changed(63, 0);
    key.recording_ended();
    assert!(key.flags_changed(63, FLAG_FUNCTION) == Action::Start { timer: 1 });
    // While the key is down: its release asks for nothing, and its timer is dead.
    key.recording_ended();
    assert!(!key.hold_elapsed(1));
    assert!(key.flags_changed(63, 0) == Action::Nothing);
    assert!(key.flags_changed(63, FLAG_FUNCTION) == Action::Start { timer: 2 });
}

#[test]
fn a_repeated_event_changes_nothing() {
    let mut key = Inner::new("fn");
    assert!(key.flags_changed(63, FLAG_FUNCTION) == Action::Start { timer: 0 });
    assert!(key.flags_changed(63, FLAG_FUNCTION) == Action::Nothing);
    assert!(key.hold_elapsed(0));
    assert!(key.flags_changed(63, 0) == Action::Stop);
    assert!(key.flags_changed(63, 0) == Action::Nothing);
}

#[test]
fn a_hold_is_push_to_talk() {
    let mut key = Inner::new("ctrl");
    assert!(key.flags_changed(59, FLAG_CONTROL) == Action::Start { timer: 0 });
    assert!(key.hold_elapsed(0));
    assert!(key.flags_changed(59, 0) == Action::Stop);
    assert!(key.flags_changed(59, FLAG_CONTROL) == Action::Start { timer: 1 });
    assert!(!key.hold_elapsed(0));
    assert!(key.hold_elapsed(1));
}

#[test]
fn repeats_and_other_keys_are_ignored() {
    let mut key = Inner::new("alt");
    assert!(key.flags_changed(61, FLAG_OPTION) == Action::Nothing);
    assert!(key.flags_changed(58, 0) == Action::Nothing);
    assert!(key.flags_changed(58, FLAG_OPTION) == Action::Start { timer: 0 });
    assert!(key.flags_changed(58, FLAG_OPTION | FLAG_CONTROL) == Action::Nothing);
}

#[test]
fn only_the_low_bits_of_the_key_field_count() {
    let mut key = Inner::new("alt");
    assert!(key.flags_changed(0x1_0000 + 58, FLAG_OPTION) == Action::Start { timer: 0 });
}
