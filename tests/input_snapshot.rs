use bevy_dragndrop::components::Draggable;
use bevy_dragndrop::input::{get_inputs, InputFlags, RawInput};

fn raw_none() -> RawInput {
    RawInput {
        left: false,
        right: false,
        middle: false,
        shift_left: false,
        shift_right: false,
        ctrl_left: false,
        ctrl_right: false,
        alt_left: false,
        alt_right: false,
    }
}

#[test]
fn snapshot_of_nothing_is_empty() {
    let f = get_inputs(&raw_none());
    assert_eq!(f.bits(), 0);
    assert!(f.is_empty());
}

#[test]
fn snapshot_sets_one_bit_per_button() {
    let mut raw = raw_none();
    raw.left = true;
    assert_eq!(get_inputs(&raw).bits(), 0x01);
    raw.left = false;
    raw.right = true;
    assert_eq!(get_inputs(&raw).bits(), 0x02);
    raw.right = false;
    raw.middle = true;
    assert_eq!(get_inputs(&raw).bits(), 0x04);
}

#[test]
fn snapshot_merges_left_and_right_modifier_keys() {
    let mut raw = raw_none();
    raw.shift_right = true;
    raw.ctrl_left = true;
    raw.alt_right = true;
    assert_eq!(get_inputs(&raw).bits(), 0x38);
    raw.shift_left = true;
    raw.ctrl_right = true;
    raw.alt_left = true;
    assert_eq!(get_inputs(&raw).bits(), 0x38);
}

#[test]
fn snapshot_of_everything_is_all() {
    let raw = RawInput {
        left: true,
        right: true,
        middle: true,
        shift_left: true,
        shift_right: false,
        ctrl_left: false,
        ctrl_right: true,
        alt_left: true,
        alt_right: true,
    };
    assert_eq!(get_inputs(&raw), InputFlags::all());
}

#[test]
fn named_flags_have_their_bits() {
    assert_eq!(InputFlags::left_click().bits(), 0x01);
    assert_eq!(InputFlags::right_click().bits(), 0x02);
    assert_eq!(InputFlags::middle_click().bits(), 0x04);
    assert_eq!(InputFlags::shift().bits(), 0x08);
    assert_eq!(InputFlags::ctrl().bits(), 0x10);
    assert_eq!(InputFlags::alt().bits(), 0x20);
    assert_eq!(InputFlags::clicks().bits(), 0x07);
    assert_eq!(InputFlags::modifiers().bits(), 0x38);
    assert_eq!(InputFlags::empty().bits(), 0);
    assert_eq!(InputFlags::all().bits(), 0x3f);
}

#[test]
fn truncation_drops_undefined_bits() {
    assert_eq!(InputFlags::from_bits_truncate(0xff).bits(), 0x3f);
    assert_eq!(InputFlags::from_bits_truncate(0xc1).bits(), 0x01);
}

#[test]
fn set_operations() {
    let lr = InputFlags::left_click().union(InputFlags::right_click());
    assert_eq!(lr.bits(), 0x03);
    assert!(lr.contains(InputFlags::left_click()));
    assert!(!lr.contains(InputFlags::clicks()));
    assert!(lr.intersects(InputFlags::clicks()));
    assert!(!lr.intersects(InputFlags::modifiers()));
    assert_eq!(lr.intersection(InputFlags::right_click().union(InputFlags::shift())).bits(), 0x02);
    assert_eq!(InputFlags::clicks().difference(lr).bits(), 0x04);
    assert!(lr.contains(InputFlags::empty()));
}

#[test]
fn default_draggable_needs_left_click_alone() {
    let d = Draggable::default();
    assert_eq!(d.required, InputFlags::left_click());
    assert_eq!(d.disallowed.bits(), 0x06);
    assert_eq!(d.minimum_held, None);
}
