use ping::input::{assemble, direction, input, FrameInputs, PlayerAction};

#[test]
fn empty_mask_when_nothing_pressed() {
    let mask = input(false, false);
    assert_eq!(mask, 0);
    assert!(!PlayerAction::Up.active(mask));
    assert!(!PlayerAction::Down.active(mask));
}

#[test]
fn up_sets_only_the_up_bit() {
    let mask = input(true, false);
    assert_eq!(mask, 1);
    assert!(PlayerAction::Up.active(mask));
    assert!(!PlayerAction::Down.active(mask));
}

#[test]
fn down_sets_only_the_down_bit() {
    let mask = input(false, true);
    assert_eq!(mask, 2);
    assert!(!PlayerAction::Up.active(mask));
    assert!(PlayerAction::Down.active(mask));
}

#[test]
fn both_bits_fit_one_byte() {
    let mask = input(true, true);
    assert_eq!(mask, 3);
    assert!(PlayerAction::Up.active(mask));
    assert!(PlayerAction::Down.active(mask));
}

#[test]
fn direction_up_is_positive() {
    assert_eq!(direction(input(true, false)), 1);
}

#[test]
fn direction_down_is_negative() {
    assert_eq!(direction(input(false, true)), -1);
}

#[test]
fn opposed_directions_cancel() {
    assert_eq!(direction(input(true, true)), 0);
    assert_eq!(direction(input(false, false)), 0);
}

#[test]
fn action_bits_are_distinct() {
    assert_eq!(PlayerAction::Up.bit(), 1);
    assert_eq!(PlayerAction::Down.bit(), 2);
}

#[test]
fn assemble_places_local_mask_at_its_handle() {
    assert_eq!(assemble(0, 1, 2), FrameInputs { p0: 1, p1: 2 });
    assert_eq!(assemble(1, 1, 2), FrameInputs { p0: 2, p1: 1 });
}

#[test]
fn frame_inputs_index_by_handle() {
    let fi = FrameInputs { p0: 7, p1: 9 };
    assert_eq!(fi.for_handle(0), 7);
    assert_eq!(fi.for_handle(1), 9);
}
