use ping::input::{input, FrameInputs};
use ping::session::{build, PeerId, PlayerType};
use ping::sim::SimState;
use ping::sync::Synchronizer;

fn start() -> SimState {
    SimState { paddle0_y: 0, paddle1_y: 0, ball_x: 0, ball_y: 0, ball_vx: 2, ball_vy: 1 }
}

fn engine(input_delay: usize, window: usize) -> Synchronizer {
    let players = vec![PlayerType::Local, PlayerType::Remote(PeerId(9))];
    let desc = build(&players, input_delay, window).unwrap();
    Synchronizer::new(&desc, &start())
}

#[test]
fn local_input_is_queued_delay_frames_ahead() {
    let mut s = engine(2, 8);
    let out = s.advance(3);
    assert_eq!(out.message.frame, 2);
    assert_eq!(out.message.input, 3);
    assert_eq!(s.current_frame(), 1);
    // The first frames use the queued default local input.
    assert_eq!(out.inputs, FrameInputs { p0: 0, p1: 0 });
    assert_eq!(s.current_frame_inputs(), Some(FrameInputs { p0: 0, p1: 0 }));
}

#[test]
fn zero_delay_applies_local_input_at_once() {
    let mut s = engine(0, 8);
    let out = s.advance(1);
    assert_eq!(out.message.frame, 0);
    assert_eq!(out.inputs, FrameInputs { p0: 1, p1: 0 });
    assert_eq!(s.state().paddle0_y, 1);
}

#[test]
fn local_handle_one_drives_the_second_paddle() {
    let players = vec![PlayerType::Remote(PeerId(9)), PlayerType::Local];
    let desc = build(&players, 0, 8).unwrap();
    let mut s = Synchronizer::new(&desc, &start());
    s.advance(input(true, false));
    assert_eq!(s.state().paddle1_y, 1);
    assert_eq!(s.state().paddle0_y, 0);
}

#[test]
fn remote_input_for_a_future_frame_is_buffered() {
    let mut s = engine(0, 8);
    assert!(s.handle_remote(2, input(true, false)).is_ok());
    s.advance(0);
    s.advance(0);
    let out = s.advance(0);
    // Frame 2 was stepped with the buffered remote input, not a prediction.
    assert_eq!(out.inputs.p1, input(true, false));
    assert_eq!(s.state().paddle1_y, 1);
}

#[test]
fn missing_remote_input_repeats_the_last_recorded_one() {
    let mut s = engine(0, 8);
    assert!(s.handle_remote(0, input(false, true)).is_ok());
    s.advance(0);
    s.advance(0);
    s.advance(0);
    // Frames 1 and 2 predict the frame-0 input forward.
    assert_eq!(s.state().paddle1_y, -3);
}

#[test]
fn matching_late_input_confirms_without_changing_state() {
    let mut s = engine(0, 8);
    s.advance(0);
    s.advance(0);
    let before = s.state();
    assert_eq!(s.confirmed_frame(), 0);
    // The prediction for frame 0 was the empty mask; the real input matches.
    assert!(s.handle_remote(0, 0).is_ok());
    assert_eq!(s.state(), before);
    assert_eq!(s.confirmed_frame(), 1);
}

#[test]
fn duplicate_remote_input_is_ignored() {
    let mut s = engine(0, 8);
    s.advance(0);
    assert!(s.handle_remote(0, 4).is_ok());
    let before = s.state();
    assert!(s.handle_remote(0, 4).is_ok());
    assert_eq!(s.state(), before);
}

#[test]
fn conflicting_confirmed_input_is_a_fatal_desync() {
    let mut s = engine(0, 8);
    s.advance(0);
    assert!(s.handle_remote(0, 4).is_ok());
    assert!(s.handle_remote(0, 5).is_err());
}

#[test]
fn misprediction_rolls_back_to_the_corrected_history() {
    // Two-player session, input_delay = 2, window = 8.  Frames 0..=2 are
    // stepped with both players predicted idle; at frame 3 the remote input
    // "move up" for frame 1 arrives late.
    let up = input(true, false);
    let mut live = engine(2, 8);
    live.advance(0);
    live.advance(0);
    live.advance(0);
    // Every remote input was predicted idle so far.
    assert_eq!(live.state().paddle1_y, 0);
    assert!(live.handle_remote(1, up).is_ok());
    // Frames 1 and 2 were re-stepped: the confirmed input at frame 1, and a
    // prediction carrying it forward at frame 2.
    assert_eq!(live.state().paddle1_y, 2);
    live.advance(0);

    // Reference run: the same inputs, with frame 1's remote input known from
    // the start.
    let mut reference = engine(2, 8);
    assert!(reference.handle_remote(1, up).is_ok());
    reference.advance(0);
    reference.advance(0);
    reference.advance(0);
    reference.advance(0);

    assert_eq!(live.state(), reference.state());
    assert_eq!(live.state().paddle1_y, 3);
    assert_eq!(live.current_frame(), 4);
}

#[test]
fn correction_beyond_the_window_is_a_fatal_desync() {
    let mut s = engine(0, 1);
    s.advance(0);
    s.advance(0);
    s.advance(0);
    // Frame 0 left the one-frame rollback window; a differing correction
    // cannot be reconciled any more.
    let r = s.handle_remote(0, input(true, false));
    assert!(r.is_err());
    // A late input inside the window is still only a confirmation.
    assert!(s.handle_remote(2, 0).is_ok());
}

#[test]
fn too_late_matching_input_is_discarded() {
    let mut s = engine(0, 1);
    s.advance(0);
    s.advance(0);
    s.advance(0);
    let before = s.state();
    // Frames 0 and 1 lie below every retained snapshot; their inputs match
    // the predictions used there, so the messages are dropped whole: no
    // recording, no confirmation, no state change.
    assert!(s.handle_remote(0, 0).is_ok());
    assert!(s.handle_remote(1, 0).is_ok());
    assert_eq!(s.state(), before);
    assert_eq!(s.confirmed_frame(), 0);
    // Frame 0 stays unrecorded, so even confirming frame 2 cannot move the
    // watermark past it.
    assert!(s.handle_remote(2, 0).is_ok());
    assert_eq!(s.confirmed_frame(), 0);
}

#[test]
fn correction_at_the_window_edge_still_rolls_back() {
    let mut s = engine(0, 3);
    s.advance(0);
    s.advance(0);
    s.advance(0);
    // current - frame == window: the snapshot before frame 0 is retained.
    assert!(s.handle_remote(0, input(true, false)).is_ok());
    assert_eq!(s.state().paddle1_y, 3);
}

#[test]
fn watermark_never_decreases_and_confirms_in_order() {
    let mut s = engine(1, 8);
    let mut last = s.confirmed_frame();
    let deliveries: [(usize, u8); 4] = [(1, 2), (0, 1), (3, 1), (2, 2)];
    for (i, (frame, mask)) in deliveries.iter().enumerate() {
        s.advance(i as u8);
        assert!(s.confirmed_frame() >= last);
        last = s.confirmed_frame();
        assert!(s.handle_remote(*frame, *mask).is_ok());
        assert!(s.confirmed_frame() >= last);
        last = s.confirmed_frame();
    }
    // Every delivered frame 0..=3 is recorded and every lower frame was
    // recorded first, so the watermark covers all four frames.
    assert_eq!(s.confirmed_frame(), 4);
}

#[test]
fn watermark_waits_for_the_lowest_missing_frame() {
    let mut s = engine(0, 8);
    s.advance(0);
    s.advance(0);
    s.advance(0);
    assert!(s.handle_remote(1, 0).is_ok());
    assert!(s.handle_remote(2, 0).is_ok());
    // Frame 0 is still unconfirmed, so nothing is confirmed yet.
    assert_eq!(s.confirmed_frame(), 0);
    assert!(s.handle_remote(0, 0).is_ok());
    assert_eq!(s.confirmed_frame(), 3);
}
