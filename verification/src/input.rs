//! Per-player input: a fixed-width bitset sampled once per simulation tick,
//! and the per-frame pairing of both players' inputs.

use vstd::prelude::*;

verus! {

/// One discrete control action of a player.  Each action owns one bit of the
/// input mask; the mask of a tick with no action pressed is zero.
#[derive(Clone, Copy, PartialEq, Eq, Structural, Debug)]
pub enum PlayerAction {
    Up,
    Down,
}

impl PlayerAction {
    /// The bit this action occupies in an input mask.
    pub open spec fn bit_spec(self) -> u8 {
        match self {
            PlayerAction::Up => 1u8,
            PlayerAction::Down => 2u8,
        }
    }

    pub fn bit(self) -> (r: u8)
        ensures
            r == self.bit_spec(),
    {
        match self {
            PlayerAction::Up => 1,
            PlayerAction::Down => 2,
        }
    }

    /// Whether this action's bit is set in `mask`.
    pub open spec fn active_spec(self, mask: u8) -> bool {
        mask & self.bit_spec() != 0
    }

    pub fn active(self, mask: u8) -> (r: bool)
        ensures
            r == self.active_spec(mask),
    {
        mask & self.bit() != 0
    }
}

/// The input mask built from the pressed state of each action.
pub open spec fn input_spec(up: bool, down: bool) -> u8 {
    (if up { 1u8 } else { 0u8 }) | (if down { 2u8 } else { 0u8 })
}

/// Encode the sampled state of the controls as an input mask.
pub fn input(up: bool, down: bool) -> (mask: u8)
    ensures
        mask == input_spec(up, down),
        PlayerAction::Up.active_spec(mask) == up,
        PlayerAction::Down.active_spec(mask) == down,
{
    let mask: u8 = (if up { 1u8 } else { 0u8 }) | (if down { 2u8 } else { 0u8 });
    proof {
        assert(3u8 & 1u8 != 0 && 3u8 & 2u8 != 0 && 1u8 & 1u8 != 0 && 1u8 & 2u8 == 0 && 2u8 & 1u8
            == 0 && 2u8 & 2u8 != 0 && 0u8 & 1u8 == 0 && 0u8 & 2u8 == 0) by (bit_vector);
        assert((0u8 | 0u8) == 0u8 && (1u8 | 0u8) == 1u8 && (0u8 | 2u8) == 2u8 && (1u8 | 2u8)
            == 3u8) by (bit_vector);
    }
    mask
}

/// The vertical direction an input mask asks for: up and down cancel out.
pub open spec fn dir_spec(mask: u8) -> i64 {
    let up = mask & 1u8 != 0;
    let down = mask & 2u8 != 0;
    if up && !down {
        1i64
    } else if down && !up {
        -1i64
    } else {
        0i64
    }
}

/// Decode an input mask into a vertical movement direction.
pub fn direction(mask: u8) -> (d: i64)
    ensures
        d == dir_spec(mask),
        -1 <= d <= 1,
{
    let up = PlayerAction::Up.active(mask);
    let down = PlayerAction::Down.active(mask);
    if up && !down {
        1
    } else if down && !up {
        -1
    } else {
        0
    }
}

/// The inputs of one frame, one mask per player handle.
#[derive(Clone, Copy, PartialEq, Eq, Structural, Debug)]
pub struct FrameInputs {
    pub p0: u8,
    pub p1: u8,
}

impl FrameInputs {
    /// The input of the player with handle `h` (0 or 1).
    pub open spec fn for_handle_spec(self, h: int) -> u8 {
        if h == 0 {
            self.p0
        } else {
            self.p1
        }
    }

    pub fn for_handle(self, h: usize) -> (r: u8)
        requires
            h < 2,
        ensures
            r == self.for_handle_spec(h as int),
    {
        if h == 0 {
            self.p0
        } else {
            self.p1
        }
    }
}

/// The frame inputs in which the local player's mask is `l` and the remote
/// player's mask is `r`, with the local player sitting at handle `lh`.
pub open spec fn assemble_spec(lh: int, l: u8, r: u8) -> FrameInputs {
    if lh == 0 {
        FrameInputs { p0: l, p1: r }
    } else {
        FrameInputs { p0: r, p1: l }
    }
}

/// Pair the local and remote masks into the inputs of one frame.
pub fn assemble(lh: usize, l: u8, r: u8) -> (fi: FrameInputs)
    requires
        lh < 2,
    ensures
        fi == assemble_spec(lh as int, l, r),
{
    if lh == 0 {
        FrameInputs { p0: l, p1: r }
    } else {
        FrameInputs { p0: r, p1: l }
    }
}

} // verus!
