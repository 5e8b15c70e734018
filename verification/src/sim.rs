//! The deterministic simulation the rollback engine drives: two paddles and
//! a ball on a bounded board, advanced one fixed step per frame from the
//! frame's inputs alone.  Positions and velocities are integers so that a
//! step is bit-identical on every peer, and the whole gameplay-visible state
//! fits in one snapshot structure that restores exactly.

use vstd::prelude::*;

use crate::input::{dir_spec, direction, FrameInputs};

verus! {

/// Half the board width: the ball's x position stays in `[-HALF_WIDTH, HALF_WIDTH]`.
pub const HALF_WIDTH: i64 = 60;

/// Half the board height: paddle and ball y positions stay in `[-HALF_HEIGHT, HALF_HEIGHT]`.
pub const HALF_HEIGHT: i64 = 40;

/// Bound on the magnitude of each ball velocity component.
pub const MAX_SPEED: i64 = 8;

/// Every field of the simulation that gameplay outcomes depend on.  Adding a
/// simulated field means extending this struct and [`Snapshot`] together.
#[derive(Clone, Copy, PartialEq, Eq, Structural, Debug)]
pub struct SimState {
    pub paddle0_y: i64,
    pub paddle1_y: i64,
    pub ball_x: i64,
    pub ball_y: i64,
    pub ball_vx: i64,
    pub ball_vy: i64,
}

impl SimState {
    /// All positions on the board, all velocities bounded.
    pub open spec fn wf(self) -> bool {
        &&& -HALF_HEIGHT <= self.paddle0_y <= HALF_HEIGHT
        &&& -HALF_HEIGHT <= self.paddle1_y <= HALF_HEIGHT
        &&& -HALF_WIDTH <= self.ball_x <= HALF_WIDTH
        &&& -HALF_HEIGHT <= self.ball_y <= HALF_HEIGHT
        &&& -MAX_SPEED <= self.ball_vx <= MAX_SPEED
        &&& -MAX_SPEED <= self.ball_vy <= MAX_SPEED
    }
}

/// An exact capture of the simulation state at one frame, sufficient to
/// restore execution from that point.
#[derive(Clone, Copy, PartialEq, Eq, Structural, Debug)]
pub struct Snapshot {
    pub paddle0_y: i64,
    pub paddle1_y: i64,
    pub ball_x: i64,
    pub ball_y: i64,
    pub ball_vx: i64,
    pub ball_vy: i64,
}

pub open spec fn clamp_spec(v: int, lo: int, hi: int) -> int {
    if v < lo {
        lo
    } else if v > hi {
        hi
    } else {
        v
    }
}

/// Where a paddle at `y` ends up after applying the direction of `mask`.
pub open spec fn paddle_step_spec(y: i64, mask: u8) -> i64 {
    clamp_spec(y + dir_spec(mask), -HALF_HEIGHT as int, HALF_HEIGHT as int) as i64
}

/// The ball's new position on one axis: advance by the velocity, stopping at
/// the wall when the move would leave `[-limit, limit]`.
pub open spec fn axis_pos_spec(pos: i64, vel: i64, limit: i64) -> i64 {
    let next = pos + vel;
    if next > limit {
        limit
    } else if next < -limit {
        (-limit) as i64
    } else {
        next as i64
    }
}

/// The ball's new velocity on one axis: reflected when the move hit a wall.
pub open spec fn axis_vel_spec(pos: i64, vel: i64, limit: i64) -> i64 {
    let next = pos + vel;
    if next > limit || next < -limit {
        (-vel) as i64
    } else {
        vel
    }
}

/// One deterministic simulation step: both paddles move by their input's
/// direction, the ball advances and bounces off the board edges.
pub open spec fn step_spec(s: SimState, inp: FrameInputs) -> SimState {
    SimState {
        paddle0_y: paddle_step_spec(s.paddle0_y, inp.p0),
        paddle1_y: paddle_step_spec(s.paddle1_y, inp.p1),
        ball_x: axis_pos_spec(s.ball_x, s.ball_vx, HALF_WIDTH),
        ball_y: axis_pos_spec(s.ball_y, s.ball_vy, HALF_HEIGHT),
        ball_vx: axis_vel_spec(s.ball_x, s.ball_vx, HALF_WIDTH),
        ball_vy: axis_vel_spec(s.ball_y, s.ball_vy, HALF_HEIGHT),
    }
}

/// A step taken from a well-formed state is well-formed.
pub proof fn lemma_step_wf(s: SimState, inp: FrameInputs)
    requires
        s.wf(),
    ensures
        step_spec(s, inp).wf(),
{
}

/// Advance the simulation by exactly one frame using only `inp` and `*s`.
pub fn step(s: &SimState, inp: FrameInputs) -> (r: SimState)
    requires
        s.wf(),
    ensures
        r == step_spec(*s, inp),
        r.wf(),
{
    let d0 = direction(inp.p0);
    let d1 = direction(inp.p1);
    let mut p0 = s.paddle0_y + d0;
    if p0 < -HALF_HEIGHT {
        p0 = -HALF_HEIGHT;
    }
    if p0 > HALF_HEIGHT {
        p0 = HALF_HEIGHT;
    }
    let mut p1 = s.paddle1_y + d1;
    if p1 < -HALF_HEIGHT {
        p1 = -HALF_HEIGHT;
    }
    if p1 > HALF_HEIGHT {
        p1 = HALF_HEIGHT;
    }
    let nx = s.ball_x + s.ball_vx;
    let (bx, bvx): (i64, i64) = if nx > HALF_WIDTH {
        (HALF_WIDTH, -s.ball_vx)
    } else if nx < -HALF_WIDTH {
        (-HALF_WIDTH, -s.ball_vx)
    } else {
        (nx, s.ball_vx)
    };
    let ny = s.ball_y + s.ball_vy;
    let (by, bvy): (i64, i64) = if ny > HALF_HEIGHT {
        (HALF_HEIGHT, -s.ball_vy)
    } else if ny < -HALF_HEIGHT {
        (-HALF_HEIGHT, -s.ball_vy)
    } else {
        (ny, s.ball_vy)
    };
    SimState {
        paddle0_y: p0,
        paddle1_y: p1,
        ball_x: bx,
        ball_y: by,
        ball_vx: bvx,
        ball_vy: bvy,
    }
}

/// The state reached by stepping `s` through every element of `inputs` in order.
pub open spec fn run_spec(s: SimState, inputs: Seq<FrameInputs>) -> SimState
    decreases inputs.len(),
{
    if inputs.len() == 0 {
        s
    } else {
        step_spec(run_spec(s, inputs.drop_last()), inputs.last())
    }
}

/// Running one more input is one more step.
pub proof fn lemma_run_push(s: SimState, inputs: Seq<FrameInputs>, i: FrameInputs)
    ensures
        run_spec(s, inputs.push(i)) == step_spec(run_spec(s, inputs), i),
{
    assert(inputs.push(i).drop_last() =~= inputs);
}

/// A run from a well-formed state stays well-formed.
pub proof fn lemma_run_wf(s: SimState, inputs: Seq<FrameInputs>)
    requires
        s.wf(),
    ensures
        run_spec(s, inputs).wf(),
    decreases inputs.len(),
{
    if inputs.len() > 0 {
        lemma_run_wf(s, inputs.drop_last());
        lemma_step_wf(run_spec(s, inputs.drop_last()), inputs.last());
    }
}

/// Determinism: two runs that start from the same state and advance through
/// the same frame inputs agree bit for bit at every frame.
pub proof fn lemma_determinism(
    start: SimState,
    inputs: Seq<FrameInputs>,
    run1: Seq<SimState>,
    run2: Seq<SimState>,
)
    requires
        run1.len() == inputs.len() + 1,
        run2.len() == inputs.len() + 1,
        run1[0] == start,
        run2[0] == start,
        forall|k: int| 0 <= k < inputs.len() ==> run1[k + 1] == step_spec(run1[k], inputs[k]),
        forall|k: int| 0 <= k < inputs.len() ==> run2[k + 1] == step_spec(run2[k], inputs[k]),
    ensures
        run1 =~= run2,
{
    assert forall|j: int| 0 <= j < run1.len() implies run1[j] == run2[j] by {
        lemma_determinism_at(start, inputs, run1, run2, j);
    }
}

proof fn lemma_determinism_at(
    start: SimState,
    inputs: Seq<FrameInputs>,
    run1: Seq<SimState>,
    run2: Seq<SimState>,
    j: int,
)
    requires
        run1.len() == inputs.len() + 1,
        run2.len() == inputs.len() + 1,
        run1[0] == start,
        run2[0] == start,
        forall|k: int| 0 <= k < inputs.len() ==> run1[k + 1] == step_spec(run1[k], inputs[k]),
        forall|k: int| 0 <= k < inputs.len() ==> run2[k + 1] == step_spec(run2[k], inputs[k]),
        0 <= j < run1.len(),
    ensures
        run1[j] == run2[j],
    decreases j,
{
    if j > 0 {
        lemma_determinism_at(start, inputs, run1, run2, j - 1);
        assert(run1[j] == step_spec(run1[j - 1], inputs[j - 1]));
        assert(run2[j] == step_spec(run2[j - 1], inputs[j - 1]));
    }
}

/// What a snapshot records of a state: every gameplay-visible field.
pub open spec fn snapshot_spec(s: SimState) -> Snapshot {
    Snapshot {
        paddle0_y: s.paddle0_y,
        paddle1_y: s.paddle1_y,
        ball_x: s.ball_x,
        ball_y: s.ball_y,
        ball_vx: s.ball_vx,
        ball_vy: s.ball_vy,
    }
}

/// The state a snapshot restores to.
pub open spec fn restore_spec(sn: Snapshot) -> SimState {
    SimState {
        paddle0_y: sn.paddle0_y,
        paddle1_y: sn.paddle1_y,
        ball_x: sn.ball_x,
        ball_y: sn.ball_y,
        ball_vx: sn.ball_vx,
        ball_vy: sn.ball_vy,
    }
}

/// Capture the whole deterministic state at the current frame.
pub fn snapshot(s: &SimState) -> (sn: Snapshot)
    ensures
        sn == snapshot_spec(*s),
{
    Snapshot {
        paddle0_y: s.paddle0_y,
        paddle1_y: s.paddle1_y,
        ball_x: s.ball_x,
        ball_y: s.ball_y,
        ball_vx: s.ball_vx,
        ball_vy: s.ball_vy,
    }
}

/// Rebuild the simulation state a snapshot captured.
pub fn restore(sn: &Snapshot) -> (s: SimState)
    ensures
        s == restore_spec(*sn),
{
    SimState {
        paddle0_y: sn.paddle0_y,
        paddle1_y: sn.paddle1_y,
        ball_x: sn.ball_x,
        ball_y: sn.ball_y,
        ball_vx: sn.ball_vx,
        ball_vy: sn.ball_vy,
    }
}

/// Snapshot round trip: restoring a state's snapshot recovers that state
/// exactly, so a step taken after the restore equals the step the
/// uninterrupted run would have taken.
pub proof fn lemma_snapshot_round_trip(s: SimState, inp: FrameInputs)
    ensures
        restore_spec(snapshot_spec(s)) == s,
        step_spec(restore_spec(snapshot_spec(s)), inp) == step_spec(s, inp),
{
}

} // verus!
