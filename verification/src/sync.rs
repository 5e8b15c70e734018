//! The frame synchronizer: the rollback engine of one peer.  It queues local
//! input `input_delay` frames ahead, assembles each frame's inputs from the
//! recorded remote input or, where none arrived yet, from a prediction that
//! carries the nearest earlier recorded input forward, steps the
//! deterministic simulation, and snapshots every stepped frame inside the
//! rollback window.  A late remote input that contradicts the prediction it
//! replaces rolls the simulation back to the snapshot before that frame and
//! re-steps to the present; one older than the window is a fatal desync.

use vstd::prelude::*;

use crate::input::{assemble, assemble_spec, FrameInputs};
use crate::session::{DesyncError, SessionDescriptor, MAX_INPUT_DELAY, MAX_WINDOW};
use crate::sim::{
    lemma_run_push, lemma_run_wf, restore, run_spec, snapshot, snapshot_spec, step, step_spec,
    SimState,
};
use crate::store::{SnapshotStore, MAX_FRAME};

verus! {

/// The remote input recorded for frame `f`, `None` where none arrived yet.
pub open spec fn slot(remote: Seq<Option<u8>>, f: int) -> Option<u8> {
    if 0 <= f < remote.len() {
        remote[f]
    } else {
        None
    }
}

/// The predicted remote input for frame `f`: the recorded input of the
/// nearest earlier frame, or the empty mask where nothing was recorded yet.
pub open spec fn pred_spec(remote: Seq<Option<u8>>, f: int) -> u8
    decreases f,
{
    if f <= 0 {
        0u8
    } else {
        match slot(remote, f - 1) {
            Some(v) => v,
            None => pred_spec(remote, f - 1),
        }
    }
}

/// The remote input the engine uses for frame `f`: the recorded one where it
/// arrived, the prediction otherwise.
pub open spec fn expected_remote(remote: Seq<Option<u8>>, f: int) -> u8 {
    match slot(remote, f) {
        Some(v) => v,
        None => pred_spec(remote, f),
    }
}

/// The inputs of the first `n` frames as the engine assembles them from the
/// local input queue and the recorded remote inputs.
pub open spec fn inputs_upto(lh: int, local: Seq<u8>, remote: Seq<Option<u8>>, n: int) -> Seq<
    FrameInputs,
> {
    Seq::new(n as nat, |g: int| assemble_spec(lh, local[g], expected_remote(remote, g)))
}

/// Recording input `v` for frame `f`: pad the recorded sequence with empty
/// slots up to `f`, then fill slot `f`.
pub open spec fn record_spec(remote: Seq<Option<u8>>, f: int, v: u8) -> Seq<Option<u8>> {
    if f < remote.len() {
        remote.update(f, Some(v))
    } else {
        Seq::new((f + 1) as nat, |g: int| if g == f { Some(v) } else { slot(remote, g) })
    }
}

/// Recording changes slot `f` alone.
pub proof fn lemma_record_slots(remote: Seq<Option<u8>>, f: int, v: u8)
    requires
        0 <= f,
    ensures
        forall|g: int|
            #[trigger] slot(record_spec(remote, f, v), g) == (if g == f {
                Some(v)
            } else {
                slot(remote, g)
            }),
{
}

/// Predictions only read slots below their frame: sequences that agree below
/// `g` predict the same input for `g`.
pub proof fn lemma_pred_congruence(r1: Seq<Option<u8>>, r2: Seq<Option<u8>>, g: int)
    requires
        forall|h: int| 0 <= h < g ==> slot(r1, h) == slot(r2, h),
    ensures
        pred_spec(r1, g) == pred_spec(r2, g),
    decreases g,
{
    if g > 0 {
        lemma_pred_congruence(r1, r2, g - 1);
    }
}

/// Recording an input equal to the prediction of its empty slot changes no
/// frame's prediction.
pub proof fn lemma_pred_matching(remote: Seq<Option<u8>>, f: int, v: u8, g: int)
    requires
        0 <= f,
        slot(remote, f) is None,
        v == pred_spec(remote, f),
    ensures
        pred_spec(record_spec(remote, f, v), g) == pred_spec(remote, g),
    decreases g,
{
    lemma_record_slots(remote, f, v);
    if g > 0 {
        if g - 1 == f {
            assert(pred_spec(remote, g) == pred_spec(remote, f));
        } else {
            lemma_pred_matching(remote, f, v, g - 1);
        }
    }
}

/// Recording an input equal to the prediction of its empty slot changes no
/// frame's used remote input.
pub proof fn lemma_expected_matching(remote: Seq<Option<u8>>, f: int, v: u8)
    requires
        0 <= f,
        slot(remote, f) is None,
        v == pred_spec(remote, f),
    ensures
        forall|g: int|
            #[trigger] expected_remote(record_spec(remote, f, v), g) == expected_remote(remote, g),
{
    lemma_record_slots(remote, f, v);
    assert forall|g: int|
        #[trigger] expected_remote(record_spec(remote, f, v), g) == expected_remote(
            remote,
            g,
        ) by {
        lemma_pred_matching(remote, f, v, g);
    }
}

/// Recording at frame `f` leaves the assembled inputs of frames below
/// `n <= f` unchanged.
pub proof fn lemma_record_above(
    remote: Seq<Option<u8>>,
    f: int,
    v: u8,
    lh: int,
    local: Seq<u8>,
    n: int,
)
    requires
        0 <= n <= f,
    ensures
        inputs_upto(lh, local, record_spec(remote, f, v), n) =~= inputs_upto(lh, local, remote, n),
{
    lemma_record_slots(remote, f, v);
    assert forall|g: int| 0 <= g < n implies expected_remote(record_spec(remote, f, v), g)
        == expected_remote(remote, g) by {
        lemma_pred_congruence(record_spec(remote, f, v), remote, g);
    }
}

/// Queueing one more local input leaves the assembled inputs of already
/// coverable frames unchanged.
pub proof fn lemma_local_push(lh: int, local: Seq<u8>, x: u8, remote: Seq<Option<u8>>, n: int)
    requires
        0 <= n <= local.len(),
    ensures
        inputs_upto(lh, local.push(x), remote, n) =~= inputs_upto(lh, local, remote, n),
{
}

/// One more frame's inputs: the previous frames' inputs with the new frame's
/// assembled input appended.
pub proof fn lemma_inputs_upto_succ(lh: int, local: Seq<u8>, remote: Seq<Option<u8>>, n: int)
    requires
        0 <= n,
    ensures
        inputs_upto(lh, local, remote, n + 1) =~= inputs_upto(lh, local, remote, n).push(
            assemble_spec(lh, local[n], expected_remote(remote, n)),
        ),
{
}

/// A local input message: the sender's input for one frame, tagged with the
/// frame it takes effect at.
#[derive(Clone, Copy, PartialEq, Eq, Structural, Debug)]
pub struct InputMessage {
    pub frame: usize,
    pub input: u8,
}

/// What one tick hands back to the caller: the message to broadcast to the
/// remote peer, and the authoritative (possibly predicted) inputs of the
/// frame just stepped.
#[derive(Clone, Copy, PartialEq, Eq, Structural, Debug)]
pub struct TickOutput {
    pub message: InputMessage,
    pub inputs: FrameInputs,
}

/// The rollback engine of one peer's session.
pub struct Synchronizer {
    local_handle: usize,
    input_delay: usize,
    window: usize,
    init: SimState,
    state: SimState,
    current: usize,
    confirmed: usize,
    local: Vec<u8>,
    remote: Vec<Option<u8>>,
    snaps: SnapshotStore,
}

impl Synchronizer {
    /// The local player's handle.
    pub closed spec fn handle(self) -> int {
        self.local_handle as int
    }

    /// How many frames ahead local input is queued.
    pub closed spec fn delay(self) -> int {
        self.input_delay as int
    }

    /// The rollback window: how many recent frames stay resimulatable.
    pub closed spec fn win(self) -> int {
        self.window as int
    }

    /// The state the session started from.
    pub closed spec fn start(self) -> SimState {
        self.init
    }

    /// The current simulation state.
    pub closed spec fn sim(self) -> SimState {
        self.state
    }

    /// How many frames have been stepped; the next frame to step.
    pub closed spec fn frames(self) -> int {
        self.current as int
    }

    /// The confirmed watermark: every frame below it is confirmed.
    pub closed spec fn watermark(self) -> int {
        self.confirmed as int
    }

    /// The queued local inputs, one per frame from frame 0.
    pub closed spec fn local_seq(self) -> Seq<u8> {
        self.local@
    }

    /// The recorded remote inputs, one slot per frame from frame 0.
    pub closed spec fn remote_seq(self) -> Seq<Option<u8>> {
        self.remote@
    }

    pub closed spec fn wf(self) -> bool {
        &&& self.local_handle < 2
        &&& self.input_delay <= MAX_INPUT_DELAY
        &&& 1 <= self.window <= MAX_WINDOW
        &&& self.current <= MAX_FRAME
        &&& self.local@.len() == self.current + self.input_delay
        &&& self.remote@.len() <= MAX_FRAME + 1
        &&& self.init.wf()
        &&& self.state == run_spec(
            self.init,
            inputs_upto(self.handle(), self.local@, self.remote@, self.current as int),
        )
        &&& self.confirmed <= self.local@.len()
        &&& (forall|f: int| 0 <= f < self.confirmed ==> slot(self.remote@, f) is Some)
        &&& (self.confirmed == self.local@.len() || slot(self.remote@, self.confirmed as int)
            is None)
        &&& self.snaps.wf()
        &&& self.snaps.win() == self.window
        &&& self.snaps.hi() == self.current
        &&& self.snaps.lo() == (if self.current <= self.window {
            0int
        } else {
            self.current - self.window
        })
        &&& (forall|k: int|
            self.snaps.lo() <= k < self.snaps.hi() ==> self.snaps.entry(k) == snapshot_spec(
                run_spec(self.init, inputs_upto(self.handle(), self.local@, self.remote@, k)),
            ))
    }

    pub fn current_frame(&self) -> (r: usize)
        ensures
            r == self.frames(),
    {
        self.current
    }

    pub fn confirmed_frame(&self) -> (r: usize)
        ensures
            r == self.watermark(),
    {
        self.confirmed
    }

    /// A copy of the current simulation state.
    pub fn state(&self) -> (r: SimState)
        ensures
            r == self.sim(),
    {
        self.state
    }

    /// Create the engine of a freshly built session: no frame stepped yet,
    /// and the first `input_delay` local inputs queued as the empty mask,
    /// since sampling starts `input_delay` frames ahead.
    pub fn new(desc: &SessionDescriptor, initial: &SimState) -> (s: Synchronizer)
        requires
            desc.wf(),
            initial.wf(),
        ensures
            s.wf(),
            s.handle() == desc.local_handle,
            s.delay() == desc.input_delay,
            s.win() == desc.window,
            s.start() == *initial,
            s.sim() == *initial,
            s.frames() == 0,
            s.watermark() == 0,
            s.local_seq() =~= Seq::new(desc.input_delay as nat, |i: int| 0u8),
            s.remote_seq() =~= Seq::<Option<u8>>::empty(),
    {
        let local: Vec<u8> = vec![0u8; desc.input_delay];
        let s = Synchronizer {
            local_handle: desc.local_handle,
            input_delay: desc.input_delay,
            window: desc.window,
            init: *initial,
            state: *initial,
            current: 0,
            confirmed: 0,
            local,
            remote: Vec::new(),
            snaps: SnapshotStore::new(desc.window),
        };
        proof {
            assert(inputs_upto(s.handle(), s.local@, s.remote@, 0) =~= Seq::<
                FrameInputs,
            >::empty());
            assert(s.local@ =~= Seq::new(desc.input_delay as nat, |i: int| 0u8));
        }
        s
    }

    /// The recorded remote input of frame `f`, if any.
    fn remote_slot(&self, f: usize) -> (r: Option<u8>)
        ensures
            r == slot(self.remote_seq(), f as int),
    {
        if f < self.remote.len() {
            self.remote[f]
        } else {
            None
        }
    }

    /// The predicted remote input for frame `f`.
    fn predict(&self, f: usize) -> (r: u8)
        ensures
            r == pred_spec(self.remote_seq(), f as int),
    {
        let mut k: usize = f;
        while k > 0
            invariant
                k <= f,
                pred_spec(self.remote@, f as int) == pred_spec(self.remote@, k as int),
            decreases k,
        {
            if k - 1 < self.remote.len() {
                if let Some(v) = self.remote[k - 1] {
                    return v;
                }
            }
            k = k - 1;
        }
        0
    }

    /// The remote input used for frame `f`: recorded or predicted.
    fn expected(&self, f: usize) -> (r: u8)
        ensures
            r == expected_remote(self.remote_seq(), f as int),
    {
        match self.remote_slot(f) {
            Some(v) => v,
            None => self.predict(f),
        }
    }

    /// Record the remote input `v` for frame `f`, padding the recorded
    /// sequence with empty slots up to `f` first.
    fn record(&mut self, f: usize, v: u8)
        requires
            f <= MAX_FRAME,
            old(self).remote@.len() <= MAX_FRAME + 1,
        ensures
            final(self).local_handle == old(self).local_handle,
            final(self).input_delay == old(self).input_delay,
            final(self).window == old(self).window,
            final(self).init == old(self).init,
            final(self).state == old(self).state,
            final(self).current == old(self).current,
            final(self).confirmed == old(self).confirmed,
            final(self).local == old(self).local,
            final(self).snaps == old(self).snaps,
            final(self).remote@ == record_spec(old(self).remote@, f as int, v),
            final(self).remote@.len() <= MAX_FRAME + 1,
    {
        while self.remote.len() <= f
            invariant
                f <= MAX_FRAME,
                self.local_handle == old(self).local_handle,
                self.input_delay == old(self).input_delay,
                self.window == old(self).window,
                self.init == old(self).init,
                self.state == old(self).state,
                self.current == old(self).current,
                self.confirmed == old(self).confirmed,
                self.local == old(self).local,
                self.snaps == old(self).snaps,
                old(self).remote@.len() <= self.remote@.len(),
                self.remote@.len() <= f + 1 || self.remote@.len() == old(self).remote@.len(),
                forall|g: int|
                    0 <= g < self.remote@.len() ==> self.remote@[g] == slot(old(self).remote@, g),
            decreases f + 1 - self.remote@.len(),
        {
            self.remote.push(None);
        }
        self.remote[f] = Some(v);
        proof {
            assert(self.remote@ =~= record_spec(old(self).remote@, f as int, v));
        }
    }

    /// Advance the confirmed watermark to the longest prefix of frames whose
    /// inputs are all final: the local input queued and the remote input
    /// recorded.
    fn update_confirmed(&mut self)
        requires
            old(self).confirmed <= old(self).local@.len(),
            old(self).local@.len() <= MAX_FRAME + MAX_INPUT_DELAY,
            forall|f: int| 0 <= f < old(self).confirmed ==> slot(old(self).remote@, f) is Some,
        ensures
            final(self).local_handle == old(self).local_handle,
            final(self).input_delay == old(self).input_delay,
            final(self).window == old(self).window,
            final(self).init == old(self).init,
            final(self).state == old(self).state,
            final(self).current == old(self).current,
            final(self).local == old(self).local,
            final(self).remote == old(self).remote,
            final(self).snaps == old(self).snaps,
            old(self).confirmed <= final(self).confirmed <= final(self).local@.len(),
            forall|f: int| 0 <= f < final(self).confirmed ==> slot(final(self).remote@, f) is Some,
            final(self).confirmed == final(self).local@.len() || slot(
                final(self).remote@,
                final(self).confirmed as int,
            ) is None,
    {
        while self.confirmed < self.local.len()
            invariant
                self.local_handle == old(self).local_handle,
                self.input_delay == old(self).input_delay,
                self.window == old(self).window,
                self.init == old(self).init,
                self.state == old(self).state,
                self.current == old(self).current,
                self.local == old(self).local,
                self.remote == old(self).remote,
                self.snaps == old(self).snaps,
                old(self).confirmed <= self.confirmed <= self.local@.len(),
                forall|f: int| 0 <= f < self.confirmed ==> slot(self.remote@, f) is Some,
            ensures
                self.local == old(self).local,
                self.remote == old(self).remote,
                self.confirmed == self.local@.len() || slot(
                    self.remote@,
                    self.confirmed as int,
                ) is None,
            decreases self.local@.len() - self.confirmed,
        {
            if self.remote_slot(self.confirmed).is_none() {
                break;
            }
            self.confirmed = self.confirmed + 1;
        }
    }

    /// One tick: queue the local input for its delayed target frame, hand
    /// back the message that broadcasts it, assemble the current frame's
    /// inputs (recorded remote input where it arrived, prediction otherwise),
    /// snapshot the pre-step state, step the simulation exactly one frame,
    /// and advance the confirmed watermark.
    pub fn advance(&mut self, local_input: u8) -> (r: TickOutput)
        requires
            old(self).wf(),
            old(self).frames() < MAX_FRAME,
        ensures
            final(self).wf(),
            final(self).handle() == old(self).handle(),
            final(self).delay() == old(self).delay(),
            final(self).win() == old(self).win(),
            final(self).start() == old(self).start(),
            final(self).frames() == old(self).frames() + 1,
            final(self).local_seq() == old(self).local_seq().push(local_input),
            final(self).remote_seq() == old(self).remote_seq(),
            r.message.frame == old(self).frames() + old(self).delay(),
            r.message.input == local_input,
            r.inputs == assemble_spec(
                old(self).handle(),
                final(self).local_seq()[old(self).frames()],
                expected_remote(old(self).remote_seq(), old(self).frames()),
            ),
            final(self).sim() == step_spec(old(self).sim(), r.inputs),
            final(self).sim() == run_spec(
                final(self).start(),
                inputs_upto(
                    final(self).handle(),
                    final(self).local_seq(),
                    final(self).remote_seq(),
                    final(self).frames(),
                ),
            ),
            old(self).watermark() <= final(self).watermark() <= final(self).local_seq().len(),
            forall|f: int|
                0 <= f < final(self).watermark() ==> slot(final(self).remote_seq(), f) is Some,
            final(self).watermark() == final(self).local_seq().len() || slot(
                final(self).remote_seq(),
                final(self).watermark(),
            ) is None,
    {
        let ghost old_local = self.local@;
        let ghost c = self.current as int;
        let ghost h = self.handle();
        let target = self.current + self.input_delay;
        self.local.push(local_input);
        let l = self.local[self.current];
        let rv = self.expected(self.current);
        let fi = assemble(self.local_handle, l, rv);
        proof {
            lemma_local_push(h, old_local, local_input, self.remote@, c);
        }
        let sn = snapshot(&self.state);
        self.snaps.put(sn);
        proof {
            lemma_run_wf(self.init, inputs_upto(h, self.local@, self.remote@, c));
        }
        let new_state = step(&self.state, fi);
        self.state = new_state;
        self.current = self.current + 1;
        proof {
            lemma_inputs_upto_succ(h, self.local@, self.remote@, c);
            lemma_run_push(self.init, inputs_upto(h, self.local@, self.remote@, c), fi);
            assert forall|k: int| 0 <= k <= c implies inputs_upto(h, self.local@, self.remote@, k)
                =~= inputs_upto(h, old_local, self.remote@, k) by {
                lemma_local_push(h, old_local, local_input, self.remote@, k);
            }
        }
        self.update_confirmed();
        TickOutput { message: InputMessage { frame: target, input: local_input }, inputs: fi }
    }

    /// Apply a remote input message for `frame`.  A duplicate of an already
    /// recorded input is ignored; one that contradicts a recorded input is a
    /// fatal desync.  An input for a not yet stepped frame is buffered.  One
    /// for an already stepped frame still inside the rollback window confirms
    /// the prediction used there when equal; when different it is a
    /// misprediction: the engine restores the snapshot taken before that
    /// frame and deterministically re-steps every frame up to the present.
    /// One for a frame below every retained snapshot can no longer be
    /// reconciled: it is discarded without any effect when it matches the
    /// prediction used there, and is a fatal desync when it differs.
    pub fn handle_remote(&mut self, frame: usize, input: u8) -> (r: Result<(), DesyncError>)
        requires
            old(self).wf(),
            frame <= MAX_FRAME,
        ensures
            final(self).wf(),
            final(self).handle() == old(self).handle(),
            final(self).delay() == old(self).delay(),
            final(self).win() == old(self).win(),
            final(self).start() == old(self).start(),
            final(self).frames() == old(self).frames(),
            final(self).local_seq() == old(self).local_seq(),
            (r is Err <==> (slot(old(self).remote_seq(), frame as int) is Some && slot(
                old(self).remote_seq(),
                frame as int,
            ) != Some(input)) || (slot(old(self).remote_seq(), frame as int) is None && frame
                < old(self).frames() && input != pred_spec(old(self).remote_seq(), frame as int)
                && frame + old(self).win() < old(self).frames())),
            r is Err ==> final(self).remote_seq() == old(self).remote_seq() && final(self).sim()
                == old(self).sim() && final(self).watermark() == old(self).watermark(),
            r is Ok && slot(old(self).remote_seq(), frame as int) is Some ==> final(self).remote_seq()
                == old(self).remote_seq() && final(self).sim() == old(self).sim()
                && final(self).watermark() == old(self).watermark(),
            r is Ok && slot(old(self).remote_seq(), frame as int) is None && frame < old(self).frames()
                && frame + old(self).win() < old(self).frames() ==> final(self).remote_seq()
                == old(self).remote_seq() && final(self).sim() == old(self).sim()
                && final(self).watermark() == old(self).watermark(),
            r is Ok && slot(old(self).remote_seq(), frame as int) is None && !(frame < old(self).frames()
                && frame + old(self).win() < old(self).frames()) ==> final(self).remote_seq()
                == record_spec(old(self).remote_seq(), frame as int, input),
            final(self).sim() == run_spec(
                final(self).start(),
                inputs_upto(
                    final(self).handle(),
                    final(self).local_seq(),
                    final(self).remote_seq(),
                    final(self).frames(),
                ),
            ),
            old(self).watermark() <= final(self).watermark() <= final(self).local_seq().len(),
            forall|f: int|
                0 <= f < final(self).watermark() ==> slot(final(self).remote_seq(), f) is Some,
            final(self).watermark() == final(self).local_seq().len() || slot(
                final(self).remote_seq(),
                final(self).watermark(),
            ) is None,
    {
        let ghost r0 = self.remote@;
        let ghost c = self.current as int;
        let ghost h = self.handle();
        let ghost loc = self.local@;
        match self.remote_slot(frame) {
            Some(v) => {
                if v == input {
                    Ok(())
                } else {
                    Err(DesyncError)
                }
            },
            None => {
                proof {
                    // `frame` is unconfirmed: every frame below the watermark
                    // has a recorded slot.
                    assert(frame >= self.confirmed);
                }
                if frame >= self.current {
                    self.record(frame, input);
                    proof {
                        lemma_record_slots(r0, frame as int, input);
                        lemma_record_above(r0, frame as int, input, h, loc, c);
                        assert forall|k: int| 0 <= k <= c implies inputs_upto(
                            h,
                            loc,
                            self.remote@,
                            k,
                        ) =~= inputs_upto(h, loc, r0, k) by {
                            lemma_record_above(r0, frame as int, input, h, loc, k);
                        }
                    }
                    self.update_confirmed();
                    Ok(())
                } else {
                    let predicted = self.predict(frame);
                    match self.snaps.get(frame) {
                        None => {
                            proof {
                                // Outside the retained range below the
                                // store: the frame left the window.
                                assert(frame < self.snaps.lo());
                            }
                            if input == predicted {
                                // Too late to reconcile, but consistent with
                                // the prediction used there: discarded
                                // without any effect.
                                Ok(())
                            } else {
                                Err(DesyncError)
                            }
                        },
                        Some(sn) => {
                            proof {
                                // Retained, so within the window.
                                assert(frame + self.win() >= c);
                            }
                            if input == predicted {
                                self.record(frame, input);
                                proof {
                                    lemma_record_slots(r0, frame as int, input);
                                    lemma_expected_matching(r0, frame as int, input);
                                    // Every frame's used remote input is
                                    // unchanged, so every prefix of assembled
                                    // inputs is too.
                                    assert forall|k: int| 0 <= k <= c implies inputs_upto(
                                        h,
                                        loc,
                                        self.remote@,
                                        k,
                                    ) =~= inputs_upto(h, loc, r0, k) by {
                                        assert(forall|g: int|
                                            #[trigger] expected_remote(self.remote@, g)
                                                == expected_remote(r0, g));
                                    }
                                }
                                self.update_confirmed();
                                Ok(())
                            } else {
                                self.record(frame, input);
                                let restored = restore(&sn);
                                self.state = restored;
                                proof {
                                    lemma_record_slots(r0, frame as int, input);
                                    lemma_record_above(
                                        r0,
                                        frame as int,
                                        input,
                                        h,
                                        loc,
                                        frame as int,
                                    );
                                    assert forall|k: int| 0 <= k <= frame implies inputs_upto(
                                        h,
                                        loc,
                                        self.remote@,
                                        k,
                                    ) =~= inputs_upto(h, loc, r0, k) by {
                                        lemma_record_above(r0, frame as int, input, h, loc, k);
                                    }
                                    assert(self.state == run_spec(
                                        self.init,
                                        inputs_upto(h, loc, self.remote@, frame as int),
                                    ));
                                    lemma_run_wf(
                                        self.init,
                                        inputs_upto(h, loc, self.remote@, frame as int),
                                    );
                                }
                                let mut g = frame;
                                while g < self.current
                                    invariant
                                        frame <= g <= self.current,
                                        self.local_handle == old(self).local_handle,
                                        self.local_handle < 2,
                                        self.input_delay == old(self).input_delay,
                                        self.window == old(self).window,
                                        self.init == old(self).init,
                                        self.init.wf(),
                                        self.current == old(self).current,
                                        self.confirmed == old(self).confirmed,
                                        self.local == old(self).local,
                                        self.local@.len() == self.current + self.input_delay,
                                        self.remote@ == record_spec(
                                            old(self).remote@,
                                            frame as int,
                                            input,
                                        ),
                                        self.remote@.len() <= MAX_FRAME + 1,
                                        self.state == run_spec(
                                            self.init,
                                            inputs_upto(
                                                self.handle(),
                                                self.local@,
                                                self.remote@,
                                                g as int,
                                            ),
                                        ),
                                        self.state.wf(),
                                        self.snaps.wf(),
                                        self.snaps.win() == self.window,
                                        self.snaps.hi() == self.current,
                                        self.snaps.lo() == (if self.current <= self.window {
                                            0int
                                        } else {
                                            self.current - self.window
                                        }),
                                        self.snaps.lo() <= frame,
                                        forall|k: int|
                                            self.snaps.lo() <= k < g ==> self.snaps.entry(k)
                                                == snapshot_spec(
                                                run_spec(
                                                    self.init,
                                                    inputs_upto(
                                                        self.handle(),
                                                        self.local@,
                                                        self.remote@,
                                                        k,
                                                    ),
                                                ),
                                            ),
                                    decreases self.current - g,
                                {
                                    let l2 = self.local[g];
                                    let rv2 = self.expected(g);
                                    let fi2 = assemble(self.local_handle, l2, rv2);
                                    let sn2 = snapshot(&self.state);
                                    self.snaps.overwrite(g, sn2);
                                    let ns = step(&self.state, fi2);
                                    self.state = ns;
                                    proof {
                                        lemma_inputs_upto_succ(
                                            self.handle(),
                                            self.local@,
                                            self.remote@,
                                            g as int,
                                        );
                                        lemma_run_push(
                                            self.init,
                                            inputs_upto(
                                                self.handle(),
                                                self.local@,
                                                self.remote@,
                                                g as int,
                                            ),
                                            fi2,
                                        );
                                    }
                                    g = g + 1;
                                }
                                self.update_confirmed();
                                Ok(())
                            }
                        },
                    }
                }
            },
        }
    }

    /// Consequences of well-formedness callers may rely on.
    pub proof fn lemma_bounds(self)
        requires
            self.wf(),
        ensures
            0 <= self.handle() < 2,
            0 <= self.delay() <= MAX_INPUT_DELAY,
            1 <= self.win() <= MAX_WINDOW,
            0 <= self.frames() <= MAX_FRAME,
            self.local_seq().len() == self.frames() + self.delay(),
            0 <= self.watermark() <= self.local_seq().len(),
            self.remote_seq().len() <= MAX_FRAME + 1,
            self.start().wf(),
            self.sim() == run_spec(
                self.start(),
                inputs_upto(self.handle(), self.local_seq(), self.remote_seq(), self.frames()),
            ),
    {
    }

    /// Rollback equivalence: once every stepped frame's remote input has
    /// been recorded, the engine's state equals the state obtained by
    /// stepping the fully confirmed input sequence from frame 0 — rollback
    /// leaves no residual error.
    pub proof fn lemma_rollback_equivalence(self)
        requires
            self.wf(),
            forall|f: int| 0 <= f < self.frames() ==> slot(self.remote_seq(), f) is Some,
        ensures
            self.sim() == run_spec(
                self.start(),
                Seq::new(
                    self.frames() as nat,
                    |g: int|
                        assemble_spec(
                            self.handle(),
                            self.local_seq()[g],
                            slot(self.remote_seq(), g).unwrap(),
                        ),
                ),
            ),
    {
        assert(inputs_upto(self.handle(), self.local_seq(), self.remote_seq(), self.frames()) =~= Seq::new(
            self.frames() as nat,
            |g: int|
                assemble_spec(
                    self.handle(),
                    self.local_seq()[g],
                    slot(self.remote_seq(), g).unwrap(),
                ),
        ));
    }

    /// Monotonic confirmation, second half: every frame below the watermark
    /// has its remote input recorded and its local input queued — a frame is
    /// never confirmed while an earlier frame is still predicted.
    pub proof fn lemma_confirmed_prefix(self, f: int)
        requires
            self.wf(),
            0 <= f < self.watermark(),
        ensures
            slot(self.remote_seq(), f) is Some,
            f < self.local_seq().len(),
    {
    }

    /// The authoritative (possibly predicted) inputs of the most recently
    /// stepped frame; `None` before the first step.
    pub fn current_frame_inputs(&self) -> (r: Option<FrameInputs>)
        requires
            self.wf(),
        ensures
            r is Some <==> self.frames() > 0,
            self.frames() > 0 ==> r == Some(
                inputs_upto(self.handle(), self.local_seq(), self.remote_seq(), self.frames())[
                    self.frames() - 1],
            ),
    {
        if self.current == 0 {
            None
        } else {
            let f = self.current - 1;
            let l = self.local[f];
            let rv = self.expected(f);
            Some(assemble(self.local_handle, l, rv))
        }
    }
}

} // verus!
