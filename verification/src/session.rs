//! Session construction: player slots, session parameters and their
//! validation, and the errors of the synchronization protocol.

use vstd::prelude::*;

verus! {

/// Largest accepted input delay, in frames.
pub const MAX_INPUT_DELAY: usize = 10;

/// Largest accepted rollback window, in frames.
pub const MAX_WINDOW: usize = 64;

/// Opaque, stable identifier of a remote participant for the lifetime of a
/// session.
#[derive(Clone, Copy, PartialEq, Eq, Structural, Debug, Hash)]
pub struct PeerId(pub u64);

/// Whether a player slot is driven by local sampling or by a remote peer.
#[derive(Clone, Copy, PartialEq, Eq, Structural, Debug)]
pub enum PlayerType {
    Local,
    Remote(PeerId),
}

/// Invalid session parameters: fatal at construction, never retried
/// automatically.
#[derive(Clone, Copy, PartialEq, Eq, Structural, Debug)]
pub enum ConfigError {
    /// The player list does not hold exactly two entries.
    WrongPlayerCount,
    /// The two entries do not hold exactly one local player.
    NotExactlyOneLocal,
    /// The input delay exceeds [`MAX_INPUT_DELAY`].
    InputDelayOutOfRange,
    /// The rollback window is zero or exceeds [`MAX_WINDOW`].
    WindowOutOfRange,
}

/// A misprediction beyond the rollback window, or a remote input that
/// contradicts an already recorded one: the peers no longer agree on game
/// history and the session must be torn down.
#[derive(Clone, Copy, PartialEq, Eq, Structural, Debug)]
pub struct DesyncError;

/// The validated parameters of one two-player session: which handle is
/// local, who the remote peer is, and the protocol configuration.
#[derive(Clone, Copy, PartialEq, Eq, Structural, Debug)]
pub struct SessionDescriptor {
    pub local_handle: usize,
    pub remote_peer: PeerId,
    pub input_delay: usize,
    pub window: usize,
}

impl SessionDescriptor {
    pub open spec fn wf(self) -> bool {
        &&& self.local_handle < 2
        &&& self.input_delay <= MAX_INPUT_DELAY
        &&& 1 <= self.window <= MAX_WINDOW
    }
}

/// Of two player slots, exactly one is local.
pub open spec fn one_local_of_two(ps: Seq<PlayerType>) -> bool
    recommends
        ps.len() == 2,
{
    (ps[0] is Local) != (ps[1] is Local)
}

/// Validate the supplied players and parameters and assign handles in the
/// order supplied: handle 0 to the first entry, handle 1 to the second.
pub fn build(players: &Vec<PlayerType>, input_delay: usize, window: usize) -> (r: Result<
    SessionDescriptor,
    ConfigError,
>)
    ensures
        ({
            let ps = players@;
            &&& (r is Ok <==> ps.len() == 2 && one_local_of_two(ps) && input_delay
                <= MAX_INPUT_DELAY && 1 <= window <= MAX_WINDOW)
            &&& (r is Ok ==> {
                let d = r.unwrap();
                &&& d.wf()
                &&& d.input_delay == input_delay
                &&& d.window == window
                &&& ps[d.local_handle as int] is Local
                &&& ps[1 - (d.local_handle as int)] == PlayerType::Remote(d.remote_peer)
            })
            &&& (ps.len() != 2 ==> r == Result::<SessionDescriptor, ConfigError>::Err(
                ConfigError::WrongPlayerCount,
            ))
            &&& (ps.len() == 2 && !one_local_of_two(ps) ==> r == Result::<
                SessionDescriptor,
                ConfigError,
            >::Err(ConfigError::NotExactlyOneLocal))
            &&& (ps.len() == 2 && one_local_of_two(ps) && input_delay > MAX_INPUT_DELAY ==> r
                == Result::<SessionDescriptor, ConfigError>::Err(ConfigError::InputDelayOutOfRange))
            &&& (ps.len() == 2 && one_local_of_two(ps) && input_delay <= MAX_INPUT_DELAY && !(1
                <= window <= MAX_WINDOW) ==> r == Result::<SessionDescriptor, ConfigError>::Err(
                ConfigError::WindowOutOfRange,
            ))
        }),
{
    if players.len() != 2 {
        return Err(ConfigError::WrongPlayerCount);
    }
    let a = players[0];
    let b = players[1];
    let (local_handle, remote_peer): (usize, PeerId) = match (a, b) {
        (PlayerType::Local, PlayerType::Remote(p)) => (0, p),
        (PlayerType::Remote(p), PlayerType::Local) => (1, p),
        _ => {
            return Err(ConfigError::NotExactlyOneLocal);
        },
    };
    if input_delay > MAX_INPUT_DELAY {
        return Err(ConfigError::InputDelayOutOfRange);
    }
    if window < 1 || window > MAX_WINDOW {
        return Err(ConfigError::WindowOutOfRange);
    }
    Ok(SessionDescriptor { local_handle, remote_peer, input_delay, window })
}

} // verus!
