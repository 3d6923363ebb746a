//! The shutdown coordinator: the exit handshake between the backend and the
//! presentation layer of one window.
//!
//! A close attempt asks the presentation layer to get ready, waits for its
//! acknowledgement, and only then lets the window be destroyed. The wait is a
//! one-shot signal: the first acknowledgement fires it, later ones are dropped.

use tokio::sync::oneshot::error::RecvError;
use tokio::sync::oneshot::{Receiver, Sender};
use vstd::prelude::*;

verus! {

/// The sending half of tokio's one-shot channel, carried as an opaque value.
#[verifier::external_type_specification]
#[verifier::external_body]
#[verifier::reject_recursive_types(T)]
pub struct ExSender<T>(Sender<T>);

/// The receiving half of tokio's one-shot channel, carried as an opaque value.
#[verifier::external_type_specification]
#[verifier::external_body]
#[verifier::reject_recursive_types(T)]
pub struct ExReceiver<T>(Receiver<T>);

/// What awaiting the receiving half yields when the sending half was dropped
/// unused; an opaque value. No signature here holds it: it is declared
/// because `Receiver<T>` is a future whose output names it, and the receiving
/// half cannot be declared without it.
#[verifier::external_type_specification]
#[verifier::external_body]
pub struct ExRecvError(RecvError);

/// Calls `tokio::sync::oneshot::channel::<()>`, which allocates a fresh pair of
/// halves and cannot fail. Nothing is claimed of the halves.
#[verifier::external_body]
fn oneshot_pair() -> (pair: (Sender<()>, Receiver<()>)) {
    tokio::sync::oneshot::channel::<()>()
}

/// Calls `Sender::send` with the unit value, which consumes the sending half
/// and wakes the task that waits on the receiving half, if there still is
/// one. Whether there was one depends on what the holder of the other half
/// has done; the answer is dropped and nothing is claimed.
#[verifier::external_body]
fn oneshot_send(sender: Sender<()>) {
    let _ = sender.send(());
}

/// How far a close attempt has come.
#[derive(Clone, Copy, Debug, PartialEq, Eq, Structural)]
pub enum HandshakeState {
    /// No close attempt is under way.
    Idle,
    /// The presentation layer was asked to get ready and has not answered.
    Requested,
    /// The presentation layer has answered; the window may be destroyed.
    Acknowledged,
}

impl HandshakeState {
    /// The state after a close request: only an idle handshake starts one.
    pub open spec fn requested(self) -> HandshakeState {
        if self == HandshakeState::Idle {
            HandshakeState::Requested
        } else {
            self
        }
    }

    /// The state after an acknowledgement: only a requested handshake takes it.
    pub open spec fn acknowledged(self) -> HandshakeState {
        if self == HandshakeState::Requested {
            HandshakeState::Acknowledged
        } else {
            self
        }
    }

    /// The state after the window's destruction was asked for: only an
    /// acknowledged handshake grants it, and is idle again afterwards.
    pub open spec fn completed(self) -> HandshakeState {
        if self == HandshakeState::Acknowledged {
            HandshakeState::Idle
        } else {
            self
        }
    }
}

/// The handshake of one window, with the signal that its waiting task sleeps
/// on. The signal is held exactly while the attempt stands at `Requested`.
pub struct Handshake {
    state: HandshakeState,
    signal: Option<Sender<()>>,
}

impl View for Handshake {
    type V = HandshakeState;

    closed spec fn view(&self) -> HandshakeState {
        self.state
    }
}

impl Handshake {
    #[verifier::type_invariant]
    spec fn signal_held_while_requested(self) -> bool {
        (self.state == HandshakeState::Requested) == (self.signal is Some)
    }

    /// A handshake with no close attempt under way.
    pub fn new() -> (handshake: Handshake)
        ensures
            handshake@ == HandshakeState::Idle,
    {
        Handshake { state: HandshakeState::Idle, signal: None }
    }

    /// Starts a close attempt, unless one is under way. The caller that gets a
    /// receiver emits the exit request to the window, waits on the receiver,
    /// and then calls `complete`.
    pub fn request(&mut self) -> (wait: Option<Receiver<()>>)
        ensures
            final(self)@ == old(self)@.requested(),
            wait is Some <==> old(self)@ == HandshakeState::Idle,
    {
        match self.state {
            HandshakeState::Idle => {
                let (sender, receiver) = oneshot_pair();
                *self = Handshake { state: HandshakeState::Requested, signal: Some(sender) };
                Some(receiver)
            },
            _ => None,
        }
    }

    /// Takes an acknowledgement from the presentation layer. The first one of
    /// an attempt wakes the waiting task and is answered with `true`; any other
    /// is dropped.
    pub fn acknowledge(&mut self) -> (first: bool)
        ensures
            final(self)@ == old(self)@.acknowledged(),
            first <==> old(self)@ == HandshakeState::Requested,
    {
        match self.state {
            HandshakeState::Requested => {
                let mut attempt = Handshake { state: HandshakeState::Acknowledged, signal: None };
                std::mem::swap(self, &mut attempt);
                proof {
                    use_type_invariant(&attempt);
                }
                oneshot_send(attempt.signal.unwrap());
                true
            },
            _ => false,
        }
    }

    /// Asks whether the window may be destroyed now. It may exactly when the
    /// attempt was acknowledged; the handshake is then idle again.
    pub fn complete(&mut self) -> (granted: bool)
        ensures
            final(self)@ == old(self)@.completed(),
            granted <==> old(self)@ == HandshakeState::Acknowledged,
    {
        match self.state {
            HandshakeState::Acknowledged => {
                proof {
                    use_type_invariant(&*self);
                }
                self.state = HandshakeState::Idle;
                true
            },
            _ => false,
        }
    }

    pub fn state(&self) -> (state: HandshakeState)
        ensures
            state == self@,
    {
        self.state
    }
}

/// One call on a handshake.
#[derive(Clone, Copy, Debug, PartialEq, Eq, Structural)]
pub enum HandshakeOp {
    Request,
    Acknowledge,
    Complete,
}

/// The state after one call.
pub open spec fn handshake_step(state: HandshakeState, op: HandshakeOp) -> HandshakeState {
    match op {
        HandshakeOp::Request => state.requested(),
        HandshakeOp::Acknowledge => state.acknowledged(),
        HandshakeOp::Complete => state.completed(),
    }
}

/// The state of a fresh handshake after the first `n` calls of `ops`.
pub open spec fn handshake_after(ops: Seq<HandshakeOp>, n: int) -> HandshakeState
    decreases n,
{
    if n <= 0 {
        HandshakeState::Idle
    } else {
        handshake_step(handshake_after(ops, n - 1), ops[n - 1])
    }
}

/// Whether call `i` of `ops` changed the state, that is: was not dropped.
pub open spec fn takes_effect(ops: Seq<HandshakeOp>, i: int) -> bool {
    handshake_after(ops, i + 1) != handshake_after(ops, i)
}

/// Whatever calls are made on a handshake, in whatever order: when a `complete`
/// grants the window's destruction, the last call before it that was not
/// dropped is the acknowledgement of that attempt. So a window is destroyed
/// only after the presentation layer has acknowledged, never before.
pub proof fn destruction_follows_acknowledgement(ops: Seq<HandshakeOp>, i: int)
    requires
        0 <= i < ops.len(),
        ops[i] == HandshakeOp::Complete,
        takes_effect(ops, i),
    ensures
        exists|j: int|
            0 <= j < i && ops[j] == HandshakeOp::Acknowledge && #[trigger] takes_effect(ops, j)
                && forall|k: int| j < k < i ==> !#[trigger] takes_effect(ops, k),
{
    last_effective_call(ops, i);
}

/// In a handshake that stands at `Acknowledged` after `n` calls, the last call
/// that was not dropped is an acknowledgement.
proof fn last_effective_call(ops: Seq<HandshakeOp>, n: int) -> (j: int)
    requires
        0 <= n <= ops.len(),
        handshake_after(ops, n) == HandshakeState::Acknowledged,
    ensures
        0 <= j < n,
        ops[j] == HandshakeOp::Acknowledge,
        takes_effect(ops, j),
        forall|k: int| j < k < n ==> !#[trigger] takes_effect(ops, k),
    decreases n,
{
    if takes_effect(ops, n - 1) {
        n - 1
    } else {
        last_effective_call(ops, n - 1)
    }
}

} // verus!
