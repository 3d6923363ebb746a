//! The single-instance channel of one process: its role, and whether it is
//! accepting batches that later launches forward.
//!
//! The channel keeps the state and takes the decisions. The transport that
//! binds the endpoint and moves bytes is outside: each operation that needs it
//! is told how the transport's attempt ended.

use vstd::prelude::*;

verus! {

/// What a process is for its endpoint.
#[derive(Clone, Copy, Debug, PartialEq, Eq, Structural)]
pub enum Role {
    /// It claimed the endpoint: it hosts the window.
    Primary,
    /// Another process holds the endpoint: it forwards its arguments and leaves.
    Secondary,
}

/// Whether the channel accepts connections.
#[derive(Clone, Copy, Debug, PartialEq, Eq, Structural)]
pub enum ListenerState {
    /// Never started.
    Unbound,
    /// Accepting batches from later launches.
    Listening,
    /// Torn down, after a refused attempt or by `stop`.
    Stopped,
}

/// Why `listen` did not start accepting.
#[derive(Clone, Copy, Debug, PartialEq, Eq, Structural)]
pub enum ListenError {
    /// The process does not hold the Primary role.
    NotPrimary,
    /// The transport refused to accept connections.
    Refused,
    /// The listener was torn down earlier; only `start` re-arms one.
    Stopped,
}

/// Why a batch was not forwarded.
#[derive(Clone, Copy, Debug, PartialEq, Eq, Structural)]
pub enum SendError {
    /// Nobody accepted the connection.
    NoListener,
}

/// The channel's state as a plain value.
pub struct ChannelState {
    /// Decided by the first bind attempt, then fixed.
    pub role: Option<Role>,
    pub listener: ListenerState,
    /// Whether this process holds the endpoint, so that no other can claim it.
    pub holds_endpoint: bool,
    /// Whether the listener has accepted connections at some time.
    pub armed: bool,
}

impl ChannelState {
    /// A channel that has not tried to bind.
    pub open spec fn fresh() -> ChannelState {
        ChannelState {
            role: None,
            listener: ListenerState::Unbound,
            holds_endpoint: false,
            armed: false,
        }
    }

    /// What every channel satisfies that was made by `Channel::new` and changed
    /// by its operations only.
    pub open spec fn wf(self) -> bool {
        &&& self.holds_endpoint ==> self.role == Some(Role::Primary)
        &&& self.armed ==> self.role == Some(Role::Primary) && self.listener
            != ListenerState::Unbound
        &&& self.listener == ListenerState::Listening ==> self.holds_endpoint && self.armed
        &&& self.role == Some(Role::Primary) && self.listener == ListenerState::Unbound
            ==> self.holds_endpoint
    }

    /// The role that a bind attempt settles on: the one decided earlier, or else
    /// Primary exactly when the endpoint was claimed.
    pub open spec fn role_after_bind(self, claimed: bool) -> Role {
        match self.role {
            Some(role) => role,
            None => if claimed {
                Role::Primary
            } else {
                Role::Secondary
            },
        }
    }

    /// The state after a bind attempt. Only the first attempt changes anything.
    pub open spec fn bound(self, claimed: bool) -> ChannelState {
        match self.role {
            Some(_) => self,
            None => ChannelState {
                role: Some(self.role_after_bind(claimed)),
                holds_endpoint: claimed,
                ..self
            },
        }
    }

    /// What `listen` answers when the transport's attempt ended as `accepted`.
    pub open spec fn listen_result(self, accepted: bool) -> Result<(), ListenError> {
        if self.role != Some(Role::Primary) {
            Err(ListenError::NotPrimary)
        } else {
            match self.listener {
                ListenerState::Listening => Ok(()),
                ListenerState::Stopped => Err(ListenError::Stopped),
                ListenerState::Unbound => if accepted {
                    Ok(())
                } else {
                    Err(ListenError::Refused)
                },
            }
        }
    }

    /// The state after `listen`. A Primary that never started goes to
    /// `Listening` when the transport accepted and to `Stopped` when it
    /// refused, and keeps the endpoint either way.
    pub open spec fn listened(self, accepted: bool) -> ChannelState {
        if self.role == Some(Role::Primary) && self.listener == ListenerState::Unbound {
            if accepted {
                ChannelState { listener: ListenerState::Listening, armed: true, ..self }
            } else {
                ChannelState { listener: ListenerState::Stopped, ..self }
            }
        } else {
            self
        }
    }

    /// Whether a batch has to travel: a Primary opens its own batch itself.
    pub open spec fn forwards(self) -> bool {
        self.role != Some(Role::Primary)
    }

    /// What `send` answers when the transport's attempt ended as `delivered`.
    pub open spec fn send_result(self, delivered: bool) -> Result<(), SendError> {
        if !self.forwards() || delivered {
            Ok(())
        } else {
            Err(SendError::NoListener)
        }
    }

    /// The state after `start`. Only a Primary whose listener had accepted
    /// before and was stopped is re-armed, and only when the transport
    /// claimed the endpoint again.
    pub open spec fn started(self, rebound: bool) -> ChannelState {
        if self.role == Some(Role::Primary) && self.listener == ListenerState::Stopped && self.armed
            && rebound {
            ChannelState { listener: ListenerState::Listening, holds_endpoint: true, ..self }
        } else {
            self
        }
    }

    /// The state after `stop`: not accepting, and the endpoint given up.
    pub open spec fn stopped(self) -> ChannelState {
        ChannelState { listener: ListenerState::Stopped, holds_endpoint: false, ..self }
    }
}

/// The single-instance channel of one process.
pub struct Channel {
    role: Option<Role>,
    listener: ListenerState,
    holds_endpoint: bool,
    armed: bool,
}

impl View for Channel {
    type V = ChannelState;

    closed spec fn view(&self) -> ChannelState {
        ChannelState {
            role: self.role,
            listener: self.listener,
            holds_endpoint: self.holds_endpoint,
            armed: self.armed,
        }
    }
}

impl Channel {
    /// A channel that has not tried to bind.
    pub fn new() -> (channel: Channel)
        ensures
            channel@ == ChannelState::fresh(),
            channel@.wf(),
    {
        Channel {
            role: None,
            listener: ListenerState::Unbound,
            holds_endpoint: false,
            armed: false,
        }
    }

    /// Records how the claim on the endpoint ended and answers the role.
    /// A failed claim is no error: it says that another instance runs.
    pub fn try_bind(&mut self, claimed: bool) -> (role: Role)
        ensures
            role == old(self)@.role_after_bind(claimed),
            final(self)@ == old(self)@.bound(claimed),
            final(self)@.role == Some(role),
            old(self)@.wf() ==> final(self)@.wf(),
    {
        match self.role {
            Some(role) => role,
            None => {
                let role = if claimed {
                    Role::Primary
                } else {
                    Role::Secondary
                };
                self.role = Some(role);
                self.holds_endpoint = claimed;
                role
            },
        }
    }

    /// Records how the attempt to accept connections ended.
    pub fn listen(&mut self, accepted: bool) -> (result: Result<(), ListenError>)
        ensures
            result == old(self)@.listen_result(accepted),
            final(self)@ == old(self)@.listened(accepted),
            old(self)@.wf() ==> final(self)@.wf(),
            old(self)@.wf() ==> (result is Ok <==> final(self)@.listener
                == ListenerState::Listening),
    {
        match self.role {
            Some(Role::Primary) => match self.listener {
                ListenerState::Listening => Ok(()),
                ListenerState::Stopped => Err(ListenError::Stopped),
                ListenerState::Unbound => {
                    if accepted {
                        self.listener = ListenerState::Listening;
                        self.armed = true;
                        Ok(())
                    } else {
                        self.listener = ListenerState::Stopped;
                        Err(ListenError::Refused)
                    }
                },
            },
            _ => Err(ListenError::NotPrimary),
        }
    }

    /// Whether `send` has to hand the batch to the transport.
    pub fn forwards(&self) -> (forwards: bool)
        ensures
            forwards == self@.forwards(),
    {
        match self.role {
            Some(Role::Primary) => false,
            _ => true,
        }
    }

    /// Judges a forwarding attempt. For a Primary it succeeds without anything
    /// sent; for any other process it succeeds exactly when the transport
    /// delivered the batch. A failure is reported and is never fatal.
    pub fn send(&self, delivered: bool) -> (result: Result<(), SendError>)
        ensures
            result == self@.send_result(delivered),
    {
        if !self.forwards() || delivered {
            Ok(())
        } else {
            Err(SendError::NoListener)
        }
    }

    /// Re-arms a stopped listener when the transport claimed the endpoint
    /// again; changes nothing otherwise.
    pub fn start(&mut self, rebound: bool)
        ensures
            final(self)@ == old(self)@.started(rebound),
            old(self)@.wf() ==> final(self)@.wf(),
    {
        let primary = match self.role {
            Some(Role::Primary) => true,
            _ => false,
        };
        let stopped = match self.listener {
            ListenerState::Stopped => true,
            _ => false,
        };
        if primary && stopped && self.armed && rebound {
            self.listener = ListenerState::Listening;
            self.holds_endpoint = true;
        }
    }

    /// Stops accepting and gives the endpoint up, so that a later launch can
    /// claim it.
    pub fn stop(&mut self)
        ensures
            final(self)@ == old(self)@.stopped(),
            old(self)@.wf() ==> final(self)@.wf(),
    {
        self.listener = ListenerState::Stopped;
        self.holds_endpoint = false;
    }

    /// The role, once a bind attempt has decided it.
    pub fn role(&self) -> (role: Option<Role>)
        ensures
            role == self@.role,
    {
        self.role
    }

    pub fn listener_state(&self) -> (state: ListenerState)
        ensures
            state == self@.listener,
    {
        self.listener
    }

    /// Whether the channel is accepting batches.
    pub fn is_listening(&self) -> (listening: bool)
        ensures
            listening == (self@.listener == ListenerState::Listening),
    {
        match self.listener {
            ListenerState::Listening => true,
            _ => false,
        }
    }

    /// Whether the listener has accepted connections at some time.
    pub fn was_listening(&self) -> (armed: bool)
        ensures
            armed == self@.armed,
    {
        self.armed
    }

    /// Whether this process holds the endpoint.
    pub fn holds_endpoint(&self) -> (holds: bool)
        ensures
            holds == self@.holds_endpoint,
    {
        self.holds_endpoint
    }
}

/// `start` and `stop` are idempotent: a second call with the same outcome
/// changes nothing.
pub proof fn start_stop_idempotent(state: ChannelState, rebound: bool)
    ensures
        state.stopped().stopped() == state.stopped(),
        state.started(rebound).started(rebound) == state.started(rebound),
{
}

/// One call on a channel that changes its state.
#[derive(Clone, Copy, Debug, PartialEq, Eq, Structural)]
pub enum ChannelOp {
    TryBind { claimed: bool },
    Listen { accepted: bool },
    Start { rebound: bool },
    Stop,
}

/// The state after one call.
pub open spec fn channel_step(state: ChannelState, op: ChannelOp) -> ChannelState {
    match op {
        ChannelOp::TryBind { claimed } => state.bound(claimed),
        ChannelOp::Listen { accepted } => state.listened(accepted),
        ChannelOp::Start { rebound } => state.started(rebound),
        ChannelOp::Stop => state.stopped(),
    }
}

/// The state that `start` has come to after the first `n` calls of `ops`.
pub open spec fn channel_run(start: ChannelState, ops: Seq<ChannelOp>, n: int) -> ChannelState
    decreases n,
{
    if n <= 0 {
        start
    } else {
        channel_step(channel_run(start, ops, n - 1), ops[n - 1])
    }
}

/// No call leads out of the well-formed states.
pub proof fn channel_step_preserves_wf(state: ChannelState, op: ChannelOp)
    requires
        state.wf(),
    ensures
        channel_step(state, op).wf(),
{
}

/// The role is decided once: whatever calls follow the first bind attempt,
/// the role stays what that attempt made it.
pub proof fn role_is_immutable(state: ChannelState, ops: Seq<ChannelOp>, n: int)
    requires
        state.role is Some,
        0 <= n <= ops.len(),
    ensures
        channel_run(state, ops, n).role == state.role,
    decreases n,
{
    if n > 0 {
        role_is_immutable(state, ops, n - 1);
    }
}

/// A Primary whose first attempt to listen was refused is never `Listening`
/// afterwards, whatever calls follow, in whatever order.
pub proof fn refused_listener_stays_down(before: ChannelState, ops: Seq<ChannelOp>, n: int)
    requires
        before.wf(),
        before.role == Some(Role::Primary),
        before.listener == ListenerState::Unbound,
        0 <= n <= ops.len(),
    ensures
        channel_run(before.listened(false), ops, n).listener == ListenerState::Stopped,
        !channel_run(before.listened(false), ops, n).armed,
    decreases n,
{
    if n > 0 {
        refused_listener_stays_down(before, ops, n - 1);
    }
}

} // verus!
