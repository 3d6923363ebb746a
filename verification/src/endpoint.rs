//! The rendezvous point that all launches of the program share, as a value:
//! who holds it, whether the holder accepts batches, and what was delivered.
//!
//! A real host binds an endpoint of the operating system. This model of it
//! serves to say what the arbitration guarantees over any number of launches,
//! and to run whole launches where no such endpoint is at hand.

use crate::channel::{ListenerState, Role, SendError};
use crate::lifecycle::{CoreState, Event, Orchestrator, Phase};
use crate::window::WindowVisibility;
use vstd::prelude::*;

verus! {

/// The endpoint's state as a plain value.
pub struct EndpointState {
    /// The process that holds the endpoint.
    pub owner: Option<u64>,
    /// Whether the holder accepts batches.
    pub accepting: bool,
    /// The batches delivered so far, oldest first.
    pub inbox: Seq<Seq<Seq<char>>>,
}

impl EndpointState {
    /// An endpoint that nobody holds.
    pub open spec fn free() -> EndpointState {
        EndpointState { owner: None, accepting: false, inbox: seq![] }
    }

    /// Whether a claim succeeds: exactly when nobody holds the endpoint.
    pub open spec fn claim_result(self) -> bool {
        self.owner is None
    }

    /// The state after process `pid` tried to claim the endpoint.
    pub open spec fn claimed(self, pid: u64) -> EndpointState {
        if self.claim_result() {
            EndpointState { owner: Some(pid), ..self }
        } else {
            self
        }
    }

    /// Whether process `pid` gets to accept batches: it has to hold the
    /// endpoint, and the system has to permit it.
    pub open spec fn accept_result(self, pid: u64, permitted: bool) -> bool {
        self.owner == Some(pid) && permitted
    }

    /// The state after process `pid` tried to accept batches.
    pub open spec fn accepted(self, pid: u64, permitted: bool) -> EndpointState {
        if self.accept_result(pid, permitted) {
            EndpointState { accepting: true, ..self }
        } else {
            self
        }
    }

    /// The state after a batch was sent: it arrives exactly when the holder
    /// accepts batches, and is lost otherwise.
    pub open spec fn delivered(self, batch: Seq<Seq<char>>) -> EndpointState {
        if self.accepting {
            EndpointState { inbox: self.inbox.push(batch), ..self }
        } else {
            self
        }
    }

    /// The state after process `pid` gave the endpoint up. Only the holder
    /// can do so.
    pub open spec fn released(self, pid: u64) -> EndpointState {
        if self.owner == Some(pid) {
            EndpointState { owner: None, accepting: false, ..self }
        } else {
            self
        }
    }
}

/// The rendezvous point of all launches.
pub struct Endpoint {
    owner: Option<u64>,
    accepting: bool,
    inbox: Vec<Vec<String>>,
}

impl View for Endpoint {
    type V = EndpointState;

    closed spec fn view(&self) -> EndpointState {
        EndpointState {
            owner: self.owner,
            accepting: self.accepting,
            inbox: self.inbox.deep_view(),
        }
    }
}

impl Endpoint {
    /// An endpoint that nobody holds.
    pub fn new() -> (endpoint: Endpoint)
        ensures
            endpoint@ == EndpointState::free(),
    {
        let endpoint = Endpoint { owner: None, accepting: false, inbox: Vec::new() };
        assert(endpoint.inbox.deep_view() =~= Seq::<Seq<Seq<char>>>::empty());
        endpoint
    }

    /// Tries to claim the endpoint for process `pid`, in one step: of all
    /// claims on a free endpoint, the first succeeds and no other.
    pub fn claim(&mut self, pid: u64) -> (claimed: bool)
        ensures
            claimed == old(self)@.claim_result(),
            final(self)@ == old(self)@.claimed(pid),
    {
        if self.owner.is_none() {
            self.owner = Some(pid);
            true
        } else {
            false
        }
    }

    /// Tries to accept batches for process `pid`.
    pub fn accept(&mut self, pid: u64, permitted: bool) -> (accepted: bool)
        ensures
            accepted == old(self)@.accept_result(pid, permitted),
            final(self)@ == old(self)@.accepted(pid, permitted),
    {
        let holds = match self.owner {
            Some(owner) => owner == pid,
            None => false,
        };
        if holds && permitted {
            self.accepting = true;
            true
        } else {
            false
        }
    }

    /// Sends a batch to whoever accepts batches.
    pub fn deliver(&mut self, batch: Vec<String>) -> (delivered: bool)
        ensures
            delivered == old(self)@.accepting,
            final(self)@ == old(self)@.delivered(batch.deep_view()),
    {
        if self.accepting {
            self.inbox.push(batch);
            assert(self.inbox.deep_view() =~= old(self).inbox.deep_view().push(batch.deep_view()));
            true
        } else {
            false
        }
    }

    /// Gives the endpoint up for process `pid`.
    pub fn release(&mut self, pid: u64)
        ensures
            final(self)@ == old(self)@.released(pid),
    {
        let holds = match self.owner {
            Some(owner) => owner == pid,
            None => false,
        };
        if holds {
            self.owner = None;
            self.accepting = false;
        }
    }

    /// The process that holds the endpoint.
    pub fn owner(&self) -> (owner: Option<u64>)
        ensures
            owner == self@.owner,
    {
        self.owner
    }

    /// Whether the holder accepts batches.
    pub fn is_accepting(&self) -> (accepting: bool)
        ensures
            accepting == self@.accepting,
    {
        self.accepting
    }

    /// The batches delivered so far, oldest first.
    pub fn inbox(&self) -> (inbox: &Vec<Vec<String>>)
        ensures
            inbox.deep_view() == self@.inbox,
    {
        &self.inbox
    }
}

/// One call on an endpoint, by any process.
pub enum EndpointOp {
    Claim { pid: u64 },
    Accept { pid: u64, permitted: bool },
    Deliver { batch: Seq<Seq<char>> },
    Release { pid: u64 },
}

/// The state after one call.
pub open spec fn endpoint_step(state: EndpointState, op: EndpointOp) -> EndpointState {
    match op {
        EndpointOp::Claim { pid } => state.claimed(pid),
        EndpointOp::Accept { pid, permitted } => state.accepted(pid, permitted),
        EndpointOp::Deliver { batch } => state.delivered(batch),
        EndpointOp::Release { pid } => state.released(pid),
    }
}

/// The state of an endpoint that was free after the first `n` calls of `ops`.
pub open spec fn endpoint_run(ops: Seq<EndpointOp>, n: int) -> EndpointState
    decreases n,
{
    if n <= 0 {
        EndpointState::free()
    } else {
        endpoint_step(endpoint_run(ops, n - 1), ops[n - 1])
    }
}

/// Whether call `i` of `ops` is a claim that succeeds.
pub open spec fn claim_succeeds(ops: Seq<EndpointOp>, i: int) -> bool {
    ops[i] is Claim && endpoint_run(ops, i).claim_result()
}

/// An endpoint that process `pid` holds after `from` calls and does not hold
/// after `to` calls was given up by `pid` in between.
proof fn holder_released(ops: Seq<EndpointOp>, pid: u64, from: int, to: int) -> (k: int)
    requires
        0 <= from <= to <= ops.len(),
        endpoint_run(ops, from).owner == Some(pid),
        endpoint_run(ops, to).owner != Some(pid),
    ensures
        from <= k < to,
        ops[k] == (EndpointOp::Release { pid }),
    decreases to - from,
{
    if endpoint_run(ops, to - 1).owner == Some(pid) {
        to - 1
    } else {
        holder_released(ops, pid, from, to - 1)
    }
}

/// Whatever calls processes make on an endpoint, in whatever order: between
/// two claims that succeed, the process of the first gave the endpoint up. So
/// at any time at most one process holds the endpoint, and a launch becomes a
/// Primary only where no Primary is left.
pub proof fn one_holder_at_a_time(ops: Seq<EndpointOp>, i: int, j: int) -> (k: int)
    requires
        0 <= i < j < ops.len(),
        claim_succeeds(ops, i),
        claim_succeeds(ops, j),
    ensures
        i < k < j,
        ops[k] == (EndpointOp::Release { pid: ops[i]->Claim_pid }),
{
    holder_released(ops, ops[i]->Claim_pid, i + 1, j)
}

/// Whatever calls processes make on an endpoint, in whatever order: a batch
/// arrives exactly when it is sent while the holder accepts batches. A batch
/// sent earlier is lost; it is not kept for later.
pub proof fn batches_arrive_while_accepting(ops: Seq<EndpointOp>, n: int)
    requires
        0 <= n < ops.len(),
        ops[n] is Deliver,
    ensures
        endpoint_run(ops, n).accepting ==> endpoint_run(ops, n + 1).inbox == endpoint_run(
            ops,
            n,
        ).inbox.push(ops[n]->batch),
        !endpoint_run(ops, n).accepting ==> endpoint_run(ops, n + 1) == endpoint_run(ops, n),
        endpoint_run(ops, n).accepting ==> endpoint_run(ops, n).owner is Some,
{
    accepting_has_a_holder(ops, n);
}

/// Batches are accepted only on an endpoint that a process holds.
proof fn accepting_has_a_holder(ops: Seq<EndpointOp>, n: int)
    requires
        0 <= n <= ops.len(),
    ensures
        endpoint_run(ops, n).accepting ==> endpoint_run(ops, n).owner is Some,
    decreases n,
{
    if n > 0 {
        accepting_has_a_holder(ops, n - 1);
    }
}

/// One launch of the program: the process, the batch it carries, and whether
/// the system would permit it to accept batches.
pub struct LaunchAttempt {
    pub pid: u64,
    pub batch: Seq<Seq<char>>,
    pub permitted: bool,
}

/// How a launch ended: where its orchestrator stands, and, if it forwarded
/// its batch, how that went.
pub struct LaunchOutcome {
    pub core: CoreState,
    pub forward: Option<Result<(), SendError>>,
}

/// The endpoint after a launch. The process claims the endpoint. If it gets
/// it, it tries to accept batches; if not, it sends its batch.
pub open spec fn endpoint_after_launch(
    endpoint: EndpointState,
    launch: LaunchAttempt,
) -> EndpointState {
    if endpoint.claim_result() {
        endpoint.claimed(launch.pid).accepted(launch.pid, launch.permitted)
    } else {
        endpoint.delivered(launch.batch)
    }
}

/// How a launch ends against an endpoint.
pub open spec fn launch_outcome(endpoint: EndpointState, launch: LaunchAttempt) -> LaunchOutcome {
    let claimed = endpoint.claim_result();
    let core = CoreState::initial(claimed).step(Event::Setup { usage: false }).0;
    if claimed {
        let accepted = endpoint.claimed(launch.pid).accept_result(launch.pid, launch.permitted);
        LaunchOutcome { core: core.step(Event::ListenOutcome { accepted }).0, forward: None }
    } else {
        LaunchOutcome { core, forward: Some(core.channel.send_result(endpoint.accepting)) }
    }
}

/// What `launch` hands back.
pub struct Launched {
    /// The orchestrator of the launched process.
    pub core: Orchestrator,
    /// How forwarding the batch ended, for a process that forwarded it.
    pub forward: Option<Result<(), SendError>>,
}

/// Runs the start of process `pid` against the endpoint, up to the point where
/// the process either is done or waits for what its user does: it claims the
/// endpoint, is set up, and then listens as a Primary or forwards its batch as
/// a Secondary. The batch of a Primary goes to its own window.
pub fn launch(endpoint: &mut Endpoint, pid: u64, batch: Vec<String>, permitted: bool) -> (launched:
    Launched)
    ensures
        final(endpoint)@ == endpoint_after_launch(
            old(endpoint)@,
            LaunchAttempt { pid, batch: batch.deep_view(), permitted },
        ),
        launched.core@ == launch_outcome(
            old(endpoint)@,
            LaunchAttempt { pid, batch: batch.deep_view(), permitted },
        ).core,
        launched.forward == launch_outcome(
            old(endpoint)@,
            LaunchAttempt { pid, batch: batch.deep_view(), permitted },
        ).forward,
{
    let claimed = endpoint.claim(pid);
    let mut core = Orchestrator::new(claimed);
    let _ = core.step(Event::Setup { usage: false });
    if core.channel().forwards() {
        let delivered = endpoint.deliver(batch);
        let forward = core.channel().send(delivered);
        Launched { core, forward: Some(forward) }
    } else {
        let accepted = endpoint.accept(pid, permitted);
        let _ = core.on_listen_outcome(accepted);
        Launched { core, forward: None }
    }
}

/// The endpoint after the first `n` of `launches`, each run to its end before
/// the next begins, on an endpoint that was free.
pub open spec fn endpoint_after(launches: Seq<LaunchAttempt>, n: int) -> EndpointState
    decreases n,
{
    if n <= 0 {
        EndpointState::free()
    } else {
        endpoint_after_launch(endpoint_after(launches, n - 1), launches[n - 1])
    }
}

/// How launch `i` of `launches` ends.
pub open spec fn outcome_of(launches: Seq<LaunchAttempt>, i: int) -> LaunchOutcome {
    launch_outcome(endpoint_after(launches, i), launches[i])
}

/// The batches of all launches but the first, up to launch `n`.
pub open spec fn later_batches(launches: Seq<LaunchAttempt>, n: int) -> Seq<Seq<Seq<char>>> {
    Seq::new((n - 1) as nat, |k: int| launches[k + 1].batch)
}

/// Of any number of launches on one endpoint, the first becomes the Primary
/// and every other a Secondary that is done without a window, whether or not
/// the Primary gets to listen.
pub proof fn first_launch_is_the_primary(launches: Seq<LaunchAttempt>, i: int)
    requires
        0 <= i < launches.len(),
    ensures
        endpoint_after(launches, i + 1).owner == Some(launches[0].pid),
        i == 0 ==> outcome_of(launches, i).core.channel.role == Some(Role::Primary),
        i > 0 ==> outcome_of(launches, i).core.channel.role == Some(Role::Secondary),
        i > 0 ==> outcome_of(launches, i).core.phase == Phase::Exited,
        i > 0 ==> !outcome_of(launches, i).core.has_window(),
    decreases i,
{
    if i > 0 {
        first_launch_is_the_primary(launches, i - 1);
    }
}

/// Of any number of launches on one endpoint, where the first gets to listen
/// before the others send: exactly the first becomes the Primary, listens and
/// shows its window; every other becomes a Secondary and forwards its batch
/// with success; and the Primary has received all their batches, in the order
/// of the launches.
pub proof fn one_primary_receives_every_batch(launches: Seq<LaunchAttempt>, i: int)
    requires
        0 <= i < launches.len(),
        launches[0].permitted,
    ensures
        i == 0 ==> {
            &&& outcome_of(launches, i).core.channel.role == Some(Role::Primary)
            &&& outcome_of(launches, i).core.phase == Phase::Active
            &&& outcome_of(launches, i).core.channel.listener == ListenerState::Listening
            &&& outcome_of(launches, i).core.window == WindowVisibility::Visible
            &&& outcome_of(launches, i).forward is None
        },
        i > 0 ==> {
            &&& outcome_of(launches, i).core.channel.role == Some(Role::Secondary)
            &&& outcome_of(launches, i).core.phase == Phase::Exited
            &&& !outcome_of(launches, i).core.has_window()
            &&& outcome_of(launches, i).forward == Some(Ok::<(), SendError>(()))
        },
        endpoint_after(launches, i + 1).owner == Some(launches[0].pid),
        endpoint_after(launches, i + 1).accepting,
        endpoint_after(launches, i + 1).inbox == later_batches(launches, i + 1),
    decreases i,
{
    if i > 0 {
        one_primary_receives_every_batch(launches, i - 1);
    }
}

} // verus!
