//! The poller supervisor: the control of a recurring background task and of
//! the configuration that its cycles run with.
//!
//! What a cycle asks the remote service and how it reads the answer is not
//! decided here. The supervisor hands each cycle one whole configuration and
//! keeps the latest snapshot that a cycle brought back.

use vstd::prelude::*;

verus! {

/// What a polling cycle needs to reach the remote service.
#[derive(Debug, PartialEq, Eq)]
pub struct PollerConfig {
    /// The address of the remote service.
    pub target: String,
    /// The pause between two cycles, in seconds.
    pub interval_secs: u64,
    pub username: String,
    pub password: String,
}

impl PollerConfig {
    /// A copy of the record, equal to it in every field.
    pub fn duplicate(&self) -> (copy: PollerConfig)
        ensures
            copy == *self,
    {
        PollerConfig {
            target: self.target.clone(),
            interval_secs: self.interval_secs,
            username: self.username.clone(),
            password: self.password.clone(),
        }
    }
}

/// A configuration was not applied; the one before it is still in force.
#[derive(Clone, Copy, Debug, PartialEq, Eq, Structural)]
pub struct PollerApplyFailure;

/// The supervisor's state as a plain value.
pub struct PollerState {
    /// The configuration in force: the latest one that was applied.
    pub config: Option<PollerConfig>,
    /// Whether the recurring task is meant to run.
    pub running: bool,
    /// The configuration that the cycle under way was started with.
    pub in_flight: Option<PollerConfig>,
    /// What the latest finished cycle brought back.
    pub snapshot: Option<Vec<u8>>,
}

impl PollerState {
    /// A supervisor that was never configured or started.
    pub open spec fn idle() -> PollerState {
        PollerState { config: None, running: false, in_flight: None, snapshot: None }
    }

    /// The state after `configure`: an applied configuration replaces the one
    /// in force as a whole; one that was not applied changes nothing. The
    /// cycle under way keeps the configuration it was started with.
    pub open spec fn configured(self, config: PollerConfig, applied: bool) -> PollerState {
        if applied {
            PollerState { config: Some(config), ..self }
        } else {
            self
        }
    }

    pub open spec fn started(self) -> PollerState {
        PollerState { running: true, ..self }
    }

    pub open spec fn stopped(self) -> PollerState {
        PollerState { running: false, ..self }
    }

    /// Whether a cycle can begin: the task runs, a configuration is in force
    /// and no cycle is under way.
    pub open spec fn can_begin(self) -> bool {
        self.running && self.config is Some && self.in_flight is None
    }

    /// The state after `begin_cycle`.
    pub open spec fn cycle_begun(self) -> PollerState {
        if self.can_begin() {
            PollerState { in_flight: self.config, ..self }
        } else {
            self
        }
    }

    /// The state after `complete_cycle`: the cycle under way ends, and what it
    /// brought back becomes the snapshot. A cycle that brought nothing back
    /// leaves the snapshot as it was.
    pub open spec fn cycle_completed(self, outcome: Option<Vec<u8>>) -> PollerState {
        if self.in_flight is Some {
            PollerState {
                in_flight: None,
                snapshot: if outcome is Some {
                    outcome
                } else {
                    self.snapshot
                },
                ..self
            }
        } else {
            self
        }
    }
}

/// The controller of the background polling task.
pub struct PollerSupervisor {
    config: Option<PollerConfig>,
    running: bool,
    in_flight: Option<PollerConfig>,
    snapshot: Option<Vec<u8>>,
}

impl View for PollerSupervisor {
    type V = PollerState;

    closed spec fn view(&self) -> PollerState {
        PollerState {
            config: self.config,
            running: self.running,
            in_flight: self.in_flight,
            snapshot: self.snapshot,
        }
    }
}

impl PollerSupervisor {
    /// A supervisor that was never configured or started.
    pub fn new() -> (supervisor: PollerSupervisor)
        ensures
            supervisor@ == PollerState::idle(),
    {
        PollerSupervisor { config: None, running: false, in_flight: None, snapshot: None }
    }

    /// Puts a new configuration in force, before or after `start`. `applied`
    /// says whether the remote-service side took it. If it did, the next cycle
    /// that begins runs with the new record and the cycle under way is not
    /// touched; if it did not, the configuration before it stays in force.
    pub fn configure(&mut self, config: PollerConfig, applied: bool) -> (result: Result<
        (),
        PollerApplyFailure,
    >)
        ensures
            final(self)@ == old(self)@.configured(config, applied),
            result is Ok <==> applied,
    {
        if applied {
            self.config = Some(config);
            Ok(())
        } else {
            Err(PollerApplyFailure)
        }
    }

    /// Lets the recurring task run, and answers whether this call set it
    /// going, so that the caller has to bring the task up. Starting a running
    /// supervisor changes nothing and answers `false`.
    pub fn start(&mut self) -> (begun: bool)
        ensures
            final(self)@ == old(self)@.started(),
            begun == !old(self)@.running,
    {
        let begun = !self.running;
        self.running = true;
        begun
    }

    /// Ends the recurring task. A cycle under way still completes.
    pub fn stop(&mut self)
        ensures
            final(self)@ == old(self)@.stopped(),
    {
        self.running = false;
    }

    /// Begins a cycle and hands it the configuration to run with: the whole
    /// record in force at this moment. Answers `None`, and begins nothing,
    /// when the task does not run, nothing is configured or a cycle is under
    /// way.
    pub fn begin_cycle(&mut self) -> (config: Option<PollerConfig>)
        ensures
            final(self)@ == old(self)@.cycle_begun(),
            config == if old(self)@.can_begin() {
                old(self)@.config
            } else {
                None
            },
    {
        if !self.running || self.in_flight.is_some() {
            return None;
        }
        match &self.config {
            Some(config) => {
                let observed = config.duplicate();
                self.in_flight = Some(config.duplicate());
                Some(observed)
            },
            None => None,
        }
    }

    /// Ends the cycle under way and keeps what it brought back as the snapshot.
    pub fn complete_cycle(&mut self, outcome: Option<Vec<u8>>)
        ensures
            final(self)@ == old(self)@.cycle_completed(outcome),
    {
        if self.in_flight.is_some() {
            self.in_flight = None;
            if outcome.is_some() {
                self.snapshot = outcome;
            }
        }
    }

    pub fn is_running(&self) -> (running: bool)
        ensures
            running == self@.running,
    {
        self.running
    }

    /// The configuration in force.
    pub fn config(&self) -> (config: &Option<PollerConfig>)
        ensures
            *config == self@.config,
    {
        &self.config
    }

    /// The configuration that the cycle under way runs with.
    pub fn in_flight(&self) -> (config: &Option<PollerConfig>)
        ensures
            *config == self@.in_flight,
    {
        &self.in_flight
    }

    /// What the latest finished cycle brought back.
    pub fn snapshot(&self) -> (snapshot: &Option<Vec<u8>>)
        ensures
            *snapshot == self@.snapshot,
    {
        &self.snapshot
    }
}

/// One call on a supervisor.
pub enum PollerOp {
    Configure { config: PollerConfig, applied: bool },
    Start,
    Stop,
    BeginCycle,
    CompleteCycle { outcome: Option<Vec<u8>> },
}

/// The state after one call.
pub open spec fn poller_step(state: PollerState, op: PollerOp) -> PollerState {
    match op {
        PollerOp::Configure { config, applied } => state.configured(config, applied),
        PollerOp::Start => state.started(),
        PollerOp::Stop => state.stopped(),
        PollerOp::BeginCycle => state.cycle_begun(),
        PollerOp::CompleteCycle { outcome } => state.cycle_completed(outcome),
    }
}

/// The state of a fresh supervisor after the first `n` calls of `ops`.
pub open spec fn poller_after(ops: Seq<PollerOp>, n: int) -> PollerState
    decreases n,
{
    if n <= 0 {
        PollerState::idle()
    } else {
        poller_step(poller_after(ops, n - 1), ops[n - 1])
    }
}

/// Whether call `i` of `ops` put its configuration in force.
pub open spec fn applies(ops: Seq<PollerOp>, i: int) -> bool {
    ops[i] matches PollerOp::Configure { applied, .. } && applied
}

/// Whether `config` is the record that the latest applied `configure` among the
/// first `n` calls of `ops` was given.
pub open spec fn latest_applied(ops: Seq<PollerOp>, n: int, config: PollerConfig) -> bool {
    exists|j: int|
        0 <= j < n && #[trigger] applies(ops, j) && ops[j]->Configure_config == config
            && forall|k: int| j < k < n ==> !#[trigger] applies(ops, k)
}

/// The configuration in force is always the record, whole, that the latest
/// applied `configure` was given.
pub proof fn config_is_latest_applied(ops: Seq<PollerOp>, n: int)
    requires
        0 <= n <= ops.len(),
    ensures
        match poller_after(ops, n).config {
            Some(config) => latest_applied(ops, n, config),
            None => forall|k: int| 0 <= k < n ==> !#[trigger] applies(ops, k),
        },
    decreases n,
{
    if n > 0 {
        config_is_latest_applied(ops, n - 1);
        if applies(ops, n - 1) {
            assert(latest_applied(ops, n, ops[n - 1]->Configure_config));
        } else if let Some(config) = poller_after(ops, n - 1).config {
            let earlier = choose|j: int|
                0 <= j < n - 1 && #[trigger] applies(ops, j) && ops[j]->Configure_config == config
                    && forall|k: int| j < k < n - 1 ==> !#[trigger] applies(ops, k);
            assert(applies(ops, earlier));
            assert(latest_applied(ops, n, config));
        }
    }
}

/// Whatever calls are made on a supervisor, in whatever order: the
/// configuration of the cycle under way is the record, whole, that the latest
/// `configure` applied before the cycle began was given. A `configure` that
/// arrives during the cycle does not reach into it, and no cycle ever runs
/// with parts of two records.
pub proof fn cycle_runs_with_one_whole_config(ops: Seq<PollerOp>, n: int) -> (begun: int)
    requires
        0 <= n <= ops.len(),
        poller_after(ops, n).in_flight is Some,
    ensures
        0 <= begun < n,
        ops[begun] is BeginCycle,
        poller_after(ops, begun).can_begin(),
        latest_applied(ops, begun, poller_after(ops, n).in_flight->0),
        forall|k: int|
            begun < k <= n ==> (#[trigger] poller_after(ops, k)).in_flight == poller_after(
                ops,
                n,
            ).in_flight,
    decreases n,
{
    let before = poller_after(ops, n - 1);
    if before.in_flight is None {
        config_is_latest_applied(ops, n - 1);
        n - 1
    } else {
        cycle_runs_with_one_whole_config(ops, n - 1)
    }
}

} // verus!
