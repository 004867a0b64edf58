//! The monitored side: connecting to the supervisor within a bounded wait,
//! keeping it awake with heartbeats, and asking it for a dump when the
//! process faults.
//!
//! Each of the three is a small state machine. A step takes what the last
//! operation yielded and gives the next state together with the operation to
//! perform next; performing it is left to the caller.

use vstd::prelude::*;

verus! {

/// Milliseconds slept between two attempts to connect.
pub const CONNECT_POLL_INTERVAL: u64 = 50;

/// How far the connection to the supervisor has come.
#[derive(Clone, Copy, Debug, PartialEq, Eq, Structural)]
pub enum ConnectPhase {
    /// Attempts are still being made.
    Connecting,
    /// An attempt succeeded.
    Connected,
    /// An attempt failed after the budget was spent.
    TimedOut,
}

/// What to do after an attempt to connect.
#[derive(Clone, Copy, Debug, PartialEq, Eq, Structural)]
pub enum ConnectAction {
    /// Sleep this many milliseconds, then attempt again.
    Retry { sleep_ms: u64 },
    /// The channel is open: start the heartbeat and install the crash trap.
    Proceed,
    /// Report the failure of the last attempt; no further attempt is made.
    GiveUp,
}

/// Bounded retry of the connection to the supervisor.
#[derive(Clone, Copy, Debug, PartialEq, Eq, Structural)]
pub struct Connector {
    /// Milliseconds that may be slept in all before a failure is final.
    pub budget_ms: u64,
    /// Number of sleeps taken so far.
    pub sleeps: u64,
    pub phase: ConnectPhase,
}

impl Connector {
    /// Milliseconds slept so far.
    pub open spec fn waited_ms(self) -> int {
        self.sleeps * CONNECT_POLL_INTERVAL
    }

    /// The state before the first attempt.
    pub open spec fn initial(budget_ms: u64) -> Connector {
        Connector { budget_ms, sleeps: 0, phase: ConnectPhase::Connecting }
    }

    /// The state and the action that follow an attempt: a success connects;
    /// a failure is retried after one interval while less than the budget
    /// has been slept, and is final otherwise. A finished connector stays
    /// as it is and repeats its last action.
    pub open spec fn spec_step(self, connected: bool) -> (Connector, ConnectAction) {
        match self.phase {
            ConnectPhase::Connecting => if connected {
                (Connector { phase: ConnectPhase::Connected, ..self }, ConnectAction::Proceed)
            } else if self.waited_ms() < self.budget_ms {
                (
                    Connector { sleeps: (self.sleeps + 1) as u64, ..self },
                    ConnectAction::Retry { sleep_ms: CONNECT_POLL_INTERVAL },
                )
            } else {
                (Connector { phase: ConnectPhase::TimedOut, ..self }, ConnectAction::GiveUp)
            },
            ConnectPhase::Connected => (self, ConnectAction::Proceed),
            ConnectPhase::TimedOut => (self, ConnectAction::GiveUp),
        }
    }

    /// The state after the attempts `outcomes`, in order.
    pub open spec fn run(self, outcomes: Seq<bool>) -> Connector
        decreases outcomes.len(),
    {
        if outcomes.len() == 0 {
            self
        } else {
            self.spec_step(outcomes[0]).0.run(outcomes.drop_first())
        }
    }

    /// A connector that has made no attempt yet.
    pub fn new(budget_ms: u64) -> (connector: Connector)
        ensures
            connector == Connector::initial(budget_ms),
    {
        Connector { budget_ms, sleeps: 0, phase: ConnectPhase::Connecting }
    }

    /// Takes the outcome of an attempt to connect and says what follows.
    pub fn step(self, connected: bool) -> (next: (Connector, ConnectAction))
        ensures
            next == self.spec_step(connected),
    {
        match self.phase {
            ConnectPhase::Connecting => {
                assert(self.sleeps * CONNECT_POLL_INTERVAL <= u64::MAX * 50) by (nonlinear_arith)
                    requires
                        self.sleeps <= u64::MAX,
                        CONNECT_POLL_INTERVAL == 50,
                ;
                if connected {
                    (
                        Connector {
                            budget_ms: self.budget_ms,
                            sleeps: self.sleeps,
                            phase: ConnectPhase::Connected,
                        },
                        ConnectAction::Proceed,
                    )
                } else if (self.sleeps as u128) * (CONNECT_POLL_INTERVAL as u128)
                    < self.budget_ms as u128 {
                    (
                        Connector {
                            budget_ms: self.budget_ms,
                            sleeps: self.sleeps + 1,
                            phase: ConnectPhase::Connecting,
                        },
                        ConnectAction::Retry { sleep_ms: CONNECT_POLL_INTERVAL },
                    )
                } else {
                    (
                        Connector {
                            budget_ms: self.budget_ms,
                            sleeps: self.sleeps,
                            phase: ConnectPhase::TimedOut,
                        },
                        ConnectAction::GiveUp,
                    )
                }
            },
            ConnectPhase::Connected => (self, ConnectAction::Proceed),
            ConnectPhase::TimedOut => (self, ConnectAction::GiveUp),
        }
    }
}

/// `count` failed attempts.
pub open spec fn failures(count: nat) -> Seq<bool> {
    Seq::new(count, |i: int| false)
}

/// While the budget lasts, every failure is retried: after `count` failures
/// of which the last began before the budget was spent, the connector has
/// slept `count` intervals and is about to attempt again.
pub proof fn lemma_retries_within_budget(budget_ms: u64, count: nat)
    requires
        count == 0 || (count - 1) * CONNECT_POLL_INTERVAL < budget_ms,
    ensures
        Connector::initial(budget_ms).run(failures(count)) == (Connector {
            budget_ms,
            sleeps: count as u64,
            phase: ConnectPhase::Connecting,
        }),
        count * CONNECT_POLL_INTERVAL < budget_ms + CONNECT_POLL_INTERVAL,
{
    lemma_run_failures(Connector::initial(budget_ms), count);
}

/// A supervisor that never listens is given up on: once the failures
/// outlast the budget, the connector has timed out, having slept at least
/// the budget and less than one interval more.
pub proof fn lemma_times_out(budget_ms: u64, count: nat)
    requires
        count * CONNECT_POLL_INTERVAL >= budget_ms + CONNECT_POLL_INTERVAL,
    ensures
        Connector::initial(budget_ms).run(failures(count)).phase == ConnectPhase::TimedOut,
        budget_ms <= Connector::initial(budget_ms).run(failures(count)).waited_ms() < budget_ms
            + CONNECT_POLL_INTERVAL,
{
    let retried: nat = if budget_ms % CONNECT_POLL_INTERVAL == 0 {
        (budget_ms / CONNECT_POLL_INTERVAL) as nat
    } else {
        (budget_ms / CONNECT_POLL_INTERVAL + 1) as nat
    };
    let rest = (count - retried) as nat;
    let start = Connector::initial(budget_ms);
    lemma_run_failures(start, retried);
    let spent = Connector { budget_ms, sleeps: retried as u64, phase: ConnectPhase::Connecting };
    assert(start.run(failures(retried)) == spent);
    lemma_run_concat(start, failures(retried), failures(rest));
    assert(failures(retried) + failures(rest) == failures(count));
    assert(failures(rest).drop_first() == failures((rest - 1) as nat));
    let out = Connector { phase: ConnectPhase::TimedOut, ..spent };
    assert(spent.spec_step(false).0 == out);
    lemma_run_finished(out, failures((rest - 1) as nat));
}

/// A success while attempts are still being made connects, whatever was
/// slept before.
pub proof fn lemma_success_connects(budget_ms: u64, count: nat, later: Seq<bool>)
    requires
        count == 0 || (count - 1) * CONNECT_POLL_INTERVAL < budget_ms,
    ensures
        Connector::initial(budget_ms).run(failures(count) + seq![true] + later).phase
            == ConnectPhase::Connected,
{
    let start = Connector::initial(budget_ms);
    lemma_retries_within_budget(budget_ms, count);
    lemma_run_concat(start, failures(count), seq![true] + later);
    assert(failures(count) + (seq![true] + later) == failures(count) + seq![true] + later);
    let ready = start.run(failures(count));
    assert((seq![true] + later).drop_first() == later);
    lemma_run_finished(ready.spec_step(true).0, later);
}

/// The number of attempts that begin before `elapsed_ms` milliseconds have
/// been slept: one at the start and one after each interval.
pub open spec fn attempts_before(elapsed_ms: nat) -> nat {
    if elapsed_ms % (CONNECT_POLL_INTERVAL as nat) == 0 {
        elapsed_ms / (CONNECT_POLL_INTERVAL as nat)
    } else {
        elapsed_ms / (CONNECT_POLL_INTERVAL as nat) + 1
    }
}

/// A supervisor that begins to listen within the budget is reached: where
/// the attempts that begin before it listens fail and the next one
/// succeeds, the connector ends up connected.
pub proof fn lemma_listening_supervisor_is_reached(
    budget_ms: u64,
    listening_from_ms: nat,
    later: Seq<bool>,
)
    requires
        listening_from_ms <= budget_ms,
    ensures
        Connector::initial(budget_ms).run(
            failures(attempts_before(listening_from_ms)) + seq![true] + later,
        ).phase == ConnectPhase::Connected,
{
    lemma_success_connects(budget_ms, attempts_before(listening_from_ms), later);
}

/// Running two lists of outcomes in turn is running their concatenation.
pub proof fn lemma_run_concat(connector: Connector, first: Seq<bool>, second: Seq<bool>)
    ensures
        connector.run(first + second) == connector.run(first).run(second),
    decreases first.len(),
{
    if first.len() == 0 {
        assert(first + second == second);
    } else {
        assert((first + second).drop_first() == first.drop_first() + second);
        lemma_run_concat(connector.spec_step(first[0]).0, first.drop_first(), second);
    }
}

/// A finished connector is changed by no further outcome.
pub proof fn lemma_run_finished(connector: Connector, outcomes: Seq<bool>)
    requires
        connector.phase != ConnectPhase::Connecting,
    ensures
        connector.run(outcomes) == connector,
    decreases outcomes.len(),
{
    if outcomes.len() > 0 {
        lemma_run_finished(connector, outcomes.drop_first());
    }
}

/// Failures that begin before the budget is spent only add sleeps.
proof fn lemma_run_failures(connector: Connector, count: nat)
    requires
        connector.phase == ConnectPhase::Connecting,
        count == 0 || connector.waited_ms() + (count - 1) * CONNECT_POLL_INTERVAL
            < connector.budget_ms,
    ensures
        connector.run(failures(count)) == (Connector {
            sleeps: (connector.sleeps + count) as u64,
            ..connector
        }),
        connector.sleeps + count <= u64::MAX,
    decreases count,
{
    if count > 0 {
        assert(failures(count).drop_first() == failures((count - 1) as nat));
        lemma_run_failures(connector.spec_step(false).0, (count - 1) as nat);
    }
}

/// How often to ping a supervisor that gives up on a silent client after
/// `stale_timeout` milliseconds: twice in that time.
pub fn heartbeat_interval(stale_timeout: u64) -> (interval: u64)
    ensures
        interval == stale_timeout / 2,
        stale_timeout > 0 ==> interval < stale_timeout,
{
    stale_timeout / 2
}

/// What the heartbeat loop does next.
#[derive(Clone, Copy, Debug, PartialEq, Eq, Structural)]
pub enum HeartbeatAction {
    /// Sleep this many milliseconds, then ping the supervisor.
    SleepThenPing { sleep_ms: u64 },
    /// End the loop, silently.
    Stop,
}

/// The background loop that pings the supervisor so that it does not take
/// the client for dead.
#[derive(Clone, Copy, Debug, PartialEq, Eq, Structural)]
pub struct Heartbeat {
    /// Milliseconds slept before each ping.
    pub interval_ms: u64,
    /// Whether no ping has failed yet.
    pub beating: bool,
}

impl Heartbeat {
    /// What a heartbeat in this state does next.
    pub open spec fn spec_action(self) -> HeartbeatAction {
        if self.beating {
            HeartbeatAction::SleepThenPing { sleep_ms: self.interval_ms }
        } else {
            HeartbeatAction::Stop
        }
    }

    /// The state after a ping: the first failure stops the heartbeat for
    /// good.
    pub open spec fn spec_step(self, delivered: bool) -> Heartbeat {
        Heartbeat { beating: self.beating && delivered, ..self }
    }

    /// The state after the pings `pings`, in order.
    pub open spec fn run(self, pings: Seq<bool>) -> Heartbeat
        decreases pings.len(),
    {
        if pings.len() == 0 {
            self
        } else {
            self.spec_step(pings[0]).run(pings.drop_first())
        }
    }

    /// A heartbeat that is about to sleep for the first time.
    pub fn new(interval_ms: u64) -> (heartbeat: Heartbeat)
        ensures
            heartbeat == (Heartbeat { interval_ms, beating: true }),
    {
        Heartbeat { interval_ms, beating: true }
    }

    /// What to do next.
    pub fn action(&self) -> (action: HeartbeatAction)
        ensures
            action == self.spec_action(),
    {
        if self.beating {
            HeartbeatAction::SleepThenPing { sleep_ms: self.interval_ms }
        } else {
            HeartbeatAction::Stop
        }
    }

    /// Takes the outcome of a ping and says what follows: after a failure
    /// the loop stops, without retry.
    pub fn step(self, delivered: bool) -> (next: (Heartbeat, HeartbeatAction))
        ensures
            next.0 == self.spec_step(delivered),
            next.1 == self.spec_step(delivered).spec_action(),
    {
        let heartbeat = Heartbeat {
            interval_ms: self.interval_ms,
            beating: self.beating && delivered,
        };
        (heartbeat, heartbeat.action())
    }
}

/// The heartbeat goes on for as long as every ping is delivered, at an
/// unchanged interval, and stops for good at the first that is not.
pub proof fn lemma_heartbeat_run(heartbeat: Heartbeat, pings: Seq<bool>)
    ensures
        heartbeat.run(pings).interval_ms == heartbeat.interval_ms,
        heartbeat.run(pings).beating == (heartbeat.beating && forall|i: int|
            0 <= i < pings.len() ==> pings[i]),
    decreases pings.len(),
{
    if pings.len() > 0 {
        let rest = pings.drop_first();
        lemma_heartbeat_run(heartbeat.spec_step(pings[0]), rest);
        if forall|i: int| 0 <= i < pings.len() ==> pings[i] {
            assert forall|i: int| 0 <= i < rest.len() implies rest[i] by {
                assert(pings[i + 1]);
            }
        } else {
            let k = choose|k: int| 0 <= k < pings.len() && !pings[k];
            if k > 0 {
                assert(!rest[k - 1]);
            }
        }
    }
}

/// How far the handling of a fault has come. Each state is named after the
/// stage that was completed last.
#[derive(Clone, Copy, Debug, PartialEq, Eq, Structural)]
pub enum CrashTrap {
    /// No fault has occurred.
    Idle,
    /// The process faulted; a heartbeat is on its way.
    Triggered,
    /// The heartbeat was sent; the dump is being requested.
    HeartbeatSent,
    /// The request for a dump came back; its outcome is being reported.
    DumpRequested { accepted: bool },
    /// The fault was reported as handled, or as left to the platform.
    Resolved { handled: bool },
}

/// The operation that the crash trap performs next.
#[derive(Clone, Copy, Debug, PartialEq, Eq, Structural)]
pub enum TrapAction {
    /// Ping the supervisor once; the outcome does not matter.
    SendHeartbeat,
    /// Ask the supervisor for a dump of the crash context, once.
    RequestDump,
    /// Tell the crash handler whether the fault was handled. Where it was
    /// not, the platform's own crash behaviour goes ahead.
    Report { handled: bool },
    /// Nothing is left to do.
    Rest,
}

impl CrashTrap {
    /// The state and the operation that follow the stage in progress, of
    /// which `succeeded` is the outcome: the fault for `Idle`, the
    /// heartbeat for `Triggered`, the request for `HeartbeatSent`, the
    /// report for `DumpRequested`. Only the outcome of the request counts.
    pub open spec fn spec_step(self, succeeded: bool) -> (CrashTrap, TrapAction) {
        match self {
            CrashTrap::Idle => (CrashTrap::Triggered, TrapAction::SendHeartbeat),
            CrashTrap::Triggered => (CrashTrap::HeartbeatSent, TrapAction::RequestDump),
            CrashTrap::HeartbeatSent => (
                CrashTrap::DumpRequested { accepted: succeeded },
                TrapAction::Report { handled: succeeded },
            ),
            CrashTrap::DumpRequested { accepted } => (
                CrashTrap::Resolved { handled: accepted },
                TrapAction::Rest,
            ),
            CrashTrap::Resolved { .. } => (self, TrapAction::Rest),
        }
    }

    /// A trap that waits for a fault.
    pub fn new() -> (trap: CrashTrap)
        ensures
            trap == CrashTrap::Idle,
    {
        CrashTrap::Idle
    }

    /// Completes the stage in progress and says what follows.
    pub fn step(self, succeeded: bool) -> (next: (CrashTrap, TrapAction))
        ensures
            next == self.spec_step(succeeded),
    {
        match self {
            CrashTrap::Idle => (CrashTrap::Triggered, TrapAction::SendHeartbeat),
            CrashTrap::Triggered => (CrashTrap::HeartbeatSent, TrapAction::RequestDump),
            CrashTrap::HeartbeatSent => (
                CrashTrap::DumpRequested { accepted: succeeded },
                TrapAction::Report { handled: succeeded },
            ),
            CrashTrap::DumpRequested { accepted } => (
                CrashTrap::Resolved { handled: accepted },
                TrapAction::Rest,
            ),
            CrashTrap::Resolved { .. } => (self, TrapAction::Rest),
        }
    }
}

/// A fault is met with exactly one heartbeat and one request for a dump, in
/// that order, and is reported as handled exactly when the request
/// succeeded, whatever became of the heartbeat.
pub proof fn lemma_trap_run(fault: bool, heartbeat_delivered: bool, dump_accepted: bool, last: bool)
    ensures
        ({
            let (s1, a1) = CrashTrap::Idle.spec_step(fault);
            let (s2, a2) = s1.spec_step(heartbeat_delivered);
            let (s3, a3) = s2.spec_step(dump_accepted);
            let (s4, a4) = s3.spec_step(last);
            &&& a1 == TrapAction::SendHeartbeat
            &&& a2 == TrapAction::RequestDump
            &&& a3 == TrapAction::Report { handled: dump_accepted }
            &&& a4 == TrapAction::Rest
            &&& s4 == CrashTrap::Resolved { handled: dump_accepted }
            &&& s4.spec_step(last) == (s4, TrapAction::Rest)
        }),
{
}

/// What the monitored process sets up once its supervisor is launched.
#[derive(Debug)]
pub struct Monitor {
    /// The channel on which the supervisor listens.
    pub socket_name: String,
    /// The retry of the connection, before its first attempt.
    pub connector: Connector,
    /// The heartbeat, to be started once the connection is up.
    pub heartbeat: Heartbeat,
    /// The crash trap, to be installed once the connection is up.
    pub trap: CrashTrap,
    /// The supervisor's process, the only one that is allowed to inspect
    /// this one.
    pub server_pid: u32,
}

/// Prepares the monitored side: a connection to `socket_name` that is
/// retried for at most `connect_timeout` milliseconds of sleep, a heartbeat
/// every `server_poll` milliseconds, and an idle crash trap.
pub fn start(socket_name: &str, connect_timeout: u64, server_pid: u32, server_poll: u64) -> (monitor:
    Monitor)
    ensures
        monitor.socket_name@ == socket_name@,
        monitor.connector == Connector::initial(connect_timeout),
        monitor.heartbeat == (Heartbeat { interval_ms: server_poll, beating: true }),
        monitor.trap == CrashTrap::Idle,
        monitor.server_pid == server_pid,
{
    Monitor {
        socket_name: socket_name.to_owned(),
        connector: Connector::new(connect_timeout),
        heartbeat: Heartbeat::new(server_poll),
        trap: CrashTrap::new(),
        server_pid,
    }
}

} // verus!
