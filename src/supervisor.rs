//! The association supervisor as a state machine: each call of
//! [`Supervisor::step`] takes what the radio or the timer reported and gives
//! the one operation to perform next. Whoever drives it performs that
//! operation and hands back its outcome as the next event.

use vstd::prelude::*;

use crate::credentials::{ClientConfig, ConfigError, config_outcome};

verus! {

/// Delay, in milliseconds, between a failed association and the next attempt.
pub const RETRY_BACKOFF_MS: u64 = 5000;

/// Delay, in milliseconds, between losing association and the next attempt.
pub const SETTLE_DELAY_MS: u64 = 5000;

/// What the supervisor is waiting for.
#[derive(Clone, Copy, Debug, PartialEq, Eq, Structural)]
pub enum Phase {
    /// Waiting to be scheduled again before re-checking the link.
    Idle,
    /// Waiting for the current link state.
    AwaitLink,
    /// Associated; waiting for the radio to report disassociation.
    AwaitDisassociation,
    /// Waiting out the settle delay after losing association.
    Settling,
    /// Waiting for whether the radio has been started.
    AwaitStarted,
    /// Waiting for the client configuration to be applied.
    AwaitConfigured,
    /// Waiting for the radio to start.
    AwaitStart,
    /// Waiting for the association attempt to finish.
    AwaitConnect,
    /// Waiting for the successful association to be announced.
    AwaitAnnounced,
    /// Waiting out the backoff after a failed association.
    BackingOff,
    /// The radio refused the configuration; nothing more is done.
    Halted,
}

/// What happened since the last step.
#[derive(Clone, Copy, Debug, PartialEq, Eq, Structural)]
pub enum Event {
    /// The supervisor was scheduled again.
    Resumed,
    /// The link state was read.
    Link { connected: bool },
    /// Whether the radio has been started was read.
    Started { started: bool },
    /// Applying the client configuration finished.
    Configured { ok: bool },
    /// Starting the radio finished.
    StartFinished { ok: bool },
    /// The association attempt finished.
    ConnectFinished { ok: bool },
    /// The radio reported the loss of association.
    Disassociated,
    /// A requested delay ran out.
    TimerFired,
}

/// The operation to perform next.
#[derive(Clone, Copy, Debug, PartialEq, Eq, Structural)]
pub enum Action {
    /// Yield to the scheduler, then report `Resumed`.
    Yield,
    /// Read the link state and report `Link`.
    QueryLink,
    /// Wait for the radio's disassociation event and report `Disassociated`.
    WaitForDisassociation,
    /// Sleep until the given instant, in milliseconds, and report `TimerFired`.
    SleepUntil { deadline_ms: u64 },
    /// Read whether the radio has been started and report `Started`.
    QueryStarted,
    /// Apply the supervisor's client configuration and report `Configured`.
    ApplyConfiguration,
    /// Start the radio and report `StartFinished`.
    StartRadio,
    /// Attempt association and report `ConnectFinished`.
    Connect,
    /// Announce the association, then report `Resumed`.
    AnnounceConnected,
    /// Stop: the configuration was refused.
    Halt,
}

/// The supervisor's decision state: what it waits for, and until when a
/// delay lasts.
#[derive(Clone, Copy, Debug, PartialEq, Eq, Structural)]
pub struct State {
    pub phase: Phase,
    pub deadline_ms: u64,
}

/// The instant `delay` milliseconds after `now`, held at the clock's limit.
pub open spec fn after(now: u64, delay: u64) -> u64 {
    if now + delay > u64::MAX {
        u64::MAX
    } else {
        (now + delay) as u64
    }
}

/// The operation that stands for waiting in `s`, issued again when an event
/// arrives that `s` does not wait for.
pub open spec fn pending_action(s: State) -> Action {
    match s.phase {
        Phase::Idle => Action::Yield,
        Phase::AwaitLink => Action::QueryLink,
        Phase::AwaitDisassociation => Action::WaitForDisassociation,
        Phase::Settling => Action::SleepUntil { deadline_ms: s.deadline_ms },
        Phase::AwaitStarted => Action::QueryStarted,
        Phase::AwaitConfigured => Action::ApplyConfiguration,
        Phase::AwaitStart => Action::StartRadio,
        Phase::AwaitConnect => Action::Connect,
        Phase::AwaitAnnounced => Action::AnnounceConnected,
        Phase::BackingOff => Action::SleepUntil { deadline_ms: s.deadline_ms },
        Phase::Halted => Action::Halt,
    }
}

/// `s` moved to `phase`, keeping its deadline.
pub open spec fn goto(s: State, phase: Phase) -> State {
    State { phase, deadline_ms: s.deadline_ms }
}

/// The state and the operation that follow `s` when `e` is reported at
/// instant `now` (milliseconds).
pub open spec fn transition(s: State, e: Event, now: u64) -> (State, Action) {
    match (s.phase, e) {
        (Phase::Idle, Event::Resumed) => (goto(s, Phase::AwaitLink), Action::QueryLink),
        (Phase::AwaitAnnounced, Event::Resumed) => (goto(s, Phase::AwaitLink), Action::QueryLink),
        (Phase::AwaitLink, Event::Link { connected }) => if connected {
            (goto(s, Phase::AwaitDisassociation), Action::WaitForDisassociation)
        } else {
            (goto(s, Phase::AwaitStarted), Action::QueryStarted)
        },
        (Phase::AwaitDisassociation, Event::Disassociated) => {
            let d = after(now, SETTLE_DELAY_MS);
            (State { phase: Phase::Settling, deadline_ms: d }, Action::SleepUntil { deadline_ms: d })
        },
        (Phase::Settling, Event::TimerFired) => if now >= s.deadline_ms {
            (goto(s, Phase::AwaitLink), Action::QueryLink)
        } else {
            (s, pending_action(s))
        },
        (Phase::AwaitStarted, Event::Started { started }) => if started {
            (goto(s, Phase::AwaitConnect), Action::Connect)
        } else {
            (goto(s, Phase::AwaitConfigured), Action::ApplyConfiguration)
        },
        (Phase::AwaitConfigured, Event::Configured { ok }) => if ok {
            (goto(s, Phase::AwaitStart), Action::StartRadio)
        } else {
            (goto(s, Phase::Halted), Action::Halt)
        },
        (Phase::AwaitStart, Event::StartFinished { ok }) => if ok {
            (goto(s, Phase::AwaitConnect), Action::Connect)
        } else {
            (goto(s, Phase::Idle), Action::Yield)
        },
        (Phase::AwaitConnect, Event::ConnectFinished { ok }) => if ok {
            (goto(s, Phase::AwaitAnnounced), Action::AnnounceConnected)
        } else {
            let d = after(now, RETRY_BACKOFF_MS);
            (State { phase: Phase::BackingOff, deadline_ms: d }, Action::SleepUntil { deadline_ms: d })
        },
        (Phase::BackingOff, Event::TimerFired) => if now >= s.deadline_ms {
            (goto(s, Phase::AwaitLink), Action::QueryLink)
        } else {
            (s, pending_action(s))
        },
        _ => (s, pending_action(s)),
    }
}

/// The state from which supervision begins.
pub open spec fn initial_state() -> State {
    State { phase: Phase::Idle, deadline_ms: 0 }
}

fn pending_action_of(s: State) -> (r: Action)
    ensures
        r == pending_action(s),
{
    match s.phase {
        Phase::Idle => Action::Yield,
        Phase::AwaitLink => Action::QueryLink,
        Phase::AwaitDisassociation => Action::WaitForDisassociation,
        Phase::Settling => Action::SleepUntil { deadline_ms: s.deadline_ms },
        Phase::AwaitStarted => Action::QueryStarted,
        Phase::AwaitConfigured => Action::ApplyConfiguration,
        Phase::AwaitStart => Action::StartRadio,
        Phase::AwaitConnect => Action::Connect,
        Phase::AwaitAnnounced => Action::AnnounceConnected,
        Phase::BackingOff => Action::SleepUntil { deadline_ms: s.deadline_ms },
        Phase::Halted => Action::Halt,
    }
}

/// Keeps the radio associated with the configured network.
pub struct Supervisor {
    config: ClientConfig,
    state: State,
}

impl Supervisor {
    /// The decision state.
    pub closed spec fn spec_state(&self) -> State {
        self.state
    }

    /// The configuration that the radio is given.
    pub closed spec fn spec_config(&self) -> (Seq<char>, Seq<char>) {
        self.config@
    }

    /// A supervisor for the network named `ssid` with secret `password`.
    /// Credentials that do not fit the configuration's buffers are refused
    /// here, before any operation on the radio.
    pub fn new(ssid: &str, password: &str) -> (r: Result<Supervisor, ConfigError>)
        ensures
            match r {
                Ok(sup) => config_outcome(ssid@, password@) == Ok::<
                    (Seq<char>, Seq<char>),
                    ConfigError,
                >(sup.spec_config()) && sup.spec_state() == initial_state(),
                Err(e) => config_outcome(ssid@, password@) == Err::<
                    (Seq<char>, Seq<char>),
                    ConfigError,
                >(e),
            },
    {
        let c = ClientConfig::new(ssid, password);
        match c {
            Ok(config) => Ok(Supervisor { config, state: State { phase: Phase::Idle, deadline_ms: 0 } }),
            Err(e) => Err(e),
        }
    }

    /// The operation to perform first.
    pub fn first_action(&self) -> (r: Action)
        ensures
            r == pending_action(self.spec_state()),
    {
        pending_action_of(self.state)
    }

    /// The configuration to apply when asked to.
    pub fn config(&self) -> (r: &ClientConfig)
        ensures
            r@ == self.spec_config(),
    {
        &self.config
    }

    /// What the supervisor is waiting for.
    pub fn phase(&self) -> (r: Phase)
        ensures
            r == self.spec_state().phase,
    {
        self.state.phase
    }

    /// Takes the event `e`, reported at instant `now_ms`, and gives the
    /// operation to perform next.
    pub fn step(&mut self, e: Event, now_ms: u64) -> (r: Action)
        ensures
            (final(self).spec_state(), r) == transition(old(self).spec_state(), e, now_ms),
            final(self).spec_config() == old(self).spec_config(),
    {
        let s = self.state;
        let next = match (s.phase, e) {
            (Phase::Idle, Event::Resumed) => Some((Phase::AwaitLink, Action::QueryLink)),
            (Phase::AwaitAnnounced, Event::Resumed) => Some((Phase::AwaitLink, Action::QueryLink)),
            (Phase::AwaitLink, Event::Link { connected }) => if connected {
                Some((Phase::AwaitDisassociation, Action::WaitForDisassociation))
            } else {
                Some((Phase::AwaitStarted, Action::QueryStarted))
            },
            (Phase::AwaitDisassociation, Event::Disassociated) => {
                let d = now_ms.saturating_add(SETTLE_DELAY_MS);
                self.state = State { phase: Phase::Settling, deadline_ms: d };
                return Action::SleepUntil { deadline_ms: d };
            },
            (Phase::Settling, Event::TimerFired) | (Phase::BackingOff, Event::TimerFired) => {
                if now_ms >= s.deadline_ms {
                    Some((Phase::AwaitLink, Action::QueryLink))
                } else {
                    None
                }
            },
            (Phase::AwaitStarted, Event::Started { started }) => if started {
                Some((Phase::AwaitConnect, Action::Connect))
            } else {
                Some((Phase::AwaitConfigured, Action::ApplyConfiguration))
            },
            (Phase::AwaitConfigured, Event::Configured { ok }) => if ok {
                Some((Phase::AwaitStart, Action::StartRadio))
            } else {
                Some((Phase::Halted, Action::Halt))
            },
            (Phase::AwaitStart, Event::StartFinished { ok }) => if ok {
                Some((Phase::AwaitConnect, Action::Connect))
            } else {
                Some((Phase::Idle, Action::Yield))
            },
            (Phase::AwaitConnect, Event::ConnectFinished { ok }) => if ok {
                Some((Phase::AwaitAnnounced, Action::AnnounceConnected))
            } else {
                let d = now_ms.saturating_add(RETRY_BACKOFF_MS);
                self.state = State { phase: Phase::BackingOff, deadline_ms: d };
                return Action::SleepUntil { deadline_ms: d };
            },
            _ => None,
        };
        match next {
            Some((phase, action)) => {
                self.state = State { phase, deadline_ms: s.deadline_ms };
                action
            },
            None => pending_action_of(s),
        }
    }
}


/// The state reached from `s` after the events of `trace`, each paired with
/// the instant, in milliseconds, at which it was reported.
pub open spec fn run(s: State, trace: Seq<(Event, u64)>) -> State
    decreases trace.len(),
{
    if trace.len() == 0 {
        s
    } else {
        transition(run(s, trace.drop_last()), trace.last().0, trace.last().1).0
    }
}

/// The operation given in answer to the event at index `j` of `trace`.
pub open spec fn action_at(s: State, trace: Seq<(Event, u64)>, j: int) -> Action {
    transition(run(s, trace.take(j)), trace[j].0, trace[j].1).1
}

/// The events of `trace` are reported at instants that never go back.
pub open spec fn times_ordered(trace: Seq<(Event, u64)>) -> bool {
    forall|a: int, b: int| 0 <= a <= b < trace.len() ==> trace[a].1 <= trace[b].1
}

/// Whether `phase` is one of the timed waits.
pub open spec fn is_delay(phase: Phase) -> bool {
    phase == Phase::Settling || phase == Phase::BackingOff
}

proof fn lemma_run_step(s: State, trace: Seq<(Event, u64)>, k: int)
    requires
        0 <= k < trace.len(),
    ensures
        run(s, trace.take(k + 1)) == transition(run(s, trace.take(k)), trace[k].0, trace[k].1).0,
{
    assert(trace.take(k + 1).drop_last() =~= trace.take(k));
}

/// Once a timed wait begins, every operation given before its deadline is
/// the same sleep, and the state does not change until then.
pub proof fn lemma_delay_is_waited_out(s: State, trace: Seq<(Event, u64)>, i: int, j: int)
    requires
        times_ordered(trace),
        0 <= i < j < trace.len(),
        is_delay(run(s, trace.take(i + 1)).phase),
        trace[j].1 < run(s, trace.take(i + 1)).deadline_ms,
    ensures
        run(s, trace.take(j)) == run(s, trace.take(i + 1)),
        action_at(s, trace, j) == (Action::SleepUntil {
            deadline_ms: run(s, trace.take(i + 1)).deadline_ms,
        }),
    decreases j - i,
{
    if j > i + 1 {
        lemma_delay_is_waited_out(s, trace, i, j - 1);
        lemma_run_step(s, trace, j - 1);
    }
}

/// After an association attempt fails at instant `t`, the supervisor sleeps
/// until `t` plus the backoff, gives no other operation before that instant,
/// and so neither starts the radio nor attempts association before it.
pub proof fn lemma_backoff_after_failed_connect(s: State, trace: Seq<(Event, u64)>, i: int, j: int)
    requires
        times_ordered(trace),
        0 <= i < j < trace.len(),
        run(s, trace.take(i)).phase == Phase::AwaitConnect,
        trace[i].0 == (Event::ConnectFinished { ok: false }),
        trace[i].1 + RETRY_BACKOFF_MS <= u64::MAX,
    ensures
        action_at(s, trace, i) == (Action::SleepUntil {
            deadline_ms: (trace[i].1 + RETRY_BACKOFF_MS) as u64,
        }),
        trace[j].1 < trace[i].1 + RETRY_BACKOFF_MS ==> action_at(s, trace, j) == (
        Action::SleepUntil { deadline_ms: (trace[i].1 + RETRY_BACKOFF_MS) as u64 }),
        action_at(s, trace, j) == Action::Connect || action_at(s, trace, j) == Action::StartRadio
            ==> trace[j].1 >= trace[i].1 + RETRY_BACKOFF_MS,
{
    lemma_run_step(s, trace, i);
    if trace[j].1 < trace[i].1 + RETRY_BACKOFF_MS {
        lemma_delay_is_waited_out(s, trace, i, j);
    }
}

/// After the radio reports disassociation at instant `t`, the supervisor
/// sleeps until `t` plus the settle delay and gives no other operation
/// before that instant.
pub proof fn lemma_settle_after_disassociation(s: State, trace: Seq<(Event, u64)>, i: int, j: int)
    requires
        times_ordered(trace),
        0 <= i < j < trace.len(),
        run(s, trace.take(i)).phase == Phase::AwaitDisassociation,
        trace[i].0 == Event::Disassociated,
        trace[i].1 + SETTLE_DELAY_MS <= u64::MAX,
    ensures
        action_at(s, trace, i) == (Action::SleepUntil {
            deadline_ms: (trace[i].1 + SETTLE_DELAY_MS) as u64,
        }),
        trace[j].1 < trace[i].1 + SETTLE_DELAY_MS ==> action_at(s, trace, j) == (
        Action::SleepUntil { deadline_ms: (trace[i].1 + SETTLE_DELAY_MS) as u64 }),
{
    lemma_run_step(s, trace, i);
    if trace[j].1 < trace[i].1 + SETTLE_DELAY_MS {
        lemma_delay_is_waited_out(s, trace, i, j);
    }
}

/// A radio that reports itself started is not configured or started again:
/// the next operation is the association attempt.
pub proof fn lemma_started_radio_goes_to_connect(s: State, now: u64)
    requires
        s.phase == Phase::AwaitStarted,
    ensures
        transition(s, Event::Started { started: true }, now) == (
        goto(s, Phase::AwaitConnect), Action::Connect),
{
}

/// Once the configuration is refused, the supervisor stays halted whatever
/// is reported, and never again starts the radio or attempts association.
pub proof fn lemma_halt_is_final(s: State, trace: Seq<(Event, u64)>, j: int)
    requires
        s.phase == Phase::Halted,
        0 <= j < trace.len(),
    ensures
        run(s, trace.take(j)) == s,
        action_at(s, trace, j) == Action::Halt,
    decreases j,
{
    if j > 0 {
        lemma_halt_is_final(s, trace, j - 1);
        lemma_run_step(s, trace, j - 1);
    }
    assert(trace.take(0) =~= Seq::<(Event, u64)>::empty());
}

/// Failures of the radio never stop supervision: the only way into the
/// halted phase is the radio refusing the configuration.
pub proof fn lemma_only_refused_configuration_halts(s: State, e: Event, now: u64)
    requires
        s.phase != Phase::Halted,
        transition(s, e, now).0.phase == Phase::Halted,
    ensures
        s.phase == Phase::AwaitConfigured,
        e == (Event::Configured { ok: false }),
{
}

} // verus!
