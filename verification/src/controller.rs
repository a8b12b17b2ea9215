//! The connection lifecycle controller.
//!
//! One connection attempt moves through the phases
//! `Idle -> Dialing -> Racing -> Done(outcome)`. After the dial has produced a
//! connection-lifetime signal, the controller races that signal against
//! membership of the peer in the registry of authenticated peers: on every
//! poll iteration the lifetime signal is checked strictly before the registry,
//! so a session that closes in the same instant its handshake completes is
//! reported `Closed`, never `Established`.

use vstd::prelude::*;

verus! {

/// Terminal result of one connection attempt.
#[derive(Clone, Copy, Debug, PartialEq, Eq, Structural)]
pub enum Outcome {
    /// The handshake completed and the peer appeared in the registry.
    Established,
    /// The session ended before success was observed.
    Closed,
    /// The transport-layer connect yielded no session at all.
    ConnectFailed,
}

/// One non-blocking look at the two racing signals, taken in a single poll
/// iteration: has the connection-lifetime signal resolved, and is the peer
/// currently a member of the registry of authenticated peers?
#[derive(Clone, Copy, Debug, PartialEq, Eq, Structural)]
pub struct Observation {
    pub lifetime_resolved: bool,
    pub peer_in_registry: bool,
}

/// What the polling loop does with one observation.
#[derive(Clone, Copy, Debug, PartialEq, Eq, Structural)]
pub enum PollDecision {
    ReportClosed,
    ReportEstablished,
    KeepWaiting,
}

/// The phase of the controller's state machine.
#[derive(Clone, Copy, Debug, PartialEq, Eq, Structural)]
pub enum Phase {
    Idle,
    Dialing,
    Racing,
    Done(Outcome),
}

/// The decision one observation forces: the lifetime signal is consulted
/// strictly before registry membership.
pub open spec fn decision_of(obs: Observation) -> PollDecision {
    if obs.lifetime_resolved {
        PollDecision::ReportClosed
    } else if obs.peer_in_registry {
        PollDecision::ReportEstablished
    } else {
        PollDecision::KeepWaiting
    }
}

/// The outcome a finite trace of observations leads to: the first decisive
/// observation decides, and a trace with no decisive observation decides
/// nothing.
pub open spec fn race_result(trace: Seq<Observation>) -> Option<Outcome>
    decreases trace.len(),
{
    if trace.len() == 0 {
        None
    } else if trace[0].lifetime_resolved {
        Some(Outcome::Closed)
    } else if trace[0].peer_in_registry {
        Some(Outcome::Established)
    } else {
        race_result(trace.drop_first())
    }
}

/// Drives one connection attempt to a terminal outcome. Single-shot: a fresh
/// controller is made for each process run.
pub struct ConnectionLifecycleController {
    pub phase: Phase,
}

impl ConnectionLifecycleController {
    /// A fresh controller, before anything has been attempted.
    pub fn new() -> (c: Self)
        ensures
            c.phase == Phase::Idle,
    {
        ConnectionLifecycleController { phase: Phase::Idle }
    }

    /// Record that the outbound dial has been started.
    pub fn begin_dialing(&mut self)
        requires
            old(self).phase == Phase::Idle,
        ensures
            final(self).phase == Phase::Dialing,
    {
        self.phase = Phase::Dialing;
    }

    /// Record the result of the dial. A lifetime signal was obtained exactly
    /// when `obtained_signal` holds; without one the attempt is over, and
    /// `ConnectFailed` is reached without ever entering the racing phase.
    pub fn connect_resolved(&mut self, obtained_signal: bool)
        requires
            old(self).phase == Phase::Dialing,
        ensures
            obtained_signal ==> final(self).phase == Phase::Racing,
            !obtained_signal ==> final(self).phase == Phase::Done(Outcome::ConnectFailed),
    {
        if obtained_signal {
            self.phase = Phase::Racing;
        } else {
            self.phase = Phase::Done(Outcome::ConnectFailed);
        }
    }

    /// Feed the controller one observation of the two racing signals.
    /// A resolved lifetime signal always wins the race: the phase then moves
    /// to `Done(Closed)` whatever the registry said in the same instant.
    pub fn observe(&mut self, obs: Observation) -> (d: PollDecision)
        requires
            old(self).phase == Phase::Racing,
        ensures
            d == decision_of(obs),
            obs.lifetime_resolved ==> final(self).phase == Phase::Done(Outcome::Closed),
            final(self).phase == (match decision_of(obs) {
                PollDecision::ReportClosed => Phase::Done(Outcome::Closed),
                PollDecision::ReportEstablished => Phase::Done(Outcome::Established),
                PollDecision::KeepWaiting => Phase::Racing,
            }),
    {
        if obs.lifetime_resolved {
            self.phase = Phase::Done(Outcome::Closed);
            PollDecision::ReportClosed
        } else if obs.peer_in_registry {
            self.phase = Phase::Done(Outcome::Established);
            PollDecision::ReportEstablished
        } else {
            PollDecision::KeepWaiting
        }
    }

    /// The terminal outcome, once one has been reached.
    pub fn outcome(&self) -> (r: Option<Outcome>)
        ensures
            r == (match self.phase {
                Phase::Done(o) => Some(o),
                _ => None::<Outcome>,
            }),
    {
        match self.phase {
            Phase::Done(o) => Some(o),
            _ => None,
        }
    }

    /// Feed a whole finite trace of observations to a racing controller,
    /// stopping at the first decisive one. Returns the outcome the trace
    /// decides, or `None` when the trace ran out with the controller still
    /// racing.
    pub fn drive(&mut self, trace: &Vec<Observation>) -> (r: Option<Outcome>)
        requires
            old(self).phase == Phase::Racing,
        ensures
            r == race_result(trace@),
            (match r {
                Some(o) => final(self).phase == Phase::Done(o),
                None => final(self).phase == Phase::Racing,
            }),
    {
        let mut i: usize = 0;
        proof {
            assert(trace@.skip(0) =~= trace@);
        }
        while i < trace.len()
            invariant
                0 <= i <= trace@.len(),
                self.phase == Phase::Racing,
                race_result(trace@) == race_result(trace@.skip(i as int)),
            decreases trace@.len() - i,
        {
            let obs = trace[i];
            proof {
                assert(trace@.skip(i as int)[0] == obs);
                assert(trace@.skip(i as int).drop_first() =~= trace@.skip(i as int + 1));
            }
            match self.observe(obs) {
                PollDecision::ReportClosed => {
                    return Some(Outcome::Closed);
                }
                PollDecision::ReportEstablished => {
                    return Some(Outcome::Established);
                }
                PollDecision::KeepWaiting => {}
            }
            i = i + 1;
        }
        proof {
            assert(trace@.skip(trace@.len() as int).len() == 0);
        }
        None
    }
}

/// The tie-break is deterministic: over any trace in which the registry never
/// reports the peer without the lifetime signal having resolved in the same
/// observation — in particular when both signals become true simultaneously —
/// the race can never decide `Established`.
pub proof fn lemma_close_beats_establish(trace: Seq<Observation>)
    requires
        forall|i: int|
            0 <= i < trace.len() ==> (#[trigger] trace[i].peer_in_registry
                ==> trace[i].lifetime_resolved),
    ensures
        race_result(trace) != Some(Outcome::Established),
    decreases trace.len(),
{
    if trace.len() > 0 {
        if !trace[0].lifetime_resolved && !trace[0].peer_in_registry {
            assert(forall|i: int|
                0 <= i < trace.drop_first().len() ==> (#[trigger] trace.drop_first()[i].peer_in_registry
                    ==> trace.drop_first()[i].lifetime_resolved)) by {
                assert(forall|i: int|
                    0 <= i < trace.drop_first().len() ==> #[trigger] trace.drop_first()[i] == trace[i + 1]);
            }
            lemma_close_beats_establish(trace.drop_first());
        }
    }
}

/// There is no built-in timeout: over any trace in which neither signal ever
/// fires, the race decides nothing, and the controller keeps polling.
pub proof fn lemma_no_signal_never_terminates(trace: Seq<Observation>)
    requires
        forall|i: int|
            0 <= i < trace.len() ==> !(#[trigger] trace[i].lifetime_resolved)
                && !trace[i].peer_in_registry,
    ensures
        race_result(trace) is None,
    decreases trace.len(),
{
    if trace.len() > 0 {
        assert(forall|i: int|
            0 <= i < trace.drop_first().len() ==> #[trigger] trace.drop_first()[i] == trace[i + 1]);
        lemma_no_signal_never_terminates(trace.drop_first());
    }
}

} // verus!
