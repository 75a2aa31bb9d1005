//! The connection supervisor: health probes promote the session through
//! healthy, degraded and reconnecting.

use vstd::prelude::*;

verus! {

/// Seconds between two health probes.
pub const PROBE_PERIOD_SECS: u64 = 60;

/// After this many consecutive failed probes the session is re-established.
pub const FAILURE_THRESHOLD: u32 = 3;

/// How the backend session fares.
#[derive(Clone, Copy, Debug, PartialEq, Eq, Structural)]
pub enum HealthState {
    /// The last probe succeeded, or none has been made yet.
    Healthy,
    /// This many consecutive probes have failed.
    Degraded(u32),
    /// The session is being re-established.
    Reconnecting,
}

/// What the caller does after a probe.
#[derive(Clone, Copy, Debug, PartialEq, Eq, Structural)]
pub enum ProbeAction {
    /// Nothing until the next probe is due.
    Wait,
    /// Re-establish the session now, and report how that went.
    Reconnect,
}

/// The count of consecutive failures after one more: it stops at the largest
/// number that it can hold.
pub open spec fn one_more(failures: u32) -> u32 {
    if failures == u32::MAX {
        failures
    } else {
        (failures + 1) as u32
    }
}

/// The state and the count of consecutive failures after a probe. A
/// successful probe makes the session healthy wherever it stood. A failed one
/// adds to the count, and at the threshold starts the re-establishment.
pub open spec fn after_probe(failures: u32, succeeded: bool) -> (HealthState, u32) {
    if succeeded {
        (HealthState::Healthy, 0)
    } else if one_more(failures) >= FAILURE_THRESHOLD {
        (HealthState::Reconnecting, one_more(failures))
    } else {
        (HealthState::Degraded(one_more(failures)), one_more(failures))
    }
}

/// The state and the count of consecutive failures after an attempt to
/// re-establish the session. A new session is healthy. Without one the
/// session stays degraded with its count, and the next probe decides again.
pub open spec fn after_reconnect(state: HealthState, failures: u32, succeeded: bool) -> (
    HealthState,
    u32,
) {
    if succeeded {
        (HealthState::Healthy, 0)
    } else if state == HealthState::Reconnecting {
        (HealthState::Degraded(failures), failures)
    } else {
        (state, failures)
    }
}

/// The state and the count of consecutive failures after `probes` failed
/// probes in a row on a healthy session, none of them followed by a
/// successful re-establishment.
pub open spec fn after_failures(probes: nat) -> (HealthState, u32)
    decreases probes,
{
    if probes == 0 {
        (HealthState::Healthy, 0)
    } else {
        let before = after_failures((probes - 1) as nat);
        after_probe(after_reconnect(before.0, before.1, false).1, false)
    }
}

/// Failed probes in a row degrade a healthy session once and twice, and from
/// the third on each of them starts a re-establishment.
pub proof fn law_failures_escalate(probes: nat)
    requires
        probes <= u32::MAX,
    ensures
        after_failures(probes).1 == probes,
        probes == 0 ==> after_failures(probes).0 == HealthState::Healthy,
        0 < probes < FAILURE_THRESHOLD ==> after_failures(probes).0 == HealthState::Degraded(
            probes as u32,
        ),
        probes >= FAILURE_THRESHOLD ==> after_failures(probes).0 == HealthState::Reconnecting,
    decreases probes,
{
    if probes > 0 {
        law_failures_escalate((probes - 1) as nat);
    }
}

/// A failed probe on a session degraded by `failures` failures starts the
/// re-establishment exactly when it is the third in a row or a later one; a
/// successful probe makes the session healthy whatever came before.
pub proof fn law_probe_transitions(failures: u32)
    ensures
        after_probe(failures, true) == (HealthState::Healthy, 0u32),
        failures >= FAILURE_THRESHOLD - 1 ==> after_probe(failures, false).0
            == HealthState::Reconnecting,
        failures < FAILURE_THRESHOLD - 1 ==> after_probe(failures, false) == (
            HealthState::Degraded((failures + 1) as u32),
            (failures + 1) as u32,
        ),
{
}

/// The owner of the health state of one backend session.
pub struct ConnectionSupervisor {
    state: HealthState,
    failures: u32,
}

impl ConnectionSupervisor {
    /// The state agrees with the count of consecutive failures.
    #[verifier::type_invariant]
    pub closed spec fn consistent(self) -> bool {
        match self.state {
            HealthState::Healthy => self.failures == 0,
            HealthState::Degraded(count) => count == self.failures && count >= 1,
            HealthState::Reconnecting => self.failures >= FAILURE_THRESHOLD,
        }
    }

    /// How the session fares.
    pub closed spec fn health(self) -> HealthState {
        self.state
    }

    /// How many probes have failed in a row.
    pub closed spec fn consecutive_failures(self) -> u32 {
        self.failures
    }

    /// The supervisor of a session that was just established.
    pub fn new() -> (supervisor: ConnectionSupervisor)
        ensures
            supervisor.health() == HealthState::Healthy,
            supervisor.consecutive_failures() == 0,
    {
        ConnectionSupervisor { state: HealthState::Healthy, failures: 0 }
    }

    /// How the session fares.
    pub fn state(&self) -> (state: HealthState)
        ensures
            state == self.health(),
            state == HealthState::Healthy <==> self.consecutive_failures() == 0,
            state matches HealthState::Degraded(count) ==> count == self.consecutive_failures(),
            state == HealthState::Reconnecting ==> self.consecutive_failures()
                >= FAILURE_THRESHOLD,
    {
        proof {
            use_type_invariant(self);
        }
        self.state
    }

    /// How many probes have failed in a row.
    pub fn failures(&self) -> (failures: u32)
        ensures
            failures == self.consecutive_failures(),
    {
        self.failures
    }

    /// Records the outcome of a health probe and says what to do next.
    pub fn on_probe(&mut self, succeeded: bool) -> (action: ProbeAction)
        ensures
            (final(self).health(), final(self).consecutive_failures()) == after_probe(
                old(self).consecutive_failures(),
                succeeded,
            ),
            action == ProbeAction::Reconnect <==> final(self).health()
                == HealthState::Reconnecting,
    {
        if succeeded {
            *self = ConnectionSupervisor { state: HealthState::Healthy, failures: 0 };
            return ProbeAction::Wait;
        }
        let failures: u32 = if self.failures == u32::MAX {
            self.failures
        } else {
            self.failures + 1
        };
        if failures >= FAILURE_THRESHOLD {
            *self = ConnectionSupervisor { state: HealthState::Reconnecting, failures };
            ProbeAction::Reconnect
        } else {
            *self = ConnectionSupervisor { state: HealthState::Degraded(failures), failures };
            ProbeAction::Wait
        }
    }

    /// Records the outcome of an attempt to re-establish the session.
    pub fn on_reconnect(&mut self, succeeded: bool)
        ensures
            (final(self).health(), final(self).consecutive_failures()) == after_reconnect(
                old(self).health(),
                old(self).consecutive_failures(),
                succeeded,
            ),
    {
        proof {
            use_type_invariant(&*self);
        }
        if succeeded {
            *self = ConnectionSupervisor { state: HealthState::Healthy, failures: 0 };
        } else {
            let failures: u32 = self.failures;
            match self.state {
                HealthState::Reconnecting => {
                    *self = ConnectionSupervisor { state: HealthState::Degraded(failures), failures };
                },
                _ => {},
            }
        }
    }
}

} // verus!
