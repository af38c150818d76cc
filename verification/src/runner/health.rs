//! Whether the mesh sidecar has become healthy.

use vstd::prelude::*;
use crate::text::str_equal;

verus! {

/// What one inspection of a container reports about its health.
#[derive(Debug)]
pub struct HealthObservation {
    /// The inspection reported a container state.
    pub state_present: bool,
    /// The health status, where the state holds one (`healthy`, `unhealthy`, ...).
    pub health_status: Option<String>,
    /// Whether the container runs, where the state says so.
    pub running: Option<bool>,
}

/// The conclusion drawn from one inspection.
#[derive(Clone, Copy, PartialEq, Eq, Structural, Debug)]
pub enum HealthVerdict {
    /// The container is healthy.
    Healthy,
    /// The container became unhealthy.
    Unhealthy,
    /// The container stopped before it became healthy.
    Stopped,
    /// The time allowed has run out.
    TimedOut,
    /// Inspect again later.
    Pending,
}

/// The health status of an observation, where it has one.
pub open spec fn status_is(obs: HealthObservation, status: Seq<char>) -> bool {
    obs.state_present && (obs.health_status matches Some(s) && s@ == status)
}

/// The conclusion drawn from `obs`, where `deadline_passed` tells whether the
/// time allowed had run out when it was made: a health status decides first,
/// then a stopped container, then the deadline.
pub open spec fn health_verdict_spec(obs: HealthObservation, deadline_passed: bool) -> HealthVerdict {
    if status_is(obs, "healthy"@) {
        HealthVerdict::Healthy
    } else if status_is(obs, "unhealthy"@) {
        HealthVerdict::Unhealthy
    } else if obs.state_present && !(obs.running == Some(true)) {
        HealthVerdict::Stopped
    } else if deadline_passed {
        HealthVerdict::TimedOut
    } else {
        HealthVerdict::Pending
    }
}

/// Draws the conclusion from one inspection of the sidecar.
pub fn health_verdict(obs: &HealthObservation, deadline_passed: bool) -> (res: HealthVerdict)
    ensures
        res == health_verdict_spec(*obs, deadline_passed),
{
    if obs.state_present {
        match &obs.health_status {
            Some(s) => {
                if str_equal(s.as_str(), "healthy") {
                    return HealthVerdict::Healthy;
                }
                if str_equal(s.as_str(), "unhealthy") {
                    return HealthVerdict::Unhealthy;
                }
            },
            None => {},
        }
        let running = match obs.running {
            Some(r) => r,
            None => false,
        };
        if !running {
            return HealthVerdict::Stopped;
        }
    }
    if deadline_passed {
        HealthVerdict::TimedOut
    } else {
        HealthVerdict::Pending
    }
}

/// A health status decides before the deadline does: a sidecar seen healthy is
/// healthy however late, and one seen unhealthy is unhealthy however early.
pub proof fn law_health_status_decides_first(obs: HealthObservation, deadline_passed: bool)
    ensures
        status_is(obs, "healthy"@) ==> health_verdict_spec(obs, deadline_passed) == HealthVerdict::Healthy,
        status_is(obs, "unhealthy"@) && !status_is(obs, "healthy"@) ==> health_verdict_spec(obs, deadline_passed)
            == HealthVerdict::Unhealthy,
{
}

/// Waiting goes on only while the time allowed has not run out.
pub proof fn law_waiting_ends_at_deadline(obs: HealthObservation)
    ensures
        health_verdict_spec(obs, true) != HealthVerdict::Pending,
{
}

/// The verdict on one inspection, in terms of what it reports:
/// - healthy exactly when the state carries the status `healthy`;
/// - unhealthy exactly when it carries the status `unhealthy`;
/// - stopped exactly when there is a state, its status is neither of those two
///   (whatever else it says, or none), and it does not report the container
///   running, whatever the deadline;
/// - otherwise timed out exactly when the deadline has passed, and pending when
///   it has not.
pub proof fn law_health_verdict_by_cases(obs: HealthObservation, deadline_passed: bool)
    ensures
        (health_verdict_spec(obs, deadline_passed) == HealthVerdict::Healthy) <==> (obs.state_present
            && (obs.health_status matches Some(st) && st@ == "healthy"@)),
        (health_verdict_spec(obs, deadline_passed) == HealthVerdict::Unhealthy) <==> (obs.state_present
            && (obs.health_status matches Some(st) && st@ == "unhealthy"@)),
        (health_verdict_spec(obs, deadline_passed) == HealthVerdict::Stopped) <==> (obs.state_present
            && !(obs.health_status matches Some(st) && (st@ == "healthy"@ || st@ == "unhealthy"@))
            && obs.running != Some(true)),
        (health_verdict_spec(obs, deadline_passed) == HealthVerdict::TimedOut) <==> (deadline_passed
            && (!obs.state_present || (obs.running == Some(true)
            && !(obs.health_status matches Some(st) && (st@ == "healthy"@ || st@ == "unhealthy"@))))),
        (health_verdict_spec(obs, deadline_passed) == HealthVerdict::Pending) <==> (!deadline_passed
            && (!obs.state_present || (obs.running == Some(true)
            && !(obs.health_status matches Some(st) && (st@ == "healthy"@ || st@ == "unhealthy"@))))),
{
    reveal_strlit("healthy");
    reveal_strlit("unhealthy");
    assert("healthy"@ != "unhealthy"@) by {
        assert("healthy"@.len() != "unhealthy"@.len());
    }
}

/// A sidecar that is not running is never waited for: an inspection with a
/// state that does not report the container running, and no final health
/// status, ends the wait as stopped at once, whatever its status text and
/// whether or not the deadline has passed.
pub proof fn law_a_stopped_sidecar_is_not_awaited(obs: HealthObservation, deadline_passed: bool)
    requires
        obs.state_present,
        obs.running != Some(true),
        !(obs.health_status matches Some(st) && (st@ == "healthy"@ || st@ == "unhealthy"@)),
    ensures
        health_verdict_spec(obs, deadline_passed) == HealthVerdict::Stopped,
{
}

} // verus!
