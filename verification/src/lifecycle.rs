//! The service lifecycle state machine shared by the capture orchestrator
//! and the frame-processing service. A single explicit state value replaces
//! independent boolean flags, so illegal combinations (both starting and
//! stopping, for instance) are unrepresentable, and concurrent start/stop
//! requests are serialized through compare-and-transition steps.

use vstd::prelude::*;

verus! {

/// The four lifecycle states. At most one holds at a time by construction;
/// the initial state is `Stopped` and the cycle is
/// Stopped -> Starting -> Running -> Stopping -> Stopped.
#[derive(Clone, Copy, Debug, PartialEq, Eq, Structural)]
pub enum ServiceState {
    Stopped,
    Starting,
    Running,
    Stopping,
}

/// The stop guard as a pure transition: from any state but `Stopping` a
/// stop request claims the teardown (second component `true`) and moves to
/// `Stopping`; a request that observes `Stopping` changes nothing and does
/// not tear down again.
pub open spec fn stop_guard_step(st: ServiceState) -> (ServiceState, bool) {
    if st == ServiceState::Stopping {
        (st, false)
    } else {
        (ServiceState::Stopping, true)
    }
}

/// Serialized lifecycle state of one service instance.
pub struct ServiceLifecycle {
    state: ServiceState,
}

impl ServiceLifecycle {
    pub closed spec fn spec_state(self) -> ServiceState {
        self.state
    }

    pub fn new() -> (r: Self)
        ensures
            r.spec_state() == ServiceState::Stopped,
    {
        ServiceLifecycle { state: ServiceState::Stopped }
    }

    pub fn state(&self) -> (r: ServiceState)
        ensures
            r == self.spec_state(),
    {
        self.state
    }

    /// Claims the start transition. Succeeds only from `Stopped`; a service
    /// already starting, running, or stopping is left untouched.
    pub fn begin_start(&mut self) -> (r: bool)
        ensures
            r == (old(self).spec_state() == ServiceState::Stopped),
            r ==> final(self).spec_state() == ServiceState::Starting,
            !r ==> final(self).spec_state() == old(self).spec_state(),
    {
        if matches!(self.state, ServiceState::Stopped) {
            self.state = ServiceState::Starting;
            true
        } else {
            false
        }
    }

    /// Completes a claimed start: the service is now running.
    pub fn complete_start(&mut self)
        requires
            old(self).spec_state() == ServiceState::Starting,
        ensures
            final(self).spec_state() == ServiceState::Running,
    {
        self.state = ServiceState::Running;
    }

    /// Claims the stop transition, the teardown guard: exactly one of any
    /// set of overlapping stop requests obtains `true`; every later request
    /// observes `Stopping` and returns `false` without re-running teardown.
    pub fn begin_stop(&mut self) -> (r: bool)
        ensures
            (final(self).spec_state(), r) == stop_guard_step(old(self).spec_state()),
    {
        if matches!(self.state, ServiceState::Stopping) {
            false
        } else {
            self.state = ServiceState::Stopping;
            true
        }
    }

    /// Completes a claimed stop: the service is back at `Stopped`.
    pub fn complete_stop(&mut self)
        requires
            old(self).spec_state() == ServiceState::Stopping,
        ensures
            final(self).spec_state() == ServiceState::Stopped,
    {
        self.state = ServiceState::Stopped;
    }
}

/// Law: a stop request and a second one issued while the first is in
/// flight result in exactly one teardown. The first request (from any
/// state not already stopping) claims the teardown; the second observes
/// the guard, changes no state, and does not claim it.
pub proof fn lemma_concurrent_stop_single_teardown(st: ServiceState)
    ensures
        ({
            let (s1, first) = stop_guard_step(st);
            let (s2, second) = stop_guard_step(s1);
            &&& s1 == ServiceState::Stopping
            &&& st != ServiceState::Stopping ==> first
            &&& !second
            &&& s2 == s1
        }),
{
}

} // verus!
