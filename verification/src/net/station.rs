//! Decision logic for the WiFi station supervisor, kept clock- and
//! driver-free. The wifi task turns each [`StationAction`] into driver calls.
use crate::net::backoff;
use crate::net::backoff::Backoff;
use vstd::prelude::*;

verus! {

/// Consecutive station failures before falling back to the provisioning AP
/// (with exponential backoff this spans several minutes).
pub const MAX_STA_FAILURES: u32 = 10;

/// What the wifi task should do next.
#[derive(Debug, Clone, Copy, PartialEq, Eq, Structural)]
pub enum StationAction {
    /// Apply the station config (which also starts the driver).
    Start,
    /// Associate with the configured network.
    Connect,
    /// Too many failures: hand the radio to the provisioning access point.
    FallbackToAccessPoint,
}

/// Tracks whether the station driver is up and how many attempts have failed.
pub struct StationSupervisor {
    backoff: Backoff,
    failures: u32,
    started: bool,
}

/// The supervisor as a mathematical value.
pub struct StationSpec {
    /// The next delay.
    pub delay: int,
    /// Failures since the last success.
    pub failures: int,
    /// Whether the driver is up.
    pub started: bool,
}

impl View for StationSupervisor {
    type V = StationSpec;

    closed spec fn view(&self) -> StationSpec {
        StationSpec {
            delay: self.backoff@,
            failures: self.failures as int,
            started: self.started,
        }
    }
}

impl StationSpec {
    /// Nothing tried yet.
    pub open spec fn fresh() -> StationSpec {
        StationSpec { delay: backoff::INITIAL_SECS as int, failures: 0, started: false }
    }

    /// The next step.
    pub open spec fn action(self) -> StationAction {
        if self.failures >= MAX_STA_FAILURES {
            StationAction::FallbackToAccessPoint
        } else if !self.started {
            StationAction::Start
        } else {
            StationAction::Connect
        }
    }

    /// After a failed attempt.
    pub open spec fn after_failure(self) -> StationSpec {
        StationSpec {
            delay: backoff::doubled(self.delay),
            failures: self.failures + 1,
            started: self.started,
        }
    }

    /// After association.
    pub open spec fn after_success(self) -> StationSpec {
        StationSpec {
            delay: backoff::INITIAL_SECS as int,
            failures: 0,
            started: self.started,
        }
    }
}

impl Default for StationSupervisor {
    fn default() -> (r: Self)
        ensures
            r@ == StationSpec::fresh(),
    {
        Self::new()
    }
}

impl StationSupervisor {
    /// Nothing tried yet.
    pub fn new() -> (r: Self)
        ensures
            r@ == StationSpec::fresh(),
    {
        StationSupervisor { backoff: Backoff::new(), failures: 0, started: false }
    }

    /// The next step for the current state.
    pub fn next_action(&self) -> (r: StationAction)
        ensures
            r == self@.action(),
    {
        if self.failures >= MAX_STA_FAILURES {
            return StationAction::FallbackToAccessPoint;
        }
        if !self.started {
            return StationAction::Start;
        }
        StationAction::Connect
    }

    /// The station config was applied and the driver is running.
    pub fn started(&mut self)
        ensures
            final(self)@ == (StationSpec { started: true, ..old(self)@ }),
    {
        self.started = true;
    }

    /// A start or connect attempt failed; returns the seconds to wait before
    /// the next attempt.
    pub fn failed(&mut self) -> (r: u32)
        requires
            old(self)@.failures < u32::MAX,
        ensures
            r as int == old(self)@.delay,
            final(self)@ == old(self)@.after_failure(),
    {
        self.failures = self.failures + 1;
        self.backoff.next_secs()
    }

    /// Associated with the access point: the failure budget starts afresh.
    pub fn connected(&mut self)
        ensures
            final(self)@ == old(self)@.after_success(),
    {
        self.failures = 0;
        self.backoff.reset();
    }
}

/// The supervisor after `n` failures in a row.
pub open spec fn after_failures(state: StationSpec, n: nat) -> StationSpec
    decreases n,
{
    if n == 0 {
        state
    } else {
        after_failures(state, (n - 1) as nat).after_failure()
    }
}

/// Start and connect failures share one budget: from a full one, fewer than
/// ten failures keep trying and the tenth hands over to the access point. A
/// success fills the budget again and the driver stays started.
pub proof fn failure_budget(state: StationSpec, n: nat)
    ensures
        after_failures(state.after_success(), n).failures == n,
        after_failures(state.after_success(), n).started == state.started,
        (after_failures(state.after_success(), n).action()
            == StationAction::FallbackToAccessPoint) == (n >= MAX_STA_FAILURES),
        state.started && n < MAX_STA_FAILURES ==> after_failures(state.after_success(), n).action()
            == StationAction::Connect,
        after_failures(state.after_success(), n).delay == backoff::delay(n),
    decreases n,
{
    if n > 0 {
        failure_budget(state, (n - 1) as nat);
    }
}

/// What a station does: once ten attempts in a row have failed it hands over to
/// the access point; until then it starts the driver, and associates when that
/// runs. An attempt that fails, of either kind, counts once and keeps the driver
/// as it is; a success takes the count back to zero.
pub proof fn stations_try_ten_times(state: StationSpec)
    ensures
        state.failures >= 10 <==> state.action() == StationAction::FallbackToAccessPoint,
        state.failures < 10 && !state.started <==> state.action() == StationAction::Start,
        state.failures < 10 && state.started <==> state.action() == StationAction::Connect,
        state.after_failure().failures == state.failures + 1,
        state.after_failure().started == state.started,
        state.after_success().failures == 0,
        state.after_success().started == state.started,
        state.after_success().delay == 1,
        1 <= state.delay <= 30 ==> state.after_failure().delay == 2 * state.delay,
        30 < state.delay ==> state.after_failure().delay == 60,
        StationSpec::fresh().action() == StationAction::Start,
        StationSpec::fresh().delay == 1 && StationSpec::fresh().failures == 0,
{
}

/// A station's attempts: a failure hands out the delay and is counted, a success or a
/// started driver is remembered.
pub proof fn attempts_are_remembered(
    tried: &mut StationSupervisor,
    r: u32,
    up: &mut StationSupervisor,
    running: &mut StationSupervisor,
    asked: &StationSupervisor,
    action: StationAction,
)
    requires
        call_ensures(StationSupervisor::failed, (tried,), r),
        call_ensures(StationSupervisor::connected, (up,), ()),
        call_ensures(StationSupervisor::started, (running,), ()),
        call_ensures(StationSupervisor::next_action, (asked,), action),
    ensures
        r == old(tried)@.delay,
        final(tried)@.failures == old(tried)@.failures + 1,
        final(tried)@.started == old(tried)@.started,
        final(up)@.failures == 0 && final(up)@.delay == 1,
        final(up)@.started == old(up)@.started,
        final(running)@.started,
        final(running)@.failures == old(running)@.failures,
        final(running)@.delay == old(running)@.delay,
        asked@.failures >= 10 <==> action == StationAction::FallbackToAccessPoint,
        asked@.failures < 10 ==> (action == StationAction::Connect <==> asked@.started),
        asked@.failures < 10 ==> (action == StationAction::Start <==> !asked@.started),
{
}

} // verus!
