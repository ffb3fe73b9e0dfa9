use vstd::prelude::*;

use crate::address::{clone_opt_address, opt_address_view, Address};
use crate::error::Error;
use crate::text::{bool_text, bool_to_text, decimal, u64_to_decimal};

verus! {

// ===== CIRCUIT BREAKER TYPES =====

/// The three positions of the breaker.
#[derive(Clone, Copy, Debug, PartialEq, Eq, Structural)]
pub enum BreakerState {
    /// Normal operation.
    Closed,
    /// Paused.
    Open,
    /// Probing whether the service has recovered.
    HalfOpen,
}

/// What a recorded breaker event did.
#[derive(Clone, Copy, Debug, PartialEq, Eq, Structural)]
pub enum BreakerAction {
    Pause,
    Resume,
    Trigger,
    Reset,
}

/// Why a breaker event happened.
#[derive(Clone, Copy, Debug, PartialEq, Eq, Structural)]
pub enum BreakerCondition {
    HighErrorRate,
    HighLatency,
    LowLiquidity,
    OracleFailure,
    NetworkCongestion,
    SecurityThreat,
    ManualOverride,
    SystemOverload,
    InvalidData,
    UnauthorizedAccess,
}

/// How much of the contract a pause blocks.
#[derive(Clone, Copy, Debug, PartialEq, Eq, Structural)]
pub enum PauseScope {
    BettingOnly,
    Full,
}

/// Quota scheduler for probe calls while half-open.
#[derive(Clone, Copy, Debug, PartialEq, Eq, Structural)]
pub struct HalfOpenQuota {
    pub calls_per_minute: u32,
    pub evaluation_window_s: u64,
}

/// Thresholds and recovery settings of the breaker.
#[derive(Clone, Copy, Debug, PartialEq, Eq, Structural)]
pub struct CircuitBreakerConfig {
    /// Maximum error rate percentage (0-100).
    pub max_error_rate: u32,
    /// Maximum latency in milliseconds.
    pub max_latency_ms: u64,
    /// Minimum liquidity threshold.
    pub min_liquidity: i128,
    /// Number of failures before opening.
    pub failure_threshold: u32,
    /// Seconds to wait before attempting recovery.
    pub recovery_timeout: u64,
    /// Successful probes needed in half-open state to close.
    pub half_open_max_requests: u32,
    /// Whether an open breaker moves to half-open by itself.
    pub auto_recovery_enabled: bool,
    /// Quota-based admission while half-open.
    pub half_open_quota: HalfOpenQuota,
}

/// The breaker's counters and position.
#[derive(Clone, Copy, Debug, PartialEq, Eq, Structural)]
pub struct CircuitBreakerState {
    pub state: BreakerState,
    pub failure_count: u32,
    pub last_failure_time: u64,
    pub last_success_time: u64,
    pub opened_time: u64,
    pub half_open_requests: u32,
    pub total_requests: u32,
    pub error_count: u32,
    pub pause_scope: PauseScope,
    pub allow_withdrawals: bool,
    /// Ledger time at which the breaker entered half-open; zero otherwise.
    pub half_open_since: u64,
}

/// Admission window of the half-open quota scheduler.
#[derive(Clone, Copy, Debug, PartialEq, Eq, Structural)]
pub struct HalfOpenWindow {
    pub admitted: u32,
    pub completed: u32,
    pub failures: u32,
    pub window_start: u64,
}

/// Keys of the breaker's temporary data.
#[derive(Clone, Copy, Debug, PartialEq, Eq, Structural)]
pub enum CircuitBreakerTempData {
    HalfOpenWindow,
}

/// One entry of the breaker's event history.
pub struct CircuitBreakerEvent {
    pub action: BreakerAction,
    pub condition: BreakerCondition,
    pub reason: String,
    pub timestamp: u64,
    pub admin: Option<Address>,
}

/// The mathematical value of a breaker event.
pub struct CircuitBreakerEventView {
    pub action: BreakerAction,
    pub condition: BreakerCondition,
    pub reason: Seq<char>,
    pub timestamp: u64,
    pub admin: Option<Seq<char>>,
}

impl View for CircuitBreakerEvent {
    type V = CircuitBreakerEventView;

    open spec fn view(&self) -> CircuitBreakerEventView {
        CircuitBreakerEventView {
            action: self.action,
            condition: self.condition,
            reason: self.reason@,
            timestamp: self.timestamp,
            admin: opt_address_view(self.admin),
        }
    }
}

impl Clone for CircuitBreakerEvent {
    fn clone(&self) -> (res: Self)
        ensures
            res@ == self@,
    {
        CircuitBreakerEvent {
            action: self.action,
            condition: self.condition,
            reason: self.reason.clone(),
            timestamp: self.timestamp,
            admin: clone_opt_address(&self.admin),
        }
    }
}

/// The event views of a sequence of events.
pub open spec fn events_view(s: Seq<CircuitBreakerEvent>) -> Seq<CircuitBreakerEventView> {
    s.map_values(|e: CircuitBreakerEvent| e@)
}

/// The view of a list of (name, flag) pairs.
pub open spec fn flags_view(s: Seq<(String, bool)>) -> Seq<(Seq<char>, bool)> {
    s.map_values(|p: (String, bool)| (p.0@, p.1))
}

/// Everything the breaker keeps in contract storage: configuration, state,
/// event history and condition flags (instance data), and the half-open
/// admission window (temporary data). `None` stands for an absent entry.
pub struct CircuitBreaker {
    pub config: Option<CircuitBreakerConfig>,
    pub state: Option<CircuitBreakerState>,
    pub events: Option<Vec<CircuitBreakerEvent>>,
    pub conditions: Option<Vec<(String, bool)>>,
    pub half_open_window: Option<HalfOpenWindow>,
    /// Set when a probe call is admitted into the half-open window: the
    /// window entry's lifetime is then to be extended by
    /// `half_open_window_ttl` of the configured quota.
    pub extend_window_ttl: bool,
}

/// The mathematical value of the breaker's storage.
pub struct CircuitBreakerView {
    pub config: Option<CircuitBreakerConfig>,
    pub state: Option<CircuitBreakerState>,
    pub events: Option<Seq<CircuitBreakerEventView>>,
    pub conditions: Option<Seq<(Seq<char>, bool)>>,
    pub half_open_window: Option<HalfOpenWindow>,
    pub extend_window_ttl: bool,
}

impl View for CircuitBreaker {
    type V = CircuitBreakerView;

    open spec fn view(&self) -> CircuitBreakerView {
        CircuitBreakerView {
            config: self.config,
            state: self.state,
            events: match self.events {
                Some(e) => Some(events_view(e@)),
                None => None,
            },
            conditions: match self.conditions {
                Some(c) => Some(flags_view(c@)),
                None => None,
            },
            half_open_window: self.half_open_window,
            extend_window_ttl: self.extend_window_ttl,
        }
    }
}

// ===== SPECIFICATION =====

/// The configuration written when the breaker is initialized.
pub open spec fn default_config() -> CircuitBreakerConfig {
    CircuitBreakerConfig {
        max_error_rate: 10,
        max_latency_ms: 5000,
        min_liquidity: 1_000_000_000,
        failure_threshold: 5,
        recovery_timeout: 300,
        half_open_max_requests: 3,
        auto_recovery_enabled: true,
        half_open_quota: HalfOpenQuota { calls_per_minute: 3, evaluation_window_s: 60 },
    }
}

/// The state written when the breaker is initialized at ledger time `now`.
pub open spec fn initial_state(now: u64) -> CircuitBreakerState {
    CircuitBreakerState {
        state: BreakerState::Closed,
        failure_count: 0,
        last_failure_time: 0,
        last_success_time: now,
        opened_time: 0,
        half_open_requests: 0,
        total_requests: 0,
        error_count: 0,
        pause_scope: PauseScope::BettingOnly,
        allow_withdrawals: false,
        half_open_since: 0,
    }
}

/// A state that keeps the half-open start time only while half-open.
pub open spec fn state_is_consistent(s: CircuitBreakerState) -> bool {
    s.state != BreakerState::HalfOpen ==> s.half_open_since == 0
}

/// The failure count after one more failure, saturating at `u32::MAX`.
pub open spec fn counted_failure(n: u32) -> u32 {
    if n < u32::MAX {
        (n + 1) as u32
    } else {
        n
    }
}

/// An admission window with nothing counted.
pub open spec fn cleared_window() -> HalfOpenWindow {
    HalfOpenWindow { admitted: 0, completed: 0, failures: 0, window_start: 0 }
}

/// A configuration accepted by `validate_config`.
pub open spec fn config_is_valid(c: CircuitBreakerConfig) -> bool {
    &&& c.max_error_rate <= 100
    &&& c.max_latency_ms != 0
    &&& c.min_liquidity >= 0
    &&& c.failure_threshold != 0
    &&& c.recovery_timeout != 0
    &&& c.half_open_max_requests != 0
    &&& c.half_open_quota.calls_per_minute != 0
    &&& c.half_open_quota.evaluation_window_s != 0
}

/// The event recorded for an action at ledger time `now`.
pub open spec fn event_at(
    action: BreakerAction,
    condition: BreakerCondition,
    reason: Seq<char>,
    now: u64,
    admin: Option<Seq<char>>,
) -> CircuitBreakerEventView {
    CircuitBreakerEventView { action, condition, reason, timestamp: now, admin }
}

/// The history after appending `e`: only the last 100 entries are kept
/// (one entry is dropped from the front when the bound is exceeded).
pub open spec fn capped_push(
    s: Seq<CircuitBreakerEventView>,
    e: CircuitBreakerEventView,
) -> Seq<CircuitBreakerEventView> {
    let t = s.push(e);
    if t.len() > 100 {
        t.drop_first()
    } else {
        t
    }
}

/// Whether the automatic trigger fires for `condition` on state `s`:
/// only a high error rate is monitored, as the integer percentage of
/// failed requests reaching the configured maximum.
pub open spec fn trigger_fires(
    s: CircuitBreakerState,
    c: CircuitBreakerConfig,
    condition: BreakerCondition,
) -> bool {
    &&& condition == BreakerCondition::HighErrorRate
    &&& s.total_requests > 0
    &&& (s.error_count * 100) / (s.total_requests as int) >= c.max_error_rate
}

/// Whether an open breaker recovers by itself at `now`: auto-recovery is
/// enabled and the recovery timeout has passed since it opened.
pub open spec fn recovers(s: CircuitBreakerState, c: CircuitBreakerConfig, now: u64) -> bool {
    c.auto_recovery_enabled && s.state == BreakerState::Open && now - s.opened_time
        >= c.recovery_timeout
}

/// The state after the automatic recovery step: half-open with the probe
/// window starting at `now` when it recovers, unchanged otherwise.
pub open spec fn auto_recovered(s: CircuitBreakerState, c: CircuitBreakerConfig, now: u64) -> CircuitBreakerState {
    if recovers(s, c, now) {
        CircuitBreakerState {
            state: BreakerState::HalfOpen,
            half_open_requests: 0,
            half_open_since: now,
            ..s
        }
    } else {
        s
    }
}

impl CircuitBreakerView {
    /// Storage after `initialize` at time `now`.
    pub open spec fn initialized(self, now: u64) -> CircuitBreakerView {
        CircuitBreakerView {
            config: Some(default_config()),
            state: Some(initial_state(now)),
            events: Some(Seq::empty()),
            conditions: Some(Seq::empty()),
            half_open_window: self.half_open_window,
            extend_window_ttl: self.extend_window_ttl,
        }
    }

    /// Storage after reading the configuration (initializing when absent).
    pub open spec fn with_config(self, now: u64) -> CircuitBreakerView {
        if self.config is Some {
            self
        } else {
            self.initialized(now)
        }
    }

    /// The stored configuration, or the default one when none is stored
    /// (read without initializing storage).
    pub open spec fn config_or_default(self) -> CircuitBreakerConfig {
        match self.config {
            Some(c) => c,
            None => default_config(),
        }
    }

    /// Storage after reading the state (initializing when absent).
    pub open spec fn with_state(self, now: u64) -> CircuitBreakerView {
        if self.state is Some {
            self
        } else {
            self.initialized(now)
        }
    }

    /// Storage after writing state `s`; leaving half-open clears the
    /// admission window.
    pub open spec fn stored(self, s: CircuitBreakerState) -> CircuitBreakerView {
        CircuitBreakerView {
            state: Some(s),
            half_open_window: if s.state != BreakerState::HalfOpen {
                Some(cleared_window())
            } else {
                self.half_open_window
            },
            ..self
        }
    }

    /// Storage after recording event `e` in the history.
    pub open spec fn logged(self, e: CircuitBreakerEventView) -> CircuitBreakerView {
        CircuitBreakerView {
            events: Some(
                capped_push(
                    match self.events {
                        Some(s) => s,
                        None => Seq::empty(),
                    },
                    e,
                ),
            ),
            ..self
        }
    }

    /// The breaker's invariant: a stored configuration is valid, a stored
    /// state is consistent, and the history holds at most 100 events.
    pub open spec fn well_formed(self) -> bool {
        &&& (self.config matches Some(c) ==> config_is_valid(c))
        &&& (self.state matches Some(s) ==> state_is_consistent(s))
        &&& (self.events matches Some(e) ==> e.len() <= 100)
    }

    /// `update_config` once authorized.
    pub open spec fn after_update_config(
        self,
        now: u64,
        admin: Seq<char>,
        config: CircuitBreakerConfig,
    ) -> (CircuitBreakerView, Result<(), Error>) {
        if !config_is_valid(config) {
            (self, Err(Error::InvalidInput))
        } else {
            (
                CircuitBreakerView { config: Some(config), ..self }.logged(
                    event_at(
                        BreakerAction::Reset,
                        BreakerCondition::ManualOverride,
                        "Configuration updated"@,
                        now,
                        Some(admin),
                    ),
                ),
                Ok(()),
            )
        }
    }

    /// `pause_with_options` once authorized.
    pub open spec fn after_pause(
        self,
        now: u64,
        admin: Seq<char>,
        reason: Seq<char>,
        scope: PauseScope,
        allow_withdrawals: bool,
    ) -> (CircuitBreakerView, Result<(), Error>) {
        let v = self.with_state(now);
        let s = v.state.unwrap();
        if s.state == BreakerState::Open {
            (v, Err(Error::CBError))
        } else {
            (
                v.stored(
                    CircuitBreakerState {
                        state: BreakerState::Open,
                        opened_time: now,
                        pause_scope: scope,
                        allow_withdrawals,
                        half_open_since: 0,
                        ..s
                    },
                ).logged(
                    event_at(
                        BreakerAction::Pause,
                        BreakerCondition::ManualOverride,
                        reason,
                        now,
                        Some(admin),
                    ),
                ),
                Ok(()),
            )
        }
    }

    /// One admission attempt of the half-open quota scheduler with
    /// configuration `c`.
    pub open spec fn after_half_open_admit(self, c: CircuitBreakerConfig, now: u64) -> (
        CircuitBreakerView,
        Result<bool, Error>,
    ) {
        let w0 = match self.half_open_window {
            Some(w) => w,
            None => HalfOpenWindow { admitted: 0, completed: 0, failures: 0, window_start: now },
        };
        let w = if now >= w0.window_start.saturating_add(c.half_open_quota.evaluation_window_s) {
            HalfOpenWindow { admitted: 0, completed: 0, failures: 0, window_start: now }
        } else {
            w0
        };
        if w.admitted < c.half_open_quota.calls_per_minute {
            (
                CircuitBreakerView {
                    half_open_window: Some(HalfOpenWindow { admitted: (w.admitted + 1) as u32, ..w }),
                    extend_window_ttl: true,
                    ..self
                },
                Ok(true),
            )
        } else {
            let v = self.with_state(now);
            let s = v.state.unwrap();
            if w.failures == 0 {
                (
                    v.stored(
                        CircuitBreakerState {
                            state: BreakerState::Closed,
                            failure_count: 0,
                            half_open_requests: 0,
                            half_open_since: 0,
                            ..s
                        },
                    ).logged(
                        event_at(
                            BreakerAction::Resume,
                            BreakerCondition::ManualOverride,
                            "Quota exhausted with no failures: closing circuit"@,
                            now,
                            None,
                        ),
                    ),
                    Ok(false),
                )
            } else {
                (
                    v.stored(
                        CircuitBreakerState {
                            state: BreakerState::Open,
                            opened_time: now,
                            half_open_requests: 0,
                            half_open_since: 0,
                            ..s
                        },
                    ).logged(
                        event_at(
                            BreakerAction::Trigger,
                            BreakerCondition::HighErrorRate,
                            "Quota exhausted with failures: reopening circuit"@,
                            now,
                            None,
                        ),
                    ),
                    Ok(false),
                )
            }
        }
    }

    /// The half-open admission decision for a breaker whose loaded storage
    /// is `self` and whose loaded state is `s`.
    pub open spec fn after_half_open_check(self, s: CircuitBreakerState, now: u64) -> (
        CircuitBreakerView,
        Result<bool, Error>,
    ) {
        let v = self.with_config(now);
        let c = v.config.unwrap();
        if c.half_open_quota.calls_per_minute > 0 {
            v.after_half_open_admit(c, now)
        } else {
            (v, Ok(s.half_open_requests < c.half_open_max_requests))
        }
    }

    /// `is_operation_allowed` for an operation that is (`betting`) or is not
    /// bet placement.
    pub open spec fn after_operation_check(self, now: u64, betting: bool) -> (
        CircuitBreakerView,
        Result<bool, Error>,
    ) {
        let v = self.with_state(now);
        let s = v.state.unwrap();
        match s.state {
            BreakerState::Closed => (v, Ok(true)),
            BreakerState::Open => (v, Ok(s.pause_scope == PauseScope::BettingOnly && !betting)),
            BreakerState::HalfOpen => v.after_half_open_check(s, now),
        }
    }

    /// `CircuitBreakerUtils::should_allow_operation`.
    pub open spec fn after_should_allow(self, now: u64) -> (CircuitBreakerView, Result<bool, Error>) {
        let v = self.with_state(now);
        let s = v.state.unwrap();
        match s.state {
            BreakerState::Closed => (v, Ok(true)),
            BreakerState::Open => (v, Ok(false)),
            BreakerState::HalfOpen => v.after_half_open_check(s, now),
        }
    }

    /// The inputs on which `automatic_circuit_breaker_trigger` completes
    /// without arithmetic overflow or underflow.
    pub open spec fn automatic_trigger_defined(self, now: u64, condition: BreakerCondition) -> bool {
        let v1 = self.with_config(now);
        let c = v1.config.unwrap();
        let s = v1.with_state(now).state.unwrap();
        &&& (c.auto_recovery_enabled && s.state == BreakerState::Open) ==> now >= s.opened_time
        &&& (condition == BreakerCondition::HighErrorRate && s.total_requests > 0) ==> s.error_count
            * 100 <= u32::MAX
        &&& s.failure_count < u32::MAX || !(trigger_fires(s, c, condition) && auto_recovered(
            s,
            c,
            now,
        ).state != BreakerState::Open)
    }

    /// `automatic_circuit_breaker_trigger`.
    pub open spec fn after_automatic_trigger(self, now: u64, condition: BreakerCondition) -> (
        CircuitBreakerView,
        Result<bool, Error>,
    ) {
        let v1 = self.with_config(now);
        let c = v1.config.unwrap();
        let v2 = v1.with_state(now);
        let s = v2.state.unwrap();
        let recovering = recovers(s, c, now);
        let s1 = auto_recovered(s, c, now);
        let v3 = if recovering {
            v2.stored(s1).logged(
                event_at(
                    BreakerAction::Reset,
                    BreakerCondition::ManualOverride,
                    "Auto-recovery: transitioning to half-open"@,
                    now,
                    None,
                ),
            )
        } else {
            v2
        };
        if trigger_fires(s1, c, condition) && s1.state != BreakerState::Open {
            (
                v3.stored(
                    CircuitBreakerState {
                        state: BreakerState::Open,
                        failure_count: (s1.failure_count + 1) as u32,
                        last_failure_time: now,
                        opened_time: now,
                        half_open_since: 0,
                        ..s1
                    },
                ).logged(
                    event_at(
                        BreakerAction::Trigger,
                        condition,
                        "Automatic circuit breaker triggered"@,
                        now,
                        None,
                    ),
                ),
                Ok(true),
            )
        } else {
            (v3, Ok(false))
        }
    }

    /// `circuit_breaker_recovery` once authorized.
    pub open spec fn after_recovery(self, now: u64, admin: Seq<char>) -> (
        CircuitBreakerView,
        Result<(), Error>,
    ) {
        let v = self.with_state(now);
        let s = v.state.unwrap();
        if s.state != BreakerState::Open && s.state != BreakerState::HalfOpen {
            (v, Err(Error::CBError))
        } else {
            (
                v.stored(
                    CircuitBreakerState {
                        state: BreakerState::Closed,
                        failure_count: 0,
                        half_open_requests: 0,
                        half_open_since: 0,
                        last_success_time: now,
                        pause_scope: PauseScope::BettingOnly,
                        allow_withdrawals: false,
                        ..s
                    },
                ).logged(
                    event_at(
                        BreakerAction::Resume,
                        BreakerCondition::ManualOverride,
                        "Circuit breaker recovered"@,
                        now,
                        Some(admin),
                    ),
                ),
                Ok(()),
            )
        }
    }

    /// `request_resume` once authorized.
    pub open spec fn after_request_resume(self, now: u64, admin: Seq<char>) -> (
        CircuitBreakerView,
        Result<(), Error>,
    ) {
        let v = self.with_state(now);
        let s = v.state.unwrap();
        if s.state != BreakerState::Open {
            (v, Err(Error::CBError))
        } else {
            (
                v.stored(
                    CircuitBreakerState {
                        state: BreakerState::HalfOpen,
                        half_open_requests: 0,
                        half_open_since: now,
                        ..s
                    },
                ).logged(
                    event_at(
                        BreakerAction::Resume,
                        BreakerCondition::ManualOverride,
                        "Admin requested resume: entering half-open with cooldown"@,
                        now,
                        Some(admin),
                    ),
                ),
                Ok(()),
            )
        }
    }

    /// The inputs on which `record_success` completes without overflow.
    pub open spec fn record_success_defined(self, now: u64) -> bool {
        let v1 = self.with_state(now);
        let s = v1.state.unwrap();
        let c = v1.with_config(now).config.unwrap();
        &&& s.total_requests < u32::MAX
        &&& s.state == BreakerState::HalfOpen ==> s.half_open_since + c.recovery_timeout <= u64::MAX
        &&& (s.state == BreakerState::HalfOpen && now >= s.half_open_since + c.recovery_timeout)
            ==> s.half_open_requests < u32::MAX
    }

    /// `record_success`.
    pub open spec fn after_success(self, now: u64) -> (CircuitBreakerView, Result<(), Error>) {
        let v1 = self.with_state(now);
        let s = v1.state.unwrap();
        let s1 = CircuitBreakerState {
            total_requests: (s.total_requests + 1) as u32,
            last_success_time: now,
            ..s
        };
        if s.state == BreakerState::HalfOpen {
            let v2 = v1.with_config(now);
            let c = v2.config.unwrap();
            if now < s.half_open_since + c.recovery_timeout {
                (v2.stored(s1), Ok(()))
            } else {
                let h = (s1.half_open_requests + 1) as u32;
                if h >= c.half_open_max_requests {
                    (
                        v2.logged(
                            event_at(
                                BreakerAction::Resume,
                                BreakerCondition::ManualOverride,
                                "Auto-recovery: circuit breaker closed"@,
                                now,
                                None,
                            ),
                        ).stored(
                            CircuitBreakerState {
                                state: BreakerState::Closed,
                                failure_count: 0,
                                half_open_requests: 0,
                                half_open_since: 0,
                                ..s1
                            },
                        ),
                        Ok(()),
                    )
                } else {
                    (v2.stored(CircuitBreakerState { half_open_requests: h, ..s1 }), Ok(()))
                }
            }
        } else {
            (v1.stored(s1), Ok(()))
        }
    }

    /// The inputs on which `record_failure` completes without overflow.
    pub open spec fn record_failure_defined(self, now: u64) -> bool {
        let s = self.with_state(now).state.unwrap();
        s.total_requests < u32::MAX && s.error_count < u32::MAX
    }

    /// `record_failure`.
    pub open spec fn after_failure(self, now: u64) -> (CircuitBreakerView, Result<(), Error>) {
        let v1 = self.with_state(now);
        let s = v1.state.unwrap();
        let s1 = CircuitBreakerState {
            total_requests: (s.total_requests + 1) as u32,
            error_count: (s.error_count + 1) as u32,
            last_failure_time: now,
            ..s
        };
        if s.state == BreakerState::HalfOpen {
            (
                v1.logged(
                    event_at(
                        BreakerAction::Trigger,
                        BreakerCondition::HighErrorRate,
                        "Failure in half-open state, reopening circuit breaker"@,
                        now,
                        None,
                    ),
                ).stored(
                    CircuitBreakerState {
                        state: BreakerState::Open,
                        opened_time: now,
                        half_open_requests: 0,
                        half_open_since: 0,
                        ..s1
                    },
                ),
                Ok(()),
            )
        } else if s.state == BreakerState::Closed {
            let c = v1.config_or_default();
            let s2 = CircuitBreakerState { failure_count: counted_failure(s.failure_count), ..s1 };
            if s2.failure_count >= c.failure_threshold {
                (
                    v1.stored(CircuitBreakerState { state: BreakerState::Open, opened_time: now, ..s2 }).logged(
                        event_at(
                            BreakerAction::Trigger,
                            BreakerCondition::HighErrorRate,
                            "Failure threshold reached, opening circuit breaker"@,
                            now,
                            None,
                        ),
                    ),
                    Ok(()),
                )
            } else {
                (v1.stored(s2), Ok(()))
            }
        } else {
            (v1.stored(s1), Ok(()))
        }
    }
}

// ===== CIRCUIT BREAKER IMPLEMENTATION =====

/// Builds the default configuration.
fn make_default_config() -> (c: CircuitBreakerConfig)
    ensures
        c == default_config(),
{
    CircuitBreakerConfig {
        max_error_rate: 10,
        max_latency_ms: 5000,
        min_liquidity: 1_000_000_000,
        failure_threshold: 5,
        recovery_timeout: 300,
        half_open_max_requests: 3,
        auto_recovery_enabled: true,
        half_open_quota: HalfOpenQuota { calls_per_minute: 3, evaluation_window_s: 60 },
    }
}

/// Builds the initial state at ledger time `now`.
fn make_initial_state(now: u64) -> (s: CircuitBreakerState)
    ensures
        s == initial_state(now),
{
    CircuitBreakerState {
        state: BreakerState::Closed,
        failure_count: 0,
        last_failure_time: 0,
        last_success_time: now,
        opened_time: 0,
        half_open_requests: 0,
        total_requests: 0,
        error_count: 0,
        pause_scope: PauseScope::BettingOnly,
        allow_withdrawals: false,
        half_open_since: 0,
    }
}

impl CircuitBreaker {
    // ===== CONFIGURATION MANAGEMENT =====

    /// Writes the default configuration, a closed state stamped with `now`,
    /// an empty event history and no condition flags.
    pub fn initialize(&mut self, now: u64) -> (r: Result<(), Error>)
        ensures
            final(self)@ == old(self)@.initialized(now),
            r == Ok::<(), Error>(()),
    {
        self.config = Some(make_default_config());
        self.state = Some(make_initial_state(now));
        self.events = Some(Vec::new());
        self.conditions = Some(Vec::new());
        proof {
            assert(events_view(Seq::<CircuitBreakerEvent>::empty()) =~= Seq::empty());
            assert(flags_view(Seq::<(String, bool)>::empty()) =~= Seq::empty());
        }
        Ok(())
    }

    /// Returns the configuration, initializing the breaker when none is
    /// stored.
    pub fn get_config(&mut self, now: u64) -> (r: Result<CircuitBreakerConfig, Error>)
        ensures
            final(self)@ == old(self)@.with_config(now),
            r == Ok::<CircuitBreakerConfig, Error>(final(self)@.config.unwrap()),
    {
        if self.config.is_none() {
            let _ = self.initialize(now);
        }
        match self.config {
            Some(c) => Ok(c),
            None => Err(Error::CBError),
        }
    }

    /// Returns the state, initializing the breaker when none is stored.
    pub fn get_state(&mut self, now: u64) -> (r: Result<CircuitBreakerState, Error>)
        ensures
            final(self)@ == old(self)@.with_state(now),
            r == Ok::<CircuitBreakerState, Error>(final(self)@.state.unwrap()),
    {
        if self.state.is_none() {
            let _ = self.initialize(now);
        }
        match self.state {
            Some(s) => Ok(s),
            None => Err(Error::CBError),
        }
    }

    /// Replaces the configuration after the admin check (`authorization`,
    /// the registry's answer for action `update_circuit_breaker_config`)
    /// and validation, and records a reset event.
    pub fn update_config(
        &mut self,
        now: u64,
        admin: &Address,
        authorization: Result<(), Error>,
        config: &CircuitBreakerConfig,
    ) -> (r: Result<(), Error>)
        ensures
            authorization is Err ==> r == authorization && final(self)@ == old(self)@,
            authorization is Ok ==> (final(self)@, r) == old(self)@.after_update_config(
                now,
                admin@,
                *config,
            ),
    {
        authorization?;
        Self::validate_config(config)?;
        self.config = Some(*config);
        let _ = self.emit_circuit_breaker_event(
            now,
            BreakerAction::Reset,
            BreakerCondition::ManualOverride,
            &String::from_str("Configuration updated"),
            Some(admin.clone()),
        );
        Ok(())
    }

    // ===== STATE MANAGEMENT =====

    /// Stores `state`; outside half-open the admission window is cleared.
    fn update_state(&mut self, state: &CircuitBreakerState) -> (r: Result<(), Error>)
        ensures
            final(self)@ == old(self)@.stored(*state),
            r == Ok::<(), Error>(()),
    {
        self.state = Some(*state);
        if state.state != BreakerState::HalfOpen {
            self.half_open_window = Some(
                HalfOpenWindow { admitted: 0, completed: 0, failures: 0, window_start: 0 },
            );
        }
        Ok(())
    }

    // ===== EVENT SYSTEM =====

    /// Appends an event stamped with `now` to the history, keeping only the
    /// last 100 entries.
    pub fn emit_circuit_breaker_event(
        &mut self,
        now: u64,
        action: BreakerAction,
        condition: BreakerCondition,
        reason: &String,
        admin: Option<Address>,
    ) -> (r: Result<(), Error>)
        ensures
            final(self)@ == old(self)@.logged(
                event_at(action, condition, reason@, now, opt_address_view(admin)),
            ),
            r == Ok::<(), Error>(()),
    {
        let event = CircuitBreakerEvent {
            action,
            condition,
            reason: reason.clone(),
            timestamp: now,
            admin,
        };
        let ghost e = event@;
        let mut events = match self.events.take() {
            Some(v) => v,
            None => Vec::new(),
        };
        let ghost before = events@;
        proof {
            if old(self).events is None {
                assert(events_view(before) =~= Seq::empty());
            }
        }
        events.push(event);
        proof {
            assert(events_view(events@) =~= events_view(before).push(e));
        }
        if events.len() > 100 {
            let ghost pushed = events@;
            let _ = events.remove(0);
            proof {
                assert(events_view(events@) =~= events_view(pushed).drop_first());
            }
        }
        self.events = Some(events);
        Ok(())
    }

    /// Returns the recorded event history.
    pub fn get_event_history(&self) -> (r: Result<Vec<CircuitBreakerEvent>, Error>)
        ensures
            match self.events {
                Some(e) => r is Ok && events_view(r->Ok_0@) == events_view(e@),
                None => r == Err::<Vec<CircuitBreakerEvent>, Error>(Error::CBError),
            },
    {
        match &self.events {
            Some(e) => {
                let mut out: Vec<CircuitBreakerEvent> = Vec::new();
                let mut i: usize = 0;
                while i < e.len()
                    invariant
                        i <= e@.len(),
                        events_view(out@) =~= events_view(e@.take(i as int)),
                    decreases e@.len() - i,
                {
                    let x = e[i].clone();
                    let ghost prev = out@;
                    out.push(x);
                    proof {
                        assert(e@.take(i + 1) =~= e@.take(i as int).push(e@[i as int]));
                        assert(events_view(out@) =~= events_view(prev).push(x@));
                        assert(events_view(e@.take(i + 1)) =~= events_view(e@.take(i as int)).push(
                            e@[i as int]@,
                        ));
                    }
                    i = i + 1;
                }
                proof {
                    assert(e@.take(e@.len() as int) =~= e@);
                }
                Ok(out)
            },
            None => Err(Error::CBError),
        }
    }

    // ===== VALIDATION =====

    /// Accepts exactly the configurations of `config_is_valid`.
    pub fn validate_config(config: &CircuitBreakerConfig) -> (r: Result<(), Error>)
        ensures
            config_is_valid(*config) ==> r == Ok::<(), Error>(()),
            !config_is_valid(*config) ==> r == Err::<(), Error>(Error::InvalidInput),
    {
        if config.max_error_rate > 100 {
            return Err(Error::InvalidInput);
        }
        if config.max_latency_ms == 0 {
            return Err(Error::InvalidInput);
        }
        if config.min_liquidity < 0 {
            return Err(Error::InvalidInput);
        }
        if config.failure_threshold == 0 {
            return Err(Error::InvalidInput);
        }
        if config.recovery_timeout == 0 {
            return Err(Error::InvalidInput);
        }
        if config.half_open_max_requests == 0 {
            return Err(Error::InvalidInput);
        }
        if config.half_open_quota.calls_per_minute == 0 {
            return Err(Error::InvalidInput);
        }
        if config.half_open_quota.evaluation_window_s == 0 {
            return Err(Error::InvalidInput);
        }
        Ok(())
    }

    /// Rejects an empty list of conditions and a list that names a
    /// condition twice.
    pub fn validate_circuit_breaker_conditions(conditions: &Vec<BreakerCondition>) -> (r: Result<
        (),
        Error,
    >)
        ensures
            r == Ok::<(), Error>(()) <==> (conditions@.len() > 0 && forall|i: int, j: int|
                0 <= i < j < conditions@.len() ==> conditions@[i] != conditions@[j]),
            r is Err ==> r == Err::<(), Error>(Error::InvalidInput),
    {
        if conditions.len() == 0 {
            return Err(Error::InvalidInput);
        }
        let n = conditions.len();
        let mut i: usize = 0;
        while i < n
            invariant
                n == conditions@.len(),
                i <= n,
                forall|a: int, b: int| 0 <= a < i && a < b < n ==> conditions@[a] != conditions@[b],
            decreases n - i,
        {
            let mut j: usize = i + 1;
            while j < n
                invariant
                    n == conditions@.len(),
                    i < n,
                    i + 1 <= j <= n,
                    forall|a: int, b: int| 0 <= a < i && a < b < n ==> conditions@[a] != conditions@[b],
                    forall|b: int| i < b < j ==> conditions@[i as int] != conditions@[b],
                decreases n - j,
            {
                if conditions[i] == conditions[j] {
                    return Err(Error::InvalidInput);
                }
                j = j + 1;
            }
            i = i + 1;
        }
        Ok(())
    }

    // ===== EMERGENCY PAUSE =====

    /// Pauses betting only, with withdrawals blocked.
    pub fn emergency_pause(
        &mut self,
        now: u64,
        admin: &Address,
        authorization: Result<(), Error>,
        reason: &String,
    ) -> (r: Result<(), Error>)
        ensures
            authorization is Err ==> r == authorization && final(self)@ == old(self)@,
            authorization is Ok ==> (final(self)@, r) == old(self)@.after_pause(
                now,
                admin@,
                reason@,
                PauseScope::BettingOnly,
                false,
            ),
    {
        self.pause_with_options(now, admin, authorization, reason, PauseScope::BettingOnly, false)
    }

    /// Opens the breaker with the given scope and withdrawal policy.
    /// `authorization` is the admin registry's answer for action
    /// `emergency_actions`. Pausing an already open breaker is refused.
    pub fn pause_with_options(
        &mut self,
        now: u64,
        admin: &Address,
        authorization: Result<(), Error>,
        reason: &String,
        scope: PauseScope,
        allow_withdrawals: bool,
    ) -> (r: Result<(), Error>)
        ensures
            authorization is Err ==> r == authorization && final(self)@ == old(self)@,
            authorization is Ok ==> (final(self)@, r) == old(self)@.after_pause(
                now,
                admin@,
                reason@,
                scope,
                allow_withdrawals,
            ),
    {
        authorization?;
        let mut state = self.get_state(now)?;
        if state.state == BreakerState::Open {
            return Err(Error::CBError);
        }
        state.state = BreakerState::Open;
        state.opened_time = now;
        state.pause_scope = scope;
        state.allow_withdrawals = allow_withdrawals;
        state.half_open_since = 0;
        self.update_state(&state)?;
        let _ = self.emit_circuit_breaker_event(
            now,
            BreakerAction::Pause,
            BreakerCondition::ManualOverride,
            reason,
            Some(admin.clone()),
        );
        Ok(())
    }

    /// Whether the breaker is open (paused).
    pub fn is_open(&mut self, now: u64) -> (r: Result<bool, Error>)
        ensures
            final(self)@ == old(self)@.with_state(now),
            r == Ok::<bool, Error>(final(self)@.state.unwrap().state == BreakerState::Open),
    {
        let state = self.get_state(now)?;
        Ok(state.state == BreakerState::Open)
    }

    /// Whether the breaker is closed (normal operation).
    pub fn is_closed(&mut self, now: u64) -> (r: Result<bool, Error>)
        ensures
            final(self)@ == old(self)@.with_state(now),
            r == Ok::<bool, Error>(final(self)@.state.unwrap().state == BreakerState::Closed),
    {
        let state = self.get_state(now)?;
        Ok(state.state == BreakerState::Closed)
    }

    /// Whether the breaker is half-open.
    pub fn is_half_open(&mut self, now: u64) -> (r: Result<bool, Error>)
        ensures
            final(self)@ == old(self)@.with_state(now),
            r == Ok::<bool, Error>(final(self)@.state.unwrap().state == BreakerState::HalfOpen),
    {
        let state = self.get_state(now)?;
        Ok(state.state == BreakerState::HalfOpen)
    }

    /// Whether operation `op` may run: always when closed; when open, only
    /// a betting-only pause lets anything but "betting" through; when
    /// half-open, the quota scheduler (or the probe counter) decides.
    pub fn is_operation_allowed(&mut self, now: u64, op: &str) -> (r: Result<bool, Error>)
        ensures
            (final(self)@, r) == old(self)@.after_operation_check(now, op@ == "betting"@),
    {
        let state = self.get_state(now)?;
        match state.state {
            BreakerState::Closed => Ok(true),
            BreakerState::Open => match state.pause_scope {
                PauseScope::Full => Ok(false),
                PauseScope::BettingOnly => {
                    if is_betting(op) {
                        Ok(false)
                    } else {
                        Ok(true)
                    }
                },
            },
            BreakerState::HalfOpen => self.half_open_check(now, &state),
        }
    }

    /// The half-open decision shared by the admission checks.
    fn half_open_check(&mut self, now: u64, state: &CircuitBreakerState) -> (r: Result<bool, Error>)
        ensures
            (final(self)@, r) == old(self)@.after_half_open_check(*state, now),
    {
        let config = self.get_config(now)?;
        if config.half_open_quota.calls_per_minute > 0 {
            self.half_open_admit(now, &config)
        } else {
            Ok(state.half_open_requests < config.half_open_max_requests)
        }
    }

    /// Reads are allowed in every breaker state.
    pub fn is_read_allowed() -> (r: Result<bool, Error>)
        ensures
            r == Ok::<bool, Error>(true),
    {
        Ok(true)
    }

    /// Whether the mutating operation `op` may run; the same decision as
    /// `is_operation_allowed`.
    pub fn is_write_allowed(&mut self, now: u64, op: &str) -> (r: Result<bool, Error>)
        ensures
            (final(self)@, r) == old(self)@.after_operation_check(now, op@ == "betting"@),
    {
        self.is_operation_allowed(now, op)
    }

    /// Succeeds for every read.
    pub fn require_read_allowed() -> (r: Result<(), Error>)
        ensures
            r == Ok::<(), Error>(()),
    {
        if Self::is_read_allowed()? {
            Ok(())
        } else {
            Err(Error::CBOpen)
        }
    }

    /// Succeeds when the mutating operation `op` may run, else `CBOpen`.
    pub fn require_write_allowed(&mut self, now: u64, op: &str) -> (r: Result<(), Error>)
        ensures
            final(self)@ == old(self)@.after_operation_check(now, op@ == "betting"@).0,
            r == match old(self)@.after_operation_check(now, op@ == "betting"@).1 {
                Ok(true) => Ok::<(), Error>(()),
                Ok(false) => Err(Error::CBOpen),
                Err(e) => Err(e),
            },
    {
        if self.is_write_allowed(now, op)? {
            Ok(())
        } else {
            Err(Error::CBOpen)
        }
    }

    /// Withdrawals are blocked only by an open breaker that was paused
    /// without allowing them.
    pub fn are_withdrawals_allowed(&mut self, now: u64) -> (r: Result<bool, Error>)
        ensures
            final(self)@ == old(self)@.with_state(now),
            r == Ok::<bool, Error>(
                !(final(self)@.state.unwrap().state == BreakerState::Open
                    && !final(self)@.state.unwrap().allow_withdrawals),
            ),
    {
        let state = self.get_state(now)?;
        if state.state == BreakerState::Open && !state.allow_withdrawals {
            return Ok(false);
        }
        Ok(true)
    }

    // ===== AUTOMATIC TRIGGERS =====

    /// Moves an open breaker to half-open once the recovery timeout has
    /// passed (when auto-recovery is enabled), then opens the breaker when
    /// `condition` is met; returns whether it opened.
    pub fn automatic_circuit_breaker_trigger(&mut self, now: u64, condition: &BreakerCondition) -> (r:
        Result<bool, Error>)
        requires
            old(self)@.automatic_trigger_defined(now, *condition),
        ensures
            (final(self)@, r) == old(self)@.after_automatic_trigger(now, *condition),
    {
        let config = self.get_config(now)?;
        let mut state = self.get_state(now)?;
        if config.auto_recovery_enabled && state.state == BreakerState::Open {
            if now - state.opened_time >= config.recovery_timeout {
                state.state = BreakerState::HalfOpen;
                state.half_open_requests = 0;
                state.half_open_since = now;
                self.update_state(&state)?;
                let _ = self.emit_circuit_breaker_event(
                    now,
                    BreakerAction::Reset,
                    BreakerCondition::ManualOverride,
                    &String::from_str("Auto-recovery: transitioning to half-open"),
                    None,
                );
            }
        }
        let should_trigger = match condition {
            BreakerCondition::HighErrorRate => {
                if state.total_requests > 0 {
                    let error_rate = (state.error_count * 100) / state.total_requests;
                    error_rate >= config.max_error_rate
                } else {
                    false
                }
            },
            _ => false,
        };
        if should_trigger && state.state != BreakerState::Open {
            state.state = BreakerState::Open;
            state.failure_count = state.failure_count + 1;
            state.last_failure_time = now;
            state.opened_time = now;
            state.half_open_since = 0;
            self.update_state(&state)?;
            let _ = self.emit_circuit_breaker_event(
                now,
                BreakerAction::Trigger,
                *condition,
                &String::from_str("Automatic circuit breaker triggered"),
                None,
            );
            return Ok(true);
        }
        Ok(false)
    }

    /// Whether `automatic_circuit_breaker_trigger` can run at `now` for
    /// `condition` without arithmetic overflow or underflow.
    pub fn automatic_trigger_is_defined(&self, now: u64, condition: &BreakerCondition) -> (b: bool)
        ensures
            b == self@.automatic_trigger_defined(now, *condition),
    {
        let (c, s) = match self.config {
            None => (make_default_config(), make_initial_state(now)),
            Some(c) => match self.state {
                Some(s) => (c, s),
                None => (c, make_initial_state(now)),
            },
        };
        let open = s.state == BreakerState::Open;
        if c.auto_recovery_enabled && open && now < s.opened_time {
            return false;
        }
        let high_error_rate = *condition == BreakerCondition::HighErrorRate;
        if high_error_rate && s.total_requests > 0 && s.error_count > u32::MAX / 100 {
            return false;
        }
        let fires = high_error_rate && s.total_requests > 0 && (s.error_count * 100)
            / s.total_requests >= c.max_error_rate;
        let recovering = c.auto_recovery_enabled && open && now - s.opened_time >= c.recovery_timeout;
        let open_after = open && !recovering;
        !(fires && !open_after && s.failure_count == u32::MAX)
    }

    /// One admission attempt of the half-open quota scheduler: admits while
    /// the window's quota lasts; once it is used up, closes the breaker when
    /// no admitted call failed and reopens it otherwise (not admitting).
    pub(crate) fn half_open_admit(&mut self, now: u64, config: &CircuitBreakerConfig) -> (r: Result<
        bool,
        Error,
    >)
        ensures
            (final(self)@, r) == old(self)@.after_half_open_admit(*config, now),
    {
        let mut window = match self.half_open_window {
            Some(w) => w,
            None => HalfOpenWindow { admitted: 0, completed: 0, failures: 0, window_start: now },
        };
        if now >= window.window_start.saturating_add(config.half_open_quota.evaluation_window_s) {
            window.admitted = 0;
            window.completed = 0;
            window.failures = 0;
            window.window_start = now;
        }
        if window.admitted < config.half_open_quota.calls_per_minute {
            window.admitted = window.admitted.saturating_add(1);
            self.half_open_window = Some(window);
            self.extend_window_ttl = true;
            return Ok(true);
        }
        let mut state = self.get_state(now)?;
        if window.failures == 0 {
            state.state = BreakerState::Closed;
            state.failure_count = 0;
            state.half_open_requests = 0;
            state.half_open_since = 0;
            self.update_state(&state)?;
            let _ = self.emit_circuit_breaker_event(
                now,
                BreakerAction::Resume,
                BreakerCondition::ManualOverride,
                &String::from_str("Quota exhausted with no failures: closing circuit"),
                None,
            );
            Ok(false)
        } else {
            state.state = BreakerState::Open;
            state.opened_time = now;
            state.half_open_requests = 0;
            state.half_open_since = 0;
            self.update_state(&state)?;
            let _ = self.emit_circuit_breaker_event(
                now,
                BreakerAction::Trigger,
                BreakerCondition::HighErrorRate,
                &String::from_str("Quota exhausted with failures: reopening circuit"),
                None,
            );
            Ok(false)
        }
    }

    /// The lifetime to request for the admission window entry: the
    /// evaluation window (taken modulo 2^32) plus one day, or `None` when
    /// that sum does not fit in a `u32`.
    pub fn half_open_window_ttl(quota: &HalfOpenQuota) -> (r: Option<u32>)
        ensures
            r == if (quota.evaluation_window_s as u32) + 86400 <= u32::MAX {
                Some(((quota.evaluation_window_s as u32) + 86400) as u32)
            } else {
                None::<u32>
            },
    {
        let base = quota.evaluation_window_s as u32;
        base.checked_add(86400)
    }

    // ===== RECOVERY MECHANISMS =====

    /// Closes an open or half-open breaker with safe defaults restored.
    /// `authorization` is the admin registry's answer for action
    /// `emergency_actions`.
    pub fn circuit_breaker_recovery(
        &mut self,
        now: u64,
        admin: &Address,
        authorization: Result<(), Error>,
    ) -> (r: Result<(), Error>)
        ensures
            authorization is Err ==> r == authorization && final(self)@ == old(self)@,
            authorization is Ok ==> (final(self)@, r) == old(self)@.after_recovery(now, admin@),
    {
        authorization?;
        let mut state = self.get_state(now)?;
        if state.state != BreakerState::Open && state.state != BreakerState::HalfOpen {
            return Err(Error::CBError);
        }
        state.state = BreakerState::Closed;
        state.failure_count = 0;
        state.half_open_requests = 0;
        state.half_open_since = 0;
        state.last_success_time = now;
        state.pause_scope = PauseScope::BettingOnly;
        state.allow_withdrawals = false;
        self.update_state(&state)?;
        let _ = self.emit_circuit_breaker_event(
            now,
            BreakerAction::Resume,
            BreakerCondition::ManualOverride,
            &String::from_str("Circuit breaker recovered"),
            Some(admin.clone()),
        );
        Ok(())
    }

    /// Moves an open breaker to half-open and starts the cooldown; probes
    /// count only after `recovery_timeout` seconds. `authorization` is the
    /// admin registry's answer for action `emergency_actions`.
    pub fn request_resume(&mut self, now: u64, admin: &Address, authorization: Result<(), Error>) -> (r:
        Result<(), Error>)
        ensures
            authorization is Err ==> r == authorization && final(self)@ == old(self)@,
            authorization is Ok ==> (final(self)@, r) == old(self)@.after_request_resume(
                now,
                admin@,
            ),
    {
        authorization?;
        let mut state = self.get_state(now)?;
        if state.state != BreakerState::Open {
            return Err(Error::CBError);
        }
        state.state = BreakerState::HalfOpen;
        state.half_open_requests = 0;
        state.half_open_since = now;
        self.update_state(&state)?;
        let _ = self.emit_circuit_breaker_event(
            now,
            BreakerAction::Resume,
            BreakerCondition::ManualOverride,
            &String::from_str("Admin requested resume: entering half-open with cooldown"),
            Some(admin.clone()),
        );
        Ok(())
    }

    /// Whether `record_success` can run at `now` without overflow.
    pub fn record_success_is_defined(&self, now: u64) -> (b: bool)
        ensures
            b == self@.record_success_defined(now),
    {
        let (c, s) = match self.state {
            None => (make_default_config(), make_initial_state(now)),
            Some(s) => match self.config {
                Some(c) => (c, s),
                None => (make_default_config(), s),
            },
        };
        if s.total_requests == u32::MAX {
            return false;
        }
        if s.state != BreakerState::HalfOpen {
            return true;
        }
        match s.half_open_since.checked_add(c.recovery_timeout) {
            None => false,
            Some(until) => now < until || s.half_open_requests < u32::MAX,
        }
    }

    /// Whether `record_failure` can run at `now` without overflow.
    pub fn record_failure_is_defined(&self, now: u64) -> (b: bool)
        ensures
            b == self@.record_failure_defined(now),
    {
        match self.state {
            None => true,
            Some(s) => s.total_requests < u32::MAX && s.error_count < u32::MAX,
        }
    }

    /// Counts a successful operation; in half-open, after the cooldown,
    /// enough successful probes close the breaker.
    pub fn record_success(&mut self, now: u64) -> (r: Result<(), Error>)
        requires
            old(self)@.record_success_defined(now),
        ensures
            (final(self)@, r) == old(self)@.after_success(now),
    {
        let mut state = self.get_state(now)?;
        state.total_requests = state.total_requests + 1;
        state.last_success_time = now;
        if state.state == BreakerState::HalfOpen {
            let config = self.get_config(now)?;
            if now < state.half_open_since + config.recovery_timeout {
                self.update_state(&state)?;
                return Ok(());
            }
            state.half_open_requests = state.half_open_requests + 1;
            if state.half_open_requests >= config.half_open_max_requests {
                state.state = BreakerState::Closed;
                state.failure_count = 0;
                state.half_open_requests = 0;
                state.half_open_since = 0;
                let _ = self.emit_circuit_breaker_event(
                    now,
                    BreakerAction::Resume,
                    BreakerCondition::ManualOverride,
                    &String::from_str("Auto-recovery: circuit breaker closed"),
                    None,
                );
            }
        }
        self.update_state(&state)?;
        Ok(())
    }

    /// Counts a failed operation; a failure while half-open reopens the
    /// breaker, and a failure while closed that brings the failure count to
    /// `failure_threshold` (of the stored configuration, or the default one
    /// when none is stored) opens it.
    pub fn record_failure(&mut self, now: u64) -> (r: Result<(), Error>)
        requires
            old(self)@.record_failure_defined(now),
        ensures
            (final(self)@, r) == old(self)@.after_failure(now),
    {
        let mut state = self.get_state(now)?;
        state.total_requests = state.total_requests + 1;
        state.error_count = state.error_count + 1;
        state.last_failure_time = now;
        if state.state == BreakerState::HalfOpen {
            let mut window = match self.half_open_window {
                Some(w) => w,
                None => HalfOpenWindow { admitted: 0, completed: 0, failures: 0, window_start: now },
            };
            window.failures = window.failures.saturating_add(1);
            window.completed = window.completed.saturating_add(1);
            self.half_open_window = Some(window);
            state.state = BreakerState::Open;
            state.opened_time = now;
            state.half_open_requests = 0;
            state.half_open_since = 0;
            let _ = self.emit_circuit_breaker_event(
                now,
                BreakerAction::Trigger,
                BreakerCondition::HighErrorRate,
                &String::from_str("Failure in half-open state, reopening circuit breaker"),
                None,
            );
        } else if state.state == BreakerState::Closed {
            let config = match self.config {
                Some(c) => c,
                None => make_default_config(),
            };
            state.failure_count = state.failure_count.saturating_add(1);
            if state.failure_count >= config.failure_threshold {
                state.state = BreakerState::Open;
                state.opened_time = now;
                self.update_state(&state)?;
                let _ = self.emit_circuit_breaker_event(
                    now,
                    BreakerAction::Trigger,
                    BreakerCondition::HighErrorRate,
                    &String::from_str("Failure threshold reached, opening circuit breaker"),
                    None,
                );
                return Ok(());
            }
        }
        self.update_state(&state)?;
        Ok(())
    }
}

/// Whether an operation name is "betting".
fn is_betting(op: &str) -> (b: bool)
    ensures
        b == (op@ == "betting"@),
{
    op.to_owned() == String::from_str("betting")
}

// ===== STATUS AND MONITORING =====

/// The name under which a breaker position is reported.
pub open spec fn state_name(s: BreakerState) -> Seq<char> {
    match s {
        BreakerState::Closed => "Closed"@,
        BreakerState::Open => "Open"@,
        BreakerState::HalfOpen => "HalfOpen"@,
    }
}

/// The view of a list of (key, value) texts.
pub open spec fn entries_view(s: Seq<(String, String)>) -> Seq<(Seq<char>, Seq<char>)> {
    s.map_values(|p: (String, String)| (p.0@, p.1@))
}

/// The integer error-rate percentage of `s` (meaningful when it has requests).
pub open spec fn error_rate(s: CircuitBreakerState) -> nat {
    ((s.error_count * 100) / (s.total_requests as int)) as nat
}

/// The entries of the status report of state `s` under configuration `c`
/// at ledger time `now`, in the order they are written.
pub open spec fn status_entries(s: CircuitBreakerState, c: CircuitBreakerConfig, now: u64) -> Seq<
    (Seq<char>, Seq<char>),
> {
    let time_open = (now - s.opened_time) as nat;
    seq![
        ("state"@, state_name(s.state)),
        ("failure_count"@, decimal(s.failure_count as nat)),
        ("total_requests"@, decimal(s.total_requests as nat)),
        ("error_count"@, decimal(s.error_count as nat)),
    ] + (if s.total_requests > 0 {
        seq![("error_rate_percent"@, decimal(error_rate(s)))]
    } else {
        Seq::empty()
    }) + seq![
        ("max_error_rate"@, decimal(c.max_error_rate as nat)),
        ("failure_threshold"@, decimal(c.failure_threshold as nat)),
    ] + (if s.state == BreakerState::Open {
        seq![
            ("time_open_seconds"@, decimal(time_open)),
            (
                "time_until_recovery_seconds"@,
                decimal(
                    if time_open < c.recovery_timeout {
                        (c.recovery_timeout - time_open) as nat
                    } else {
                        0
                    },
                ),
            ),
        ]
    } else {
        Seq::empty()
    }) + (if s.state == BreakerState::HalfOpen {
        seq![
            ("half_open_requests"@, decimal(s.half_open_requests as nat)),
            ("max_half_open_requests"@, decimal(c.half_open_max_requests as nat)),
        ]
    } else {
        Seq::empty()
    }) + seq![("auto_recovery_enabled"@, bool_text(c.auto_recovery_enabled))]
}

/// The entries of the statistics report of state `s`, in write order.
pub open spec fn statistics_entries(s: CircuitBreakerState) -> Seq<(Seq<char>, Seq<char>)> {
    seq![
        ("total_requests"@, decimal(s.total_requests as nat)),
        ("error_count"@, decimal(s.error_count as nat)),
    ] + (if s.total_requests > 0 {
        seq![("error_rate_percent"@, decimal(error_rate(s)))]
    } else {
        Seq::empty()
    }) + seq![
        ("failure_count"@, decimal(s.failure_count as nat)),
        ("current_state"@, state_name(s.state)),
    ]
}

/// States whose error rate can be computed without overflow.
pub open spec fn error_rate_defined(s: CircuitBreakerState) -> bool {
    s.total_requests > 0 ==> s.error_count * 100 <= u32::MAX
}

/// States whose status report can be computed at `now` without overflow.
pub open spec fn status_defined(s: CircuitBreakerState, now: u64) -> bool {
    &&& error_rate_defined(s)
    &&& s.state == BreakerState::Open ==> now >= s.opened_time
}

/// The text of an integer.
fn num_text(n: u64) -> (t: String)
    ensures
        t@ == decimal(n as nat),
{
    u64_to_decimal(n)
}

/// The text of a breaker position.
fn state_text(s: BreakerState) -> (t: String)
    ensures
        t@ == state_name(s),
{
    match s {
        BreakerState::Closed => String::from_str("Closed"),
        BreakerState::Open => String::from_str("Open"),
        BreakerState::HalfOpen => String::from_str("HalfOpen"),
    }
}

/// Appends one (key, value) entry.
fn push_entry(out: &mut Vec<(String, String)>, key: &str, value: String)
    ensures
        entries_view(final(out)@) == entries_view(old(out)@).push((key@, value@)),
{
    let k = String::from_str(key);
    let ghost kv = k@;
    let ghost vv = value@;
    out.push((k, value));
    proof {
        assert(entries_view(out@) =~= entries_view(old(out)@).push((kv, vv)));
    }
}

impl CircuitBreaker {
    /// The state `get_state` would read at `now`.
    fn state_at(&self, now: u64) -> (s: CircuitBreakerState)
        ensures
            s == self@.with_state(now).state.unwrap(),
    {
        match self.state {
            Some(s) => s,
            None => make_initial_state(now),
        }
    }

    /// Whether the error rate of the state read at `now` is computed
    /// without overflow (what `get_statistics` needs).
    pub fn error_rate_is_defined(&self, now: u64) -> (b: bool)
        ensures
            b == error_rate_defined(self@.with_state(now).state.unwrap()),
    {
        let s = self.state_at(now);
        s.total_requests == 0 || s.error_count <= u32::MAX / 100
    }

    /// Whether the status report at `now` is computed without overflow.
    pub fn status_is_defined(&self, now: u64) -> (b: bool)
        ensures
            b == status_defined(self@.with_state(now).state.unwrap(), now),
    {
        let s = self.state_at(now);
        (s.total_requests == 0 || s.error_count <= u32::MAX / 100) && (s.state != BreakerState::Open
            || now >= s.opened_time)
    }

    /// The status report: counters, thresholds, time open and time until
    /// recovery (when open), probe counters (when half-open).
    pub fn get_circuit_breaker_status(&mut self, now: u64) -> (r: Result<Vec<(String, String)>, Error>)
        requires
            status_defined(old(self)@.with_state(now).state.unwrap(), now),
        ensures
            final(self)@ == old(self)@.with_state(now).with_config(now),
            r is Ok,
            entries_view(r->Ok_0@) == status_entries(
                old(self)@.with_state(now).state.unwrap(),
                final(self)@.config.unwrap(),
                now,
            ),
    {
        let state = self.get_state(now)?;
        let config = self.get_config(now)?;
        let mut status: Vec<(String, String)> = Vec::new();
        push_entry(&mut status, "state", state_text(state.state));
        push_entry(&mut status, "failure_count", num_text(state.failure_count as u64));
        push_entry(&mut status, "total_requests", num_text(state.total_requests as u64));
        push_entry(&mut status, "error_count", num_text(state.error_count as u64));
        let ghost part1 = entries_view(status@);
        if state.total_requests > 0 {
            let error_rate = (state.error_count * 100) / state.total_requests;
            push_entry(&mut status, "error_rate_percent", num_text(error_rate as u64));
        }
        let ghost part2 = entries_view(status@);
        push_entry(&mut status, "max_error_rate", num_text(config.max_error_rate as u64));
        push_entry(&mut status, "failure_threshold", num_text(config.failure_threshold as u64));
        let ghost part3 = entries_view(status@);
        if state.state == BreakerState::Open {
            let time_open = now - state.opened_time;
            push_entry(&mut status, "time_open_seconds", num_text(time_open));
            let time_until_recovery = if time_open < config.recovery_timeout {
                config.recovery_timeout - time_open
            } else {
                0
            };
            push_entry(&mut status, "time_until_recovery_seconds", num_text(time_until_recovery));
        }
        let ghost part4 = entries_view(status@);
        if state.state == BreakerState::HalfOpen {
            push_entry(&mut status, "half_open_requests", num_text(state.half_open_requests as u64));
            push_entry(
                &mut status,
                "max_half_open_requests",
                num_text(config.half_open_max_requests as u64),
            );
        }
        let ghost part5 = entries_view(status@);
        push_entry(&mut status, "auto_recovery_enabled", bool_to_text(config.auto_recovery_enabled));
        proof {
            let e = status_entries(state, config, now);
            assert(part1 =~= seq![
                ("state"@, state_name(state.state)),
                ("failure_count"@, decimal(state.failure_count as nat)),
                ("total_requests"@, decimal(state.total_requests as nat)),
                ("error_count"@, decimal(state.error_count as nat)),
            ]);
            assert(entries_view(status@) =~= e);
        }
        Ok(status)
    }
}

// ===== CIRCUIT BREAKER UTILITIES =====

/// Circuit breaker utilities for common operations.
pub struct CircuitBreakerUtils;

impl CircuitBreakerUtils {
    /// Whether an operation may run: always when closed, never when open,
    /// and by the half-open scheduler otherwise.
    pub fn should_allow_operation(cb: &mut CircuitBreaker, now: u64) -> (r: Result<bool, Error>)
        ensures
            (final(cb)@, r) == old(cb)@.after_should_allow(now),
    {
        let state = cb.get_state(now)?;
        match state.state {
            BreakerState::Closed => Ok(true),
            BreakerState::Open => Ok(false),
            BreakerState::HalfOpen => cb.half_open_check(now, &state),
        }
    }

    /// Runs `operation` only when the breaker allows it, then records its
    /// success or failure and passes its result through.
    pub fn with_circuit_breaker<F, T>(cb: &mut CircuitBreaker, now: u64, operation: F) -> (r: Result<
        T,
        Error,
    >) where F: FnOnce() -> Result<T, Error>
        requires
            call_requires(operation, ()),
            old(cb)@.after_should_allow(now).1 == Ok::<bool, Error>(true) ==> old(cb)@.after_should_allow(
                now,
            ).0.record_success_defined(now) && old(cb)@.after_should_allow(now).0.record_failure_defined(
                now,
            ),
        ensures
            old(cb)@.after_should_allow(now).1 is Err ==> r == Err::<T, Error>(
                old(cb)@.after_should_allow(now).1->Err_0,
            ) && final(cb)@ == old(cb)@.after_should_allow(now).0,
            old(cb)@.after_should_allow(now).1 == Ok::<bool, Error>(false) ==> r == Err::<T, Error>(
                Error::CBError,
            ) && final(cb)@ == old(cb)@.after_should_allow(now).0,
            old(cb)@.after_should_allow(now).1 == Ok::<bool, Error>(true) ==> call_ensures(
                operation,
                (),
                r,
            ) && final(cb)@ == if r is Ok {
                old(cb)@.after_should_allow(now).0.after_success(now).0
            } else {
                old(cb)@.after_should_allow(now).0.after_failure(now).0
            },
    {
        if !Self::should_allow_operation(cb, now)? {
            return Err(Error::CBError);
        }
        match operation() {
            Ok(result) => {
                cb.record_success(now)?;
                Ok(result)
            },
            Err(error) => {
                cb.record_failure(now)?;
                Err(error)
            },
        }
    }

    /// The statistics report: counters, error rate and position.
    pub fn get_statistics(cb: &mut CircuitBreaker, now: u64) -> (r: Result<Vec<(String, String)>, Error>)
        requires
            error_rate_defined(old(cb)@.with_state(now).state.unwrap()),
        ensures
            final(cb)@ == old(cb)@.with_state(now),
            r is Ok,
            entries_view(r->Ok_0@) == statistics_entries(final(cb)@.state.unwrap()),
    {
        let state = cb.get_state(now)?;
        let mut stats: Vec<(String, String)> = Vec::new();
        push_entry(&mut stats, "total_requests", num_text(state.total_requests as u64));
        push_entry(&mut stats, "error_count", num_text(state.error_count as u64));
        let ghost part1 = entries_view(stats@);
        if state.total_requests > 0 {
            let error_rate = (state.error_count * 100) / state.total_requests;
            push_entry(&mut stats, "error_rate_percent", num_text(error_rate as u64));
        }
        push_entry(&mut stats, "failure_count", num_text(state.failure_count as u64));
        push_entry(&mut stats, "current_state", state_text(state.state));
        proof {
            assert(part1 =~= seq![
                ("total_requests"@, decimal(state.total_requests as nat)),
                ("error_count"@, decimal(state.error_count as nat)),
            ]);
            assert(entries_view(stats@) =~= statistics_entries(state));
        }
        Ok(stats)
    }
}

// ===== SELF-TEST SCENARIOS =====

/// The address used by the built-in scenario run.
pub open spec fn scenario_admin() -> Seq<char> {
    "GAAAAAAAAAAAAAAAAAAAAAAAAAAAAAAAAAAAAAAAAAAAAAAAAAAAAWHF"@
}

impl CircuitBreakerView {
    /// `pause_with_options` including the admin check.
    pub open spec fn authorized_pause(
        self,
        now: u64,
        admin: Seq<char>,
        authorization: Result<(), Error>,
        reason: Seq<char>,
        scope: PauseScope,
        allow_withdrawals: bool,
    ) -> (CircuitBreakerView, Result<(), Error>) {
        match authorization {
            Err(e) => (self, Err(e)),
            Ok(_) => self.after_pause(now, admin, reason, scope, allow_withdrawals),
        }
    }

    /// `circuit_breaker_recovery` including the admin check.
    pub open spec fn authorized_recovery(
        self,
        now: u64,
        admin: Seq<char>,
        authorization: Result<(), Error>,
    ) -> (CircuitBreakerView, Result<(), Error>) {
        match authorization {
            Err(e) => (self, Err(e)),
            Ok(_) => self.after_recovery(now, admin),
        }
    }

    /// Storage after the pause and recovery steps of the scenario run.
    pub open spec fn scenario_paused_recovered(
        self,
        now: u64,
        pause_authorization: Result<(), Error>,
        recovery_authorization: Result<(), Error>,
    ) -> CircuitBreakerView {
        let v1 = self.with_state(now);
        let v2 = v1.authorized_pause(
            now,
            scenario_admin(),
            pause_authorization,
            "Test emergency pause"@,
            PauseScope::BettingOnly,
            false,
        ).0;
        v2.authorized_recovery(now, scenario_admin(), recovery_authorization).0
    }

    /// The inputs on which the scenario run completes without overflow.
    pub open spec fn scenarios_defined(
        self,
        now: u64,
        pause_authorization: Result<(), Error>,
        recovery_authorization: Result<(), Error>,
    ) -> bool {
        status_defined(
            self.scenario_paused_recovered(now, pause_authorization, recovery_authorization).with_state(
                now,
            ).state.unwrap(),
            now,
        )
    }

    /// `test_circuit_breaker_scenarios`: storage afterwards and the report.
    pub open spec fn after_scenarios(
        self,
        now: u64,
        pause_authorization: Result<(), Error>,
        recovery_authorization: Result<(), Error>,
    ) -> (CircuitBreakerView, Result<Seq<(Seq<char>, Seq<char>)>, Error>) {
        let v1 = self.with_state(now);
        let closed = v1.state.unwrap().state == BreakerState::Closed;
        let (v2, p) = v1.authorized_pause(
            now,
            scenario_admin(),
            pause_authorization,
            "Test emergency pause"@,
            PauseScope::BettingOnly,
            false,
        );
        let (v3, q) = v2.authorized_recovery(now, scenario_admin(), recovery_authorization);
        let v4 = v3.with_state(now).with_config(now);
        match v4.events {
            None => (v4, Err(Error::CBError)),
            Some(events) => {
                let (v5, w) = v4.after_operation_check(now, true);
                match w {
                    Err(e) => (v5, Err(e)),
                    Ok(write_allowed) => (
                        v5,
                        Ok(
                            seq![
                                ("normal_operation"@, bool_text(closed)),
                                ("emergency_pause"@, bool_text(p is Ok)),
                                ("recovery"@, bool_text(q is Ok)),
                                ("status_check"@, "success"@),
                                ("event_history"@, decimal(events.len())),
                                ("read_allowed"@, bool_text(true)),
                                ("write_allowed_betting"@, bool_text(write_allowed)),
                            ],
                        ),
                    ),
                }
            },
        }
    }
}

impl CircuitBreaker {
    /// Runs the built-in scenarios on this breaker: a closed check, an
    /// emergency pause and a recovery by a fixed test admin (whose admin
    /// checks are `pause_authorization` and `recovery_authorization`), a
    /// status report, the history size, and the read/write decisions.
    pub fn test_circuit_breaker_scenarios(
        &mut self,
        now: u64,
        pause_authorization: Result<(), Error>,
        recovery_authorization: Result<(), Error>,
    ) -> (r: Result<Vec<(String, String)>, Error>)
        requires
            old(self)@.scenarios_defined(now, pause_authorization, recovery_authorization),
        ensures
            final(self)@ == old(self)@.after_scenarios(
                now,
                pause_authorization,
                recovery_authorization,
            ).0,
            match old(self)@.after_scenarios(now, pause_authorization, recovery_authorization).1 {
                Ok(e) => r is Ok && entries_view(r->Ok_0@) == e,
                Err(e) => r == Err::<Vec<(String, String)>, Error>(e),
            },
    {
        let mut results: Vec<(String, String)> = Vec::new();
        let is_closed = self.is_closed(now)?;
        push_entry(&mut results, "normal_operation", bool_to_text(is_closed));
        let test_admin = Address::from_string(
            String::from_str("GAAAAAAAAAAAAAAAAAAAAAAAAAAAAAAAAAAAAAAAAAAAAAAAAAAAAWHF"),
        );
        let pause_result = self.emergency_pause(
            now,
            &test_admin,
            pause_authorization,
            &String::from_str("Test emergency pause"),
        );
        push_entry(&mut results, "emergency_pause", bool_to_text(pause_result.is_ok()));
        let recovery_result = self.circuit_breaker_recovery(now, &test_admin, recovery_authorization);
        push_entry(&mut results, "recovery", bool_to_text(recovery_result.is_ok()));
        let _status = self.get_circuit_breaker_status(now)?;
        push_entry(&mut results, "status_check", String::from_str("success"));
        let events = self.get_event_history()?;
        push_entry(&mut results, "event_history", num_text(events.len() as u64));
        push_entry(&mut results, "read_allowed", bool_to_text(Self::is_read_allowed()?));
        let write_allowed = self.is_write_allowed(now, "betting")?;
        push_entry(&mut results, "write_allowed_betting", bool_to_text(write_allowed));
        proof {
            reveal_strlit("betting");
            assert(entries_view(results@) =~= old(self)@.after_scenarios(
                now,
                pause_authorization,
                recovery_authorization,
            ).1->Ok_0);
        }
        Ok(results)
    }
}

// ===== CIRCUIT BREAKER TESTING =====

/// The configuration used for testing.
pub open spec fn test_config() -> CircuitBreakerConfig {
    CircuitBreakerConfig {
        max_error_rate: 5,
        max_latency_ms: 1000,
        min_liquidity: 100_000_000,
        failure_threshold: 3,
        recovery_timeout: 60,
        half_open_max_requests: 2,
        auto_recovery_enabled: true,
        half_open_quota: HalfOpenQuota { calls_per_minute: 3, evaluation_window_s: 60 },
    }
}

/// Circuit breaker testing utilities.
pub struct CircuitBreakerTesting;

impl CircuitBreakerTesting {
    /// A configuration with tighter thresholds for tests.
    pub fn create_test_config() -> (c: CircuitBreakerConfig)
        ensures
            c == test_config(),
    {
        CircuitBreakerConfig {
            max_error_rate: 5,
            max_latency_ms: 1000,
            min_liquidity: 100_000_000,
            failure_threshold: 3,
            recovery_timeout: 60,
            half_open_max_requests: 2,
            auto_recovery_enabled: true,
            half_open_quota: HalfOpenQuota { calls_per_minute: 3, evaluation_window_s: 60 },
        }
    }

    /// A closed state stamped with ledger time `now`.
    pub fn create_test_state(now: u64) -> (s: CircuitBreakerState)
        ensures
            s == initial_state(now),
    {
        make_initial_state(now)
    }

    /// Records a failure.
    pub fn simulate_failure(cb: &mut CircuitBreaker, now: u64) -> (r: Result<(), Error>)
        requires
            old(cb)@.record_failure_defined(now),
        ensures
            (final(cb)@, r) == old(cb)@.after_failure(now),
    {
        cb.record_failure(now)?;
        Ok(())
    }

    /// Records a success.
    pub fn simulate_success(cb: &mut CircuitBreaker, now: u64) -> (r: Result<(), Error>)
        requires
            old(cb)@.record_success_defined(now),
        ensures
            (final(cb)@, r) == old(cb)@.after_success(now),
    {
        cb.record_success(now)?;
        Ok(())
    }

    /// Runs the automatic trigger for `condition`.
    pub fn simulate_trigger(cb: &mut CircuitBreaker, now: u64, condition: &BreakerCondition) -> (r:
        Result<bool, Error>)
        requires
            old(cb)@.automatic_trigger_defined(now, *condition),
        ensures
            (final(cb)@, r) == old(cb)@.after_automatic_trigger(now, *condition),
    {
        cb.automatic_circuit_breaker_trigger(now, condition)
    }

    /// Recovers the breaker to its closed state.
    pub fn reset(cb: &mut CircuitBreaker, now: u64, admin: &Address, authorization: Result<(), Error>) -> (r:
        Result<(), Error>)
        ensures
            (final(cb)@, r) == old(cb)@.authorized_recovery(now, admin@, authorization),
    {
        cb.circuit_breaker_recovery(now, admin, authorization)?;
        Ok(())
    }
}

} // verus!
