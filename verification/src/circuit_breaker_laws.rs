//! Properties of the circuit breaker that span its operations.
use vstd::prelude::*;

use crate::circuit_breaker::{
    capped_push, cleared_window, config_is_valid, counted_failure, default_config, error_rate,
    event_at, state_is_consistent, status_entries, test_config,
    BreakerAction, BreakerCondition, BreakerState, CircuitBreakerConfig, CircuitBreakerEventView,
    CircuitBreakerState, CircuitBreakerView, PauseScope,
};
use crate::error::Error;
use crate::text::decimal;

verus! {

/// Appending to a history of at most 100 events keeps it at most 100 long,
/// and the appended event is the newest one.
pub proof fn law_history_is_capped(s: Seq<CircuitBreakerEventView>, e: CircuitBreakerEventView)
    requires
        s.len() <= 100,
    ensures
        capped_push(s, e).len() <= 100,
        capped_push(s, e).last() == e,
        s.len() < 100 ==> capped_push(s, e) == s.push(e),
{
}

/// The configuration written at initialization, and the test
/// configuration, pass validation.
pub proof fn law_builtin_configs_are_valid()
    ensures
        config_is_valid(default_config()),
        config_is_valid(test_config()),
{
}

/// The breaker's invariant (valid configuration, a half-open start time
/// that is zero whenever the breaker is not half-open, history of at most
/// 100 events) is established by initialization and kept by every
/// operation.
pub proof fn law_well_formed_is_invariant(
    v: CircuitBreakerView,
    now: u64,
    admin: Seq<char>,
    reason: Seq<char>,
    scope: PauseScope,
    allow_withdrawals: bool,
    config: CircuitBreakerConfig,
    condition: BreakerCondition,
    betting: bool,
)
    requires
        v.well_formed(),
    ensures
        v.initialized(now).well_formed(),
        v.with_config(now).well_formed(),
        v.with_state(now).well_formed(),
        v.after_update_config(now, admin, config).0.well_formed(),
        v.after_pause(now, admin, reason, scope, allow_withdrawals).0.well_formed(),
        v.after_operation_check(now, betting).0.well_formed(),
        v.after_should_allow(now).0.well_formed(),
        v.after_automatic_trigger(now, condition).0.well_formed(),
        v.after_recovery(now, admin).0.well_formed(),
        v.after_request_resume(now, admin).0.well_formed(),
        v.after_success(now).0.well_formed(),
        v.after_failure(now).0.well_formed(),
{
    lemma_loads_keep_well_formed(v, now);
    lemma_loads_keep_well_formed(v.with_config(now), now);
    lemma_loads_keep_well_formed(v.with_state(now), now);
    let vs = v.with_state(now);
    let vc = v.with_config(now);
    let s = vs.state.unwrap();
    let w0 = vs.with_config(now);
    let wc = vc.with_state(now);
    // the half-open admission
    assert forall|x: CircuitBreakerView, c: CircuitBreakerConfig|
        x.well_formed() implies #[trigger] x.after_half_open_admit(c, now).0.well_formed() by {
        lemma_loads_keep_well_formed(x, now);
        lemma_store_log_keep_well_formed(x.with_state(now));
    }
    lemma_store_log_keep_well_formed(vs);
    lemma_store_log_keep_well_formed(wc);
    lemma_store_log_keep_well_formed(w0);
    lemma_store_log_keep_well_formed(v);
    let s1 = wc.state.unwrap();
    let rec = CircuitBreakerState {
        state: BreakerState::HalfOpen,
        half_open_requests: 0,
        half_open_since: now,
        ..s1
    };
    let v3 = wc.stored(rec).logged(
        event_at(
            BreakerAction::Reset,
            BreakerCondition::ManualOverride,
            "Auto-recovery: transitioning to half-open"@,
            now,
            None,
        ),
    );
    lemma_store_log_keep_well_formed(v3);
    let u = CircuitBreakerView { config: Some(config), ..v };
    if config_is_valid(config) {
        lemma_store_log_keep_well_formed(u);
    }
}

/// Reading state or configuration keeps the invariant.
proof fn lemma_loads_keep_well_formed(v: CircuitBreakerView, now: u64)
    requires
        v.well_formed(),
    ensures
        v.initialized(now).well_formed(),
        v.with_config(now).well_formed(),
        v.with_state(now).well_formed(),
        v.with_state(now).with_config(now).well_formed(),
        v.with_config(now).with_state(now).well_formed(),
{
}

/// Storing a state and logging an event keep the invariant.
proof fn lemma_store_log_keep_well_formed(v: CircuitBreakerView)
    requires
        v.well_formed(),
    ensures
        forall|s: CircuitBreakerState|
            state_is_consistent(s) ==> #[trigger] v.stored(s).well_formed(),
        forall|e: CircuitBreakerEventView| #[trigger] v.logged(e).well_formed(),
        forall|s: CircuitBreakerState, e: CircuitBreakerEventView|
            state_is_consistent(s) ==> #[trigger] v.stored(s).logged(e).well_formed(),
        forall|s: CircuitBreakerState, e: CircuitBreakerEventView|
            state_is_consistent(s) ==> #[trigger] v.logged(e).stored(s).well_formed(),
{
    assert forall|e: CircuitBreakerEventView| #[trigger] v.logged(e).well_formed() by {
        let s = match v.events {
            Some(s) => s,
            None => Seq::empty(),
        };
        law_history_is_capped(s, e);
    }
    assert forall|s: CircuitBreakerState, e: CircuitBreakerEventView|
        state_is_consistent(s) implies #[trigger] v.stored(s).logged(e).well_formed() by {
        let h = match v.events {
            Some(h) => h,
            None => Seq::empty(),
        };
        law_history_is_capped(h, e);
    }
    assert forall|s: CircuitBreakerState, e: CircuitBreakerEventView|
        state_is_consistent(s) implies #[trigger] v.logged(e).stored(s).well_formed() by {
        let h = match v.events {
            Some(h) => h,
            None => Seq::empty(),
        };
        law_history_is_capped(h, e);
    }
}

/// A successful pause opens the breaker with the requested scope and
/// withdrawal policy, ending any half-open probe window; pausing an open breaker is refused and leaves the
/// (loaded) storage as it was.
pub proof fn law_pause_opens_once(
    v: CircuitBreakerView,
    now: u64,
    admin: Seq<char>,
    reason: Seq<char>,
    scope: PauseScope,
    allow_withdrawals: bool,
)
    ensures
        ({
            let (w, r) = v.after_pause(now, admin, reason, scope, allow_withdrawals);
            &&& v.with_state(now).state.unwrap().state == BreakerState::Open ==> r == Err::<(), Error>(
                Error::CBError,
            ) && w == v.with_state(now)
            &&& r is Ok ==> w.state.unwrap().state == BreakerState::Open && w.state.unwrap().pause_scope
                == scope && w.state.unwrap().allow_withdrawals == allow_withdrawals
                && w.state.unwrap().opened_time == now && w.state.unwrap().half_open_since == 0
            &&& r is Ok ==> w.after_pause(now, admin, reason, scope, allow_withdrawals).1 == Err::<
                (),
                Error,
            >(Error::CBError)
        }),
{
}

/// While the breaker is open, a full pause refuses every operation and a
/// betting-only pause refuses exactly bet placement; closed lets all
/// through. The check does not change an open or closed breaker's storage
/// beyond loading it.
pub proof fn law_open_breaker_gates_by_scope(v: CircuitBreakerView, now: u64, betting: bool)
    ensures
        ({
            let s = v.with_state(now).state.unwrap();
            let (w, r) = v.after_operation_check(now, betting);
            &&& s.state == BreakerState::Open && s.pause_scope == PauseScope::Full ==> r == Ok::<
                bool,
                Error,
            >(false) && w == v.with_state(now)
            &&& s.state == BreakerState::Open && s.pause_scope == PauseScope::BettingOnly ==> r
                == Ok::<bool, Error>(!betting) && w == v.with_state(now)
            &&& s.state == BreakerState::Closed ==> r == Ok::<bool, Error>(true) && w == v.with_state(
                now,
            )
        }),
{
}

/// After a successful pause, withdrawals are allowed exactly when the pause
/// allowed them; after a successful recovery they are allowed again.
pub proof fn law_withdrawals_follow_pause(
    v: CircuitBreakerView,
    now: u64,
    admin: Seq<char>,
    reason: Seq<char>,
    scope: PauseScope,
    allow_withdrawals: bool,
)
    ensures
        ({
            let (w, r) = v.after_pause(now, admin, reason, scope, allow_withdrawals);
            let s = w.with_state(now).state.unwrap();
            r is Ok ==> !(s.state == BreakerState::Open && !s.allow_withdrawals) == allow_withdrawals
        }),
        ({
            let (w, r) = v.after_recovery(now, admin);
            let s = w.with_state(now).state.unwrap();
            r is Ok ==> !(s.state == BreakerState::Open && !s.allow_withdrawals)
        }),
{
}

/// Recovery is possible exactly from an open or half-open breaker and
/// always ends closed with the safe defaults (betting-only scope,
/// withdrawals blocked, counters reset); a pause followed by a recovery
/// returns a closed breaker to closed.
pub proof fn law_recovery_closes(v: CircuitBreakerView, now: u64, admin: Seq<char>, reason: Seq<
    char,
>, scope: PauseScope, allow_withdrawals: bool)
    ensures
        ({
            let s = v.with_state(now).state.unwrap();
            let (w, r) = v.after_recovery(now, admin);
            &&& r is Ok <==> (s.state == BreakerState::Open || s.state == BreakerState::HalfOpen)
            &&& r is Ok ==> w.state.unwrap().state == BreakerState::Closed
                && w.state.unwrap().pause_scope == PauseScope::BettingOnly
                && !w.state.unwrap().allow_withdrawals && w.state.unwrap().failure_count == 0
                && w.state.unwrap().half_open_requests == 0 && w.state.unwrap().half_open_since == 0
                && w.half_open_window == Some(cleared_window())
        }),
        ({
            let (w1, r1) = v.after_pause(now, admin, reason, scope, allow_withdrawals);
            let (w2, r2) = w1.after_recovery(now, admin);
            r1 is Ok ==> r2 is Ok && w2.state.unwrap().state == BreakerState::Closed
        }),
{
}

/// Resuming is possible exactly from an open breaker and enters half-open
/// with the cooldown starting now; a single failure during the probe window
/// reopens the breaker.
pub proof fn law_resume_then_failure_reopens(v: CircuitBreakerView, now: u64, later: u64, admin: Seq<
    char,
>)
    ensures
        ({
            let s = v.with_state(now).state.unwrap();
            let (w, r) = v.after_request_resume(now, admin);
            &&& r is Ok <==> s.state == BreakerState::Open
            &&& r is Ok ==> w.state.unwrap().state == BreakerState::HalfOpen
                && w.state.unwrap().half_open_since == now && w.state.unwrap().half_open_requests
                == 0
            &&& r is Ok ==> w.after_failure(later).0.state.unwrap().state == BreakerState::Open
                && w.after_failure(later).0.state.unwrap().opened_time == later
        }),
{
}

/// In half-open, a success during the cooldown does not count as a probe;
/// after the cooldown each success counts one probe, and the breaker closes
/// exactly when the count reaches `half_open_max_requests`.
pub proof fn law_probe_successes_close(v: CircuitBreakerView, now: u64)
    requires
        v.state is Some,
        v.config is Some,
        v.state.unwrap().state == BreakerState::HalfOpen,
        v.record_success_defined(now),
    ensures
        ({
            let s = v.state.unwrap();
            let c = v.config.unwrap();
            let w = v.after_success(now).0.state.unwrap();
            &&& now < s.half_open_since + c.recovery_timeout ==> w.state == BreakerState::HalfOpen
                && w.half_open_requests == s.half_open_requests
            &&& now >= s.half_open_since + c.recovery_timeout ==> (w.state == BreakerState::Closed
                <==> s.half_open_requests + 1 >= c.half_open_max_requests)
            &&& (now >= s.half_open_since + c.recovery_timeout && s.half_open_requests + 1
                < c.half_open_max_requests) ==> w.half_open_requests == s.half_open_requests + 1
        }),
{
}

/// Every recorded success adds one request and no error; every recorded
/// failure adds one request and one error.
pub proof fn law_outcomes_are_counted(v: CircuitBreakerView, now: u64)
    requires
        v.record_success_defined(now),
        v.record_failure_defined(now),
    ensures
        ({
            let s = v.with_state(now).state.unwrap();
            let a = v.after_success(now).0.state.unwrap();
            let b = v.after_failure(now).0.state.unwrap();
            &&& a.total_requests == s.total_requests + 1 && a.error_count == s.error_count
            &&& b.total_requests == s.total_requests + 1 && b.error_count == s.error_count + 1
            &&& a.last_success_time == now && b.last_failure_time == now
        }),
{
}

/// The half-open scheduler never admits more calls in one window than the
/// quota allows.
pub proof fn law_admissions_respect_quota(v: CircuitBreakerView, c: CircuitBreakerConfig, now: u64)
    requires
        v.half_open_window matches Some(w) ==> w.admitted <= c.half_open_quota.calls_per_minute,
    ensures
        ({
            let (w, r) = v.after_half_open_admit(c, now);
            w.half_open_window matches Some(x) ==> x.admitted <= c.half_open_quota.calls_per_minute
                || x == cleared_window()
        }),
        ({
            let (w, r) = v.after_half_open_admit(c, now);
            r == Ok::<bool, Error>(true) ==> w.half_open_window.unwrap().admitted
                <= c.half_open_quota.calls_per_minute
        }),
{
}

/// An admission attempt asks for the window's lifetime to be extended
/// exactly when it admits the call.
pub proof fn law_admission_extends_window_lifetime(v: CircuitBreakerView, c: CircuitBreakerConfig, now: u64)
    requires
        !v.extend_window_ttl,
    ensures
        ({
            let (w, r) = v.after_half_open_admit(c, now);
            w.extend_window_ttl <==> r == Ok::<bool, Error>(true)
        }),
{
}

/// Whenever an operation leaves the breaker outside half-open, the
/// admission window is cleared.
pub proof fn law_leaving_half_open_clears_window(
    v: CircuitBreakerView,
    now: u64,
    admin: Seq<char>,
    reason: Seq<char>,
    scope: PauseScope,
    allow_withdrawals: bool,
    condition: BreakerCondition,
)
    ensures
        ({
            let w = v.after_pause(now, admin, reason, scope, allow_withdrawals);
            w.1 is Ok ==> w.0.half_open_window == Some(cleared_window())
        }),
        ({
            let w = v.after_failure(now).0;
            w.half_open_window == Some(cleared_window())
        }),
        ({
            let w = v.after_automatic_trigger(now, condition);
            w.1 == Ok::<bool, Error>(true) ==> w.0.half_open_window == Some(cleared_window())
        }),
{
}

/// The automatic trigger opens the breaker exactly when the error rate
/// reaches the maximum on a breaker that is not open (after any
/// auto-recovery), counting one more failure.
pub proof fn law_trigger_opens_on_error_rate(v: CircuitBreakerView, now: u64, condition: BreakerCondition)
    ensures
        ({
            let (w, r) = v.after_automatic_trigger(now, condition);
            &&& condition != BreakerCondition::HighErrorRate ==> r == Ok::<bool, Error>(false)
            &&& r == Ok::<bool, Error>(true) ==> w.state.unwrap().state == BreakerState::Open
                && w.state.unwrap().opened_time == now
            &&& r is Ok
        }),
{
}

/// Storage after `k` successes recorded at time `now`.
pub open spec fn after_successes(v: CircuitBreakerView, now: u64, k: nat) -> CircuitBreakerView
    decreases k,
{
    if k == 0 {
        v
    } else {
        after_successes(v, now, (k - 1) as nat).after_success(now).0
    }
}

/// Once the cooldown has passed, a half-open breaker closes after exactly
/// as many consecutive successes as it still needs to reach
/// `half_open_max_requests`; before that it stays half-open.
pub proof fn law_consecutive_probes_close(v: CircuitBreakerView, now: u64, k: nat)
    requires
        v.state is Some,
        v.config is Some,
        v.state.unwrap().state == BreakerState::HalfOpen,
        v.state.unwrap().half_open_since + v.config.unwrap().recovery_timeout <= now,
        k >= 1,
        v.state.unwrap().half_open_requests + k == v.config.unwrap().half_open_max_requests,
        v.state.unwrap().total_requests + k <= u32::MAX,
    ensures
        after_successes(v, now, k).state.unwrap().state == BreakerState::Closed,
        forall|j: nat| j < k ==> #[trigger] after_successes(v, now, j).state.unwrap().state
            == BreakerState::HalfOpen,
{
    assert forall|j: nat| j < k implies #[trigger] after_successes(v, now, j).state.unwrap().state
        == BreakerState::HalfOpen by {
        lemma_probe_progress(v, now, k, j);
    }
    lemma_probe_progress(v, now, k, (k - 1) as nat);
}

/// After `j < k` of those successes the breaker is still half-open, with
/// `j` more probes and requests counted and everything else unchanged.
proof fn lemma_probe_progress(v: CircuitBreakerView, now: u64, k: nat, j: nat)
    requires
        v.state is Some,
        v.config is Some,
        v.state.unwrap().state == BreakerState::HalfOpen,
        v.state.unwrap().half_open_since + v.config.unwrap().recovery_timeout <= now,
        v.state.unwrap().half_open_requests + k == v.config.unwrap().half_open_max_requests,
        v.state.unwrap().total_requests + k <= u32::MAX,
        j < k,
    ensures
        after_successes(v, now, j).state is Some,
        after_successes(v, now, j).config == v.config,
        after_successes(v, now, j).state.unwrap().state == BreakerState::HalfOpen,
        after_successes(v, now, j).state.unwrap().half_open_requests == v.state.unwrap().half_open_requests
            + j,
        after_successes(v, now, j).state.unwrap().total_requests == v.state.unwrap().total_requests + j,
        after_successes(v, now, j).state.unwrap().half_open_since == v.state.unwrap().half_open_since,
    decreases j,
{
    if j > 0 {
        lemma_probe_progress(v, now, k, (j - 1) as nat);
    }
}

/// A failure while closed counts one more failure; the breaker opens,
/// recording a trigger event, exactly when the count reaches the
/// `failure_threshold` of the stored configuration (the default one when
/// none is stored); nothing else in storage changes but the state and the
/// cleared admission window.
pub proof fn law_failure_threshold_opens(v: CircuitBreakerView, now: u64)
    requires
        v.state is Some,
        v.state.unwrap().state == BreakerState::Closed,
        v.record_failure_defined(now),
    ensures
        ({
            let s = v.state.unwrap();
            let c = v.config_or_default();
            let w = v.after_failure(now).0;
            let n = counted_failure(s.failure_count);
            &&& w.config == v.config
            &&& w.conditions == v.conditions
            &&& w.state.unwrap().failure_count == n
            &&& s.failure_count < u32::MAX ==> n == s.failure_count + 1
            &&& w.state.unwrap().state == BreakerState::Open <==> n >= c.failure_threshold
            &&& w.state.unwrap().state != BreakerState::Open ==> w.state.unwrap().state
                == BreakerState::Closed && w.events == v.events
            &&& n >= c.failure_threshold ==> w.state.unwrap().opened_time == now
                && w.events.unwrap().last() == event_at(
                BreakerAction::Trigger,
                BreakerCondition::HighErrorRate,
                "Failure threshold reached, opening circuit breaker"@,
                now,
                None,
            )
        }),
{
    let s = v.state.unwrap();
    let c = v.config_or_default();
    let n = counted_failure(s.failure_count);
    if n >= c.failure_threshold {
        let s1 = CircuitBreakerState {
            total_requests: (s.total_requests + 1) as u32,
            error_count: (s.error_count + 1) as u32,
            last_failure_time: now,
            failure_count: n,
            state: BreakerState::Open,
            opened_time: now,
            ..s
        };
        let h = match v.stored(s1).events {
            Some(h) => h,
            None => Seq::empty(),
        };
        lemma_capped_push_last(
            h,
            event_at(
                BreakerAction::Trigger,
                BreakerCondition::HighErrorRate,
                "Failure threshold reached, opening circuit breaker"@,
                now,
                None,
            ),
        );
    }
}

/// The newest entry of a capped history is the one appended.
proof fn lemma_capped_push_last(s: Seq<CircuitBreakerEventView>, e: CircuitBreakerEventView)
    ensures
        capped_push(s, e).last() == e,
{
}

/// Storage after `k` failures recorded at time `now`.
pub open spec fn after_failures(v: CircuitBreakerView, now: u64, k: nat) -> CircuitBreakerView
    decreases k,
{
    if k == 0 {
        v
    } else {
        after_failures(v, now, (k - 1) as nat).after_failure(now).0
    }
}

/// From a closed breaker, consecutive failures keep it closed, counting
/// each one, while the count stays below `failure_threshold`; once the
/// count reaches it the breaker is open and stays open. So a freshly
/// initialized breaker is open after `failure_threshold` failures, and one
/// whose count already reached the threshold opens on its next failure.
pub proof fn law_consecutive_failures_open(v: CircuitBreakerView, now: u64, k: nat)
    requires
        v.state is Some,
        v.state.unwrap().state == BreakerState::Closed,
        v.state.unwrap().total_requests + k <= u32::MAX,
        v.state.unwrap().error_count + k <= u32::MAX,
    ensures
        ({
            let s = v.state.unwrap();
            let c = v.config_or_default();
            let x = after_failures(v, now, k).state.unwrap();
            &&& s.failure_count + k < c.failure_threshold ==> x.state == BreakerState::Closed
                && x.failure_count == s.failure_count + k
            &&& k >= 1 && s.failure_count + k >= c.failure_threshold ==> x.state
                == BreakerState::Open
        }),
{
    lemma_failure_progress(v, now, k);
}

/// The state after `k` failures from a closed breaker: closed with `k`
/// more failures below the threshold, open from the failure that reaches
/// it on; the configuration is untouched throughout.
proof fn lemma_failure_progress(v: CircuitBreakerView, now: u64, k: nat)
    requires
        v.state is Some,
        v.state.unwrap().state == BreakerState::Closed,
        v.state.unwrap().total_requests + k <= u32::MAX,
        v.state.unwrap().error_count + k <= u32::MAX,
    ensures
        ({
            let s = v.state.unwrap();
            let c = v.config_or_default();
            let y = after_failures(v, now, k);
            let x = y.state.unwrap();
            &&& y.state is Some
            &&& y.config == v.config
            &&& x.total_requests == s.total_requests + k
            &&& x.error_count == s.error_count + k
            &&& s.failure_count + k < c.failure_threshold ==> x.state == BreakerState::Closed
                && x.failure_count == s.failure_count + k
            &&& k >= 1 && s.failure_count + k >= c.failure_threshold ==> x.state
                == BreakerState::Open
            &&& k == 0 ==> x.state == BreakerState::Closed
        }),
    decreases k,
{
    if k > 0 {
        lemma_failure_progress(v, now, (k - 1) as nat);
    }
}

/// Storage after successes recorded at each of the ledger times `times`,
/// in order.
pub open spec fn successes_at(v: CircuitBreakerView, times: Seq<u64>) -> CircuitBreakerView
    decreases times.len(),
{
    if times.len() == 0 {
        v
    } else {
        successes_at(v, times.drop_last()).after_success(times.last()).0
    }
}

/// How many of `times` fall at or after the end of the cooldown that
/// started at `since` and lasts `timeout` seconds.
pub open spec fn probes_counted(times: Seq<u64>, since: u64, timeout: u64) -> nat
    decreases times.len(),
{
    if times.len() == 0 {
        0
    } else {
        probes_counted(times.drop_last(), since, timeout) + if times.last() >= since + timeout {
            1nat
        } else {
            0nat
        }
    }
}

/// Once an admin resumes an open breaker at `t0`, successes recorded
/// before `t0 + recovery_timeout` do not count as probes; the breaker stays
/// half-open while fewer than `half_open_max_requests` successes have come
/// after the cooldown, with exactly that many probes counted, and is closed
/// once that many have come.
pub proof fn law_resume_then_probes_close(v: CircuitBreakerView, t0: u64, admin: Seq<char>, times: Seq<
    u64,
>)
    requires
        v.well_formed(),
        v.config is Some,
        v.with_state(t0).state.unwrap().state == BreakerState::Open,
        t0 + v.config.unwrap().recovery_timeout <= u64::MAX,
        v.with_state(t0).state.unwrap().total_requests + times.len() <= u32::MAX,
    ensures
        ({
            let (w, r) = v.after_request_resume(t0, admin);
            let c = v.config.unwrap();
            let n = probes_counted(times, t0, c.recovery_timeout);
            let s = successes_at(w, times).state.unwrap();
            &&& r is Ok
            &&& n < c.half_open_max_requests ==> s.state == BreakerState::HalfOpen
                && s.half_open_requests == n
            &&& n >= c.half_open_max_requests ==> s.state == BreakerState::Closed
        }),
{
    let (w, r) = v.after_request_resume(t0, admin);
    lemma_probes_progress(w, times);
}

/// Successes at `times` from a half-open breaker with `h0` probes counted:
/// half-open with `h0` plus the counted probes while that stays below the
/// limit, closed from then on.
proof fn lemma_probes_progress(v: CircuitBreakerView, times: Seq<u64>)
    requires
        v.config is Some,
        v.state is Some,
        v.state.unwrap().state == BreakerState::HalfOpen,
        v.state.unwrap().half_open_requests < v.config.unwrap().half_open_max_requests,
        v.state.unwrap().half_open_since + v.config.unwrap().recovery_timeout <= u64::MAX,
        v.state.unwrap().total_requests + times.len() <= u32::MAX,
    ensures
        ({
            let s0 = v.state.unwrap();
            let c = v.config.unwrap();
            let n = s0.half_open_requests + probes_counted(times, s0.half_open_since, c.recovery_timeout);
            let x = successes_at(v, times);
            &&& x.config == v.config
            &&& x.state is Some
            &&& x.state.unwrap().total_requests == s0.total_requests + times.len()
            &&& n < c.half_open_max_requests ==> x.state.unwrap().state == BreakerState::HalfOpen
                && x.state.unwrap().half_open_requests == n && x.state.unwrap().half_open_since
                == s0.half_open_since
            &&& n >= c.half_open_max_requests ==> x.state.unwrap().state == BreakerState::Closed
        }),
    decreases times.len(),
{
    if times.len() > 0 {
        lemma_probes_progress(v, times.drop_last());
    }
}

/// For a positive divisor, the integer quotient reaches `m` exactly when
/// the dividend reaches `m` times the divisor.
proof fn lemma_quotient_at_least(a: int, b: int, m: int)
    requires
        a >= 0,
        b > 0,
        m >= 0,
    ensures
        (a / b >= m) <==> (a >= m * b),
{
    let q = a / b;
    let r = a % b;
    assert(a == b * q + r && 0 <= r < b) by {
        vstd::arithmetic::div_mod::lemma_fundamental_div_mod(a, b);
        vstd::arithmetic::div_mod::lemma_mod_bound(a, b);
    }
    assert((q >= m) <==> (a >= m * b)) by (nonlinear_arith)
        requires
            a == b * q + r,
            0 <= r < b,
            b > 0,
            m >= 0,
    {}
}

/// The reported error rate is the whole percentage of failed requests,
/// rounded down: `rate * total <= errors * 100 < (rate + 1) * total`.
pub proof fn law_error_rate_is_floor_percentage(s: CircuitBreakerState)
    requires
        s.total_requests > 0,
    ensures
        error_rate(s) * s.total_requests <= s.error_count * 100,
        s.error_count * 100 < (error_rate(s) + 1) * s.total_requests,
{
    let a = s.error_count * 100;
    let b = s.total_requests as int;
    let q = a / b;
    let r = a % b;
    assert(a == b * q + r && 0 <= r < b && q >= 0) by {
        vstd::arithmetic::div_mod::lemma_fundamental_div_mod(a, b);
        vstd::arithmetic::div_mod::lemma_mod_bound(a, b);
        vstd::arithmetic::div_mod::lemma_div_pos_is_pos(a, b);
    }
    assert(q * b <= a && a < (q + 1) * b) by (nonlinear_arith)
        requires
            a == b * q + r,
            0 <= r < b,
    {}
}

/// On a breaker that is not open, the high-error-rate trigger opens it
/// exactly when failed requests make up at least `max_error_rate` percent
/// of all requests (`errors * 100 >= max_error_rate * total`); below that,
/// or with no requests, it returns `false` and leaves the loaded storage as
/// it was.
pub proof fn law_trigger_fires_on_error_percentage(v: CircuitBreakerView, now: u64)
    ensures
        ({
            let c = v.with_config(now).config.unwrap();
            let loaded = v.with_config(now).with_state(now);
            let s = loaded.state.unwrap();
            let (w, r) = v.after_automatic_trigger(now, BreakerCondition::HighErrorRate);
            s.state != BreakerState::Open ==> {
                &&& s.total_requests == 0 ==> r == Ok::<bool, Error>(false) && w == loaded
                &&& s.total_requests > 0 ==> (r == Ok::<bool, Error>(true) <==> s.error_count * 100
                    >= c.max_error_rate * s.total_requests)
                &&& r == Ok::<bool, Error>(true) ==> w.state.unwrap().state == BreakerState::Open
                    && w.state.unwrap().opened_time == now
                &&& r != Ok::<bool, Error>(true) ==> r == Ok::<bool, Error>(false) && w == loaded
            }
        }),
{
    let c = v.with_config(now).config.unwrap();
    let s = v.with_config(now).with_state(now).state.unwrap();
    if s.total_requests > 0 {
        lemma_quotient_at_least(
            s.error_count * 100,
            s.total_requests as int,
            c.max_error_rate as int,
        );
    }
}

/// Whether the report holds `key` with `value`, and no other value under
/// that key.
pub open spec fn reports(entries: Seq<(Seq<char>, Seq<char>)>, key: Seq<char>, value: Seq<char>) -> bool {
    &&& exists|i: int| 0 <= i < entries.len() && entries[i] == (key, value)
    &&& forall|i: int| 0 <= i < entries.len() && entries[i].0 == key ==> entries[i].1 == value
}

/// The status of an open breaker reports how long it has been open and how
/// long until the recovery timeout has passed: the timeout minus the time
/// open while that is positive, and zero once the breaker has been open
/// for the whole timeout (so the two add up to the timeout until then, and
/// the time left never grows as time passes).
pub proof fn law_status_reports_time_until_recovery(
    s: CircuitBreakerState,
    c: CircuitBreakerConfig,
    now: u64,
)
    requires
        s.state == BreakerState::Open,
        now >= s.opened_time,
    ensures
        reports(status_entries(s, c, now), "time_open_seconds"@, decimal((now - s.opened_time) as nat)),
        now - s.opened_time >= c.recovery_timeout ==> reports(
            status_entries(s, c, now),
            "time_until_recovery_seconds"@,
            decimal(0),
        ),
        now - s.opened_time < c.recovery_timeout ==> reports(
            status_entries(s, c, now),
            "time_until_recovery_seconds"@,
            decimal((c.recovery_timeout - (now - s.opened_time)) as nat),
        ),
{
    reveal_strlit("state");
    reveal_strlit("failure_count");
    reveal_strlit("total_requests");
    reveal_strlit("error_count");
    reveal_strlit("error_rate_percent");
    reveal_strlit("max_error_rate");
    reveal_strlit("failure_threshold");
    reveal_strlit("time_open_seconds");
    reveal_strlit("time_until_recovery_seconds");
    reveal_strlit("auto_recovery_enabled");
    let e = status_entries(s, c, now);
    let time_open = (now - s.opened_time) as nat;
    let left: nat = if time_open < c.recovery_timeout {
        (c.recovery_timeout - time_open) as nat
    } else {
        0
    };
    let k1 = "time_open_seconds"@;
    let k2 = "time_until_recovery_seconds"@;
    let d: int = if s.total_requests > 0 {
        1
    } else {
        0
    };
    assert(e.len() == 9 + d);
    assert(e[6 + d] == (k1, decimal(time_open)));
    assert(e[7 + d] == (k2, decimal(left)));
    assert forall|i: int| 0 <= i < e.len() && e[i].0 == k1 implies i == 6 + d by {
        if i != 6 + d {
            assert(e[i].0.len() != k1.len() || e[i].0[0] != k1[0]);
        }
    }
    assert forall|i: int| 0 <= i < e.len() && e[i].0 == k2 implies i == 7 + d by {
        if i != 7 + d {
            assert(e[i].0.len() != k2.len());
        }
    }
}

} // verus!
