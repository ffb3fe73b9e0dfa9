use predictify_hybrid::address::Address;
use predictify_hybrid::circuit_breaker::{
    BreakerAction, BreakerCondition, BreakerState, CircuitBreaker, CircuitBreakerConfig,
    CircuitBreakerTesting, CircuitBreakerUtils, HalfOpenQuota, HalfOpenWindow, PauseScope,
};
use predictify_hybrid::error::Error;

fn empty_breaker() -> CircuitBreaker {
    CircuitBreaker {
        config: None,
        state: None,
        events: None,
        conditions: None,
        half_open_window: None,
        extend_window_ttl: false,
    }
}

fn admin() -> Address {
    Address::from_string("GADMIN".to_string())
}

fn reason(s: &str) -> String {
    s.to_string()
}

fn entry<'a>(entries: &'a [(String, String)], key: &str) -> Option<&'a str> {
    entries.iter().find(|(k, _)| k == key).map(|(_, v)| v.as_str())
}

#[test]
fn lazy_initialization_writes_defaults() {
    let mut cb = empty_breaker();
    let state = cb.get_state(42).unwrap();
    assert_eq!(state.state, BreakerState::Closed);
    assert_eq!(state.last_success_time, 42);
    let config = cb.config.unwrap();
    assert_eq!(config.max_error_rate, 10);
    assert_eq!(config.max_latency_ms, 5000);
    assert_eq!(config.min_liquidity, 1_000_000_000);
    assert_eq!(config.failure_threshold, 5);
    assert_eq!(config.recovery_timeout, 300);
    assert_eq!(config.half_open_max_requests, 3);
    assert!(config.auto_recovery_enabled);
    assert_eq!(config.half_open_quota, HalfOpenQuota { calls_per_minute: 3, evaluation_window_s: 60 });
    assert_eq!(cb.events.as_ref().unwrap().len(), 0);
}

#[test]
fn pause_opens_and_second_pause_is_refused() {
    let mut cb = empty_breaker();
    let r = cb.pause_with_options(10, &admin(), Ok(()), &reason("incident"), PauseScope::Full, true);
    assert_eq!(r, Ok(()));
    let s = cb.state.unwrap();
    assert_eq!(s.state, BreakerState::Open);
    assert_eq!(s.opened_time, 10);
    assert_eq!(s.pause_scope, PauseScope::Full);
    assert!(s.allow_withdrawals);
    let events = cb.get_event_history().unwrap();
    assert_eq!(events.len(), 1);
    assert_eq!(events[0].action, BreakerAction::Pause);
    assert_eq!(events[0].condition, BreakerCondition::ManualOverride);
    assert_eq!(events[0].reason, "incident");
    assert_eq!(events[0].timestamp, 10);
    let again = cb.emergency_pause(11, &admin(), Ok(()), &reason("again"));
    assert_eq!(again, Err(Error::CBError));
}

#[test]
fn unauthorized_pause_changes_nothing() {
    let mut cb = empty_breaker();
    let r = cb.emergency_pause(10, &admin(), Err(Error::Unauthorized), &reason("x"));
    assert_eq!(r, Err(Error::Unauthorized));
    assert!(cb.state.is_none());
}

#[test]
fn betting_only_pause_blocks_only_betting() {
    let mut cb = empty_breaker();
    cb.emergency_pause(5, &admin(), Ok(()), &reason("pause")).unwrap();
    assert_eq!(cb.is_operation_allowed(6, "betting"), Ok(false));
    assert_eq!(cb.is_operation_allowed(6, "create_event"), Ok(true));
    assert_eq!(cb.require_write_allowed(6, "betting"), Err(Error::CBOpen));
    assert_eq!(cb.require_write_allowed(6, "withdraw"), Ok(()));
    assert_eq!(CircuitBreaker::is_read_allowed(), Ok(true));
    assert_eq!(CircuitBreaker::require_read_allowed(), Ok(()));
    assert_eq!(cb.are_withdrawals_allowed(6), Ok(false));
}

#[test]
fn full_pause_blocks_everything_but_reads() {
    let mut cb = empty_breaker();
    cb.pause_with_options(5, &admin(), Ok(()), &reason("p"), PauseScope::Full, true).unwrap();
    assert_eq!(cb.is_write_allowed(6, "create_event"), Ok(false));
    assert_eq!(cb.is_write_allowed(6, "betting"), Ok(false));
    assert_eq!(cb.are_withdrawals_allowed(6), Ok(true));
    assert_eq!(CircuitBreakerUtils::should_allow_operation(&mut cb, 6), Ok(false));
}

#[test]
fn recovery_restores_safe_defaults() {
    let mut cb = empty_breaker();
    cb.pause_with_options(5, &admin(), Ok(()), &reason("p"), PauseScope::Full, true).unwrap();
    assert_eq!(cb.circuit_breaker_recovery(9, &admin(), Ok(())), Ok(()));
    let s = cb.state.unwrap();
    assert_eq!(s.state, BreakerState::Closed);
    assert_eq!(s.pause_scope, PauseScope::BettingOnly);
    assert!(!s.allow_withdrawals);
    assert_eq!(s.last_success_time, 9);
    assert_eq!(cb.circuit_breaker_recovery(10, &admin(), Ok(())), Err(Error::CBError));
}

#[test]
fn resume_enters_half_open_and_failure_reopens() {
    let mut cb = empty_breaker();
    assert_eq!(cb.request_resume(1, &admin(), Ok(())), Err(Error::CBError));
    cb.emergency_pause(2, &admin(), Ok(()), &reason("p")).unwrap();
    cb.request_resume(3, &admin(), Ok(())).unwrap();
    let s = cb.state.unwrap();
    assert_eq!(s.state, BreakerState::HalfOpen);
    assert_eq!(s.half_open_since, 3);
    cb.record_failure(4).unwrap();
    let s = cb.state.unwrap();
    assert_eq!(s.state, BreakerState::Open);
    assert_eq!(s.opened_time, 4);
    assert_eq!(s.error_count, 1);
    assert_eq!(cb.half_open_window, Some(HalfOpenWindow { admitted: 0, completed: 0, failures: 0, window_start: 0 }));
}

#[test]
fn probes_count_only_after_cooldown_and_close_breaker() {
    let mut cb = empty_breaker();
    cb.emergency_pause(0, &admin(), Ok(()), &reason("p")).unwrap();
    cb.request_resume(100, &admin(), Ok(())).unwrap();
    // recovery_timeout is 300: a success at 200 is within the cooldown.
    cb.record_success(200).unwrap();
    let s = cb.state.unwrap();
    assert_eq!(s.state, BreakerState::HalfOpen);
    assert_eq!(s.half_open_requests, 0);
    assert_eq!(s.total_requests, 1);
    cb.record_success(400).unwrap();
    cb.record_success(401).unwrap();
    assert_eq!(cb.state.unwrap().half_open_requests, 2);
    cb.record_success(402).unwrap();
    let s = cb.state.unwrap();
    assert_eq!(s.state, BreakerState::Closed);
    assert_eq!(s.half_open_requests, 0);
    assert_eq!(s.half_open_since, 0);
    assert_eq!(s.total_requests, 4);
}

#[test]
fn automatic_trigger_opens_on_high_error_rate() {
    let mut cb = empty_breaker();
    cb.record_success(1).unwrap();
    cb.record_failure(2).unwrap();
    // 1 failure out of 2 requests = 50% >= 10%.
    assert_eq!(cb.automatic_circuit_breaker_trigger(3, &BreakerCondition::OracleFailure), Ok(false));
    assert_eq!(CircuitBreakerTesting::simulate_trigger(&mut cb, 3, &BreakerCondition::HighErrorRate), Ok(true));
    let s = cb.state.unwrap();
    assert_eq!(s.state, BreakerState::Open);
    // one failure counted while closed, one more by the trigger.
    assert_eq!(s.failure_count, 2);
    assert_eq!(s.opened_time, 3);
    assert_eq!(cb.automatic_circuit_breaker_trigger(4, &BreakerCondition::HighErrorRate), Ok(false));
}

#[test]
fn auto_recovery_moves_to_half_open_after_timeout() {
    let mut cb = empty_breaker();
    cb.emergency_pause(10, &admin(), Ok(()), &reason("p")).unwrap();
    assert_eq!(cb.automatic_circuit_breaker_trigger(100, &BreakerCondition::ManualOverride), Ok(false));
    assert_eq!(cb.state.unwrap().state, BreakerState::Open);
    assert_eq!(cb.automatic_circuit_breaker_trigger(310, &BreakerCondition::ManualOverride), Ok(false));
    let s = cb.state.unwrap();
    assert_eq!(s.state, BreakerState::HalfOpen);
    assert_eq!(s.half_open_since, 310);
    let events = cb.get_event_history().unwrap();
    assert_eq!(events.last().unwrap().action, BreakerAction::Reset);
}

#[test]
fn half_open_quota_admits_then_closes_without_failures() {
    let mut cb = empty_breaker();
    cb.emergency_pause(0, &admin(), Ok(()), &reason("p")).unwrap();
    cb.request_resume(1, &admin(), Ok(())).unwrap();
    assert_eq!(cb.is_operation_allowed(2, "betting"), Ok(true));
    assert_eq!(cb.is_operation_allowed(3, "betting"), Ok(true));
    assert_eq!(cb.is_operation_allowed(4, "betting"), Ok(true));
    assert_eq!(cb.half_open_window.unwrap().admitted, 3);
    // quota of 3 used up with no failures recorded: the breaker closes.
    assert_eq!(cb.is_operation_allowed(5, "betting"), Ok(false));
    assert_eq!(cb.state.unwrap().state, BreakerState::Closed);
    assert_eq!(cb.state.unwrap().half_open_since, 0);
}

#[test]
fn half_open_quota_reopens_after_failures() {
    let mut cb = empty_breaker();
    cb.emergency_pause(0, &admin(), Ok(()), &reason("p")).unwrap();
    cb.request_resume(1, &admin(), Ok(())).unwrap();
    cb.half_open_window = Some(HalfOpenWindow { admitted: 3, completed: 1, failures: 1, window_start: 1 });
    assert_eq!(CircuitBreakerUtils::should_allow_operation(&mut cb, 5), Ok(false));
    let s = cb.state.unwrap();
    assert_eq!(s.state, BreakerState::Open);
    assert_eq!(s.opened_time, 5);
    assert_eq!(s.half_open_since, 0);
}

#[test]
fn half_open_window_expires() {
    let mut cb = empty_breaker();
    cb.emergency_pause(0, &admin(), Ok(()), &reason("p")).unwrap();
    cb.request_resume(1, &admin(), Ok(())).unwrap();
    cb.half_open_window = Some(HalfOpenWindow { admitted: 3, completed: 0, failures: 2, window_start: 1 });
    // window of 60 s is over at 61: counters reset and the call is admitted.
    assert_eq!(cb.is_operation_allowed(61, "betting"), Ok(true));
    assert_eq!(cb.half_open_window, Some(HalfOpenWindow { admitted: 1, completed: 0, failures: 0, window_start: 61 }));
}

#[test]
fn zero_quota_uses_probe_counter() {
    let mut cb = empty_breaker();
    cb.emergency_pause(0, &admin(), Ok(()), &reason("p")).unwrap();
    cb.request_resume(1, &admin(), Ok(())).unwrap();
    let mut config = cb.config.unwrap();
    config.half_open_quota.calls_per_minute = 0;
    cb.config = Some(config);
    assert_eq!(cb.is_operation_allowed(2, "x"), Ok(true));
}

#[test]
fn update_config_validates_and_records() {
    let mut cb = empty_breaker();
    let _ = cb.initialize(0);
    let mut bad = CircuitBreakerTesting::create_test_config();
    bad.max_error_rate = 101;
    assert_eq!(cb.update_config(1, &admin(), Ok(()), &bad), Err(Error::InvalidInput));
    let good = CircuitBreakerTesting::create_test_config();
    assert_eq!(cb.update_config(1, &admin(), Ok(()), &good), Ok(()));
    assert_eq!(cb.config.unwrap().max_error_rate, 5);
    let events = cb.get_event_history().unwrap();
    assert_eq!(events[0].action, BreakerAction::Reset);
    assert_eq!(events[0].reason, "Configuration updated");
    assert_eq!(events[0].admin.as_ref().unwrap().strkey, "GADMIN");
}

#[test]
fn validate_config_rejects_each_bad_field() {
    let base = CircuitBreakerTesting::create_test_config();
    assert_eq!(CircuitBreaker::validate_config(&base), Ok(()));
    let mut c: CircuitBreakerConfig = base;
    c.max_latency_ms = 0;
    assert_eq!(CircuitBreaker::validate_config(&c), Err(Error::InvalidInput));
    let mut c = base;
    c.min_liquidity = -1;
    assert_eq!(CircuitBreaker::validate_config(&c), Err(Error::InvalidInput));
    let mut c = base;
    c.failure_threshold = 0;
    assert_eq!(CircuitBreaker::validate_config(&c), Err(Error::InvalidInput));
    let mut c = base;
    c.recovery_timeout = 0;
    assert_eq!(CircuitBreaker::validate_config(&c), Err(Error::InvalidInput));
    let mut c = base;
    c.half_open_max_requests = 0;
    assert_eq!(CircuitBreaker::validate_config(&c), Err(Error::InvalidInput));
    let mut c = base;
    c.half_open_quota.evaluation_window_s = 0;
    assert_eq!(CircuitBreaker::validate_config(&c), Err(Error::InvalidInput));
}

#[test]
fn conditions_must_be_non_empty_and_distinct() {
    assert_eq!(CircuitBreaker::validate_circuit_breaker_conditions(&vec![]), Err(Error::InvalidInput));
    assert_eq!(
        CircuitBreaker::validate_circuit_breaker_conditions(&vec![
            BreakerCondition::HighLatency,
            BreakerCondition::LowLiquidity,
            BreakerCondition::HighLatency,
        ]),
        Err(Error::InvalidInput)
    );
    assert_eq!(
        CircuitBreaker::validate_circuit_breaker_conditions(&vec![
            BreakerCondition::HighLatency,
            BreakerCondition::LowLiquidity,
        ]),
        Ok(())
    );
}

#[test]
fn event_history_keeps_last_hundred() {
    let mut cb = empty_breaker();
    let _ = cb.initialize(0);
    for i in 0..105u64 {
        cb.emit_circuit_breaker_event(i, BreakerAction::Trigger, BreakerCondition::InvalidData, &reason("e"), None).unwrap();
    }
    let events = cb.get_event_history().unwrap();
    assert_eq!(events.len(), 100);
    assert_eq!(events[0].timestamp, 5);
    assert_eq!(events[99].timestamp, 104);
}

#[test]
fn history_missing_is_an_error() {
    let cb = empty_breaker();
    assert!(matches!(cb.get_event_history(), Err(Error::CBError)));
}

#[test]
fn status_report_of_open_breaker() {
    let mut cb = empty_breaker();
    cb.record_failure(1).unwrap();
    cb.record_success(2).unwrap();
    cb.record_success(3).unwrap();
    cb.record_success(4).unwrap();
    cb.emergency_pause(100, &admin(), Ok(()), &reason("p")).unwrap();
    let status = cb.get_circuit_breaker_status(150).unwrap();
    assert_eq!(entry(&status, "state"), Some("Open"));
    assert_eq!(entry(&status, "total_requests"), Some("4"));
    assert_eq!(entry(&status, "error_count"), Some("1"));
    assert_eq!(entry(&status, "error_rate_percent"), Some("25"));
    assert_eq!(entry(&status, "max_error_rate"), Some("10"));
    assert_eq!(entry(&status, "failure_threshold"), Some("5"));
    assert_eq!(entry(&status, "time_open_seconds"), Some("50"));
    assert_eq!(entry(&status, "time_until_recovery_seconds"), Some("250"));
    assert_eq!(entry(&status, "auto_recovery_enabled"), Some("true"));
    assert_eq!(entry(&status, "half_open_requests"), None);
    assert_eq!(status.len(), 10);
}

#[test]
fn statistics_report() {
    let mut cb = empty_breaker();
    let stats = CircuitBreakerUtils::get_statistics(&mut cb, 0).unwrap();
    assert_eq!(stats.len(), 4);
    assert_eq!(entry(&stats, "current_state"), Some("Closed"));
    assert_eq!(entry(&stats, "error_rate_percent"), None);
    cb.record_failure(1).unwrap();
    cb.record_success(1).unwrap();
    cb.record_success(1).unwrap();
    let stats = CircuitBreakerUtils::get_statistics(&mut cb, 1).unwrap();
    assert_eq!(entry(&stats, "error_rate_percent"), Some("33"));
}

#[test]
fn with_circuit_breaker_runs_and_records() {
    let mut cb = empty_breaker();
    let r: Result<u32, Error> = CircuitBreakerUtils::with_circuit_breaker(&mut cb, 1, || Ok(7));
    assert_eq!(r, Ok(7));
    assert_eq!(cb.state.unwrap().total_requests, 1);
    let r: Result<u32, Error> = CircuitBreakerUtils::with_circuit_breaker(&mut cb, 2, || Err(Error::InvalidInput));
    assert_eq!(r, Err(Error::InvalidInput));
    assert_eq!(cb.state.unwrap().error_count, 1);
    cb.emergency_pause(3, &admin(), Ok(()), &reason("p")).unwrap();
    let r: Result<u32, Error> = CircuitBreakerUtils::with_circuit_breaker(&mut cb, 4, || Ok(1));
    assert_eq!(r, Err(Error::CBError));
    assert_eq!(cb.state.unwrap().total_requests, 2);
}

#[test]
fn scenario_run_reports() {
    let mut cb = empty_breaker();
    let results = cb.test_circuit_breaker_scenarios(0, Ok(()), Ok(())).unwrap();
    assert_eq!(entry(&results, "normal_operation"), Some("true"));
    assert_eq!(entry(&results, "emergency_pause"), Some("true"));
    assert_eq!(entry(&results, "recovery"), Some("true"));
    assert_eq!(entry(&results, "status_check"), Some("success"));
    assert_eq!(entry(&results, "event_history"), Some("2"));
    assert_eq!(entry(&results, "read_allowed"), Some("true"));
    assert_eq!(entry(&results, "write_allowed_betting"), Some("true"));
    let mut cb2 = empty_breaker();
    let results = cb2.test_circuit_breaker_scenarios(0, Err(Error::Unauthorized), Err(Error::Unauthorized)).unwrap();
    assert_eq!(entry(&results, "emergency_pause"), Some("false"));
    assert_eq!(entry(&results, "recovery"), Some("false"));
    assert_eq!(entry(&results, "event_history"), Some("0"));
}

#[test]
fn testing_helpers() {
    let s = CircuitBreakerTesting::create_test_state(9);
    assert_eq!(s.state, BreakerState::Closed);
    assert_eq!(s.last_success_time, 9);
    let mut cb = empty_breaker();
    CircuitBreakerTesting::simulate_failure(&mut cb, 1).unwrap();
    CircuitBreakerTesting::simulate_success(&mut cb, 2).unwrap();
    assert_eq!(cb.state.unwrap().total_requests, 2);
    cb.emergency_pause(3, &admin(), Ok(()), &reason("p")).unwrap();
    assert_eq!(CircuitBreakerTesting::reset(&mut cb, 4, &admin(), Ok(())), Ok(()));
    assert_eq!(cb.state.unwrap().state, BreakerState::Closed);
    assert_eq!(cb.is_open(5), Ok(false));
    assert_eq!(cb.is_closed(5), Ok(true));
    assert_eq!(cb.is_half_open(5), Ok(false));
}

#[test]
fn window_ttl() {
    assert_eq!(CircuitBreaker::half_open_window_ttl(&HalfOpenQuota { calls_per_minute: 3, evaluation_window_s: 60 }), Some(86460));
    assert_eq!(CircuitBreaker::half_open_window_ttl(&HalfOpenQuota { calls_per_minute: 3, evaluation_window_s: u32::MAX as u64 }), None);
}

#[test]
fn failures_reaching_threshold_open_breaker() {
    let mut cb = empty_breaker();
    cb.initialize(0).unwrap();
    for i in 1..5u64 {
        cb.record_failure(i).unwrap();
        assert_eq!(cb.is_closed(i), Ok(true));
        assert_eq!(cb.state.unwrap().failure_count, i as u32);
    }
    assert_eq!(cb.get_event_history().unwrap().len(), 0);
    cb.record_failure(5).unwrap();
    assert_eq!(cb.is_open(5), Ok(true));
    let s = cb.state.unwrap();
    assert_eq!(s.failure_count, 5);
    assert_eq!(s.opened_time, 5);
    assert_eq!(s.error_count, 5);
    let events = cb.get_event_history().unwrap();
    assert_eq!(events.len(), 1);
    assert_eq!(events[0].action, BreakerAction::Trigger);
    assert_eq!(events[0].condition, BreakerCondition::HighErrorRate);
    assert_eq!(events[0].reason, "Failure threshold reached, opening circuit breaker");
    // failures while open are counted as errors only.
    cb.record_failure(6).unwrap();
    let s = cb.state.unwrap();
    assert_eq!(s.failure_count, 5);
    assert_eq!(s.error_count, 6);
    assert_eq!(s.opened_time, 5);
}

#[test]
fn recovery_restarts_failure_count() {
    let mut cb = empty_breaker();
    cb.initialize(0).unwrap();
    for i in 1..6u64 {
        cb.record_failure(i).unwrap();
    }
    assert_eq!(cb.is_open(6), Ok(true));
    cb.circuit_breaker_recovery(7, &admin(), Ok(())).unwrap();
    assert_eq!(cb.state.unwrap().failure_count, 0);
    cb.record_failure(8).unwrap();
    assert_eq!(cb.is_closed(8), Ok(true));
    assert_eq!(cb.state.unwrap().failure_count, 1);
}

#[test]
fn pausing_half_open_breaker_clears_half_open_since() {
    let mut cb = empty_breaker();
    cb.emergency_pause(2, &admin(), Ok(()), &reason("p")).unwrap();
    cb.request_resume(3, &admin(), Ok(())).unwrap();
    assert_eq!(cb.state.unwrap().half_open_since, 3);
    let r = cb.pause_with_options(4, &admin(), Ok(()), &reason("again"), PauseScope::Full, false);
    assert_eq!(r, Ok(()));
    let s = cb.state.unwrap();
    assert_eq!(s.state, BreakerState::Open);
    assert_eq!(s.half_open_since, 0);
    assert_eq!(s.opened_time, 4);
}

#[test]
fn trigger_from_half_open_clears_half_open_since() {
    let mut cb = empty_breaker();
    cb.record_success(1).unwrap();
    cb.emergency_pause(2, &admin(), Ok(()), &reason("p")).unwrap();
    cb.request_resume(3, &admin(), Ok(())).unwrap();
    cb.record_failure(4).unwrap();
    assert_eq!(cb.state.unwrap().state, BreakerState::Open);
    // 1 failure out of 2 requests; auto-recovery at 304 enters half-open,
    // then the error rate opens the breaker again.
    assert_eq!(cb.automatic_circuit_breaker_trigger(304, &BreakerCondition::HighErrorRate), Ok(true));
    let s = cb.state.unwrap();
    assert_eq!(s.state, BreakerState::Open);
    assert_eq!(s.half_open_since, 0);
    assert_eq!(s.opened_time, 304);
}

#[test]
fn automatic_trigger_overflow_is_detected() {
    let mut cb = empty_breaker();
    assert!(cb.automatic_trigger_is_defined(0, &BreakerCondition::HighErrorRate));
    cb.initialize(0).unwrap();
    let mut s = cb.state.unwrap();
    s.total_requests = 1;
    s.error_count = u32::MAX / 100 + 1;
    cb.state = Some(s);
    assert!(!cb.automatic_trigger_is_defined(1, &BreakerCondition::HighErrorRate));
    assert!(cb.automatic_trigger_is_defined(1, &BreakerCondition::OracleFailure));
    s.error_count = 1;
    s.failure_count = u32::MAX;
    cb.state = Some(s);
    assert!(!cb.automatic_trigger_is_defined(1, &BreakerCondition::HighErrorRate));
    s.state = BreakerState::Open;
    s.opened_time = 10;
    cb.state = Some(s);
    // a ledger time before the opening time underflows the recovery check.
    assert!(!cb.automatic_trigger_is_defined(5, &BreakerCondition::HighErrorRate));
    // open and not yet recovering: the trigger cannot fire.
    assert!(cb.automatic_trigger_is_defined(20, &BreakerCondition::HighErrorRate));
    // recovering at 310 moves to half-open, where the trigger fires.
    assert!(!cb.automatic_trigger_is_defined(310, &BreakerCondition::HighErrorRate));
}

#[test]
fn admitted_probe_asks_for_window_lifetime() {
    let mut cb = empty_breaker();
    cb.emergency_pause(0, &admin(), Ok(()), &reason("p")).unwrap();
    cb.request_resume(1, &admin(), Ok(())).unwrap();
    assert!(!cb.extend_window_ttl);
    assert_eq!(cb.is_operation_allowed(2, "betting"), Ok(true));
    assert!(cb.extend_window_ttl);
    cb.extend_window_ttl = false;
    cb.half_open_window = Some(HalfOpenWindow { admitted: 3, completed: 0, failures: 0, window_start: 1 });
    // quota used up: nothing admitted, the breaker closes.
    assert_eq!(cb.is_operation_allowed(3, "betting"), Ok(false));
    assert!(!cb.extend_window_ttl);
    assert_eq!(cb.state.unwrap().state, BreakerState::Closed);
}

#[test]
fn failure_without_stored_config_uses_default_threshold() {
    let mut cb = empty_breaker();
    cb.emergency_pause(0, &admin(), Ok(()), &reason("p")).unwrap();
    cb.circuit_breaker_recovery(1, &admin(), Ok(())).unwrap();
    cb.config = None;
    for i in 2..6u64 {
        cb.record_failure(i).unwrap();
    }
    assert_eq!(cb.state.unwrap().state, BreakerState::Closed);
    // the history is kept and no configuration is written.
    assert_eq!(cb.events.as_ref().unwrap().len(), 2);
    assert!(cb.config.is_none());
    cb.record_failure(6).unwrap();
    let s = cb.state.unwrap();
    assert_eq!(s.state, BreakerState::Open);
    assert_eq!(s.failure_count, 5);
    assert_eq!(cb.events.as_ref().unwrap().len(), 3);
    assert!(cb.config.is_none());
}

#[test]
fn counter_overflow_is_detected() {
    let mut cb = empty_breaker();
    assert!(cb.record_success_is_defined(0));
    assert!(cb.record_failure_is_defined(0));
    cb.initialize(0).unwrap();
    let mut s = cb.state.unwrap();
    s.total_requests = u32::MAX;
    cb.state = Some(s);
    assert!(!cb.record_success_is_defined(1));
    assert!(!cb.record_failure_is_defined(1));
    s.total_requests = 0;
    s.error_count = u32::MAX;
    cb.state = Some(s);
    assert!(cb.record_success_is_defined(1));
    assert!(!cb.record_failure_is_defined(1));
    s.error_count = 0;
    s.state = BreakerState::HalfOpen;
    s.half_open_since = u64::MAX;
    cb.state = Some(s);
    // the end of the cooldown does not fit in a u64.
    assert!(!cb.record_success_is_defined(1));
    s.half_open_since = 0;
    s.half_open_requests = u32::MAX;
    cb.state = Some(s);
    assert!(cb.record_success_is_defined(299));
    assert!(!cb.record_success_is_defined(300));
}

#[test]
fn report_overflow_is_detected() {
    let mut cb = empty_breaker();
    assert!(cb.error_rate_is_defined(0));
    assert!(cb.status_is_defined(0));
    cb.initialize(0).unwrap();
    let mut s = cb.state.unwrap();
    s.total_requests = 1;
    s.error_count = u32::MAX / 100 + 1;
    cb.state = Some(s);
    assert!(!cb.error_rate_is_defined(1));
    assert!(!cb.status_is_defined(1));
    s.error_count = u32::MAX / 100;
    s.state = BreakerState::Open;
    s.opened_time = 10;
    cb.state = Some(s);
    assert!(cb.error_rate_is_defined(1));
    // the time open would be negative.
    assert!(!cb.status_is_defined(9));
    assert!(cb.status_is_defined(10));
}
