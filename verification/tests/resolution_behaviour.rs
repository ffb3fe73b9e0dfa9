use predictify_hybrid::address::Address;
use predictify_hybrid::error::Error;
use predictify_hybrid::market::{
    Bet, CommunityConsensus, Market, MarketState, OracleConfig, OracleProvider,
};
use predictify_hybrid::outcome_cache::ResolutionOutcomeCache;
use predictify_hybrid::resolution::{
    MarketResolutionAnalytics, MarketResolutionManager, MarketResolutionValidator,
    OracleCallbackData, OracleCallbackResolver, OracleFetchStep, OracleResolutionAnalytics,
    OracleResolutionManager, OracleResolutionValidator, OracleSource, ResolutionMethod,
    ResolutionState, ResolutionTesting, ResolutionUtils,
};

fn addr(s: &str) -> Address {
    Address::from_string(s.to_string())
}

fn text(s: &str) -> String {
    s.to_string()
}

fn config(feed: &str, threshold: i128) -> OracleConfig {
    OracleConfig {
        provider: OracleProvider::reflector(),
        oracle_address: addr("CORACLE"),
        feed_id: text(feed),
        threshold,
        comparison: text("gt"),
    }
}

fn market() -> Market {
    Market {
        admin: addr("GADMIN"),
        outcomes: vec![text("yes"), text("no")],
        end_time: 1000,
        resolution_timeout: 500,
        oracle_config: config("BTC", 100),
        has_fallback: true,
        fallback_oracle_config: config("BTC2", 100),
        oracle_result: None,
        winning_outcomes: None,
        votes: Vec::new(),
        stakes: Vec::new(),
        total_staked: 0,
        total_dispute_stakes: 0,
        min_pool_size: None,
        state: MarketState::Active,
    }
}

fn consensus(p: i128) -> CommunityConsensus {
    CommunityConsensus { outcome: text("yes"), votes: 1, total_votes: 1, percentage: p }
}

#[test]
fn fetch_asks_primary_then_fallback() {
    let mut m = market();
    let id = text("m1");
    let step = OracleResolutionManager::fetch_oracle_result(&id, &mut m, 1200, &vec![]);
    assert!(matches!(step, OracleFetchStep::Query(OracleSource::Primary)));
    let step = OracleResolutionManager::fetch_oracle_result(&id, &mut m, 1200, &vec![Err(Error::OracleUnavailable)]);
    assert!(matches!(step, OracleFetchStep::Query(OracleSource::Fallback)));
    let step = OracleResolutionManager::fetch_oracle_result(
        &id,
        &mut m,
        1200,
        &vec![Err(Error::OracleUnavailable), Ok((150, text("yes")))],
    );
    match step {
        OracleFetchStep::Done(r) => {
            assert_eq!(r.feed_id, "BTC2");
            assert_eq!(r.price, 150);
            assert_eq!(r.oracle_result, "yes");
            assert_eq!(r.timestamp, 1200);
        },
        _ => panic!("expected a result"),
    }
    assert_eq!(m.oracle_result, Some(text("yes")));
}

#[test]
fn fetch_uses_primary_answer() {
    let mut m = market();
    let step = OracleResolutionManager::fetch_oracle_result(&text("m1"), &mut m, 1000, &vec![Ok((90, text("no")))]);
    match step {
        OracleFetchStep::Done(r) => {
            assert_eq!(r.feed_id, "BTC");
            assert_eq!(r.threshold, 100);
            assert_eq!(r.provider, OracleProvider::Reflector);
        },
        _ => panic!("expected a result"),
    }
    assert_eq!(m.oracle_result, Some(text("no")));
}

#[test]
fn fetch_failures() {
    let id = text("m1");
    let mut m = market();
    let step = OracleResolutionManager::fetch_oracle_result(&id, &mut m, 1500, &vec![]);
    assert!(matches!(step, OracleFetchStep::Failed(Error::ResolutionTimeoutReached)));
    let step = OracleResolutionManager::fetch_oracle_result(&id, &mut m, 999, &vec![]);
    assert!(matches!(step, OracleFetchStep::Failed(Error::MarketClosed)));
    let step = OracleResolutionManager::fetch_oracle_result(
        &id,
        &mut m,
        1200,
        &vec![Err(Error::OracleUnavailable), Err(Error::OracleUnavailable)],
    );
    assert!(matches!(step, OracleFetchStep::Failed(Error::FallbackOracleUnavailable)));
    m.has_fallback = false;
    let step = OracleResolutionManager::fetch_oracle_result(&id, &mut m, 1200, &vec![Err(Error::OracleUnavailable)]);
    assert!(matches!(step, OracleFetchStep::Failed(Error::OracleUnavailable)));
    assert_eq!(m.oracle_result, None);
    m.oracle_result = Some(text("yes"));
    let step = OracleResolutionManager::fetch_oracle_result(&id, &mut m, 1200, &vec![]);
    assert!(matches!(step, OracleFetchStep::Failed(Error::MarketResolved)));
}

#[test]
fn provider_labels() {
    assert_eq!(OracleResolutionManager::provider_label(OracleProvider::Reflector), "Reflector");
    assert_eq!(OracleResolutionManager::provider_label(OracleProvider::Pyth), "Pyth");
    assert_eq!(OracleResolutionManager::provider_label(OracleProvider::DIA), "Custom");
}

#[test]
fn resolve_market_hybrid() {
    let mut m = market();
    m.oracle_result = Some(text("yes"));
    let voter = addr("GV1");
    m.votes.push((voter.clone(), text("yes")));
    m.stakes.push((voter, 40));
    m.total_staked = 100;
    let bettors = vec![(addr("GB1"), Some(Bet { outcome: text("yes"), amount: 25 })), (addr("GB2"), Some(Bet { outcome: text("no"), amount: 35 }))];
    let mut cache = ResolutionOutcomeCache::new();
    let r = MarketResolutionManager::resolve_market(
        &text("m1"),
        &mut m,
        2000,
        0,
        Ok((0, 0)),
        &consensus(80),
        &vec![text("yes")],
        &bettors,
        &mut cache,
    )
    .unwrap();
    assert_eq!(r.final_outcome, "yes");
    assert_eq!(r.resolution_method, ResolutionMethod::Hybrid);
    assert_eq!(r.confidence_score, 82);
    assert_eq!(r.resolution_timestamp, 2000);
    assert_eq!(m.winning_outcomes, Some(vec![text("yes")]));
    assert_eq!(m.state, MarketState::Resolved);
    let s = cache.get(&text("m1")).unwrap();
    assert_eq!(s.winning_total, 65);
    assert_eq!(s.total_pool, 100);
    assert_eq!(s.num_winning_outcomes, 1);
    assert_eq!(ResolutionUtils::get_resolution_state(&m), ResolutionState::MarketResolved);
}

#[test]
fn resolve_market_refusals() {
    let mut cache = ResolutionOutcomeCache::new();
    let mut m = market();
    let w = vec![text("yes")];
    let r = MarketResolutionManager::resolve_market(&text("m1"), &mut m, 2000, 0, Ok((0, 0)), &consensus(50), &w, &vec![], &mut cache);
    assert!(matches!(r, Err(Error::OracleUnavailable)));
    m.oracle_result = Some(text("yes"));
    let r = MarketResolutionManager::resolve_market(&text("m1"), &mut m, 999, 0, Ok((0, 0)), &consensus(50), &w, &vec![], &mut cache);
    assert!(matches!(r, Err(Error::MarketClosed)));
    m.min_pool_size = Some(500);
    let r = MarketResolutionManager::resolve_market(&text("m1"), &mut m, 2000, 0, Ok((100, 500)), &consensus(50), &w, &vec![], &mut cache);
    assert!(matches!(r, Err(Error::InvalidState)));
    assert_eq!(m.winning_outcomes, None);
    let r = MarketResolutionManager::resolve_market(&text("m1"), &mut m, 2000, 0, Ok((500, 500)), &consensus(50), &w, &vec![], &mut cache).unwrap();
    assert_eq!(r.resolution_method, ResolutionMethod::OracleOnly);
    assert_eq!(r.confidence_score, 85);
    let r = MarketResolutionManager::resolve_market(&text("m1"), &mut m, 2000, 0, Ok((500, 500)), &consensus(50), &w, &vec![], &mut cache);
    assert!(matches!(r, Err(Error::MarketResolved)));
}

#[test]
fn resolve_without_winners_uses_oracle_result() {
    let mut cache = ResolutionOutcomeCache::new();
    let mut m = market();
    m.oracle_result = Some(text("no"));
    let r = MarketResolutionManager::resolve_market(&text("m1"), &mut m, 2000, 0, Ok((0, 0)), &consensus(10), &vec![], &vec![], &mut cache).unwrap();
    assert_eq!(r.final_outcome, "no");
    assert_eq!(cache.get(&text("m1")).unwrap().winning_total, 0);
}

#[test]
fn winning_total_overflow_is_rejected() {
    let mut m = market();
    let a = addr("GA");
    let b = addr("GB");
    m.votes.push((a.clone(), text("yes")));
    m.votes.push((b.clone(), text("yes")));
    m.stakes.push((a, i128::MAX));
    m.stakes.push((b, 1));
    let r = ResolutionOutcomeCache::compute_winning_total_for_market(&m, &vec![], &vec![text("yes")]);
    assert_eq!(r, Err(Error::InvalidInput));
}

#[test]
fn voters_bets_are_not_counted_twice() {
    let mut m = market();
    let a = addr("GA");
    m.votes.push((a.clone(), text("yes")));
    m.stakes.push((a.clone(), 10));
    let bettors = vec![(a, Some(Bet { outcome: text("yes"), amount: 1000 })), (addr("GC"), None)];
    let r = ResolutionOutcomeCache::compute_winning_total_for_market(&m, &bettors, &vec![text("yes")]);
    assert_eq!(r, Ok(10));
}

#[test]
fn require_recomputes_stale_summary() {
    let mut m = market();
    let a = addr("GA");
    m.votes.push((a.clone(), text("yes")));
    m.stakes.push((a, 10));
    m.total_staked = 10;
    m.winning_outcomes = Some(vec![text("yes")]);
    let mut cache = ResolutionOutcomeCache::new();
    let s = cache.require(&text("m1"), &m, &vec![]).unwrap();
    assert_eq!(s.winning_total, 10);
    m.total_staked = 20;
    m.stakes[0].1 = 20;
    let s = cache.require(&text("m1"), &m, &vec![]).unwrap();
    assert_eq!(s.winning_total, 20);
    assert_eq!(s.total_pool, 20);
    m.winning_outcomes = None;
    let mut empty = ResolutionOutcomeCache::new();
    assert_eq!(empty.require(&text("m2"), &m, &vec![]), Err(Error::MarketNotResolved));
    assert_eq!(empty.refresh(&text("m2"), &m, &vec![]), Err(Error::MarketNotResolved));
    cache.invalidate(&text("m1"));
    assert_eq!(cache.get(&text("m1")), None);
}

#[test]
fn require_recomputes_after_winning_outcomes_change() {
    let mut m = market();
    let a = addr("GA");
    m.votes.push((a.clone(), text("yes")));
    m.stakes.push((a, 100));
    m.total_staked = 100;
    m.winning_outcomes = Some(vec![text("yes")]);
    let mut cache = ResolutionOutcomeCache::new();
    cache.refresh(&text("m1"), &m, &vec![]).unwrap();
    assert_eq!(cache.get(&text("m1")).unwrap().winning_total, 100);
    // same pool and number of winning outcomes, other winners.
    m.winning_outcomes = Some(vec![text("no")]);
    let s = cache.require(&text("m1"), &m, &vec![]).unwrap();
    let fresh = ResolutionOutcomeCache::compute_winning_total_for_market(&m, &vec![], &vec![text("no")]).unwrap();
    assert_eq!(fresh, 0);
    assert_eq!(s.winning_total, fresh);
    assert_eq!(s.total_pool, 100);
    assert_eq!(s.num_winning_outcomes, 1);
    assert_eq!(cache.get(&text("m1")).unwrap().winning_total, 0);
}

#[test]
fn finalize_market_by_admin() {
    let mut cache = ResolutionOutcomeCache::new();
    let mut m = market();
    let admin = addr("GADMIN");
    let r = MarketResolutionManager::finalize_market(&addr("GX"), &Some(admin.clone()), &text("m1"), &mut m, 5, &text("yes"), &consensus(40), &vec![], &mut cache);
    assert!(matches!(r, Err(Error::Unauthorized)));
    let r = MarketResolutionManager::finalize_market(&admin, &None, &text("m1"), &mut m, 5, &text("yes"), &consensus(40), &vec![], &mut cache);
    assert!(matches!(r, Err(Error::Unauthorized)));
    let r = MarketResolutionManager::finalize_market(&admin, &Some(admin.clone()), &text("m1"), &mut m, 5, &text("maybe"), &consensus(40), &vec![], &mut cache);
    assert!(matches!(r, Err(Error::InvalidOutcome)));
    let r = MarketResolutionManager::finalize_market(&admin, &Some(admin.clone()), &text("m1"), &mut m, 5, &text("no"), &consensus(40), &vec![], &mut cache).unwrap();
    assert_eq!(r.final_outcome, "no");
    assert_eq!(r.oracle_result, "");
    assert_eq!(r.resolution_method, ResolutionMethod::AdminOverride);
    assert_eq!(r.confidence_score, 100);
    assert_eq!(m.winning_outcomes, Some(vec![text("no")]));
    assert!(MarketResolutionManager::validate_market_resolution(5, &r).is_ok());
    assert_eq!(MarketResolutionManager::validate_market_resolution(4, &r), Err(Error::InvalidInput));
}

#[test]
fn confidence_scores() {
    let y = text("yes");
    assert_eq!(MarketResolutionAnalytics::calculate_confidence_score(&y, &consensus(70), &ResolutionMethod::OracleOnly), 85);
    assert_eq!(MarketResolutionAnalytics::calculate_confidence_score(&y, &consensus(95), &ResolutionMethod::CommunityOnly), 90);
    assert_eq!(MarketResolutionAnalytics::calculate_confidence_score(&y, &consensus(60), &ResolutionMethod::CommunityOnly), 60);
    assert_eq!(MarketResolutionAnalytics::calculate_confidence_score(&y, &consensus(100), &ResolutionMethod::Hybrid), 92);
    assert_eq!(MarketResolutionAnalytics::calculate_confidence_score(&y, &consensus(75), &ResolutionMethod::Hybrid), 80);
    assert_eq!(MarketResolutionAnalytics::calculate_confidence_score(&y, &consensus(0), &ResolutionMethod::AdminOverride), 100);
    assert_eq!(MarketResolutionAnalytics::calculate_confidence_score(&y, &consensus(0), &ResolutionMethod::DisputeResolution), 75);
    assert_eq!(MarketResolutionAnalytics::calculate_confidence_score(&y, &consensus(0), &ResolutionMethod::ForceResolve), 100);
    assert_eq!(MarketResolutionAnalytics::determine_resolution_method(&y, &consensus(70)), ResolutionMethod::OracleOnly);
    assert_eq!(MarketResolutionAnalytics::determine_resolution_method(&y, &consensus(71)), ResolutionMethod::Hybrid);
}

#[test]
fn resolution_status_and_eligibility() {
    let mut m = market();
    assert_eq!(ResolutionUtils::get_resolution_state(&m), ResolutionState::Active);
    m.total_dispute_stakes = 5;
    assert_eq!(ResolutionUtils::get_resolution_state(&m), ResolutionState::Disputed);
    let (ok, why) = ResolutionUtils::get_resolution_eligibility(999, &m);
    assert!(!ok);
    assert_eq!(why, "Market has not ended");
    let (ok, why) = ResolutionUtils::get_resolution_eligibility(1000, &m);
    assert!(!ok);
    assert_eq!(why, "Oracle result not available");
    m.oracle_result = Some(text("yes"));
    assert_eq!(ResolutionUtils::get_resolution_state(&m), ResolutionState::OracleResolved);
    let (ok, why) = ResolutionUtils::get_resolution_eligibility(1000, &m);
    assert!(ok);
    assert_eq!(why, "Eligible for resolution");
    assert!(ResolutionUtils::can_resolve_market(1000, &m));
    assert_eq!(ResolutionUtils::calculate_resolution_time(1300, &m), 300);
    assert_eq!(ResolutionUtils::calculate_resolution_time(10, &m), 0);
    assert_eq!(ResolutionUtils::validate_resolution_parameters(&m, &text("maybe")), Err(Error::InvalidOutcome));
    assert_eq!(ResolutionUtils::validate_resolution_parameters(&m, &text("no")), Ok(()));
    m.winning_outcomes = Some(vec![text("yes")]);
    let (ok, why) = ResolutionUtils::get_resolution_eligibility(1000, &m);
    assert!(!ok);
    assert_eq!(why, "Market already resolved");
    assert!(!ResolutionUtils::can_resolve_market(1000, &m));
    assert_eq!(ResolutionUtils::validate_resolution_parameters(&m, &text("no")), Err(Error::MarketResolved));
}

#[test]
fn oracle_resolution_checks() {
    let mut r = ResolutionTesting::create_test_oracle_resolution(0, &text("m"));
    assert_eq!(OracleResolutionValidator::validate_oracle_resolution(&r), Ok(()));
    assert_eq!(OracleResolutionManager::validate_oracle_resolution(&r), Ok(()));
    r.price = 0;
    assert_eq!(OracleResolutionValidator::validate_oracle_resolution(&r), Err(Error::InvalidInput));
    r.price = 1;
    r.threshold = -1;
    assert_eq!(OracleResolutionManager::validate_oracle_resolution(&r), Err(Error::InvalidInput));
    r.threshold = 1;
    r.oracle_result = text("");
    assert_eq!(OracleResolutionValidator::validate_oracle_resolution(&r), Err(Error::InvalidInput));
}

#[test]
fn market_checks() {
    let m = market();
    assert_eq!(OracleResolutionValidator::validate_market_for_oracle_resolution(999, &m), Err(Error::MarketClosed));
    assert_eq!(OracleResolutionValidator::validate_market_for_oracle_resolution(1000, &m), Ok(()));
    assert_eq!(MarketResolutionValidator::minimum_pool(&m, 7), 7);
    assert_eq!(MarketResolutionValidator::validate_outcome(&text("no"), &m.outcomes), Ok(()));
    assert_eq!(MarketResolutionValidator::validate_outcome(&text("No"), &m.outcomes), Err(Error::InvalidOutcome));
    let mut m2 = market();
    m2.oracle_result = Some(text("yes"));
    assert_eq!(MarketResolutionValidator::validate_market_for_resolution(2000, &m2, 10, Err(Error::InvalidState)), Err(Error::InvalidState));
    assert_eq!(MarketResolutionValidator::validate_market_for_resolution(2000, &m2, 0, Err(Error::InvalidState)), Ok(()));
    let mut r = ResolutionTesting::create_test_market_resolution(0, &text("m"));
    r.confidence_score = 101;
    assert_eq!(MarketResolutionValidator::validate_market_resolution(0, &r), Err(Error::InvalidInput));
    assert_eq!(ResolutionTesting::validate_resolution_structure(&r), Err(Error::InvalidInput));
}

#[test]
fn callback_binary_market() {
    let data = OracleCallbackData { feed_id: text("BTC"), price: 120, timestamp: 1100 };
    let mut m = market();
    m.outcomes = vec![text("no"), text("yes")];
    let r = OracleCallbackResolver::process_authenticated_callback(1100, Ok(()), &data, &text("m1"), &mut m);
    assert_eq!(r, Ok(()));
    assert_eq!(m.oracle_result, Some(text("yes")));
    let r = OracleCallbackResolver::process_authenticated_callback(1100, Ok(()), &data, &text("m1"), &mut m);
    assert_eq!(r, Err(Error::MarketResolved));
}

#[test]
fn callback_rejections() {
    let data = OracleCallbackData { feed_id: text("BTC"), price: -5, timestamp: 1100 };
    let mut m = market();
    assert_eq!(
        OracleCallbackResolver::process_authenticated_callback(1100, Err(Error::OracleCallbackUnauthorized), &data, &text("m1"), &mut m),
        Err(Error::OracleCallbackUnauthorized)
    );
    assert_eq!(OracleCallbackResolver::determine_outcome_from_oracle_data(&data, &m), Ok(text("no")));
    // a non-positive price selects "no" but fails the resolution checks.
    assert_eq!(OracleCallbackResolver::process_authenticated_callback(1100, Ok(()), &data, &text("m1"), &mut m), Err(Error::InvalidInput));
    assert_eq!(m.oracle_result, None);
    assert_eq!(OracleCallbackResolver::process_authenticated_callback(900, Ok(()), &data, &text("m1"), &mut m), Err(Error::MarketClosed));
}

#[test]
fn callback_multi_outcome_market() {
    let mut m = market();
    m.outcomes = vec![text("a"), text("b"), text("c")];
    let data = OracleCallbackData { feed_id: text("F"), price: -7, timestamp: 0 };
    assert_eq!(OracleCallbackResolver::determine_outcome_from_oracle_data(&data, &m), Ok(text("b")));
    let data = OracleCallbackData { feed_id: text("F"), price: (1i128 << 32) + 2, timestamp: 0 };
    assert_eq!(OracleCallbackResolver::determine_outcome_from_oracle_data(&data, &m), Ok(text("c")));
}

#[test]
fn callback_authorization() {
    let m = market();
    assert_eq!(OracleCallbackResolver::validate_oracle_authorization_for_market(1000, Ok(false), &m), Err(Error::OracleCallbackUnauthorized));
    assert_eq!(OracleCallbackResolver::validate_oracle_authorization_for_market(1000, Ok(true), &m), Ok(()));
    assert_eq!(OracleCallbackResolver::validate_oracle_authorization_for_market(10, Ok(true), &m), Err(Error::MarketClosed));
    assert_eq!(OracleCallbackResolver::validate_oracle_authorization_for_market(10, Err(Error::Unauthorized), &m), Err(Error::Unauthorized));
}

#[test]
fn stored_resolutions_and_stats_are_empty() {
    assert!(matches!(OracleResolutionManager::get_oracle_resolution(&text("m")), Ok(None)));
    assert!(matches!(MarketResolutionManager::get_market_resolution(&text("m")), Ok(None)));
    let stats = OracleResolutionAnalytics::get_oracle_stats().ok().unwrap();
    assert_eq!(stats.total_resolutions, 0);
    let a = MarketResolutionAnalytics::calculate_resolution_analytics().ok().unwrap();
    assert_eq!(a.total_resolutions, 0);
    let r = ResolutionTesting::create_test_market_resolution(0, &text("m"));
    assert_eq!(MarketResolutionAnalytics::update_resolution_analytics(&r), Ok(()));
}

#[test]
fn confidence_score_overflow_is_detected() {
    assert!(MarketResolutionAnalytics::confidence_score_is_defined(&consensus(50)));
    assert!(MarketResolutionAnalytics::confidence_score_is_defined(&consensus(100)));
    // 70 % or less scores by the oracle alone, whatever the percentage.
    assert!(MarketResolutionAnalytics::confidence_score_is_defined(&consensus(-5)));
    assert!(MarketResolutionAnalytics::confidence_score_is_defined(&consensus(u32::MAX as i128 - 85)));
    assert!(!MarketResolutionAnalytics::confidence_score_is_defined(&consensus(u32::MAX as i128 - 84)));
    assert!(!MarketResolutionAnalytics::confidence_score_is_defined(&consensus(u32::MAX as i128)));
}
