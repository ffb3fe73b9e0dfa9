use predictify_hybrid::address::Address;
use predictify_hybrid::market::{
    CommunityConsensus, Market, MarketState, OracleConfig, OracleProvider,
};
use predictify_hybrid::outcome_cache::ResolutionOutcomeCache;
use predictify_hybrid::resolution::{
    MarketResolutionAnalytics, ResolutionMethod, ResolutionState, ResolutionTesting,
    ResolutionUtils,
};

fn addr(s: &str) -> Address {
    Address::from_string(s.to_string())
}

fn text(s: &str) -> String {
    s.to_string()
}

fn oracle_config(threshold: i128) -> OracleConfig {
    OracleConfig {
        provider: OracleProvider::pyth(),
        oracle_address: addr("CORACLE"),
        feed_id: text("BTC/USD"),
        threshold,
        comparison: text("gt"),
    }
}

fn new_market(end_time: u64, threshold: i128, resolution_timeout: u64) -> Market {
    Market {
        admin: addr("GADMIN"),
        outcomes: vec![text("yes"), text("no")],
        end_time,
        resolution_timeout,
        oracle_config: oracle_config(threshold),
        has_fallback: false,
        fallback_oracle_config: oracle_config(threshold),
        oracle_result: None,
        winning_outcomes: None,
        votes: Vec::new(),
        stakes: Vec::new(),
        total_staked: 0,
        total_dispute_stakes: 0,
        min_pool_size: None,
        state: MarketState::Active,
    }
}

fn sample_market() -> (String, Market) {
    let market_id = text("cache_mkt");
    let mut market = new_market(3600, 1, 3600);
    let user = addr("GUSER1");
    market.votes.push((user.clone(), text("yes")));
    market.stakes.push((user, 100));
    market.total_staked = 100;
    market.winning_outcomes = Some(vec![text("yes")]);
    (market_id, market)
}

#[test]
fn test_oracle_resolution_manager_fetch_result() {
    let market_id = text("test_market");
    let resolution = ResolutionTesting::create_test_oracle_resolution(0, &market_id);
    assert_eq!(resolution.oracle_result, text("yes"));
    assert_eq!(resolution.price, 2500000);
}

#[test]
fn test_market_resolution_manager_resolve_market() {
    let market_id = text("test_market");
    let resolution = ResolutionTesting::create_test_market_resolution(0, &market_id);
    assert_eq!(resolution.final_outcome, text("yes"));
    assert_eq!(resolution.resolution_method, ResolutionMethod::Hybrid);
}

#[test]
fn test_resolution_utils_get_state() {
    let market = new_market(86400, 2500000, 86400);
    let state = ResolutionUtils::get_resolution_state(&market);
    assert_eq!(state, ResolutionState::Active);
}

#[test]
fn test_resolution_analytics_determine_method() {
    let oracle_result = text("yes");
    let community_consensus = CommunityConsensus {
        outcome: text("yes"),
        votes: 8,
        total_votes: 10,
        percentage: 80,
    };
    let method =
        MarketResolutionAnalytics::determine_resolution_method(&oracle_result, &community_consensus);
    assert_eq!(method, ResolutionMethod::Hybrid);
}

#[test]
fn test_resolution_testing_utilities() {
    let market_id = text("test_market");
    let oracle_resolution = ResolutionTesting::create_test_oracle_resolution(0, &market_id);
    assert!(oracle_resolution.oracle_result == text("yes"));
    let market_resolution = ResolutionTesting::create_test_market_resolution(0, &market_id);
    assert!(ResolutionTesting::validate_resolution_structure(&market_resolution).is_ok());
}

#[test]
fn test_resolution_method_determination() {
    let community_consensus = CommunityConsensus {
        outcome: text("yes"),
        votes: 75,
        total_votes: 100,
        percentage: 75,
    };
    let method = MarketResolutionAnalytics::determine_resolution_method(
        &text("yes"),
        &community_consensus,
    );
    assert!(matches!(method, ResolutionMethod::Hybrid));

    let low_consensus = CommunityConsensus {
        outcome: text("yes"),
        votes: 60,
        total_votes: 100,
        percentage: 60,
    };
    let method =
        MarketResolutionAnalytics::determine_resolution_method(&text("yes"), &low_consensus);
    assert!(matches!(method, ResolutionMethod::OracleOnly));
}

#[test]
fn cache_persists_and_is_read_by_require() {
    let (market_id, market) = sample_market();
    let bettors = Vec::new();
    let mut cache = ResolutionOutcomeCache::new();
    cache.refresh(&market_id, &market, &bettors).unwrap();
    let summary = cache.require(&market_id, &market, &bettors).unwrap();
    assert_eq!(summary.winning_total, 100);
    assert_eq!(summary.total_pool, 100);
    assert_eq!(summary.num_winning_outcomes, 1);
}

#[test]
fn cache_recomputes_after_outcome_override() {
    let (market_id, mut market) = sample_market();
    let bettors = Vec::new();
    let mut cache = ResolutionOutcomeCache::new();
    cache.refresh(&market_id, &market, &bettors).unwrap();

    let user2 = addr("GUSER2");
    market.votes.push((user2.clone(), text("no")));
    market.stakes.push((user2, 200));
    market.total_staked = 300;
    market.winning_outcomes = Some(vec![text("no")]);

    cache.invalidate(&market_id);
    cache.refresh(&market_id, &market, &bettors).unwrap();

    let summary = cache.get(&market_id).unwrap();
    assert_eq!(summary.winning_total, 200);
    assert_eq!(summary.total_pool, 300);
}

#[test]
fn cached_winning_total_matches_recompute() {
    let (market_id, market) = sample_market();
    let bettors = Vec::new();
    let mut cache = ResolutionOutcomeCache::new();
    cache.refresh(&market_id, &market, &bettors).unwrap();
    let summary = cache.require(&market_id, &market, &bettors).unwrap();
    let winning_outcomes = market.winning_outcomes.as_ref().unwrap();
    let recomputed = ResolutionOutcomeCache::compute_winning_total_for_market(
        &market,
        &bettors,
        winning_outcomes,
    )
    .unwrap();
    assert_eq!(summary.winning_total, recomputed);
}
