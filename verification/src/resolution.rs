//! Market resolution: readiness checks, oracle result selection, final
//! outcome and confidence, and resolution status of a market.
use vstd::prelude::*;

use crate::address::Address;
use crate::error::Error;
use crate::market::{
    opt_text, opt_texts, Bet, CommunityConsensus, CommunityConsensusView, Market, MarketState,
    OracleConfigView, OracleProvider,
};
use crate::outcome_cache::{summary_of, ResolutionOutcomeCache};
use crate::text::{clone_strings, contains_string, strings_view};

verus! {

// ===== RESOLUTION TYPES =====

/// Where a market stands in its resolution:
/// Active → OracleResolved → MarketResolved → [Disputed] → Finalized.
#[derive(Clone, Copy, Debug, PartialEq, Eq, Structural)]
pub enum ResolutionState {
    /// No resolution yet.
    Active,
    /// Oracle result fetched, final resolution pending.
    OracleResolved,
    /// Final outcome set.
    MarketResolved,
    /// Resolution disputed.
    Disputed,
    /// Resolution final after dispute.
    Finalized,
}

/// How a market's outcome was decided.
#[derive(Clone, Copy, Debug, PartialEq, Eq, Structural)]
pub enum ResolutionMethod {
    OracleOnly,
    CommunityOnly,
    Hybrid,
    AdminOverride,
    DisputeResolution,
    /// Administrative force-resolve (bypasses time and state checks).
    ForceResolve,
}

/// The oracle's answer for a market: price, comparison and the outcome it
/// implies.
pub struct OracleResolution {
    pub market_id: String,
    pub oracle_result: String,
    pub price: i128,
    pub threshold: i128,
    pub comparison: String,
    pub timestamp: u64,
    pub provider: OracleProvider,
    pub feed_id: String,
}

/// The mathematical value of an oracle resolution.
pub struct OracleResolutionView {
    pub market_id: Seq<char>,
    pub oracle_result: Seq<char>,
    pub price: i128,
    pub threshold: i128,
    pub comparison: Seq<char>,
    pub timestamp: u64,
    pub provider: OracleProvider,
    pub feed_id: Seq<char>,
}

impl View for OracleResolution {
    type V = OracleResolutionView;

    open spec fn view(&self) -> OracleResolutionView {
        OracleResolutionView {
            market_id: self.market_id@,
            oracle_result: self.oracle_result@,
            price: self.price,
            threshold: self.threshold,
            comparison: self.comparison@,
            timestamp: self.timestamp,
            provider: self.provider,
            feed_id: self.feed_id@,
        }
    }
}

/// The final resolution of a market.
pub struct MarketResolution {
    pub market_id: String,
    pub final_outcome: String,
    pub oracle_result: String,
    pub community_consensus: CommunityConsensus,
    pub resolution_timestamp: u64,
    pub resolution_method: ResolutionMethod,
    pub confidence_score: u32,
}

/// The mathematical value of a market resolution.
pub struct MarketResolutionView {
    pub market_id: Seq<char>,
    pub final_outcome: Seq<char>,
    pub oracle_result: Seq<char>,
    pub community_consensus: CommunityConsensusView,
    pub resolution_timestamp: u64,
    pub resolution_method: ResolutionMethod,
    pub confidence_score: u32,
}

impl View for MarketResolution {
    type V = MarketResolutionView;

    open spec fn view(&self) -> MarketResolutionView {
        MarketResolutionView {
            market_id: self.market_id@,
            final_outcome: self.final_outcome@,
            oracle_result: self.oracle_result@,
            community_consensus: self.community_consensus@,
            resolution_timestamp: self.resolution_timestamp,
            resolution_method: self.resolution_method,
            confidence_score: self.confidence_score,
        }
    }
}

/// Aggregate statistics of resolutions.
pub struct ResolutionAnalytics {
    pub total_resolutions: u32,
    pub oracle_resolutions: u32,
    pub community_resolutions: u32,
    pub hybrid_resolutions: u32,
    pub average_confidence: i128,
    pub resolution_times: Vec<u64>,
    pub outcome_distribution: Vec<(String, u32)>,
}

impl Default for ResolutionAnalytics {
    fn default() -> (r: Self)
        ensures
            r.total_resolutions == 0,
            r.oracle_resolutions == 0,
            r.community_resolutions == 0,
            r.hybrid_resolutions == 0,
            r.average_confidence == 0,
            r.resolution_times@.len() == 0,
            r.outcome_distribution@.len() == 0,
    {
        ResolutionAnalytics {
            total_resolutions: 0,
            oracle_resolutions: 0,
            community_resolutions: 0,
            hybrid_resolutions: 0,
            average_confidence: 0,
            resolution_times: Vec::new(),
            outcome_distribution: Vec::new(),
        }
    }
}

/// Result of validating a resolution, with its findings.
pub struct ResolutionValidation {
    pub is_valid: bool,
    pub errors: Vec<String>,
    pub warnings: Vec<String>,
    pub recommendations: Vec<String>,
}

/// Aggregate statistics of oracle resolutions.
pub struct OracleStats {
    pub total_resolutions: u32,
    pub successful_resolutions: u32,
    pub average_confidence: i128,
    pub provider_distribution: Vec<(OracleProvider, u32)>,
}

impl Default for OracleStats {
    fn default() -> (r: Self)
        ensures
            r.total_resolutions == 0,
            r.successful_resolutions == 0,
            r.average_confidence == 0,
            r.provider_distribution@.len() == 0,
    {
        OracleStats {
            total_resolutions: 0,
            successful_resolutions: 0,
            average_confidence: 0,
            provider_distribution: Vec::new(),
        }
    }
}

/// What an authenticated oracle callback delivers.
pub struct OracleCallbackData {
    pub feed_id: String,
    pub price: i128,
    pub timestamp: u64,
}

/// Which configured oracle to query.
#[derive(Clone, Copy, Debug, PartialEq, Eq, Structural)]
pub enum OracleSource {
    Primary,
    Fallback,
}

/// The next step of fetching a market's oracle result.
pub enum OracleFetchStep {
    /// Query this oracle and call again with its answer appended.
    Query(OracleSource),
    /// The oracle result, already recorded on the market.
    Done(OracleResolution),
    /// Fetching failed; no further oracle calls are to be made.
    Failed(Error),
}

/// The mathematical value of a fetch step.
pub enum OracleFetchStepView {
    Query(OracleSource),
    Done(OracleResolutionView),
    Failed(Error),
}

impl View for OracleFetchStep {
    type V = OracleFetchStepView;

    open spec fn view(&self) -> OracleFetchStepView {
        match self {
            OracleFetchStep::Query(s) => OracleFetchStepView::Query(*s),
            OracleFetchStep::Done(r) => OracleFetchStepView::Done(r@),
            OracleFetchStep::Failed(e) => OracleFetchStepView::Failed(*e),
        }
    }
}

/// The view of the answers of the oracles queried so far: each a price with
/// the outcome it implies, or the error of the query.
pub open spec fn attempts_view(s: Seq<Result<(i128, String), Error>>) -> Seq<
    Result<(i128, Seq<char>), Error>,
> {
    s.map_values(
        |a: Result<(i128, String), Error>|
            match a {
                Ok(p) => Ok((p.0, p.1@)),
                Err(e) => Err(e),
            },
    )
}

// ===== SPECIFICATION =====

/// Whether the oracle window of a market has closed at `now`.
pub open spec fn oracle_deadline_passed(m: Market, now: u64) -> bool {
    now >= m.end_time.saturating_add(m.resolution_timeout)
}

/// Readiness of a market for oracle resolution at `now`.
pub open spec fn oracle_readiness(m: Market, now: u64) -> Result<(), Error> {
    if m.oracle_result is Some {
        Err(Error::MarketResolved)
    } else if now < m.end_time {
        Err(Error::MarketClosed)
    } else {
        Ok(())
    }
}

/// The structural checks of an oracle resolution: positive price and
/// threshold and a non-empty outcome.
pub open spec fn oracle_resolution_check(r: OracleResolutionView) -> Result<(), Error> {
    if r.price <= 0 || r.threshold <= 0 || r.oracle_result.len() == 0 {
        Err(Error::InvalidInput)
    } else {
        Ok(())
    }
}

/// The oracle resolution recorded from configuration `c`.
pub open spec fn resolution_from(
    market_id: Seq<char>,
    c: OracleConfigView,
    price: i128,
    outcome: Seq<char>,
    now: u64,
) -> OracleResolutionView {
    OracleResolutionView {
        market_id,
        oracle_result: outcome,
        price,
        threshold: c.threshold,
        comparison: c.comparison,
        timestamp: now,
        provider: c.provider,
        feed_id: c.feed_id,
    }
}

/// The next fetch step for market `m` at `now` given the oracle answers so
/// far: nothing is queried once the oracle window has closed or the market
/// is not ready; the primary is queried first, and the fallback only after
/// the primary failed and only when the market has one.
pub open spec fn fetch_step(
    market_id: Seq<char>,
    m: Market,
    now: u64,
    attempts: Seq<Result<(i128, Seq<char>), Error>>,
) -> OracleFetchStepView {
    if oracle_deadline_passed(m, now) {
        OracleFetchStepView::Failed(Error::ResolutionTimeoutReached)
    } else if oracle_readiness(m, now) is Err {
        OracleFetchStepView::Failed(oracle_readiness(m, now)->Err_0)
    } else if attempts.len() == 0 {
        OracleFetchStepView::Query(OracleSource::Primary)
    } else {
        match attempts[0] {
            Ok(p) => OracleFetchStepView::Done(
                resolution_from(market_id, m.oracle_config@, p.0, p.1, now),
            ),
            Err(_) => if !m.has_fallback {
                OracleFetchStepView::Failed(Error::OracleUnavailable)
            } else if attempts.len() == 1 {
                OracleFetchStepView::Query(OracleSource::Fallback)
            } else {
                match attempts[1] {
                    Ok(p) => OracleFetchStepView::Done(
                        resolution_from(market_id, m.fallback_oracle_config@, p.0, p.1, now),
                    ),
                    Err(_) => OracleFetchStepView::Failed(Error::FallbackOracleUnavailable),
                }
            },
        }
    }
}

/// `a` and `b` agree on everything but the oracle result.
pub open spec fn same_but_oracle_result(a: Market, b: Market) -> bool {
    a == Market { oracle_result: a.oracle_result, ..b }
}

/// `a` and `b` agree on everything but the winning outcomes and the state.
pub open spec fn same_but_resolution(a: Market, b: Market) -> bool {
    a == Market { winning_outcomes: a.winning_outcomes, state: a.state, ..b }
}

/// The minimum pool that applies to a market: its own, else the global one.
pub open spec fn min_pool_of(m: Market, global_min_pool: i128) -> i128 {
    match m.min_pool_size {
        Some(x) => x,
        None => global_min_pool,
    }
}

/// Readiness of a market for final resolution at `now`: not yet resolved,
/// oracle result present, market ended, and, when a minimum pool applies,
/// the normalized total stake (first of `normalized_pool`) not below the
/// normalized minimum (second).
pub open spec fn resolution_readiness(
    m: Market,
    now: u64,
    global_min_pool: i128,
    normalized_pool: Result<(i128, i128), Error>,
) -> Result<(), Error> {
    if m.winning_outcomes is Some {
        Err(Error::MarketResolved)
    } else if m.oracle_result is None {
        Err(Error::OracleUnavailable)
    } else if !m.ended_at(now) {
        Err(Error::MarketClosed)
    } else if min_pool_of(m, global_min_pool) > 0 {
        match normalized_pool {
            Err(e) => Err(e),
            Ok(p) => if p.0 < p.1 {
                Err(Error::InvalidState)
            } else {
                Ok(())
            },
        }
    } else {
        Ok(())
    }
}

/// The method chosen from the community consensus: hybrid above 70%,
/// oracle only otherwise.
pub open spec fn method_for(c: CommunityConsensusView) -> ResolutionMethod {
    if c.percentage > 70 {
        ResolutionMethod::Hybrid
    } else {
        ResolutionMethod::OracleOnly
    }
}

/// The community's confidence as used in scoring (the percentage taken as
/// a `u32`).
pub open spec fn community_confidence(c: CommunityConsensusView) -> u32 {
    c.percentage as u32
}

/// Inputs on which the confidence score is computed without overflow.
pub open spec fn confidence_defined(c: CommunityConsensusView, method: ResolutionMethod) -> bool {
    method == ResolutionMethod::Hybrid ==> 85 + community_confidence(c) <= u32::MAX
}

/// The confidence score of a resolution by `method`.
pub open spec fn confidence_for(c: CommunityConsensusView, method: ResolutionMethod) -> u32 {
    match method {
        ResolutionMethod::OracleOnly => 85,
        ResolutionMethod::CommunityOnly => if community_confidence(c) < 90 {
            community_confidence(c)
        } else {
            90
        },
        ResolutionMethod::Hybrid => {
            let h = ((85 + community_confidence(c)) / 2) as u32;
            if h < 95 {
                h
            } else {
                95
            }
        },
        ResolutionMethod::AdminOverride => 100,
        ResolutionMethod::DisputeResolution => 75,
        ResolutionMethod::ForceResolve => 100,
    }
}

/// The checks of a market resolution at `now`: non-empty final outcome,
/// confidence at most 100, timestamp not in the future.
pub open spec fn market_resolution_check(r: MarketResolutionView, now: u64) -> Result<(), Error> {
    if r.final_outcome.len() == 0 || r.confidence_score > 100 || r.resolution_timestamp > now {
        Err(Error::InvalidInput)
    } else {
        Ok(())
    }
}

/// The resolution status of a market.
pub open spec fn resolution_state_of(m: Market) -> ResolutionState {
    if m.winning_outcomes is Some {
        ResolutionState::MarketResolved
    } else if m.oracle_result is Some {
        ResolutionState::OracleResolved
    } else if m.total_dispute_stakes > 0 {
        ResolutionState::Disputed
    } else {
        ResolutionState::Active
    }
}

/// Whether a market can be resolved at `now`.
pub open spec fn resolvable(m: Market, now: u64) -> bool {
    m.ended_at(now) && m.oracle_result is Some && m.winning_outcomes is None
}

/// The absolute value of a price.
pub open spec fn price_magnitude(p: i128) -> int {
    if p < 0 {
        -p
    } else {
        p as int
    }
}

/// The outcome an oracle callback with `price` selects among `outcomes`:
/// for two outcomes, the "yes" one (the first when it reads "yes", else the
/// second) when the price is positive and the other one otherwise; for any other number of outcomes, the one
/// at the price's magnitude (taken as a `u32`) modulo their number.
pub open spec fn callback_outcome(price: i128, outcomes: Seq<Seq<char>>) -> Seq<char> {
    if outcomes.len() == 2 {
        let first_is_yes = outcomes[0] == "yes"@;
        let yes = if first_is_yes {
            outcomes[0]
        } else {
            outcomes[1]
        };
        let no = if first_is_yes {
            outcomes[1]
        } else {
            outcomes[0]
        };
        if price > 0 {
            yes
        } else {
            no
        }
    } else {
        outcomes[((price_magnitude(price) as u32) % (outcomes.len() as u32)) as int]
    }
}

/// Callback inputs on which the outcome is computed without panicking.
pub open spec fn callback_outcome_defined(price: i128, outcomes: Seq<Seq<char>>) -> bool {
    outcomes.len() != 2 ==> (0 < outcomes.len() <= u32::MAX && price != i128::MIN)
}

/// Whether a text is empty.
fn is_empty_text(s: &String) -> (b: bool)
    ensures
        b == (s@.len() == 0),
{
    s.as_str().is_empty()
}

// ===== RESOLUTION VALIDATION =====

/// Checks for oracle resolution.
pub struct OracleResolutionValidator;

impl OracleResolutionValidator {
    /// A market is ready for oracle resolution once it has ended and while
    /// it has no oracle result.
    pub fn validate_market_for_oracle_resolution(now: u64, market: &Market) -> (r: Result<(), Error>)
        ensures
            r == oracle_readiness(*market, now),
    {
        if market.oracle_result.is_some() {
            return Err(Error::MarketResolved);
        }
        if now < market.end_time {
            return Err(Error::MarketClosed);
        }
        Ok(())
    }

    /// Rejects a non-positive price or threshold and an empty outcome.
    pub fn validate_oracle_resolution(resolution: &OracleResolution) -> (r: Result<(), Error>)
        ensures
            r == oracle_resolution_check(resolution@),
    {
        if resolution.price <= 0 {
            return Err(Error::InvalidInput);
        }
        if resolution.threshold <= 0 {
            return Err(Error::InvalidInput);
        }
        if is_empty_text(&resolution.oracle_result) {
            return Err(Error::InvalidInput);
        }
        Ok(())
    }
}

/// Checks for market resolution.
pub struct MarketResolutionValidator;

impl MarketResolutionValidator {
    /// The minimum pool that applies to `market`: its own override, else
    /// the global minimum.
    pub fn minimum_pool(market: &Market, global_min_pool: i128) -> (r: i128)
        ensures
            r == min_pool_of(*market, global_min_pool),
    {
        match market.min_pool_size {
            Some(x) => x,
            None => global_min_pool,
        }
    }

    /// A market is ready for resolution when it has no winning outcomes
    /// yet, has an oracle result, has ended, and meets its minimum pool.
    /// `normalized_pool` is the total stake and the minimum pool, both
    /// normalized to the token's canonical scale; it is consulted only when
    /// a positive minimum pool applies.
    pub fn validate_market_for_resolution(
        now: u64,
        market: &Market,
        global_min_pool: i128,
        normalized_pool: Result<(i128, i128), Error>,
    ) -> (r: Result<(), Error>)
        ensures
            r == resolution_readiness(*market, now, global_min_pool, normalized_pool),
    {
        if market.winning_outcomes.is_some() {
            return Err(Error::MarketResolved);
        }
        if market.oracle_result.is_none() {
            return Err(Error::OracleUnavailable);
        }
        if market.is_active(now) {
            return Err(Error::MarketClosed);
        }
        let min_pool = Self::minimum_pool(market, global_min_pool);
        if min_pool > 0 {
            let (normalized_total, normalized_min) = normalized_pool?;
            if normalized_total < normalized_min {
                return Err(Error::InvalidState);
            }
        }
        Ok(())
    }

    /// Only the stored admin passes; with no stored admin nobody does.
    pub fn validate_admin_permissions(admin: &Address, stored_admin: &Option<Address>) -> (r: Result<
        (),
        Error,
    >)
        ensures
            r == (match stored_admin {
                Some(a) => if a@ == admin@ {
                    Ok(())
                } else {
                    Err(Error::Unauthorized)
                },
                None => Err(Error::Unauthorized),
            }),
    {
        match stored_admin {
            Some(stored) => {
                if !admin.same_as(stored) {
                    return Err(Error::Unauthorized);
                }
                Ok(())
            },
            None => Err(Error::Unauthorized),
        }
    }

    /// The outcome must be one of `valid_outcomes`.
    pub fn validate_outcome(outcome: &String, valid_outcomes: &Vec<String>) -> (r: Result<(), Error>)
        ensures
            r == (if strings_view(valid_outcomes@).contains(outcome@) {
                Ok(())
            } else {
                Err(Error::InvalidOutcome)
            }),
    {
        if !contains_string(valid_outcomes, outcome) {
            return Err(Error::InvalidOutcome);
        }
        Ok(())
    }

    /// Rejects an empty final outcome, a confidence above 100 and a
    /// timestamp after `now`.
    pub fn validate_market_resolution(now: u64, resolution: &MarketResolution) -> (r: Result<(), Error>)
        ensures
            r == market_resolution_check(resolution@, now),
    {
        if is_empty_text(&resolution.final_outcome) {
            return Err(Error::InvalidInput);
        }
        if resolution.confidence_score > 100 {
            return Err(Error::InvalidInput);
        }
        if resolution.resolution_timestamp > now {
            return Err(Error::InvalidInput);
        }
        Ok(())
    }
}

// ===== RESOLUTION ANALYTICS =====

/// Oracle resolution analytics.
pub struct OracleResolutionAnalytics;

impl OracleResolutionAnalytics {
    /// Oracle statistics (none are collected yet).
    pub fn get_oracle_stats() -> (r: Result<OracleStats, Error>)
        ensures
            r matches Ok(s) && s.total_resolutions == 0 && s.successful_resolutions == 0
                && s.average_confidence == 0 && s.provider_distribution@.len() == 0,
    {
        Ok(OracleStats::default())
    }
}

/// Market resolution analytics.
pub struct MarketResolutionAnalytics;

impl MarketResolutionAnalytics {
    /// Hybrid when more than 70% of the community agrees, oracle only
    /// otherwise.
    pub fn determine_resolution_method(
        oracle_result: &String,
        community_consensus: &CommunityConsensus,
    ) -> (m: ResolutionMethod)
        ensures
            m == method_for(community_consensus@),
    {
        if community_consensus.percentage > 70 {
            ResolutionMethod::Hybrid
        } else {
            ResolutionMethod::OracleOnly
        }
    }

    /// Whether the confidence score of the method chosen for
    /// `community_consensus` is computed without overflow.
    pub fn confidence_score_is_defined(community_consensus: &CommunityConsensus) -> (b: bool)
        ensures
            b == confidence_defined(community_consensus@, method_for(community_consensus@)),
    {
        community_consensus.percentage <= 70 || (community_consensus.percentage as u32) <= u32::MAX
            - 85
    }

    /// The confidence score of a resolution by `method`.
    pub fn calculate_confidence_score(
        oracle_result: &String,
        community_consensus: &CommunityConsensus,
        method: &ResolutionMethod,
    ) -> (c: u32)
        requires
            confidence_defined(community_consensus@, *method),
        ensures
            c == confidence_for(community_consensus@, *method),
    {
        match method {
            ResolutionMethod::OracleOnly => 85,
            ResolutionMethod::CommunityOnly => {
                let base_confidence = community_consensus.percentage as u32;
                if base_confidence < 90 {
                    base_confidence
                } else {
                    90
                }
            },
            ResolutionMethod::Hybrid => {
                let oracle_confidence: u32 = 85;
                let community_confidence = community_consensus.percentage as u32;
                let h = (oracle_confidence + community_confidence) / 2;
                if h < 95 {
                    h
                } else {
                    95
                }
            },
            ResolutionMethod::AdminOverride => 100,
            ResolutionMethod::DisputeResolution => 75,
            ResolutionMethod::ForceResolve => 100,
        }
    }

    /// Resolution analytics (none are collected yet).
    pub fn calculate_resolution_analytics() -> (r: Result<ResolutionAnalytics, Error>)
        ensures
            r matches Ok(a) && a.total_resolutions == 0 && a.oracle_resolutions == 0
                && a.community_resolutions == 0 && a.hybrid_resolutions == 0
                && a.average_confidence == 0 && a.resolution_times@.len() == 0
                && a.outcome_distribution@.len() == 0,
    {
        Ok(ResolutionAnalytics::default())
    }

    /// Records a resolution in the analytics (nothing is stored yet).
    pub fn update_resolution_analytics(resolution: &MarketResolution) -> (r: Result<(), Error>)
        ensures
            r == Ok::<(), Error>(()),
    {
        Ok(())
    }
}

// ===== RESOLUTION UTILITIES =====

/// Resolution helpers.
pub struct ResolutionUtils;

impl ResolutionUtils {
    /// The resolution status: resolved if it has winning outcomes, else
    /// oracle-resolved if it has an oracle result, else disputed if it holds
    /// dispute stakes, else active.
    pub fn get_resolution_state(market: &Market) -> (s: ResolutionState)
        ensures
            s == resolution_state_of(*market),
    {
        if market.winning_outcomes.is_some() {
            ResolutionState::MarketResolved
        } else if market.oracle_result.is_some() {
            ResolutionState::OracleResolved
        } else if market.total_dispute_stakes > 0 {
            ResolutionState::Disputed
        } else {
            ResolutionState::Active
        }
    }

    /// Whether the market can be resolved at `now`: ended, with an oracle
    /// result, not yet resolved.
    pub fn can_resolve_market(now: u64, market: &Market) -> (b: bool)
        ensures
            b == resolvable(*market, now),
    {
        market.has_ended(now) && market.oracle_result.is_some() && market.winning_outcomes.is_none()
    }

    /// Whether the market can be resolved at `now`, with the reason.
    pub fn get_resolution_eligibility(now: u64, market: &Market) -> (r: (bool, String))
        ensures
            r.0 == resolvable(*market, now),
            r.1@ == (if !market.ended_at(now) {
                "Market has not ended"@
            } else if market.oracle_result is None {
                "Oracle result not available"@
            } else if market.winning_outcomes is Some {
                "Market already resolved"@
            } else {
                "Eligible for resolution"@
            }),
    {
        if !market.has_ended(now) {
            return (false, String::from_str("Market has not ended"));
        }
        if market.oracle_result.is_none() {
            return (false, String::from_str("Oracle result not available"));
        }
        if market.winning_outcomes.is_some() {
            return (false, String::from_str("Market already resolved"));
        }
        (true, String::from_str("Eligible for resolution"))
    }

    /// Seconds elapsed since the market's end (0 before it ends).
    pub fn calculate_resolution_time(now: u64, market: &Market) -> (t: u64)
        ensures
            t == (if now > market.end_time {
                (now - market.end_time) as u64
            } else {
                0
            }),
    {
        if now > market.end_time {
            now - market.end_time
        } else {
            0
        }
    }

    /// The outcome must be one of the market's and the market not resolved.
    pub fn validate_resolution_parameters(market: &Market, outcome: &String) -> (r: Result<(), Error>)
        ensures
            r == (if !strings_view(market.outcomes@).contains(outcome@) {
                Err(Error::InvalidOutcome)
            } else if market.winning_outcomes is Some {
                Err(Error::MarketResolved)
            } else {
                Ok(())
            }),
    {
        if !contains_string(&market.outcomes, outcome) {
            return Err(Error::InvalidOutcome);
        }
        if market.winning_outcomes.is_some() {
            return Err(Error::MarketResolved);
        }
        Ok(())
    }
}

// ===== ORACLE RESOLUTION =====

/// Oracle resolution of markets.
pub struct OracleResolutionManager;

impl OracleResolutionManager {
    /// Decides the next step of fetching the oracle result of `market` at
    /// ledger time `now`, given the answers of the oracles queried so far
    /// (`attempts`, in query order: the primary's, then the fallback's).
    /// The primary oracle is tried once; the fallback once, only after the
    /// primary failed and only when the market has one. No query is asked
    /// for once `now` reaches the end time plus the resolution timeout. On
    /// success the outcome is recorded as the market's oracle result.
    pub fn fetch_oracle_result(
        market_id: &String,
        market: &mut Market,
        now: u64,
        attempts: &Vec<Result<(i128, String), Error>>,
    ) -> (step: OracleFetchStep)
        ensures
            step@ == fetch_step(market_id@, *old(market), now, attempts_view(attempts@)),
            step is Done ==> same_but_oracle_result(*final(market), *old(market)) && opt_text(
                final(market).oracle_result,
            ) == Some(step->Done_0@.oracle_result),
            !(step is Done) ==> *final(market) == *old(market),
    {
        if now >= market.end_time.saturating_add(market.resolution_timeout) {
            return OracleFetchStep::Failed(Error::ResolutionTimeoutReached);
        }
        match OracleResolutionValidator::validate_market_for_oracle_resolution(now, market) {
            Err(e) => {
                return OracleFetchStep::Failed(e);
            },
            Ok(()) => {},
        }
        if attempts.len() == 0 {
            return OracleFetchStep::Query(OracleSource::Primary);
        }
        let ghost av = attempts_view(attempts@);
        let (config, price, outcome) = match &attempts[0] {
            Ok(answer) => (market.oracle_config.clone(), answer.0, answer.1.clone()),
            Err(_) => {
                if !market.has_fallback {
                    return OracleFetchStep::Failed(Error::OracleUnavailable);
                }
                if attempts.len() == 1 {
                    return OracleFetchStep::Query(OracleSource::Fallback);
                }
                match &attempts[1] {
                    Ok(answer) => (market.fallback_oracle_config.clone(), answer.0, answer.1.clone()),
                    Err(_) => {
                        return OracleFetchStep::Failed(Error::FallbackOracleUnavailable);
                    },
                }
            },
        };
        let resolution = OracleResolution {
            market_id: market_id.clone(),
            oracle_result: outcome.clone(),
            price,
            threshold: config.threshold,
            comparison: config.comparison.clone(),
            timestamp: now,
            provider: config.provider,
            feed_id: config.feed_id.clone(),
        };
        market.oracle_result = Some(outcome);
        OracleFetchStep::Done(resolution)
    }

    /// The name under which an oracle provider is reported.
    pub fn provider_label(provider: OracleProvider) -> (s: String)
        ensures
            s@ == (match provider {
                OracleProvider::Reflector => "Reflector"@,
                OracleProvider::Pyth => "Pyth"@,
                _ => "Custom"@,
            }),
    {
        match provider {
            OracleProvider::Reflector => String::from_str("Reflector"),
            OracleProvider::Pyth => String::from_str("Pyth"),
            _ => String::from_str("Custom"),
        }
    }

    /// Stored oracle resolutions are not kept; always none.
    pub fn get_oracle_resolution(market_id: &String) -> (r: Result<Option<OracleResolution>, Error>)
        ensures
            r matches Ok(None),
    {
        Ok(None)
    }

    /// Rejects a non-positive price or threshold and an empty outcome.
    pub fn validate_oracle_resolution(resolution: &OracleResolution) -> (r: Result<(), Error>)
        ensures
            r == oracle_resolution_check(resolution@),
    {
        if resolution.price <= 0 {
            return Err(Error::InvalidInput);
        }
        if resolution.threshold <= 0 {
            return Err(Error::InvalidInput);
        }
        if is_empty_text(&resolution.oracle_result) {
            return Err(Error::InvalidInput);
        }
        Ok(())
    }
}

// ===== MARKET RESOLUTION =====

/// The resolution recorded by an automated resolution of market `m` with
/// community consensus `c` and winning outcomes `w`: the first winning
/// outcome (the oracle result when there is none), method and confidence
/// from the consensus.
pub open spec fn automated_resolution(
    market_id: Seq<char>,
    m: Market,
    now: u64,
    c: CommunityConsensusView,
    w: Seq<Seq<char>>,
) -> MarketResolutionView {
    let oracle = m.oracle_result.unwrap()@;
    MarketResolutionView {
        market_id,
        final_outcome: if w.len() > 0 {
            w[0]
        } else {
            oracle
        },
        oracle_result: oracle,
        community_consensus: c,
        resolution_timestamp: now,
        resolution_method: method_for(c),
        confidence_score: confidence_for(c, method_for(c)),
    }
}

/// The resolution recorded by an admin finalizing market `m` with
/// `outcome`.
pub open spec fn admin_resolution(
    market_id: Seq<char>,
    m: Market,
    now: u64,
    c: CommunityConsensusView,
    outcome: Seq<char>,
) -> MarketResolutionView {
    MarketResolutionView {
        market_id,
        final_outcome: outcome,
        oracle_result: match m.oracle_result {
            Some(o) => o@,
            None => Seq::empty(),
        },
        community_consensus: c,
        resolution_timestamp: now,
        resolution_method: ResolutionMethod::AdminOverride,
        confidence_score: 100,
    }
}

/// Final resolution of markets.
pub struct MarketResolutionManager;

impl MarketResolutionManager {
    /// Resolves a market that is ready (see `resolution_readiness`): sets
    /// its winning outcomes (`winning_outcomes`, as determined from the
    /// oracle result and community consensus with exact-tie detection),
    /// marks it resolved, refreshes its cached payout summary, and returns
    /// the resolution record.
    pub fn resolve_market(
        market_id: &String,
        market: &mut Market,
        now: u64,
        global_min_pool: i128,
        normalized_pool: Result<(i128, i128), Error>,
        community_consensus: &CommunityConsensus,
        winning_outcomes: &Vec<String>,
        bettors: &Vec<(Address, Option<Bet>)>,
        cache: &mut ResolutionOutcomeCache,
    ) -> (r: Result<MarketResolution, Error>)
        requires
            old(cache).well_formed(),
            winning_outcomes@.len() <= u32::MAX,
            confidence_defined(community_consensus@, method_for(community_consensus@)),
        ensures
            final(cache).well_formed(),
            resolution_readiness(*old(market), now, global_min_pool, normalized_pool) is Err ==> r
                == Err::<MarketResolution, Error>(
                resolution_readiness(*old(market), now, global_min_pool, normalized_pool)->Err_0,
            ) && *final(market) == *old(market) && final(cache)@ == old(cache)@,
            resolution_readiness(*old(market), now, global_min_pool, normalized_pool) is Ok ==> {
                &&& same_but_resolution(*final(market), *old(market))
                &&& opt_texts(final(market).winning_outcomes) == Some(strings_view(winning_outcomes@))
                &&& final(market).state == MarketState::Resolved
                &&& match summary_of(*final(market), bettors@) {
                    None => r == Err::<MarketResolution, Error>(Error::InvalidInput) && final(cache)@ == old(cache)@,
                    Some(s) => final(cache)@ == old(cache)@.insert(
                        market_id@,
                        (s, strings_view(winning_outcomes@)),
                    ) && r is Ok && r->Ok_0@ == automated_resolution(
                        market_id@,
                        *old(market),
                        now,
                        community_consensus@,
                        strings_view(winning_outcomes@),
                    ),
                }
            },
    {
        MarketResolutionValidator::validate_market_for_resolution(
            now,
            market,
            global_min_pool,
            normalized_pool,
        )?;
        let oracle_result = match &market.oracle_result {
            Some(o) => o.clone(),
            None => {
                return Err(Error::OracleUnavailable);
            },
        };
        let final_result = if winning_outcomes.len() > 0 {
            winning_outcomes[0].clone()
        } else {
            oracle_result.clone()
        };
        let resolution_method = MarketResolutionAnalytics::determine_resolution_method(
            &oracle_result,
            community_consensus,
        );
        let confidence_score = MarketResolutionAnalytics::calculate_confidence_score(
            &oracle_result,
            community_consensus,
            &resolution_method,
        );
        let resolution = MarketResolution {
            market_id: market_id.clone(),
            final_outcome: final_result,
            oracle_result,
            community_consensus: community_consensus.clone(),
            resolution_timestamp: now,
            resolution_method,
            confidence_score,
        };
        market.winning_outcomes = Some(clone_strings(winning_outcomes));
        market.state = MarketState::Resolved;
        cache.refresh(market_id, market, bettors)?;
        Ok(resolution)
    }

    /// An admin sets `outcome` as the single winning outcome (full
    /// confidence), marks the market resolved and refreshes its payout
    /// summary. `stored_admin` is the contract's registered admin.
    pub fn finalize_market(
        admin: &Address,
        stored_admin: &Option<Address>,
        market_id: &String,
        market: &mut Market,
        now: u64,
        outcome: &String,
        community_consensus: &CommunityConsensus,
        bettors: &Vec<(Address, Option<Bet>)>,
        cache: &mut ResolutionOutcomeCache,
    ) -> (r: Result<MarketResolution, Error>)
        requires
            old(cache).well_formed(),
        ensures
            final(cache).well_formed(),
            !(stored_admin matches Some(a) && a@ == admin@) ==> r == Err::<MarketResolution, Error>(
                Error::Unauthorized,
            ) && *final(market) == *old(market) && final(cache)@ == old(cache)@,
            (stored_admin matches Some(a) && a@ == admin@) && !strings_view(
                old(market).outcomes@,
            ).contains(outcome@) ==> r == Err::<MarketResolution, Error>(Error::InvalidOutcome)
                && *final(market) == *old(market) && final(cache)@ == old(cache)@,
            (stored_admin matches Some(a) && a@ == admin@) && strings_view(
                old(market).outcomes@,
            ).contains(outcome@) ==> {
                &&& same_but_resolution(*final(market), *old(market))
                &&& opt_texts(final(market).winning_outcomes) == Some(seq![outcome@])
                &&& final(market).state == MarketState::Resolved
                &&& match summary_of(*final(market), bettors@) {
                    None => r == Err::<MarketResolution, Error>(Error::InvalidInput) && final(cache)@ == old(cache)@,
                    Some(s) => final(cache)@ == old(cache)@.insert(market_id@, (s, seq![outcome@]))
                        && r is Ok && r->Ok_0@ == admin_resolution(
                        market_id@,
                        *old(market),
                        now,
                        community_consensus@,
                        outcome@,
                    ),
                }
            },
    {
        MarketResolutionValidator::validate_admin_permissions(admin, stored_admin)?;
        MarketResolutionValidator::validate_outcome(outcome, &market.outcomes)?;
        let oracle_result = match &market.oracle_result {
            Some(o) => o.clone(),
            None => String::from_str(""),
        };
        proof {
            reveal_strlit("");
            assert(oracle_result@ == (match old(market).oracle_result {
                Some(o) => o@,
                None => Seq::<char>::empty(),
            }));
        }
        let resolution = MarketResolution {
            market_id: market_id.clone(),
            final_outcome: outcome.clone(),
            oracle_result,
            community_consensus: community_consensus.clone(),
            resolution_timestamp: now,
            resolution_method: ResolutionMethod::AdminOverride,
            confidence_score: 100,
        };
        let mut winning_outcomes: Vec<String> = Vec::new();
        winning_outcomes.push(outcome.clone());
        proof {
            assert(strings_view(winning_outcomes@) =~= seq![outcome@]);
        }
        market.winning_outcomes = Some(winning_outcomes);
        market.state = MarketState::Resolved;
        assert(resolution@ == admin_resolution(market_id@, *old(market), now, community_consensus@, outcome@));
        assert(same_but_resolution(*market, *old(market)));
        cache.refresh(market_id, market, bettors)?;
        Ok(resolution)
    }

    /// Stored market resolutions are not kept; always none.
    pub fn get_market_resolution(market_id: &String) -> (r: Result<Option<MarketResolution>, Error>)
        ensures
            r matches Ok(None),
    {
        Ok(None)
    }

    /// The checks of `MarketResolutionValidator::validate_market_resolution`.
    pub fn validate_market_resolution(now: u64, resolution: &MarketResolution) -> (r: Result<
        (),
        Error,
    >)
        ensures
            r == market_resolution_check(resolution@, now),
    {
        MarketResolutionValidator::validate_market_resolution(now, resolution)
    }
}

// ===== RESOLUTION TESTING =====

/// Resolution testing utilities.
pub struct ResolutionTesting;

impl ResolutionTesting {
    /// A sample oracle resolution ("yes" at a price of 2500000 against the
    /// same threshold, Pyth BTC/USD feed) stamped with `now`.
    pub fn create_test_oracle_resolution(now: u64, market_id: &String) -> (r: OracleResolution)
        ensures
            r@ == (OracleResolutionView {
                market_id: market_id@,
                oracle_result: "yes"@,
                price: 2500000,
                threshold: 2500000,
                comparison: "gt"@,
                timestamp: now,
                provider: OracleProvider::Pyth,
                feed_id: "BTC/USD"@,
            }),
    {
        OracleResolution {
            market_id: market_id.clone(),
            oracle_result: String::from_str("yes"),
            price: 2500000,
            threshold: 2500000,
            comparison: String::from_str("gt"),
            timestamp: now,
            provider: OracleProvider::pyth(),
            feed_id: String::from_str("BTC/USD"),
        }
    }

    /// A sample hybrid market resolution ("yes", 60% community consensus,
    /// confidence 80) stamped with `now`.
    pub fn create_test_market_resolution(now: u64, market_id: &String) -> (r: MarketResolution)
        ensures
            r@ == (MarketResolutionView {
                market_id: market_id@,
                final_outcome: "yes"@,
                oracle_result: "yes"@,
                community_consensus: CommunityConsensusView {
                    outcome: "yes"@,
                    votes: 6,
                    total_votes: 10,
                    percentage: 60,
                },
                resolution_timestamp: now,
                resolution_method: ResolutionMethod::Hybrid,
                confidence_score: 80,
            }),
    {
        MarketResolution {
            market_id: market_id.clone(),
            final_outcome: String::from_str("yes"),
            oracle_result: String::from_str("yes"),
            community_consensus: CommunityConsensus {
                outcome: String::from_str("yes"),
                votes: 6,
                total_votes: 10,
                percentage: 60,
            },
            resolution_timestamp: now,
            resolution_method: ResolutionMethod::Hybrid,
            confidence_score: 80,
        }
    }

    /// Rejects an empty final outcome and a confidence above 100.
    pub fn validate_resolution_structure(resolution: &MarketResolution) -> (r: Result<(), Error>)
        ensures
            r == (if resolution.final_outcome@.len() == 0 || resolution.confidence_score > 100 {
                Err(Error::InvalidInput)
            } else {
                Ok(())
            }),
    {
        if is_empty_text(&resolution.final_outcome) {
            return Err(Error::InvalidInput);
        }
        if resolution.confidence_score > 100 {
            return Err(Error::InvalidInput);
        }
        Ok(())
    }
}

// ===== ORACLE CALLBACK RESOLUTION =====

/// Market resolution from authenticated oracle callbacks.
pub struct OracleCallbackResolver;

/// The oracle resolution recorded from a callback on market `m`.
pub open spec fn callback_resolution(
    market_id: Seq<char>,
    price: i128,
    timestamp: u64,
    feed_id: Seq<char>,
    m: Market,
) -> OracleResolutionView {
    OracleResolutionView {
        market_id,
        oracle_result: callback_outcome(price, strings_view(m.outcomes@)),
        price,
        threshold: m.oracle_config.threshold,
        comparison: "eq"@,
        timestamp,
        provider: m.oracle_config.provider,
        feed_id,
    }
}

impl OracleCallbackResolver {
    /// After the callback is authenticated (`authentication`, the oracle
    /// module's verdict on caller and data), records the outcome the
    /// callback's price selects as the market's oracle result.
    pub fn process_authenticated_callback(
        now: u64,
        authentication: Result<(), Error>,
        callback_data: &OracleCallbackData,
        market_id: &String,
        market: &mut Market,
    ) -> (r: Result<(), Error>)
        requires
            authentication is Ok && oracle_readiness(*old(market), now) is Ok
                ==> callback_outcome_defined(callback_data.price, strings_view(old(market).outcomes@)),
        ensures
            authentication is Err ==> r == authentication && *final(market) == *old(market),
            authentication is Ok ==> Self::callback_update(
                now,
                callback_data,
                market_id,
                *old(market),
                *final(market),
                r,
            ),
    {
        authentication?;
        Self::update_market_resolution(now, callback_data, market_id, market)?;
        Ok(())
    }

    /// The effect of a callback update: readiness checked, the resolution
    /// validated, then the selected outcome recorded.
    pub open spec fn callback_update(
        now: u64,
        callback_data: &OracleCallbackData,
        market_id: &String,
        before: Market,
        after: Market,
        r: Result<(), Error>,
    ) -> bool {
        let res = callback_resolution(
            market_id@,
            callback_data.price,
            callback_data.timestamp,
            callback_data.feed_id@,
            before,
        );
        if oracle_readiness(before, now) is Err {
            r == oracle_readiness(before, now) && after == before
        } else if oracle_resolution_check(res) is Err {
            r == oracle_resolution_check(res) && after == before
        } else {
            r == Ok::<(), Error>(()) && same_but_oracle_result(after, before) && opt_text(
                after.oracle_result,
            ) == Some(res.oracle_result)
        }
    }

    /// Records the outcome selected by an authenticated callback.
    fn update_market_resolution(
        now: u64,
        callback_data: &OracleCallbackData,
        market_id: &String,
        market: &mut Market,
    ) -> (r: Result<(), Error>)
        requires
            oracle_readiness(*old(market), now) is Ok ==> callback_outcome_defined(
                callback_data.price,
                strings_view(old(market).outcomes@),
            ),
        ensures
            Self::callback_update(now, callback_data, market_id, *old(market), *final(market), r),
    {
        OracleResolutionValidator::validate_market_for_oracle_resolution(now, market)?;
        let outcome = Self::determine_outcome_from_oracle_data(callback_data, market)?;
        let resolution = OracleResolution {
            market_id: market_id.clone(),
            feed_id: callback_data.feed_id.clone(),
            comparison: String::from_str("eq"),
            provider: market.oracle_config.provider,
            price: callback_data.price,
            timestamp: callback_data.timestamp,
            oracle_result: outcome.clone(),
            threshold: market.oracle_config.threshold,
        };
        OracleResolutionValidator::validate_oracle_resolution(&resolution)?;
        market.oracle_result = Some(outcome);
        Ok(())
    }

    /// The outcome a callback's price selects (see `callback_outcome`).
    pub fn determine_outcome_from_oracle_data(
        callback_data: &OracleCallbackData,
        market: &Market,
    ) -> (r: Result<String, Error>)
        requires
            callback_outcome_defined(callback_data.price, strings_view(market.outcomes@)),
        ensures
            r is Ok,
            r->Ok_0@ == callback_outcome(callback_data.price, strings_view(market.outcomes@)),
    {
        let ghost outs = strings_view(market.outcomes@);
        if market.outcomes.len() == 2 {
            proof {
                reveal_strlit("yes");
            }
            let first_is_yes = market.outcomes[0] == String::from_str("yes");
            let (yes_outcome, no_outcome) = if first_is_yes {
                (&market.outcomes[0], &market.outcomes[1])
            } else {
                (&market.outcomes[1], &market.outcomes[0])
            };
            proof {
                assert(outs[0] == market.outcomes@[0]@);
                assert(outs[1] == market.outcomes@[1]@);
            }
            if callback_data.price > 0 {
                Ok(yes_outcome.clone())
            } else {
                Ok(no_outcome.clone())
            }
        } else {
            let num_outcomes = market.outcomes.len() as u32;
            let magnitude = if callback_data.price < 0 {
                -callback_data.price
            } else {
                callback_data.price
            };
            let outcome_index = (magnitude as u32) % num_outcomes;
            proof {
                assert(outs[outcome_index as int] == market.outcomes@[outcome_index as int]@);
            }
            Ok(market.outcomes[outcome_index as usize].clone())
        }
    }

    /// A callback caller may resolve the market when the oracle whitelist
    /// authorizes it (`oracle_authorized`) and the market is ready for
    /// oracle resolution.
    pub fn validate_oracle_authorization_for_market(
        now: u64,
        oracle_authorized: Result<bool, Error>,
        market: &Market,
    ) -> (r: Result<(), Error>)
        ensures
            r == (match oracle_authorized {
                Err(e) => Err(e),
                Ok(false) => Err(Error::OracleCallbackUnauthorized),
                Ok(true) => oracle_readiness(*market, now),
            }),
    {
        if !oracle_authorized? {
            return Err(Error::OracleCallbackUnauthorized);
        }
        OracleResolutionValidator::validate_market_for_oracle_resolution(now, market)?;
        Ok(())
    }
}

} // verus!
