//! Properties of market resolution that span several functions.
use vstd::prelude::*;

use crate::address::Address;
use crate::error::Error;
use crate::market::{amounts_view, votes_view, Bet, CommunityConsensusView, Market};
use crate::outcome_cache::{
    bet_total, bettors_view, cache_entry_of, fits_i128, is_current, summary_of, vote_total,
    winning_total, ResolvedOutcomeSummary,
};
use crate::resolution::{
    admin_resolution, attempts_view, automated_resolution, callback_outcome,
    callback_outcome_defined, confidence_for, fetch_step, market_resolution_check,
    min_pool_of, oracle_deadline_passed, oracle_readiness, resolution_readiness,
    resolution_state_of, resolvable, same_but_oracle_result, same_but_resolution, OracleFetchStepView, OracleSource, ResolutionMethod,
    ResolutionState,
};

verus! {

/// A market that passes the resolution checks is one that can be resolved
/// (ended, with an oracle result, not yet resolved); when no minimum pool
/// applies, every resolvable market passes them.
pub proof fn law_ready_markets_are_resolvable(
    m: Market,
    now: u64,
    global_min_pool: i128,
    normalized_pool: Result<(i128, i128), Error>,
)
    ensures
        resolution_readiness(m, now, global_min_pool, normalized_pool) is Ok ==> resolvable(m, now),
        resolvable(m, now) && min_pool_of(m, global_min_pool) <= 0 ==> resolution_readiness(
            m,
            now,
            global_min_pool,
            normalized_pool,
        ) is Ok,
{
}

/// Once a market has winning outcomes it reports itself resolved, can no
/// longer be resolved, and both resolution paths refuse it.
pub proof fn law_resolved_markets_stay_resolved(
    m: Market,
    now: u64,
    global_min_pool: i128,
    normalized_pool: Result<(i128, i128), Error>,
)
    requires
        m.winning_outcomes is Some,
    ensures
        resolution_state_of(m) == ResolutionState::MarketResolved,
        !resolvable(m, now),
        resolution_readiness(m, now, global_min_pool, normalized_pool) == Err::<(), Error>(
            Error::MarketResolved,
        ),
{
}

/// A market with an oracle result is not queried again: fetching its
/// oracle result fails before any query.
pub proof fn law_oracle_result_is_fetched_once(
    market_id: Seq<char>,
    m: Market,
    now: u64,
    attempts: Seq<Result<(i128, Seq<char>), Error>>,
)
    requires
        m.oracle_result is Some,
    ensures
        fetch_step(market_id, m, now, attempts) is Failed,
        oracle_readiness(m, now) == Err::<(), Error>(Error::MarketResolved),
{
}

/// Oracle queries follow a fixed order: none once the oracle window has
/// closed, the primary first, the fallback only after the primary failed
/// and only for a market that has one, and never more than two.
pub proof fn law_oracle_query_order(
    market_id: Seq<char>,
    m: Market,
    now: u64,
    attempts: Seq<Result<(i128, Seq<char>), Error>>,
)
    ensures
        oracle_deadline_passed(m, now) ==> fetch_step(market_id, m, now, attempts)
            == OracleFetchStepView::Failed(Error::ResolutionTimeoutReached),
        fetch_step(market_id, m, now, attempts) == OracleFetchStepView::Query(OracleSource::Primary)
            ==> attempts.len() == 0,
        fetch_step(market_id, m, now, attempts) == OracleFetchStepView::Query(OracleSource::Fallback)
            ==> m.has_fallback && attempts.len() == 1 && attempts[0] is Err,
        attempts.len() >= 2 ==> !(fetch_step(market_id, m, now, attempts) is Query),
        fetch_step(market_id, m, now, attempts) is Query ==> !oracle_deadline_passed(m, now)
            && oracle_readiness(m, now) is Ok,
{
}

/// A fetched oracle resolution is credited wholly to the oracle that gave
/// the answer: when the primary answered, its price and outcome and the
/// primary configuration's provider, feed, threshold and comparison; when
/// the primary failed and the fallback answered, the fallback's answer and
/// the fallback configuration's provider, feed, threshold and comparison.
pub proof fn law_fetched_outcome_is_an_oracle_answer(
    market_id: Seq<char>,
    m: Market,
    now: u64,
    attempts: Seq<Result<(i128, Seq<char>), Error>>,
)
    ensures
        fetch_step(market_id, m, now, attempts) matches OracleFetchStepView::Done(r) ==> {
            &&& r.market_id == market_id
            &&& r.timestamp == now
            &&& attempts.len() >= 1
            &&& (attempts[0] matches Ok(p) ==> {
                &&& r.price == p.0
                &&& r.oracle_result == p.1
                &&& r.provider == m.oracle_config@.provider
                &&& r.feed_id == m.oracle_config@.feed_id
                &&& r.threshold == m.oracle_config@.threshold
                &&& r.comparison == m.oracle_config@.comparison
            })
            &&& (attempts[0] is Err ==> {
                &&& m.has_fallback
                &&& attempts.len() >= 2
                &&& attempts[1] matches Ok(p)
                &&& r.price == p.0
                &&& r.oracle_result == p.1
                &&& r.provider == m.fallback_oracle_config@.provider
                &&& r.feed_id == m.fallback_oracle_config@.feed_id
                &&& r.threshold == m.fallback_oracle_config@.threshold
                &&& r.comparison == m.fallback_oracle_config@.comparison
            })
        },
{
}

/// The final outcome of an automated resolution is the first of the
/// winning outcomes the market is resolved to, so it is one of them; only
/// when there are no winning outcomes is it the oracle's result.
pub proof fn law_final_outcome_is_a_winning_outcome(
    market_id: Seq<char>,
    m: Market,
    now: u64,
    c: CommunityConsensusView,
    w: Seq<Seq<char>>,
)
    requires
        m.oracle_result is Some,
    ensures
        w.len() > 0 ==> automated_resolution(market_id, m, now, c, w).final_outcome == w[0]
            && w.contains(automated_resolution(market_id, m, now, c, w).final_outcome),
        w.len() == 0 ==> automated_resolution(market_id, m, now, c, w).final_outcome
            == m.oracle_result.unwrap()@,
        automated_resolution(market_id, m, now, c, w).oracle_result == m.oracle_result.unwrap()@,
{
    if w.len() > 0 {
        assert(w[0] == w[0]);
        assert(w.contains(w[0]));
    }
}

/// Every resolution method scores a confidence of at most 100.
pub proof fn law_confidence_is_a_percentage(c: CommunityConsensusView, method: ResolutionMethod)
    ensures
        confidence_for(c, method) <= 100,
{
}

/// The resolution records produced by automated resolution and by admin
/// finalization pass the market-resolution checks at the time they were
/// made (given a non-empty final outcome).
pub proof fn law_produced_resolutions_validate(
    market_id: Seq<char>,
    m: Market,
    now: u64,
    c: CommunityConsensusView,
    w: Seq<Seq<char>>,
    outcome: Seq<char>,
)
    ensures
        automated_resolution(market_id, m, now, c, w).final_outcome.len() > 0
            ==> market_resolution_check(automated_resolution(market_id, m, now, c, w), now) is Ok,
        outcome.len() > 0 ==> market_resolution_check(
            admin_resolution(market_id, m, now, c, outcome),
            now,
        ) is Ok,
{
    law_confidence_is_a_percentage(c, crate::resolution::method_for(c));
}

/// The outcome an oracle callback selects is always one of the market's
/// outcomes; in a yes/no market a positive price selects "yes".
pub proof fn law_callback_selects_a_market_outcome(price: i128, outcomes: Seq<Seq<char>>)
    requires
        callback_outcome_defined(price, outcomes),
        outcomes.len() > 0,
    ensures
        outcomes.contains(callback_outcome(price, outcomes)),
        outcomes.len() == 2 && price > 0 && outcomes.contains("yes"@) ==> callback_outcome(
            price,
            outcomes,
        ) == "yes"@,
{
    if outcomes.len() == 2 {
        assert(outcomes[0] == outcomes[0]);
        assert(outcomes[1] == outcomes[1]);
        if callback_outcome(price, outcomes) == outcomes[0] {
            assert(outcomes.contains(outcomes[0]));
        } else {
            assert(outcomes.contains(outcomes[1]));
        }
        if price > 0 && outcomes.contains("yes"@) {
            let i = choose|i: int| 0 <= i < outcomes.len() && outcomes[i] == "yes"@;
            assert(i == 0 || i == 1);
        }
    } else {
        let i = ((crate::resolution::price_magnitude(price) as u32) % (outcomes.len() as u32)) as int;
        assert(0 <= i < outcomes.len());
        assert(outcomes.contains(outcomes[i]));
    }
}

/// A summary just stored by a refresh is current for the market, so
/// `require` serves it as it is: its winning total equals a fresh
/// computation, its pool is the market's pool and it counts the market's
/// winning outcomes.
pub proof fn law_refreshed_summary_is_served(
    cache: Map<Seq<char>, (ResolvedOutcomeSummary, Seq<Seq<char>>)>,
    market_id: Seq<char>,
    m: Market,
    bettors: Seq<(Address, Option<Bet>)>,
)
    requires
        m.winning_outcomes matches Some(w) && w@.len() <= u32::MAX,
        cache_entry_of(m, bettors) is Some,
    ensures
        ({
            let c = cache.insert(market_id, cache_entry_of(m, bettors).unwrap());
            let s = c[market_id].0;
            &&& c.contains_key(market_id)
            &&& is_current(c[market_id], m)
            &&& s.total_pool == m.total_staked
            &&& s.num_winning_outcomes as int == m.winning_outcomes.unwrap()@.len()
            &&& winning_total(
                m,
                bettors,
                crate::text::strings_view(m.winning_outcomes.unwrap()@),
            ) == Some(s.winning_total as int)
        }),
{
    let votes = votes_view(m.votes@);
    let stakes = amounts_view(m.stakes@);
    let w = crate::text::strings_view(m.winning_outcomes.unwrap()@);
    lemma_vote_total_fits(votes, stakes, w, votes.len());
    lemma_bet_total_fits(
        vote_total(votes, stakes, w, votes.len()),
        bettors_view(bettors),
        votes,
        w,
        bettors.len(),
    );
}

/// A summary stored by a refresh of `m0` that is still current for `m` (the
/// same winning outcomes and pool), where the votes, stakes and bets are
/// unchanged, is the summary a fresh computation for `m` gives: a served
/// cached summary never differs from a recomputation.
pub proof fn law_current_summary_matches_recompute(
    m0: Market,
    m: Market,
    bettors: Seq<(Address, Option<Bet>)>,
)
    requires
        cache_entry_of(m0, bettors) is Some,
        votes_view(m.votes@) == votes_view(m0.votes@),
        amounts_view(m.stakes@) == amounts_view(m0.stakes@),
    ensures
        is_current(cache_entry_of(m0, bettors).unwrap(), m) ==> cache_entry_of(m, bettors)
            == cache_entry_of(m0, bettors),
        is_current(cache_entry_of(m0, bettors).unwrap(), m) ==> summary_of(m, bettors)
            == summary_of(m0, bettors),
{
    if is_current(cache_entry_of(m0, bettors).unwrap(), m) {
        let w0 = crate::text::strings_view(m0.winning_outcomes.unwrap()@);
        let w = crate::text::strings_view(m.winning_outcomes.unwrap()@);
        assert(w0 == w);
        assert(m0.winning_outcomes.unwrap()@.len() == w0.len());
        assert(m.winning_outcomes.unwrap()@.len() == w.len());
        assert(winning_total(m, bettors, w) == winning_total(m0, bettors, w0));
    }
}

/// A running vote total that did not overflow lies in the `i128` range.
proof fn lemma_vote_total_fits(
    votes: Seq<(Seq<char>, Seq<char>)>,
    stakes: Seq<(Seq<char>, i128)>,
    winning: Seq<Seq<char>>,
    n: nat,
)
    ensures
        vote_total(votes, stakes, winning, n) matches Some(t) ==> fits_i128(t),
    decreases n,
{
    if n > 0 {
        lemma_vote_total_fits(votes, stakes, winning, (n - 1) as nat);
    }
}

/// A running bet total that did not overflow lies in the `i128` range.
proof fn lemma_bet_total_fits(
    start: Option<int>,
    bets: Seq<(Seq<char>, Option<(Seq<char>, i128)>)>,
    votes: Seq<(Seq<char>, Seq<char>)>,
    winning: Seq<Seq<char>>,
    n: nat,
)
    requires
        start matches Some(t) ==> fits_i128(t),
    ensures
        bet_total(start, bets, votes, winning, n) matches Some(t) ==> fits_i128(t),
    decreases n,
{
    if n > 0 {
        lemma_bet_total_fits(start, bets, votes, winning, (n - 1) as nat);
    }
}

/// An invalidated market has no cached summary.
pub proof fn law_invalidated_summary_is_gone(
    cache: Map<Seq<char>, (ResolvedOutcomeSummary, Seq<Seq<char>>)>,
    market_id: Seq<char>,
)
    ensures
        !cache.remove(market_id).contains_key(market_id),
{
}

/// Without winning outcomes nothing is won: the winning total is zero.
pub proof fn law_no_winning_outcomes_no_winnings(m: Market, bettors: Seq<(Address, Option<Bet>)>)
    ensures
        winning_total(m, bettors, Seq::empty()) == Some(0int),
{
    let votes = votes_view(m.votes@);
    let stakes = amounts_view(m.stakes@);
    lemma_vote_total_without_winners(votes, stakes, votes.len());
    lemma_bet_total_without_winners(bettors_view(bettors), votes, bettors.len());
}

proof fn lemma_vote_total_without_winners(
    votes: Seq<(Seq<char>, Seq<char>)>,
    stakes: Seq<(Seq<char>, i128)>,
    n: nat,
)
    ensures
        vote_total(votes, stakes, Seq::empty(), n) == Some(0int),
    decreases n,
{
    if n > 0 {
        lemma_vote_total_without_winners(votes, stakes, (n - 1) as nat);
    }
}

proof fn lemma_bet_total_without_winners(
    bets: Seq<(Seq<char>, Option<(Seq<char>, i128)>)>,
    votes: Seq<(Seq<char>, Seq<char>)>,
    n: nat,
)
    ensures
        bet_total(Some(0int), bets, votes, Seq::empty(), n) == Some(0int),
    decreases n,
{
    if n > 0 {
        lemma_bet_total_without_winners(bets, votes, (n - 1) as nat);
    }
}

/// Recording an oracle result or a resolution leaves the votes and stakes
/// alone, so a well-formed market (one vote and one stake entry per voter)
/// stays well formed.
pub proof fn law_resolution_keeps_market_well_formed(before: Market, after: Market)
    requires
        before.well_formed(),
        same_but_oracle_result(after, before) || same_but_resolution(after, before),
    ensures
        after.well_formed(),
{
}

/// Whether no outcome occurs in both lists.
pub open spec fn disjoint_outcomes(w1: Seq<Seq<char>>, w2: Seq<Seq<char>>) -> bool {
    forall|x: Seq<char>| !(w1.contains(x) && w2.contains(x))
}

/// Only membership in the winning-outcome list matters, not the position:
/// two lists with the same members give the same winning total (a vote or
/// bet on the second outcome of a tie counts like one on the first).
pub proof fn law_winning_total_depends_on_members_only(
    m: Market,
    bettors: Seq<(Address, Option<Bet>)>,
    w1: Seq<Seq<char>>,
    w2: Seq<Seq<char>>,
)
    requires
        forall|x: Seq<char>| w1.contains(x) <==> w2.contains(x),
    ensures
        winning_total(m, bettors, w1) == winning_total(m, bettors, w2),
{
    let votes = votes_view(m.votes@);
    let stakes = amounts_view(m.stakes@);
    lemma_vote_total_same_members(votes, stakes, w1, w2, votes.len());
    lemma_bet_total_same_members(
        vote_total(votes, stakes, w1, votes.len()),
        bettors_view(bettors),
        votes,
        w1,
        w2,
        bettors.len(),
    );
}

proof fn lemma_vote_total_same_members(
    votes: Seq<(Seq<char>, Seq<char>)>,
    stakes: Seq<(Seq<char>, i128)>,
    w1: Seq<Seq<char>>,
    w2: Seq<Seq<char>>,
    n: nat,
)
    requires
        forall|x: Seq<char>| w1.contains(x) <==> w2.contains(x),
    ensures
        vote_total(votes, stakes, w1, n) == vote_total(votes, stakes, w2, n),
    decreases n,
{
    if n > 0 {
        lemma_vote_total_same_members(votes, stakes, w1, w2, (n - 1) as nat);
        assert(w1.contains(votes[n - 1].1) <==> w2.contains(votes[n - 1].1));
    }
}

proof fn lemma_bet_total_same_members(
    start: Option<int>,
    bets: Seq<(Seq<char>, Option<(Seq<char>, i128)>)>,
    votes: Seq<(Seq<char>, Seq<char>)>,
    w1: Seq<Seq<char>>,
    w2: Seq<Seq<char>>,
    n: nat,
)
    requires
        forall|x: Seq<char>| w1.contains(x) <==> w2.contains(x),
    ensures
        bet_total(start, bets, votes, w1, n) == bet_total(start, bets, votes, w2, n),
    decreases n,
{
    if n > 0 {
        lemma_bet_total_same_members(start, bets, votes, w1, w2, (n - 1) as nat);
        if let Some(b) = bets[n - 1].1 {
            assert(w1.contains(b.0) <==> w2.contains(b.0));
        }
    }
}

/// The winning total of a list of outcomes is the sum of the winning totals
/// of two parts that share no outcome (so the total split over a tie is the
/// sum of what was staked on each tied outcome), whenever none of the
/// three sums overflows.
pub proof fn law_winning_total_adds_over_outcomes(
    m: Market,
    bettors: Seq<(Address, Option<Bet>)>,
    w1: Seq<Seq<char>>,
    w2: Seq<Seq<char>>,
)
    requires
        disjoint_outcomes(w1, w2),
        winning_total(m, bettors, w1) is Some,
        winning_total(m, bettors, w2) is Some,
        winning_total(m, bettors, w1 + w2) is Some,
    ensures
        winning_total(m, bettors, w1 + w2).unwrap() == winning_total(m, bettors, w1).unwrap()
            + winning_total(m, bettors, w2).unwrap(),
{
    let votes = votes_view(m.votes@);
    let stakes = amounts_view(m.stakes@);
    let bets = bettors_view(bettors);
    let w = w1 + w2;
    lemma_concat_members(w1, w2);
    let n = votes.len();
    let m1 = bettors.len();
    // the vote totals did not overflow, as the bet totals built on them did not
    if vote_total(votes, stakes, w1, n) is None {
        lemma_bet_total_of_none_start(bets, votes, w1, m1);
    }
    if vote_total(votes, stakes, w2, n) is None {
        lemma_bet_total_of_none_start(bets, votes, w2, m1);
    }
    if vote_total(votes, stakes, w, n) is None {
        lemma_bet_total_of_none_start(bets, votes, w, m1);
    }
    lemma_vote_total_adds(votes, stakes, w1, w2, n);
    lemma_bet_total_adds(
        vote_total(votes, stakes, w1, n).unwrap(),
        vote_total(votes, stakes, w2, n).unwrap(),
        bets,
        votes,
        w1,
        w2,
        m1,
    );
}

/// Membership in a concatenation of outcome lists.
proof fn lemma_concat_members(w1: Seq<Seq<char>>, w2: Seq<Seq<char>>)
    ensures
        forall|x: Seq<char>| #[trigger] (w1 + w2).contains(x) <==> (w1.contains(x) || w2.contains(x)),
{
    assert forall|x: Seq<char>| #[trigger] (w1 + w2).contains(x) <==> (w1.contains(x) || w2.contains(
        x,
    )) by {
        if (w1 + w2).contains(x) {
            let i = choose|i: int| 0 <= i < (w1 + w2).len() && (w1 + w2)[i] == x;
            if i < w1.len() {
                assert(w1[i] == x);
            } else {
                assert(w2[i - w1.len()] == x);
            }
        }
        if w1.contains(x) {
            let i = choose|i: int| 0 <= i < w1.len() && w1[i] == x;
            assert((w1 + w2)[i] == x);
        }
        if w2.contains(x) {
            let i = choose|i: int| 0 <= i < w2.len() && w2[i] == x;
            assert((w1 + w2)[i + w1.len()] == x);
        }
    }
}

proof fn lemma_bet_total_of_none_start(
    bets: Seq<(Seq<char>, Option<(Seq<char>, i128)>)>,
    votes: Seq<(Seq<char>, Seq<char>)>,
    winning: Seq<Seq<char>>,
    n: nat,
)
    ensures
        bet_total(None, bets, votes, winning, n) is None,
    decreases n,
{
    if n > 0 {
        lemma_bet_total_of_none_start(bets, votes, winning, (n - 1) as nat);
    }
}

proof fn lemma_vote_total_adds(
    votes: Seq<(Seq<char>, Seq<char>)>,
    stakes: Seq<(Seq<char>, i128)>,
    w1: Seq<Seq<char>>,
    w2: Seq<Seq<char>>,
    n: nat,
)
    requires
        disjoint_outcomes(w1, w2),
        forall|x: Seq<char>| #[trigger] (w1 + w2).contains(x) <==> (w1.contains(x) || w2.contains(x)),
        vote_total(votes, stakes, w1, n) is Some,
        vote_total(votes, stakes, w2, n) is Some,
        vote_total(votes, stakes, w1 + w2, n) is Some,
    ensures
        vote_total(votes, stakes, w1 + w2, n).unwrap() == vote_total(votes, stakes, w1, n).unwrap()
            + vote_total(votes, stakes, w2, n).unwrap(),
    decreases n,
{
    if n > 0 {
        lemma_vote_total_adds(votes, stakes, w1, w2, (n - 1) as nat);
        let x = votes[n - 1].1;
        assert((w1 + w2).contains(x) <==> (w1.contains(x) || w2.contains(x)));
        assert(!(w1.contains(x) && w2.contains(x)));
    }
}

proof fn lemma_bet_total_adds(
    s1: int,
    s2: int,
    bets: Seq<(Seq<char>, Option<(Seq<char>, i128)>)>,
    votes: Seq<(Seq<char>, Seq<char>)>,
    w1: Seq<Seq<char>>,
    w2: Seq<Seq<char>>,
    n: nat,
)
    requires
        disjoint_outcomes(w1, w2),
        forall|x: Seq<char>| #[trigger] (w1 + w2).contains(x) <==> (w1.contains(x) || w2.contains(x)),
        bet_total(Some(s1), bets, votes, w1, n) is Some,
        bet_total(Some(s2), bets, votes, w2, n) is Some,
        bet_total(Some(s1 + s2), bets, votes, w1 + w2, n) is Some,
    ensures
        bet_total(Some(s1 + s2), bets, votes, w1 + w2, n).unwrap() == bet_total(
            Some(s1),
            bets,
            votes,
            w1,
            n,
        ).unwrap() + bet_total(Some(s2), bets, votes, w2, n).unwrap(),
    decreases n,
{
    if n > 0 {
        lemma_bet_total_adds(s1, s2, bets, votes, w1, w2, (n - 1) as nat);
        if let Some(b) = bets[n - 1].1 {
            assert((w1 + w2).contains(b.0) <==> (w1.contains(b.0) || w2.contains(b.0)));
            assert(!(w1.contains(b.0) && w2.contains(b.0)));
        }
    }
}

} // verus!
