//! Precomputed payout totals of resolved markets.
use vstd::prelude::*;

use crate::address::Address;
use crate::error::Error;
use crate::market::{amount_of, amounts_view, has_entry, votes_view, Bet, Market};
use crate::text::{clone_strings, contains_string, same_strings, strings_view};

verus! {

/// Payout totals persisted at resolution time (constant-time reads when
/// claiming or distributing).
#[derive(Clone, Copy, Debug, PartialEq, Eq, Structural)]
pub struct ResolvedOutcomeSummary {
    /// Sum of winning-side stakes (votes and bets, each user counted once).
    pub winning_total: i128,
    /// Total market pool at resolution.
    pub total_pool: i128,
    /// Number of winning outcomes (divisor of a tie split).
    pub num_winning_outcomes: u32,
}

/// The view of the bet registry of a market: each bettor with its bet, if
/// one is stored.
pub open spec fn bettors_view(s: Seq<(Address, Option<Bet>)>) -> Seq<
    (Seq<char>, Option<(Seq<char>, i128)>),
> {
    s.map_values(
        |p: (Address, Option<Bet>)|
            (
                p.0@,
                match p.1 {
                    Some(b) => Some((b.outcome@, b.amount)),
                    None => None,
                },
            ),
    )
}

/// Whether an integer fits in an `i128`.
pub open spec fn fits_i128(x: int) -> bool {
    i128::MIN <= x <= i128::MAX
}

/// The checked running total of the stakes of the first `n` votes cast for
/// a winning outcome; `None` once a partial sum leaves the `i128` range.
pub open spec fn vote_total(
    votes: Seq<(Seq<char>, Seq<char>)>,
    stakes: Seq<(Seq<char>, i128)>,
    winning: Seq<Seq<char>>,
    n: nat,
) -> Option<int>
    decreases n,
{
    if n == 0 {
        Some(0)
    } else {
        match vote_total(votes, stakes, winning, (n - 1) as nat) {
            None => None,
            Some(t) => if winning.contains(votes[n - 1].1) {
                let u = t + amount_of(stakes, votes[n - 1].0);
                if fits_i128(u) {
                    Some(u)
                } else {
                    None
                }
            } else {
                Some(t)
            },
        }
    }
}

/// `start` plus the checked running total of the first `n` registered bets
/// on a winning outcome by users who did not vote; `None` once a partial
/// sum leaves the `i128` range.
pub open spec fn bet_total(
    start: Option<int>,
    bettors: Seq<(Seq<char>, Option<(Seq<char>, i128)>)>,
    votes: Seq<(Seq<char>, Seq<char>)>,
    winning: Seq<Seq<char>>,
    n: nat,
) -> Option<int>
    decreases n,
{
    if n == 0 {
        start
    } else {
        match bet_total(start, bettors, votes, winning, (n - 1) as nat) {
            None => None,
            Some(t) => if has_entry(votes, bettors[n - 1].0) {
                Some(t)
            } else {
                match bettors[n - 1].1 {
                    None => Some(t),
                    Some(b) => if winning.contains(b.0) {
                        let u = t + b.1;
                        if fits_i128(u) {
                            Some(u)
                        } else {
                            None
                        }
                    } else {
                        Some(t)
                    },
                }
            },
        }
    }
}

/// The checked winning-side total of a market for `winning` outcomes:
/// stakes of votes for a winning outcome, then bets on a winning outcome by
/// users who did not vote.
pub open spec fn winning_total(
    market: Market,
    bettors: Seq<(Address, Option<Bet>)>,
    winning: Seq<Seq<char>>,
) -> Option<int> {
    let votes = votes_view(market.votes@);
    bet_total(
        vote_total(votes, amounts_view(market.stakes@), winning, votes.len()),
        bettors_view(bettors),
        votes,
        winning,
        bettors.len(),
    )
}

/// The summary a refresh computes for `market`, when its winning total
/// stays within range.
pub open spec fn summary_of(market: Market, bettors: Seq<(Address, Option<Bet>)>) -> Option<
    ResolvedOutcomeSummary,
> {
    match market.winning_outcomes {
        None => None,
        Some(w) => match winning_total(market, bettors, strings_view(w@)) {
            None => None,
            Some(t) => Some(
                ResolvedOutcomeSummary {
                    winning_total: t as i128,
                    total_pool: market.total_staked,
                    num_winning_outcomes: w@.len() as u32,
                },
            ),
        },
    }
}

/// What a refresh of `market` stores: its summary, with the winning
/// outcomes it was computed for.
pub open spec fn cache_entry_of(market: Market, bettors: Seq<(Address, Option<Bet>)>) -> Option<
    (ResolvedOutcomeSummary, Seq<Seq<char>>),
> {
    match summary_of(market, bettors) {
        None => None,
        Some(s) => Some((s, strings_view(market.winning_outcomes.unwrap()@))),
    }
}

/// The value of one cache entry: the summary and the winning outcomes it
/// was computed for.
pub open spec fn entry_view(e: (String, ResolvedOutcomeSummary, Vec<String>)) -> (
    ResolvedOutcomeSummary,
    Seq<Seq<char>>,
) {
    (e.1, strings_view(e.2@))
}

/// Whether a cached value is current for `market`: it was computed for the
/// market's present winning outcomes and pool.
pub open spec fn is_current(cached: (ResolvedOutcomeSummary, Seq<Seq<char>>), market: Market) -> bool {
    &&& market.winning_outcomes matches Some(w)
    &&& cached.1 == strings_view(w@)
    &&& cached.0.total_pool == market.total_staked
}

/// Storage-backed cache of resolved payout totals: per market, the summary
/// and the winning outcomes it was computed for.
pub struct ResolutionOutcomeCache {
    pub entries: Vec<(String, ResolvedOutcomeSummary, Vec<String>)>,
}

impl ResolutionOutcomeCache {
    /// No two entries belong to the same market.
    pub open spec fn well_formed(self) -> bool {
        forall|i: int, j: int|
            0 <= i < j < self.entries@.len() ==> self.entries@[i].0@ != self.entries@[j].0@
    }

    /// Whether some entry belongs to market `k`.
    pub open spec fn has_key(self, k: Seq<char>) -> bool {
        exists|i: int| 0 <= i < self.entries@.len() && self.entries@[i].0@ == k
    }
}

impl View for ResolutionOutcomeCache {
    type V = Map<Seq<char>, (ResolvedOutcomeSummary, Seq<Seq<char>>)>;

    open spec fn view(&self) -> Map<Seq<char>, (ResolvedOutcomeSummary, Seq<Seq<char>>)> {
        Map::new(
            |k: Seq<char>| self.has_key(k),
            |k: Seq<char>|
                entry_view(
                    self.entries@[choose|i: int|
                        0 <= i < self.entries@.len() && self.entries@[i].0@ == k],
                ),
        )
    }
}

/// The unique entry of a market is the one the view reads.
proof fn lemma_entry_is_viewed(c: ResolutionOutcomeCache, i: int)
    requires
        c.well_formed(),
        0 <= i < c.entries@.len(),
    ensures
        c@.contains_key(c.entries@[i].0@),
        c@[c.entries@[i].0@] == entry_view(c.entries@[i]),
{
    let k = c.entries@[i].0@;
    assert(c.has_key(k));
    let j = choose|j: int| 0 <= j < c.entries@.len() && c.entries@[j].0@ == k;
    if j < i {
        assert(c.entries@[j].0@ != c.entries@[i].0@);
    } else if j > i {
        assert(c.entries@[i].0@ != c.entries@[j].0@);
    }
}

impl ResolutionOutcomeCache {
    /// No summaries stored.
    pub fn new() -> (c: ResolutionOutcomeCache)
        ensures
            c.well_formed(),
            c@ == Map::<Seq<char>, (ResolvedOutcomeSummary, Seq<Seq<char>>)>::empty(),
    {
        let c = ResolutionOutcomeCache { entries: Vec::new() };
        assert(c@ =~= Map::<Seq<char>, (ResolvedOutcomeSummary, Seq<Seq<char>>)>::empty());
        c
    }

    /// Position of the entry of `market_id`.
    fn find(&self, market_id: &String) -> (r: Option<usize>)
        requires
            self.well_formed(),
        ensures
            match r {
                Some(i) => i < self.entries@.len() && self.entries@[i as int].0@ == market_id@
                    && self@.contains_key(market_id@) && self@[market_id@] == entry_view(
                    self.entries@[i as int],
                ),
                None => !self@.contains_key(market_id@),
            },
    {
        let mut i: usize = 0;
        while i < self.entries.len()
            invariant
                self.well_formed(),
                i <= self.entries@.len(),
                forall|j: int| 0 <= j < i ==> self.entries@[j].0@ != market_id@,
            decreases self.entries@.len() - i,
        {
            if self.entries[i].0 == *market_id {
                proof {
                    lemma_entry_is_viewed(*self, i as int);
                }
                return Some(i);
            }
            i = i + 1;
        }
        None
    }

    /// Removes the cached summary of `market_id` (e.g. before an outcome
    /// override).
    pub fn invalidate(&mut self, market_id: &String)
        requires
            old(self).well_formed(),
        ensures
            final(self).well_formed(),
            final(self)@ == old(self)@.remove(market_id@),
    {
        match self.find(market_id) {
            None => {
                assert(self@ =~= old(self)@.remove(market_id@));
            },
            Some(i) => {
                let ghost before = *old(self);
                let _ = self.entries.remove(i);
                proof {
                    let k = market_id@;
                    assert forall|a: int| 0 <= a < self.entries@.len() implies self.entries@[a]
                        == before.entries@[if a < i {
                        a
                    } else {
                        a + 1
                    }] by {}
                    assert forall|a: int, b: int|
                        0 <= a < b < self.entries@.len() implies self.entries@[a].0@
                        != self.entries@[b].0@ by {
                        let a2 = if a < i {
                            a
                        } else {
                            a + 1
                        };
                        let b2 = if b < i {
                            b
                        } else {
                            b + 1
                        };
                        assert(a2 < b2);
                        assert(before.entries@[a2].0@ != before.entries@[b2].0@);
                    }
                    assert(self.well_formed());
                    assert forall|q: Seq<char>| self.has_key(q) <==> (before.has_key(q) && q != k) by {
                        if self.has_key(q) {
                            let a = choose|a: int|
                                0 <= a < self.entries@.len() && self.entries@[a].0@ == q;
                            let a2 = if a < i {
                                a
                            } else {
                                a + 1
                            };
                            assert(before.entries@[a2].0@ == q);
                            if a2 < i {
                                assert(before.entries@[a2].0@ != before.entries@[i as int].0@);
                            } else {
                                assert(before.entries@[i as int].0@ != before.entries@[a2].0@);
                            }
                        }
                        if before.has_key(q) && q != k {
                            let a = choose|a: int|
                                0 <= a < before.entries@.len() && before.entries@[a].0@ == q;
                            assert(a != i);
                            let a1 = if a < i {
                                a
                            } else {
                                a - 1
                            };
                            assert(self.entries@[a1] == before.entries@[a]);
                        }
                    }
                    assert forall|q: Seq<char>| #[trigger] self@.contains_key(q) implies self@[q]
                        == before@.remove(k)[q] by {
                        let a = choose|a: int|
                            0 <= a < self.entries@.len() && self.entries@[a].0@ == q;
                        lemma_entry_is_viewed(*self, a);
                        let a2 = if a < i {
                            a
                        } else {
                            a + 1
                        };
                        lemma_entry_is_viewed(before, a2);
                    }
                    assert(self@ =~= before@.remove(k));
                }
            },
        }
    }

    /// Stores `summary`, computed for `winning_outcomes`, as the summary of
    /// `market_id`.
    fn store(&mut self, market_id: &String, summary: ResolvedOutcomeSummary, winning_outcomes: Vec<String>)
        requires
            old(self).well_formed(),
        ensures
            final(self).well_formed(),
            final(self)@ == old(self)@.insert(market_id@, (summary, strings_view(winning_outcomes@))),
    {
        let ghost before = *old(self);
        let ghost k = market_id@;
        let ghost value = (summary, strings_view(winning_outcomes@));
        match self.find(market_id) {
            Some(i) => {
                self.entries.set(i, (market_id.clone(), summary, winning_outcomes));
                proof {
                    assert forall|a: int, b: int|
                        0 <= a < b < self.entries@.len() implies self.entries@[a].0@
                        != self.entries@[b].0@ by {
                        assert(before.entries@[a].0@ != before.entries@[b].0@);
                    }
                    assert forall|q: Seq<char>| self.has_key(q) <==> (before.has_key(q) || q == k) by {
                        if self.has_key(q) {
                            let a = choose|a: int|
                                0 <= a < self.entries@.len() && self.entries@[a].0@ == q;
                            assert(before.entries@[a].0@ == q);
                        }
                        if before.has_key(q) {
                            let a = choose|a: int|
                                0 <= a < before.entries@.len() && before.entries@[a].0@ == q;
                            assert(self.entries@[a].0@ == q);
                        }
                        if q == k {
                            assert(self.entries@[i as int].0@ == k);
                        }
                    }
                    assert forall|q: Seq<char>| #[trigger] self@.contains_key(q) implies self@[q]
                        == before@.insert(k, value)[q] by {
                        let a = choose|a: int|
                            0 <= a < self.entries@.len() && self.entries@[a].0@ == q;
                        lemma_entry_is_viewed(*self, a);
                        if a != i {
                            lemma_entry_is_viewed(before, a);
                        } else {
                            assert(q == k);
                        }
                    }
                    assert(self@ =~= before@.insert(k, value));
                }
            },
            None => {
                self.entries.push((market_id.clone(), summary, winning_outcomes));
                proof {
                    let n = before.entries@.len();
                    assert forall|a: int, b: int|
                        0 <= a < b < self.entries@.len() implies self.entries@[a].0@
                        != self.entries@[b].0@ by {
                        if b == n {
                            assert(self.entries@[a] == before.entries@[a]);
                            if before.entries@[a].0@ == k {
                                assert(before.has_key(k));
                            }
                        } else {
                            assert(before.entries@[a].0@ != before.entries@[b].0@);
                        }
                    }
                    assert forall|q: Seq<char>| self.has_key(q) <==> (before.has_key(q) || q == k) by {
                        if self.has_key(q) && q != k {
                            let a = choose|a: int|
                                0 <= a < self.entries@.len() && self.entries@[a].0@ == q;
                            assert(a < n);
                            assert(before.entries@[a].0@ == q);
                        }
                        if before.has_key(q) {
                            let a = choose|a: int|
                                0 <= a < before.entries@.len() && before.entries@[a].0@ == q;
                            assert(self.entries@[a].0@ == q);
                        }
                        if q == k {
                            assert(self.entries@[n as int].0@ == k);
                        }
                    }
                    assert forall|q: Seq<char>| #[trigger] self@.contains_key(q) implies self@[q]
                        == before@.insert(k, value)[q] by {
                        let a = choose|a: int|
                            0 <= a < self.entries@.len() && self.entries@[a].0@ == q;
                        lemma_entry_is_viewed(*self, a);
                        if a < n {
                            lemma_entry_is_viewed(before, a);
                        }
                    }
                    assert(self@ =~= before@.insert(k, value));
                }
            },
        }
    }

    /// The cached summary of `market_id`, if any.
    pub fn get(&self, market_id: &String) -> (r: Option<ResolvedOutcomeSummary>)
        requires
            self.well_formed(),
        ensures
            r == (if self@.contains_key(market_id@) {
                Some(self@[market_id@].0)
            } else {
                None
            }),
    {
        match self.find(market_id) {
            Some(i) => Some(self.entries[i].1),
            None => None,
        }
    }

    /// The winning-side total of `market` for `winning_outcomes`: stakes of
    /// votes for a winning outcome, plus registered bets on a winning
    /// outcome by users who did not vote (`bettors` is the market's bet
    /// registry). Fails with `InvalidInput` when a partial sum overflows.
    pub fn compute_winning_total_for_market(
        market: &Market,
        bettors: &Vec<(Address, Option<Bet>)>,
        winning_outcomes: &Vec<String>,
    ) -> (r: Result<i128, Error>)
        ensures
            match winning_total(*market, bettors@, strings_view(winning_outcomes@)) {
                Some(t) => r == Ok::<i128, Error>(t as i128),
                None => r == Err::<i128, Error>(Error::InvalidInput),
            },
    {
        let ghost votes = votes_view(market.votes@);
        let ghost stakes = amounts_view(market.stakes@);
        let ghost winning = strings_view(winning_outcomes@);
        let mut winning_total: i128 = 0;
        let mut i: usize = 0;
        while i < market.votes.len()
            invariant
                votes == votes_view(market.votes@),
                stakes == amounts_view(market.stakes@),
                winning == strings_view(winning_outcomes@),
                i <= market.votes@.len(),
                vote_total(votes, stakes, winning, i as nat) == Some(winning_total as int),
            decreases market.votes@.len() - i,
        {
            let voter = &market.votes[i].0;
            let outcome = &market.votes[i].1;
            if contains_string(winning_outcomes, outcome) {
                let stake = market.stake_of(voter);
                match winning_total.checked_add(stake) {
                    Some(t) => {
                        winning_total = t;
                    },
                    None => {
                        proof {
                            lemma_vote_total_stays_none(votes, stakes, winning, (i + 1) as nat, votes.len());
                            lemma_bet_total_of_none(bettors_view(bettors@), votes, winning, bettors@.len());
                        }
                        return Err(Error::InvalidInput);
                    },
                }
            }
            i = i + 1;
        }
        let ghost bets = bettors_view(bettors@);
        let mut j: usize = 0;
        while j < bettors.len()
            invariant
                votes == votes_view(market.votes@),
                stakes == amounts_view(market.stakes@),
                winning == strings_view(winning_outcomes@),
                bets == bettors_view(bettors@),
                i == market.votes@.len(),
                j <= bettors@.len(),
                bet_total(vote_total(votes, stakes, winning, votes.len()), bets, votes, winning, j as nat)
                    == Some(winning_total as int),
            decreases bettors@.len() - j,
        {
            let user = &bettors[j].0;
            if !market.has_voted(user) {
                match &bettors[j].1 {
                    Some(bet) => {
                        if contains_string(winning_outcomes, &bet.outcome) {
                            match winning_total.checked_add(bet.amount) {
                                Some(t) => {
                                    winning_total = t;
                                },
                                None => {
                                    proof {
                                        lemma_bet_total_stays_none(
                                            vote_total(votes, stakes, winning, votes.len()),
                                            bets,
                                            votes,
                                            winning,
                                            (j + 1) as nat,
                                            bets.len(),
                                        );
                                    }
                                    return Err(Error::InvalidInput);
                                },
                            }
                        }
                    },
                    None => {},
                }
            }
            j = j + 1;
        }
        Ok(winning_total)
    }

    /// Recomputes and stores the summary of a resolved market.
    pub fn refresh(
        &mut self,
        market_id: &String,
        market: &Market,
        bettors: &Vec<(Address, Option<Bet>)>,
    ) -> (r: Result<(), Error>)
        requires
            old(self).well_formed(),
            market.winning_outcomes matches Some(w) ==> w@.len() <= u32::MAX,
        ensures
            final(self).well_formed(),
            market.winning_outcomes is None ==> r == Err::<(), Error>(Error::MarketNotResolved)
                && final(self)@ == old(self)@,
            market.winning_outcomes is Some ==> match cache_entry_of(*market, bettors@) {
                Some(e) => r == Ok::<(), Error>(()) && final(self)@ == old(self)@.insert(
                    market_id@,
                    e,
                ),
                None => r == Err::<(), Error>(Error::InvalidInput) && final(self)@ == old(self)@,
            },
    {
        let winning_outcomes = match &market.winning_outcomes {
            Some(w) => w,
            None => {
                return Err(Error::MarketNotResolved);
            },
        };
        let winning_total = Self::compute_winning_total_for_market(market, bettors, winning_outcomes)?;
        let summary = ResolvedOutcomeSummary {
            winning_total,
            total_pool: market.total_staked,
            num_winning_outcomes: winning_outcomes.len() as u32,
        };
        self.store(market_id, summary, clone_strings(winning_outcomes));
        Ok(())
    }

    /// The cached summary when it is current (computed for the market's
    /// present winning outcomes and pool); otherwise a freshly computed and
    /// stored one.
    pub fn require(
        &mut self,
        market_id: &String,
        market: &Market,
        bettors: &Vec<(Address, Option<Bet>)>,
    ) -> (r: Result<ResolvedOutcomeSummary, Error>)
        requires
            old(self).well_formed(),
            market.winning_outcomes matches Some(w) ==> w@.len() <= u32::MAX,
        ensures
            final(self).well_formed(),
            ({
                let cached = old(self)@.contains_key(market_id@) && is_current(
                    old(self)@[market_id@],
                    *market,
                );
                &&& cached ==> r == Ok::<ResolvedOutcomeSummary, Error>(old(self)@[market_id@].0)
                    && final(self)@ == old(self)@
                &&& !cached && market.winning_outcomes is None ==> r == Err::<
                    ResolvedOutcomeSummary,
                    Error,
                >(Error::MarketNotResolved) && final(self)@ == old(self)@
                &&& !cached && market.winning_outcomes is Some ==> match cache_entry_of(
                    *market,
                    bettors@,
                ) {
                    Some(e) => r == Ok::<ResolvedOutcomeSummary, Error>(e.0) && final(self)@ == old(self)@.insert(market_id@, e),
                    None => r == Err::<ResolvedOutcomeSummary, Error>(Error::InvalidInput)
                        && final(self)@ == old(self)@,
                }
            }),
    {
        if let (Some(i), Some(outcomes)) = (self.find(market_id), &market.winning_outcomes) {
            let summary = self.entries[i].1;
            if summary.total_pool == market.total_staked && same_strings(&self.entries[i].2, outcomes) {
                return Ok(summary);
            }
        }
        self.refresh(market_id, market, bettors)?;
        match self.get(market_id) {
            Some(s) => Ok(s),
            None => Err(Error::MarketNotResolved),
        }
    }
}

/// Once the running vote total overflows it stays overflowed.
proof fn lemma_vote_total_stays_none(
    votes: Seq<(Seq<char>, Seq<char>)>,
    stakes: Seq<(Seq<char>, i128)>,
    winning: Seq<Seq<char>>,
    m: nat,
    n: nat,
)
    requires
        m <= n,
        vote_total(votes, stakes, winning, m) is None,
    ensures
        vote_total(votes, stakes, winning, n) is None,
    decreases n - m,
{
    if m < n {
        lemma_vote_total_stays_none(votes, stakes, winning, m, (n - 1) as nat);
    }
}

/// An overflowed start stays overflowed through the bets.
proof fn lemma_bet_total_of_none(
    bets: Seq<(Seq<char>, Option<(Seq<char>, i128)>)>,
    votes: Seq<(Seq<char>, Seq<char>)>,
    winning: Seq<Seq<char>>,
    n: nat,
)
    ensures
        bet_total(None, bets, votes, winning, n) is None,
    decreases n,
{
    if n > 0 {
        lemma_bet_total_of_none(bets, votes, winning, (n - 1) as nat);
    }
}

/// Once the running bet total overflows it stays overflowed.
proof fn lemma_bet_total_stays_none(
    start: Option<int>,
    bets: Seq<(Seq<char>, Option<(Seq<char>, i128)>)>,
    votes: Seq<(Seq<char>, Seq<char>)>,
    winning: Seq<Seq<char>>,
    m: nat,
    n: nat,
)
    requires
        m <= n,
        bet_total(start, bets, votes, winning, m) is None,
    ensures
        bet_total(start, bets, votes, winning, n) is None,
    decreases n - m,
{
    if m < n {
        lemma_bet_total_stays_none(start, bets, votes, winning, m, (n - 1) as nat);
    }
}

} // verus!
