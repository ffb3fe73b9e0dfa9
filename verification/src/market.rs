//! The parts of a prediction market that the resolution rules read.
use vstd::prelude::*;

use crate::address::Address;
use crate::text::strings_view;

verus! {

/// Oracle services a market can be configured with.
#[derive(Clone, Copy, Debug, PartialEq, Eq, Structural)]
pub enum OracleProvider {
    Reflector,
    Pyth,
    BandProtocol,
    DIA,
}

impl OracleProvider {
    /// The Reflector oracle.
    pub fn reflector() -> (p: OracleProvider)
        ensures
            p == OracleProvider::Reflector,
    {
        OracleProvider::Reflector
    }

    /// The Pyth oracle.
    pub fn pyth() -> (p: OracleProvider)
        ensures
            p == OracleProvider::Pyth,
    {
        OracleProvider::Pyth
    }
}

/// Where and how a market reads its price: the oracle, the feed, and the
/// threshold comparison that turns a price into an outcome.
pub struct OracleConfig {
    pub provider: OracleProvider,
    pub oracle_address: Address,
    pub feed_id: String,
    pub threshold: i128,
    pub comparison: String,
}

/// The mathematical value of an oracle configuration.
pub struct OracleConfigView {
    pub provider: OracleProvider,
    pub oracle_address: Seq<char>,
    pub feed_id: Seq<char>,
    pub threshold: i128,
    pub comparison: Seq<char>,
}

impl View for OracleConfig {
    type V = OracleConfigView;

    open spec fn view(&self) -> OracleConfigView {
        OracleConfigView {
            provider: self.provider,
            oracle_address: self.oracle_address@,
            feed_id: self.feed_id@,
            threshold: self.threshold,
            comparison: self.comparison@,
        }
    }
}

impl Clone for OracleConfig {
    fn clone(&self) -> (res: Self)
        ensures
            res@ == self@,
    {
        OracleConfig {
            provider: self.provider,
            oracle_address: self.oracle_address.clone(),
            feed_id: self.feed_id.clone(),
            threshold: self.threshold,
            comparison: self.comparison.clone(),
        }
    }
}

/// Lifecycle states of a market.
#[derive(Clone, Copy, Debug, PartialEq, Eq, Structural)]
pub enum MarketState {
    Active,
    Ended,
    Disputed,
    Resolved,
    Closed,
    Cancelled,
}

/// The outcome most voted for by the community, with its share.
pub struct CommunityConsensus {
    pub outcome: String,
    pub votes: u32,
    pub total_votes: u32,
    pub percentage: i128,
}

/// The mathematical value of a community consensus.
pub struct CommunityConsensusView {
    pub outcome: Seq<char>,
    pub votes: u32,
    pub total_votes: u32,
    pub percentage: i128,
}

impl View for CommunityConsensus {
    type V = CommunityConsensusView;

    open spec fn view(&self) -> CommunityConsensusView {
        CommunityConsensusView {
            outcome: self.outcome@,
            votes: self.votes,
            total_votes: self.total_votes,
            percentage: self.percentage,
        }
    }
}

impl Clone for CommunityConsensus {
    fn clone(&self) -> (res: Self)
        ensures
            res@ == self@,
    {
        CommunityConsensus {
            outcome: self.outcome.clone(),
            votes: self.votes,
            total_votes: self.total_votes,
            percentage: self.percentage,
        }
    }
}

/// A bet placed on a market.
pub struct Bet {
    pub outcome: String,
    pub amount: i128,
}

/// The view of a list of (address, text) pairs.
pub open spec fn votes_view(s: Seq<(Address, String)>) -> Seq<(Seq<char>, Seq<char>)> {
    s.map_values(|p: (Address, String)| (p.0@, p.1@))
}

/// The view of a list of (address, amount) pairs.
pub open spec fn amounts_view(s: Seq<(Address, i128)>) -> Seq<(Seq<char>, i128)> {
    s.map_values(|p: (Address, i128)| (p.0@, p.1))
}

/// Whether `who` has an entry in a list of (address, _) pairs.
pub open spec fn has_entry<T>(s: Seq<(Seq<char>, T)>, who: Seq<char>) -> bool {
    exists|i: int| 0 <= i < s.len() && s[i].0 == who
}

/// No address has two entries in a list of (address, _) pairs.
pub open spec fn distinct_keys<T>(s: Seq<(Seq<char>, T)>) -> bool {
    forall|i: int, j: int| 0 <= i < j < s.len() ==> s[i].0 != s[j].0
}

/// The amount of the first entry of `who`, or 0 when there is none.
pub open spec fn amount_of(s: Seq<(Seq<char>, i128)>, who: Seq<char>) -> i128 {
    if has_entry(s, who) {
        s[choose|i: int| 0 <= i < s.len() && s[i].0 == who && forall|j: int| 0 <= j < i ==> s[j].0 != who].1
    } else {
        0
    }
}

/// The view of an optional text.
pub open spec fn opt_text(o: Option<String>) -> Option<Seq<char>> {
    match o {
        Some(s) => Some(s@),
        None => None,
    }
}

/// The view of an optional list of texts.
pub open spec fn opt_texts(o: Option<Vec<String>>) -> Option<Seq<Seq<char>>> {
    match o {
        Some(v) => Some(strings_view(v@)),
        None => None,
    }
}

/// A prediction market: its outcomes, timing, oracle setup, votes and
/// stakes, and what has been decided so far.
pub struct Market {
    pub admin: Address,
    pub outcomes: Vec<String>,
    pub end_time: u64,
    pub resolution_timeout: u64,
    pub oracle_config: OracleConfig,
    pub has_fallback: bool,
    pub fallback_oracle_config: OracleConfig,
    pub oracle_result: Option<String>,
    pub winning_outcomes: Option<Vec<String>>,
    /// Each voter with the outcome voted for.
    pub votes: Vec<(Address, String)>,
    /// Each voter with the amount staked.
    pub stakes: Vec<(Address, i128)>,
    pub total_staked: i128,
    /// Sum of the stakes put into disputes of this market.
    pub total_dispute_stakes: i128,
    pub min_pool_size: Option<i128>,
    pub state: MarketState,
}

impl Market {
    /// The market's invariant: each voter has one vote and one stake entry.
    pub open spec fn well_formed(self) -> bool {
        &&& distinct_keys(votes_view(self.votes@))
        &&& distinct_keys(amounts_view(self.stakes@))
    }

    /// A market has ended once the ledger time reaches its end time.
    pub open spec fn ended_at(self, now: u64) -> bool {
        now >= self.end_time
    }

    /// Whether the market has ended at ledger time `now`.
    pub fn has_ended(&self, now: u64) -> (b: bool)
        ensures
            b == self.ended_at(now),
    {
        now >= self.end_time
    }

    /// Whether the market is still open for voting at ledger time `now`.
    pub fn is_active(&self, now: u64) -> (b: bool)
        ensures
            b == !self.ended_at(now),
    {
        now < self.end_time
    }

    /// The amount staked by `who` (0 when it has not staked).
    pub fn stake_of(&self, who: &Address) -> (a: i128)
        ensures
            a == amount_of(amounts_view(self.stakes@), who@),
    {
        let ghost s = amounts_view(self.stakes@);
        let mut i: usize = 0;
        while i < self.stakes.len()
            invariant
                s == amounts_view(self.stakes@),
                i <= self.stakes@.len(),
                forall|j: int| 0 <= j < i ==> s[j].0 != who@,
            decreases self.stakes@.len() - i,
        {
            if self.stakes[i].0.same_as(who) {
                proof {
                    assert(s[i as int].0 == who@);
                    assert(has_entry(s, who@));
                    let c = choose|c: int|
                        0 <= c < s.len() && s[c].0 == who@ && forall|j: int| 0 <= j < c ==> s[j].0 != who@;
                    if c < i {
                    } else if c > i {
                        assert(s[i as int].0 != who@);
                    }
                }
                return self.stakes[i].1;
            }
            i = i + 1;
        }
        0
    }

    /// Whether `who` has voted.
    pub fn has_voted(&self, who: &Address) -> (b: bool)
        ensures
            b == has_entry(votes_view(self.votes@), who@),
    {
        let ghost s = votes_view(self.votes@);
        let mut i: usize = 0;
        while i < self.votes.len()
            invariant
                s == votes_view(self.votes@),
                i <= self.votes@.len(),
                forall|j: int| 0 <= j < i ==> s[j].0 != who@,
            decreases self.votes@.len() - i,
        {
            if self.votes[i].0.same_as(who) {
                proof {
                    assert(s[i as int].0 == who@);
                }
                return true;
            }
            i = i + 1;
        }
        false
    }
}

} // verus!
