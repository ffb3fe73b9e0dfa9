use vstd::prelude::*;

use crate::address::Address;
use crate::text::{clone_strings, strings_view};

verus! {

/// Record of a force-resolve operation, stored for idempotency: once
/// stored, the same `(market_id, idempotency_key)` pair makes a later
/// force-resolve call a no-op instead of a second resolution.
pub struct ForceResolveRecord {
    pub resolved: bool,
    pub timestamp: u64,
    pub admin: Address,
    pub winning_outcomes: Vec<String>,
}

/// The mathematical value of a force-resolve record.
pub struct ForceResolveRecordView {
    pub resolved: bool,
    pub timestamp: u64,
    pub admin: Seq<char>,
    pub winning_outcomes: Seq<Seq<char>>,
}

impl View for ForceResolveRecord {
    type V = ForceResolveRecordView;

    open spec fn view(&self) -> ForceResolveRecordView {
        ForceResolveRecordView {
            resolved: self.resolved,
            timestamp: self.timestamp,
            admin: self.admin@,
            winning_outcomes: strings_view(self.winning_outcomes@),
        }
    }
}

impl Clone for ForceResolveRecord {
    fn clone(&self) -> (res: Self)
        ensures
            res@ == self@,
    {
        ForceResolveRecord {
            resolved: self.resolved,
            timestamp: self.timestamp,
            admin: self.admin.clone(),
            winning_outcomes: clone_strings(&self.winning_outcomes),
        }
    }
}

/// A stored record with the market and idempotency key it is filed under.
pub struct ForceResolveEntry {
    pub market_id: String,
    pub key: String,
    pub record: ForceResolveRecord,
}

/// The (market id, idempotency key) pair an entry is filed under.
pub open spec fn entry_key(e: ForceResolveEntry) -> (Seq<char>, Seq<char>) {
    (e.market_id@, e.key@)
}

/// The force-resolve idempotency records held in persistent storage.
pub struct ForceResolveManager {
    pub entries: Vec<ForceResolveEntry>,
}

impl ForceResolveManager {
    /// No two entries are filed under the same pair.
    pub open spec fn well_formed(self) -> bool {
        forall|i: int, j: int|
            0 <= i < j < self.entries@.len() ==> entry_key(self.entries@[i]) != entry_key(
                self.entries@[j],
            )
    }

    /// Whether some entry is filed under `k`.
    pub open spec fn has_key(self, k: (Seq<char>, Seq<char>)) -> bool {
        exists|i: int| 0 <= i < self.entries@.len() && entry_key(self.entries@[i]) == k
    }
}

impl View for ForceResolveManager {
    type V = Map<(Seq<char>, Seq<char>), ForceResolveRecordView>;

    open spec fn view(&self) -> Map<(Seq<char>, Seq<char>), ForceResolveRecordView> {
        Map::new(
            |k: (Seq<char>, Seq<char>)| self.has_key(k),
            |k: (Seq<char>, Seq<char>)|
                self.entries@[choose|i: int|
                    0 <= i < self.entries@.len() && entry_key(self.entries@[i]) == k].record@,
        )
    }
}

impl ForceResolveManager {
    /// No records stored.
    pub fn new() -> (m: ForceResolveManager)
        ensures
            m.well_formed(),
            m@ == Map::<(Seq<char>, Seq<char>), ForceResolveRecordView>::empty(),
    {
        let m = ForceResolveManager { entries: Vec::new() };
        assert(m@ =~= Map::<(Seq<char>, Seq<char>), ForceResolveRecordView>::empty());
        m
    }

    /// Finds the position of the entry filed under `(market_id, key)`.
    fn find(&self, market_id: &String, key: &String) -> (r: Option<usize>)
        requires
            self.well_formed(),
        ensures
            match r {
                Some(i) => i < self.entries@.len() && entry_key(self.entries@[i as int]) == (
                    market_id@,
                    key@,
                ) && self@[(market_id@, key@)] == self.entries@[i as int].record@,
                None => !self@.contains_key((market_id@, key@)),
            },
    {
        let mut i: usize = 0;
        while i < self.entries.len()
            invariant
                self.well_formed(),
                i <= self.entries@.len(),
                forall|j: int| 0 <= j < i ==> entry_key(self.entries@[j]) != (market_id@, key@),
            decreases self.entries@.len() - i,
        {
            if self.entries[i].market_id == *market_id && self.entries[i].key == *key {
                proof {
                    let k = (market_id@, key@);
                    assert(entry_key(self.entries@[i as int]) == k);
                    assert(self.has_key(k));
                    let c = choose|c: int|
                        0 <= c < self.entries@.len() && entry_key(self.entries@[c]) == k;
                    if c < i as int {
                        assert(entry_key(self.entries@[c]) != entry_key(self.entries@[i as int]));
                    } else if c > i as int {
                        assert(entry_key(self.entries@[i as int]) != entry_key(self.entries@[c]));
                    }
                }
                return Some(i);
            }
            i = i + 1;
        }
        None
    }

    /// Whether the idempotency key has already been consumed for this
    /// market.
    pub fn is_already_resolved(&self, market_id: &String, key: &String) -> (b: bool)
        requires
            self.well_formed(),
        ensures
            b == self@.contains_key((market_id@, key@)),
    {
        self.find(market_id, key).is_some()
    }

    /// Consumes the idempotency key by storing a resolved record stamped
    /// with ledger time `now`. The key must not have been consumed yet.
    pub fn mark_resolved(
        &mut self,
        now: u64,
        market_id: &String,
        key: &String,
        admin: &Address,
        winning_outcomes: &Vec<String>,
    )
        requires
            old(self).well_formed(),
            !old(self)@.contains_key((market_id@, key@)),
        ensures
            final(self).well_formed(),
            final(self)@ == old(self)@.insert(
                (market_id@, key@),
                ForceResolveRecordView {
                    resolved: true,
                    timestamp: now,
                    admin: admin@,
                    winning_outcomes: strings_view(winning_outcomes@),
                },
            ),
    {
        let record = ForceResolveRecord {
            resolved: true,
            timestamp: now,
            admin: admin.clone(),
            winning_outcomes: clone_strings(winning_outcomes),
        };
        let entry = ForceResolveEntry { market_id: market_id.clone(), key: key.clone(), record };
        let ghost k = (market_id@, key@);
        let ghost rv = entry.record@;
        let ghost before = *old(self);
        self.entries.push(entry);
        proof {
            let n = before.entries@.len();
            assert(self.entries@[n as int] == entry);
            assert forall|i: int| 0 <= i < n implies entry_key(self.entries@[i]) != k by {
                assert(self.entries@[i] == before.entries@[i]);
                if entry_key(before.entries@[i]) == k {
                    assert(before.has_key(k));
                }
            }
            assert(self.well_formed());
            assert forall|q: (Seq<char>, Seq<char>)| self.has_key(q) <==> (before.has_key(q) || q
                == k) by {
                if before.has_key(q) {
                    let i = choose|i: int|
                        0 <= i < before.entries@.len() && entry_key(before.entries@[i]) == q;
                    assert(self.entries@[i] == before.entries@[i]);
                }
                if self.has_key(q) && q != k {
                    let i = choose|i: int|
                        0 <= i < self.entries@.len() && entry_key(self.entries@[i]) == q;
                    assert(i < n);
                    assert(self.entries@[i] == before.entries@[i]);
                }
                if q == k {
                    assert(entry_key(self.entries@[n as int]) == k);
                }
            }
            assert forall|q: (Seq<char>, Seq<char>)| #[trigger] self@.contains_key(q) implies self@[q]
                == before@.insert(k, rv)[q] by {
                let c = choose|c: int|
                    0 <= c < self.entries@.len() && entry_key(self.entries@[c]) == q;
                if q == k {
                    assert(entry_key(self.entries@[n as int]) == k);
                    assert(c == n);
                } else {
                    assert(c < n);
                    assert(self.entries@[c] == before.entries@[c]);
                    let d = choose|d: int|
                        0 <= d < before.entries@.len() && entry_key(before.entries@[d]) == q;
                    assert(self.entries@[d] == before.entries@[d]);
                    if c < d {
                        assert(entry_key(self.entries@[c]) != entry_key(self.entries@[d]));
                    } else if c > d {
                        assert(entry_key(self.entries@[d]) != entry_key(self.entries@[c]));
                    }
                }
            }
            assert(self@ =~= before@.insert(k, rv));
        }
    }

    /// The record filed under `(market_id, key)`, if any.
    pub fn get_record(&self, market_id: &String, key: &String) -> (r: Option<ForceResolveRecord>)
        requires
            self.well_formed(),
        ensures
            match r {
                Some(rec) => self@.contains_key((market_id@, key@)) && rec@ == self@[(
                    market_id@,
                    key@,
                )],
                None => !self@.contains_key((market_id@, key@)),
            },
    {
        match self.find(market_id, key) {
            Some(i) => Some(self.entries[i].record.clone()),
            None => None,
        }
    }
}

/// Consuming a key makes it read as consumed with the stored record, and
/// leaves every other (market, key) pair as it was.
pub proof fn law_consumed_key_stays_consumed(
    before: Map<(Seq<char>, Seq<char>), ForceResolveRecordView>,
    k: (Seq<char>, Seq<char>),
    rec: ForceResolveRecordView,
    other: (Seq<char>, Seq<char>),
)
    requires
        !before.contains_key(k),
        other != k,
    ensures
        before.insert(k, rec).contains_key(k),
        before.insert(k, rec)[k] == rec,
        before.insert(k, rec).contains_key(other) == before.contains_key(other),
        before.contains_key(other) ==> before.insert(k, rec)[other] == before[other],
{
}

} // verus!
