//! The contract's stored state and the per-bot timestamps of the last request.
use crate::msg::Metadata;
use vstd::prelude::*;

verus! {

/// What the contract stores at instantiation.
#[derive(Debug)]
pub struct State {
    /// Seconds to wait before the same bot is handled again.
    pub retry_delay: u64,
    /// The Paloma job that runs the Vyper contract.
    pub job_id: String,
    /// The only address allowed to execute.
    pub owner: String,
    pub metadata: Metadata,
}

/// The time (in nanoseconds) at which a bot was last handled.
#[derive(Debug)]
pub struct TimestampEntry {
    pub key: String,
    pub nanos: u64,
}

/// The map of a list of entries, a later entry for a key replacing an earlier one.
pub open spec fn entries_map(entries: Seq<TimestampEntry>) -> Map<Seq<char>, u64>
    decreases entries.len(),
{
    if entries.len() == 0 {
        Map::empty()
    } else {
        entries_map(entries.drop_last()).insert(entries.last().key@, entries.last().nanos)
    }
}

/// The last-handled times of bots, keyed by bot address.
pub struct TimestampStore {
    entries: Vec<TimestampEntry>,
}

impl View for TimestampStore {
    type V = Map<Seq<char>, u64>;

    closed spec fn view(&self) -> Map<Seq<char>, u64> {
        entries_map(self.entries@)
    }
}

impl TimestampStore {
    /// A store with no bot in it.
    pub fn new() -> (store: Self)
        ensures
            store@ == Map::<Seq<char>, u64>::empty(),
    {
        TimestampStore { entries: Vec::new() }
    }

    /// The time at which `key` was last handled, if ever.
    pub fn get(&self, key: &String) -> (nanos: Option<u64>)
        ensures
            nanos == (if self@.contains_key(key@) {
                Some(self@[key@])
            } else {
                None
            }),
    {
        let ghost all = self.entries@;
        let mut i = self.entries.len();
        assert(all.take(i as int) =~= all);
        while i > 0
            invariant
                all == self.entries@,
                i <= all.len(),
                entries_map(all).contains_key(key@) == entries_map(all.take(i as int)).contains_key(key@),
                entries_map(all).contains_key(key@) ==> entries_map(all)[key@] == entries_map(
                    all.take(i as int),
                )[key@],
            decreases i,
        {
            let e = &self.entries[i - 1];
            assert(all.take(i as int).drop_last() =~= all.take(i - 1));
            assert(all.take(i as int).last() == e);
            if e.key == *key {
                return Some(e.nanos);
            }
            i = i - 1;
        }
        assert(all.take(0) =~= Seq::<TimestampEntry>::empty());
        None
    }

    /// Records that `key` was handled at `nanos`.
    pub fn insert(&mut self, key: String, nanos: u64)
        ensures
            final(self)@ == old(self)@.insert(key@, nanos),
    {
        let ghost before = self.entries@;
        self.entries.push(TimestampEntry { key, nanos });
        assert(self.entries@.drop_last() =~= before);
    }

    /// The entries, in the order in which they were recorded.
    pub fn entries(&self) -> (entries: &Vec<TimestampEntry>)
        ensures
            entries_map(entries@) == self@,
    {
        &self.entries
    }

    /// A store with the same times.
    pub fn copy(&self) -> (store: Self)
        ensures
            store@ == self@,
    {
        let mut entries: Vec<TimestampEntry> = Vec::new();
        let mut i: usize = 0;
        while i < self.entries.len()
            invariant
                i <= self.entries@.len(),
                entries@.len() == i,
                forall|j: int|
                    0 <= j < i ==> #[trigger] entries@[j] == self.entries@[j],
            decreases self.entries@.len() - i,
        {
            let e = &self.entries[i];
            entries.push(TimestampEntry { key: e.key.clone(), nanos: e.nanos });
            i = i + 1;
        }
        assert(entries@ =~= self.entries@);
        TimestampStore { entries }
    }
}

} // verus!
