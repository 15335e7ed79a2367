use vstd::prelude::*;

use crate::types::Address;

verus! {

/// Why and by whom a subscriber was blocked.
#[derive(Debug, PartialEq, Eq)]
pub struct BlocklistEntry {
    pub subscriber: Address,
    pub added_by: Address,
    pub added_at: u64,
    pub reason: Option<String>,
}

/// An exact copy of an entry.
pub fn copy_entry(e: &BlocklistEntry) -> (r: BlocklistEntry)
    ensures
        r == *e,
{
    BlocklistEntry {
        subscriber: e.subscriber,
        added_by: e.added_by,
        added_at: e.added_at,
        reason: match &e.reason {
            Some(s) => Some(s.clone()),
            None => None,
        },
    }
}

/// No two entries are for the same subscriber.
pub open spec fn entries_unique(s: Seq<BlocklistEntry>) -> bool {
    forall|i: int, j: int|
        0 <= i < s.len() && 0 <= j < s.len() && i != j ==> #[trigger] s[i].subscriber
            != #[trigger] s[j].subscriber
}

/// The map holds exactly the entries of the list, keyed by subscriber.
pub open spec fn entries_describe(s: Seq<BlocklistEntry>, m: Map<Address, BlocklistEntry>) -> bool {
    &&& forall|i: int|
        0 <= i < s.len() ==> m.contains_key(#[trigger] s[i].subscriber) && m[s[i].subscriber]
            == s[i]
    &&& forall|k: Address|
        #[trigger] m.contains_key(k) ==> exists|i: int| 0 <= i < s.len() && #[trigger] s[i].subscriber == k
}

/// The blocked subscribers, one entry each.
pub struct Blocklist {
    entries: Vec<BlocklistEntry>,
    by_subscriber: Ghost<Map<Address, BlocklistEntry>>,
}

impl View for Blocklist {
    type V = Map<Address, BlocklistEntry>;

    closed spec fn view(&self) -> Map<Address, BlocklistEntry> {
        self.by_subscriber@
    }
}

impl Blocklist {
    /// The stored list and the map agree, one entry per subscriber.
    pub closed spec fn wf(&self) -> bool {
        &&& entries_unique(self.entries@)
        &&& entries_describe(self.entries@, self.by_subscriber@)
    }

    /// Builds a blocklist from its entries, provided no subscriber appears twice.
    pub fn from_entries(entries: Vec<BlocklistEntry>) -> (r: Option<Blocklist>)
        ensures
            r is Some <==> entries_unique(entries@),
            r matches Some(b) ==> b.wf() && entries_describe(entries@, b@),
    {
        let len = entries.len();
        for i in 0..len
            invariant
                len == entries@.len(),
                forall|a: int, b: int|
                    0 <= a < i && 0 <= b < len && a != b ==> #[trigger] entries@[a].subscriber
                        != #[trigger] entries@[b].subscriber,
        {
            for j in 0..len
                invariant
                    len == entries@.len(),
                    i < len,
                    forall|a: int, b: int|
                        0 <= a < i && 0 <= b < len && a != b ==> #[trigger] entries@[a].subscriber
                            != #[trigger] entries@[b].subscriber,
                    forall|b: int|
                        0 <= b < j && b != i ==> entries@[i as int].subscriber
                            != #[trigger] entries@[b].subscriber,
            {
                if j != i && entries[i].subscriber == entries[j].subscriber {
                    proof {
                        assert(entries@[i as int].subscriber == entries@[j as int].subscriber);
                    }
                    return None;
                }
            }
        }
        let ghost s = entries@;
        let ghost m = Map::new(
            |k: Address| exists|i: int| 0 <= i < s.len() && #[trigger] s[i].subscriber == k,
            |k: Address| s[choose|i: int| 0 <= i < s.len() && #[trigger] s[i].subscriber == k],
        );
        proof {
            assert forall|i: int| 0 <= i < s.len() implies m.contains_key(
                #[trigger] s[i].subscriber,
            ) && m[s[i].subscriber] == s[i] by {
                let k = s[i].subscriber;
                assert(m.contains_key(k));
                let c = choose|c: int| 0 <= c < s.len() && #[trigger] s[c].subscriber == k;
                if c != i {
                    assert(s[c].subscriber != s[i].subscriber);
                }
            }
        }
        Some(Blocklist { entries, by_subscriber: Ghost(m) })
    }

    /// A copy of the entries, in storage order.
    pub fn to_entries(&self) -> (r: Vec<BlocklistEntry>)
        requires
            self.wf(),
        ensures
            entries_unique(r@),
            entries_describe(r@, self@),
    {
        let mut out: Vec<BlocklistEntry> = Vec::new();
        let len = self.entries.len();
        for i in 0..len
            invariant
                len == self.entries@.len(),
                out@ == self.entries@.take(i as int),
        {
            out.push(copy_entry(&self.entries[i]));
            proof {
                assert(out@ =~= self.entries@.take(i as int + 1));
            }
        }
        assert(out@ =~= self.entries@);
        out
    }

    pub fn new() -> (r: Blocklist)
        ensures
            r.wf(),
            r@ == Map::<Address, BlocklistEntry>::empty(),
    {
        Blocklist { entries: Vec::new(), by_subscriber: Ghost(Map::empty()) }
    }

    fn find(&self, subscriber: Address) -> (r: Option<usize>)
        requires
            self.wf(),
        ensures
            r matches Some(i) ==> i < self.entries@.len() && self.entries@[i as int].subscriber
                == subscriber && self@.contains_key(subscriber) && self@[subscriber]
                == self.entries@[i as int],
            r is None ==> !self@.contains_key(subscriber),
    {
        let len = self.entries.len();
        for i in 0..len
            invariant
                len == self.entries@.len(),
                self.wf(),
                forall|j: int| 0 <= j < i ==> #[trigger] self.entries@[j].subscriber != subscriber,
        {
            if self.entries[i].subscriber == subscriber {
                return Some(i);
            }
        }
        None
    }

    /// Whether the subscriber is blocked.
    pub fn contains(&self, subscriber: Address) -> (r: bool)
        requires
            self.wf(),
        ensures
            r == self@.contains_key(subscriber),
    {
        self.find(subscriber).is_some()
    }

    /// The entry of a blocked subscriber.
    pub fn get(&self, subscriber: Address) -> (r: Option<BlocklistEntry>)
        requires
            self.wf(),
        ensures
            r == (if self@.contains_key(subscriber) {
                Some(self@[subscriber])
            } else {
                None::<BlocklistEntry>
            }),
    {
        match self.find(subscriber) {
            Some(i) => Some(copy_entry(&self.entries[i])),
            None => None,
        }
    }

    /// Blocks a subscriber that is not yet blocked.
    pub fn insert(&mut self, entry: BlocklistEntry)
        requires
            old(self).wf(),
            !old(self)@.contains_key(entry.subscriber),
        ensures
            final(self).wf(),
            final(self)@ == old(self)@.insert(entry.subscriber, entry),
    {
        let ghost old_entries = self.entries@;
        let ghost e = entry;
        let key = entry.subscriber;
        proof {
            assert forall|i: int| 0 <= i < old_entries.len() implies #[trigger] old_entries[i].subscriber
                != key by {
                assert(self@.contains_key(old_entries[i].subscriber));
            }
        }
        self.entries.push(entry);
        self.by_subscriber = Ghost(self.by_subscriber@.insert(key, e));
        proof {
            assert forall|k: Address| #[trigger] self.by_subscriber@.contains_key(k) implies exists|
                i: int,
            |
                0 <= i < self.entries@.len() && #[trigger] self.entries@[i].subscriber == k by {
                if k == key {
                    assert(self.entries@[old_entries.len() as int].subscriber == k);
                } else {
                    let i = choose|i: int|
                        0 <= i < old_entries.len() && #[trigger] old_entries[i].subscriber == k;
                    assert(self.entries@[i].subscriber == k);
                }
            }
        }
    }

    /// Unblocks a blocked subscriber.
    pub fn remove(&mut self, subscriber: Address)
        requires
            old(self).wf(),
            old(self)@.contains_key(subscriber),
        ensures
            final(self).wf(),
            final(self)@ == old(self)@.remove(subscriber),
    {
        let i = match self.find(subscriber) {
            Some(i) => i,
            None => {
                return;
            },
        };
        let ghost old_entries = self.entries@;
        self.entries.remove(i);
        self.by_subscriber = Ghost(self.by_subscriber@.remove(subscriber));
        proof {
            let n = self.entries@;
            assert(n =~= old_entries.remove(i as int));
            assert forall|a: int, b: int|
                0 <= a < n.len() && 0 <= b < n.len() && a != b implies #[trigger] n[a].subscriber
                != #[trigger] n[b].subscriber by {
                let oa = if a < i { a } else { a + 1 };
                let ob = if b < i { b } else { b + 1 };
                assert(n[a] == old_entries[oa]);
                assert(n[b] == old_entries[ob]);
            }
            assert forall|a: int| 0 <= a < n.len() implies self.by_subscriber@.contains_key(
                #[trigger] n[a].subscriber,
            ) && self.by_subscriber@[n[a].subscriber] == n[a] by {
                let oa = if a < i { a } else { a + 1 };
                assert(n[a] == old_entries[oa]);
                assert(oa != i);
            }
            assert forall|k: Address| #[trigger] self.by_subscriber@.contains_key(k) implies exists|
                a: int,
            | 0 <= a < n.len() && #[trigger] n[a].subscriber == k by {
                let o = choose|o: int| 0 <= o < old_entries.len() && #[trigger] old_entries[o].subscriber == k;
                assert(o != i);
                if o < i {
                    assert(n[o] == old_entries[o]);
                } else {
                    assert(n[o - 1] == old_entries[o]);
                }
            }
        }
    }
}

} // verus!
