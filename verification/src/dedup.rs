//! The cooldown cache: which markets were handed to analysis, and when.
//!
//! A market that is in the cache is not analysed again until its entry is older
//! than the cooldown window. The cache is a map from market identifier to the
//! time of the last trigger, in seconds; entries leave it only when `sweep`
//! finds them expired.

use vstd::prelude::*;
use crate::text::same_text;

verus! {

/// The cooldown window: twenty-four hours, in seconds.
pub const CACHE_TTL_SECS: u64 = 86_400;

/// Whether an entry stamped `stamp` is still within the window at `now`: its
/// age does not exceed the window. An entry stamped in the future is fresh.
pub open spec fn is_fresh(stamp: u64, now: u64) -> bool {
    now - stamp <= CACHE_TTL_SECS
}

/// What is left of `m` at `now`: the entries that are still fresh.
pub open spec fn swept(m: Map<Seq<char>, u64>, now: u64) -> Map<Seq<char>, u64> {
    Map::new(|k: Seq<char>| m.contains_key(k) && is_fresh(m[k], now), |k: Seq<char>| m[k])
}

/// One market and the time it was last triggered.
#[derive(Debug)]
pub struct Entry {
    pub id: String,
    pub stamp: u64,
}

/// The map that a list of entries stands for; a later entry overrides an
/// earlier one for the same market.
pub open spec fn map_of(entries: Seq<Entry>) -> Map<Seq<char>, u64>
    decreases entries.len(),
{
    if entries.len() == 0 {
        Map::empty()
    } else {
        map_of(entries.drop_last()).insert(entries.last().id@, entries.last().stamp)
    }
}

/// No market occurs twice in `entries`.
pub open spec fn distinct(entries: Seq<Entry>) -> bool {
    forall|i: int, j: int|
        0 <= i < j < entries.len() ==> (#[trigger] entries[i]).id@ != (#[trigger] entries[j]).id@
}

/// The markets of `map_of(entries)` are those of the entries.
proof fn lemma_keys(entries: Seq<Entry>)
    ensures
        forall|k: Seq<char>| #[trigger]
            map_of(entries).contains_key(k) <==> exists|i: int|
                0 <= i < entries.len() && (#[trigger] entries[i]).id@ == k,
        map_of(entries).dom().finite(),
    decreases entries.len(),
{
    if entries.len() > 0 {
        let head = entries.drop_last();
        lemma_keys(head);
        assert forall|k: Seq<char>| #[trigger]
            map_of(entries).contains_key(k) <==> exists|i: int|
                0 <= i < entries.len() && (#[trigger] entries[i]).id@ == k by {
            if map_of(entries).contains_key(k) {
                if k == entries.last().id@ {
                    assert(entries[entries.len() - 1].id@ == k);
                } else {
                    assert(map_of(head).contains_key(k));
                    let i = choose|i: int| 0 <= i < head.len() && (#[trigger] head[i]).id@ == k;
                    assert(entries[i].id@ == k);
                }
            }
            if exists|i: int| 0 <= i < entries.len() && (#[trigger] entries[i]).id@ == k {
                let i = choose|i: int| 0 <= i < entries.len() && (#[trigger] entries[i]).id@ == k;
                if i < head.len() {
                    assert(head[i].id@ == k);
                }
            }
        }
    }
}

/// Among distinct entries, each market maps to the stamp of its own entry.
proof fn lemma_value(entries: Seq<Entry>, i: int)
    requires
        distinct(entries),
        0 <= i < entries.len(),
    ensures
        map_of(entries).contains_key(entries[i].id@),
        map_of(entries)[entries[i].id@] == entries[i].stamp,
    decreases entries.len(),
{
    let head = entries.drop_last();
    if i < entries.len() - 1 {
        assert(distinct(head)) by {
            assert forall|a: int, b: int| 0 <= a < b < head.len() implies (#[trigger] head[a]).id@
                != (#[trigger] head[b]).id@ by {
                assert(head[a] == entries[a] && head[b] == entries[b]);
            }
        }
        lemma_value(head, i);
        assert(head[i] == entries[i]);
        assert(entries[i].id@ != entries[entries.len() - 1].id@);
    }
}

/// Replacing the stamp of an entry among distinct entries replaces the stamp of
/// its market, and nothing else.
proof fn lemma_restamp(entries: Seq<Entry>, i: int, e: Entry)
    requires
        distinct(entries),
        0 <= i < entries.len(),
        e.id@ == entries[i].id@,
    ensures
        map_of(entries.update(i, e)) == map_of(entries).insert(e.id@, e.stamp),
        distinct(entries.update(i, e)),
    decreases entries.len(),
{
    let after = entries.update(i, e);
    let head = entries.drop_last();
    assert(distinct(after)) by {
        assert forall|a: int, b: int| 0 <= a < b < after.len() implies (#[trigger] after[a]).id@
            != (#[trigger] after[b]).id@ by {
            assert(entries[a].id@ != entries[b].id@);
        }
    }
    if i == entries.len() - 1 {
        assert(after.drop_last() == head);
        assert(map_of(after) == map_of(entries).insert(e.id@, e.stamp));
    } else {
        assert(distinct(head)) by {
            assert forall|a: int, b: int| 0 <= a < b < head.len() implies (#[trigger] head[a]).id@
                != (#[trigger] head[b]).id@ by {
                assert(head[a] == entries[a] && head[b] == entries[b]);
            }
        }
        lemma_restamp(head, i, e);
        assert(after.drop_last() == head.update(i, e));
        assert(after.last() == entries.last());
        assert(entries[i].id@ != entries[entries.len() - 1].id@);
        assert(map_of(after) == map_of(entries).insert(e.id@, e.stamp));
    }
}

/// The cooldown cache.
#[derive(Debug)]
pub struct DedupCache {
    entries: Vec<Entry>,
}

impl View for DedupCache {
    type V = Map<Seq<char>, u64>;

    closed spec fn view(&self) -> Map<Seq<char>, u64> {
        map_of(self.entries@)
    }
}

impl DedupCache {
    /// The cache holds each market once.
    #[verifier::type_invariant]
    closed spec fn wf(&self) -> bool {
        distinct(self.entries@)
    }

    /// A cache that holds nothing.
    pub fn new() -> (cache: DedupCache)
        ensures
            cache@ == Map::<Seq<char>, u64>::empty(),
    {
        DedupCache { entries: Vec::new() }
    }

    /// How many markets the cache holds.
    pub fn len(&self) -> (n: usize)
        ensures
            n == self@.dom().len(),
            self@.dom().finite(),
    {
        proof {
            use_type_invariant(self);
            lemma_len(self.entries@);
        }
        self.entries.len()
    }

    /// Where the entry of market `id` stands, if the cache holds one.
    fn position(&self, id: &str) -> (r: Option<usize>)
        ensures
            match r {
                Some(i) => i < self.entries@.len() && self.entries@[i as int].id@ == id@,
                None => forall|j: int|
                    0 <= j < self.entries@.len() ==> (#[trigger] self.entries@[j]).id@ != id@,
            },
    {
        let mut i: usize = 0;
        while i < self.entries.len()
            invariant
                i <= self.entries@.len(),
                forall|j: int| 0 <= j < i ==> (#[trigger] self.entries@[j]).id@ != id@,
            decreases self.entries@.len() - i,
        {
            if same_text(self.entries[i].id.as_str(), id) {
                return Some(i);
            }
            i += 1;
        }
        None
    }

    /// Whether the cache holds market `id`.
    pub fn contains(&self, id: &str) -> (r: bool)
        ensures
            r == self@.contains_key(id@),
    {
        proof {
            lemma_keys(self.entries@);
        }
        self.position(id).is_some()
    }

    /// The time at which market `id` was last triggered, if the cache holds it.
    pub fn stamp_of(&self, id: &str) -> (r: Option<u64>)
        ensures
            r == if self@.contains_key(id@) {
                Some(self@[id@])
            } else {
                None::<u64>
            },
    {
        proof {
            use_type_invariant(self);
            lemma_keys(self.entries@);
        }
        match self.position(id) {
            Some(i) => {
                proof {
                    lemma_value(self.entries@, i as int);
                }
                Some(self.entries[i].stamp)
            },
            None => None,
        }
    }

    /// Records that market `id` was triggered at `now`, whether or not the cache
    /// held it before.
    pub fn insert(&mut self, id: &str, now: u64)
        ensures
            final(self)@ == old(self)@.insert(id@, now),
    {
        proof {
            use_type_invariant(&*self);
        }
        let found = self.position(id);
        let entry = Entry { id: id.to_owned(), stamp: now };
        let mut entries: Vec<Entry> = Vec::new();
        core::mem::swap(&mut self.entries, &mut entries);
        let ghost before = entries@;
        match found {
            Some(i) => {
                proof {
                    lemma_restamp(before, i as int, entry);
                }
                entries.set(i, entry);
            },
            None => {
                entries.push(entry);
                assert(entries@.drop_last() == before);
                assert(distinct(entries@)) by {
                    assert forall|a: int, b: int|
                        0 <= a < b < entries@.len() implies (#[trigger] entries@[a]).id@ != (
                    #[trigger] entries@[b]).id@ by {
                        if b < before.len() {
                            assert(before[a].id@ != before[b].id@);
                        } else {
                            assert(before[a].id@ != id@);
                        }
                    }
                }
            },
        }
        core::mem::swap(&mut self.entries, &mut entries);
    }

    /// The entries of the cache, each market once, for safekeeping.
    pub fn entries(&self) -> (r: Vec<Entry>)
        ensures
            distinct(r@),
            map_of(r@) == self@,
    {
        proof {
            use_type_invariant(self);
        }
        let mut r: Vec<Entry> = Vec::new();
        let mut i: usize = 0;
        while i < self.entries.len()
            invariant
                i <= self.entries@.len(),
                r@.len() == i,
                forall|j: int|
                    0 <= j < i ==> (#[trigger] r@[j]).id@ == self.entries@[j].id@ && r@[j].stamp
                        == self.entries@[j].stamp,
            decreases self.entries@.len() - i,
        {
            let e = &self.entries[i];
            r.push(Entry { id: e.id.clone(), stamp: e.stamp });
            i += 1;
        }
        proof {
            lemma_same_map(r@, self.entries@);
        }
        r
    }

    /// The cache that `entries` stand for at `now`: of two entries for one
    /// market the later counts, and entries older than the cooldown window are
    /// left out.
    pub fn restore(entries: &Vec<Entry>, now: u64) -> (cache: DedupCache)
        ensures
            cache@ == swept(map_of(entries@), now),
    {
        let mut cache = DedupCache::new();
        let mut i: usize = 0;
        assert(entries@.take(0) == Seq::<Entry>::empty());
        while i < entries.len()
            invariant
                i <= entries@.len(),
                cache@ == map_of(entries@.take(i as int)),
            decreases entries@.len() - i,
        {
            assert(entries@.take(i + 1).drop_last() == entries@.take(i as int));
            cache.insert(entries[i].id.as_str(), entries[i].stamp);
            i += 1;
        }
        assert(entries@.take(entries@.len() as int) == entries@);
        cache.sweep(now);
        cache
    }

    /// Drops every entry that is older than the cooldown window at `now`.
    pub fn sweep(&mut self, now: u64)
        ensures
            final(self)@ == swept(old(self)@, now),
    {
        proof {
            use_type_invariant(&*self);
        }
        let mut kept: Vec<Entry> = Vec::new();
        let mut i: usize = 0;
        assert(self.entries@.take(0) == Seq::<Entry>::empty());
        assert(map_of(kept@) == swept(map_of(self.entries@.take(0)), now));
        while i < self.entries.len()
            invariant
                i <= self.entries@.len(),
                distinct(self.entries@),
                distinct(kept@),
                map_of(kept@) == swept(map_of(self.entries@.take(i as int)), now),
                forall|j: int|
                    0 <= j < kept@.len() ==> exists|a: int|
                        0 <= a < i && self.entries@[a].id@ == (#[trigger] kept@[j]).id@,
            decreases self.entries@.len() - i,
        {
            let ghost seen = self.entries@.take(i as int);
            let ghost next = self.entries@.take(i + 1);
            let ghost key = self.entries@[i as int].id@;
            let ghost before = kept@;
            proof {
                assert(next.drop_last() == seen);
                assert(next.last() == self.entries@[i as int]);
                lemma_keys(seen);
                assert(!map_of(seen).contains_key(key)) by {
                    if map_of(seen).contains_key(key) {
                        let a = choose|a: int| 0 <= a < seen.len() && (#[trigger] seen[a]).id@ == key;
                        assert(self.entries@[a].id@ == self.entries@[i as int].id@);
                    }
                }
            }
            let e = &self.entries[i];
            let fresh = now <= e.stamp || now - e.stamp <= CACHE_TTL_SECS;
            assert(fresh == is_fresh(e.stamp, now));
            if fresh {
                kept.push(Entry { id: e.id.clone(), stamp: e.stamp });
                proof {
                    assert(kept@.drop_last() == before);
                    assert(map_of(kept@) == swept(map_of(next), now));
                    assert(distinct(kept@)) by {
                        assert forall|a: int, b: int|
                            0 <= a < b < kept@.len() implies (#[trigger] kept@[a]).id@ != (
                            #[trigger] kept@[b]).id@ by {
                            if b < before.len() {
                                assert(before[a].id@ != before[b].id@);
                            } else {
                                let c = choose|c: int|
                                    0 <= c < i && self.entries@[c].id@ == before[a].id@;
                                assert(self.entries@[c].id@ != self.entries@[i as int].id@);
                            }
                        }
                    }
                    assert forall|j: int| 0 <= j < kept@.len() implies exists|a: int|
                        0 <= a < i + 1 && self.entries@[a].id@ == (#[trigger] kept@[j]).id@ by {
                        if j < before.len() {
                            let c = choose|c: int|
                                0 <= c < i && self.entries@[c].id@ == before[j].id@;
                            assert(self.entries@[c].id@ == kept@[j].id@);
                        } else {
                            assert(self.entries@[i as int].id@ == kept@[j].id@);
                        }
                    }
                }
            } else {
                proof {
                    assert(map_of(kept@) == swept(map_of(next), now));
                    assert forall|j: int| 0 <= j < kept@.len() implies exists|a: int|
                        0 <= a < i + 1 && self.entries@[a].id@ == (#[trigger] kept@[j]).id@ by {
                        let c = choose|c: int| 0 <= c < i && self.entries@[c].id@ == before[j].id@;
                        assert(self.entries@[c].id@ == kept@[j].id@);
                    }
                }
            }
            i += 1;
        }
        assert(self.entries@.take(self.entries@.len() as int) == self.entries@);
        self.entries = kept;
    }
}

/// Entries that agree on markets and stamps, place by place, stand for the same
/// map and are distinct together.
proof fn lemma_same_map(a: Seq<Entry>, b: Seq<Entry>)
    requires
        a.len() == b.len(),
        forall|j: int|
            0 <= j < a.len() ==> (#[trigger] a[j]).id@ == b[j].id@ && a[j].stamp == b[j].stamp,
    ensures
        map_of(a) == map_of(b),
        distinct(b) ==> distinct(a),
    decreases a.len(),
{
    if a.len() > 0 {
        assert(a.last().id@ == b[b.len() - 1].id@);
        assert(a.last().stamp == b[b.len() - 1].stamp);
        assert forall|j: int| 0 <= j < a.drop_last().len() implies (#[trigger] a.drop_last()[j]).id@
            == b.drop_last()[j].id@ && a.drop_last()[j].stamp == b.drop_last()[j].stamp by {
            assert(a[j].id@ == b[j].id@);
        }
        lemma_same_map(a.drop_last(), b.drop_last());
    }
    if distinct(b) {
        assert forall|i: int, j: int| 0 <= i < j < a.len() implies (#[trigger] a[i]).id@ != (
        #[trigger] a[j]).id@ by {
            assert(b[i].id@ != b[j].id@);
        }
    }
}

/// An entry made at `stamp` outlives a sweep at `now` exactly if it is then no
/// older than the cooldown window, whatever else the cache holds: one second
/// before the window closes it is there, one second after it is gone.
pub proof fn law_entry_lifetime(m: Map<Seq<char>, u64>, id: Seq<char>, stamp: u64, now: u64)
    ensures
        swept(m.insert(id, stamp), now).contains_key(id) <==> now - stamp <= CACHE_TTL_SECS,
        now == stamp + CACHE_TTL_SECS - 1 ==> swept(m.insert(id, stamp), now).contains_key(id),
        now == stamp + CACHE_TTL_SECS + 1 ==> !swept(m.insert(id, stamp), now).contains_key(id),
{
}

/// A sweep takes nothing that is fresh and leaves nothing that is not; what it
/// leaves keeps its stamp.
pub proof fn law_sweep_keeps_the_fresh(m: Map<Seq<char>, u64>, now: u64, id: Seq<char>)
    ensures
        swept(m, now).contains_key(id) <==> m.contains_key(id) && is_fresh(m[id], now),
        swept(m, now).contains_key(id) ==> swept(m, now)[id] == m[id],
{
}

/// Distinct entries stand for a map of as many markets.
proof fn lemma_len(entries: Seq<Entry>)
    requires
        distinct(entries),
    ensures
        map_of(entries).dom().finite(),
        map_of(entries).dom().len() == entries.len(),
    decreases entries.len(),
{
    lemma_keys(entries);
    if entries.len() > 0 {
        let head = entries.drop_last();
        assert(distinct(head)) by {
            assert forall|a: int, b: int| 0 <= a < b < head.len() implies (#[trigger] head[a]).id@
                != (#[trigger] head[b]).id@ by {
                assert(head[a] == entries[a] && head[b] == entries[b]);
            }
        }
        lemma_len(head);
        lemma_keys(head);
        let key = entries.last().id@;
        assert(!map_of(head).contains_key(key)) by {
            if map_of(head).contains_key(key) {
                let a = choose|a: int| 0 <= a < head.len() && (#[trigger] head[a]).id@ == key;
                assert(entries[a].id@ != entries[entries.len() - 1].id@);
            }
        }
        assert(map_of(entries).dom() == map_of(head).dom().insert(key));
    }
}

} // verus!
