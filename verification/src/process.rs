//! Naming a process, and maps keyed by such names.
use vstd::prelude::*;

verus! {

/// A process: its identifier together with the moment it was created, so that
/// a later process with a reused identifier is another key.
#[derive(Debug, Clone, Copy, PartialEq, Eq, Structural)]
pub struct ProcessKey {
    pub pid: u32,
    pub creation_time_100ns: u64,
}

impl ProcessKey {
    /// The order of keys: by identifier, then by creation time.
    pub open spec fn before(self, other: ProcessKey) -> bool {
        self.pid < other.pid || (self.pid == other.pid && self.creation_time_100ns
            < other.creation_time_100ns)
    }

    /// Whether this key is ordered strictly before `other`.
    pub fn is_before(&self, other: &ProcessKey) -> (less: bool)
        ensures
            less == self.before(*other),
    {
        self.pid < other.pid || (self.pid == other.pid && self.creation_time_100ns
            < other.creation_time_100ns)
    }
}

/// Whether `keys` holds `key`.
pub fn contains_key(keys: &Vec<ProcessKey>, key: ProcessKey) -> (found: bool)
    ensures
        found == keys@.contains(key),
{
    let mut at: usize = 0;
    while at < keys.len()
        invariant
            at <= keys.len(),
            forall|i: int| 0 <= i < at ==> keys@[i] != key,
        decreases keys.len() - at,
    {
        if keys[at] == key {
            return true;
        }
        at = at + 1;
    }
    false
}

/// Whether `pids` holds `pid`.
pub fn contains_pid(pids: &Vec<u32>, pid: u32) -> (found: bool)
    ensures
        found == pids@.contains(pid),
{
    let mut at: usize = 0;
    while at < pids.len()
        invariant
            at <= pids.len(),
            forall|i: int| 0 <= i < at ==> pids@[i] != pid,
        decreases pids.len() - at,
    {
        if pids[at] == pid {
            return true;
        }
        at = at + 1;
    }
    false
}

/// A map from process keys that keeps its entries in key order.
#[derive(Debug)]
pub struct KeyMap<V> {
    entries: Vec<(ProcessKey, V)>,
}

/// The entries stand in strictly ascending key order, so no key occurs twice.
pub open spec fn in_key_order<V>(entries: Seq<(ProcessKey, V)>) -> bool {
    forall|i: int, j: int|
        #![trigger entries[i], entries[j]]
        0 <= i < j < entries.len() ==> entries[i].0.before(entries[j].0)
}

/// Whether some entry has this key.
pub open spec fn has_key<V>(entries: Seq<(ProcessKey, V)>, key: ProcessKey) -> bool {
    exists|i: int| 0 <= i < entries.len() && (#[trigger] entries[i]).0 == key
}

/// The place of the entry with this key.
pub open spec fn place_of<V>(entries: Seq<(ProcessKey, V)>, key: ProcessKey) -> int {
    choose|i: int| 0 <= i < entries.len() && (#[trigger] entries[i]).0 == key
}

/// What the entries map each key to.
pub open spec fn entries_map<V>(entries: Seq<(ProcessKey, V)>) -> Map<ProcessKey, V> {
    Map::new(
        |key: ProcessKey| has_key(entries, key),
        |key: ProcessKey| entries[place_of(entries, key)].1,
    )
}

impl<V> View for KeyMap<V> {
    type V = Map<ProcessKey, V>;

    closed spec fn view(&self) -> Map<ProcessKey, V> {
        entries_map(self.entries@)
    }
}

impl<V> KeyMap<V> {
    /// The entries in key order.
    pub closed spec fn items(&self) -> Seq<(ProcessKey, V)> {
        self.entries@
    }

    pub closed spec fn wf(&self) -> bool {
        in_key_order(self.entries@)
    }

    /// What the entries in key order and the map have to do with each other.
    pub proof fn items_are_the_map(&self)
        requires
            self.wf(),
        ensures
            in_key_order(self.items()),
            self@ == entries_map(self.items()),
            forall|i: int|
                0 <= i < self.items().len() ==> {
                    &&& self@.dom().contains((#[trigger] self.items()[i]).0)
                    &&& self@[self.items()[i].0] == self.items()[i].1
                },
            forall|key: ProcessKey| #[trigger]
                self@.dom().contains(key) ==> has_key(self.items(), key),
    {
        assert forall|i: int| 0 <= i < self.items().len() implies {
            &&& self@.dom().contains((#[trigger] self.items()[i]).0)
            &&& self@[self.items()[i].0] == self.items()[i].1
        } by {
            let key = self.entries@[i].0;
            assert(has_key(self.entries@, key));
            let p = place_of(self.entries@, key);
            if p < i {
                assert(self.entries@[p].0.before(self.entries@[i].0));
            } else if i < p {
                assert(self.entries@[i].0.before(self.entries@[p].0));
            }
        }
    }

    pub fn new() -> (map: KeyMap<V>)
        ensures
            map.wf(),
            map@ == Map::<ProcessKey, V>::empty(),
            map.items() == Seq::<(ProcessKey, V)>::empty(),
    {
        let map = KeyMap { entries: Vec::new() };
        proof {
            assert(map@ =~= Map::<ProcessKey, V>::empty());
        }
        map
    }

    /// How many keys are mapped.
    pub fn len(&self) -> (count: usize)
        ensures
            count == self.items().len(),
    {
        self.entries.len()
    }

    /// The first place whose key is not before `key`.
    fn lower_bound(&self, key: ProcessKey) -> (at: usize)
        requires
            self.wf(),
        ensures
            at <= self.entries@.len(),
            forall|i: int| 0 <= i < at ==> (#[trigger] self.entries@[i]).0.before(key),
            forall|i: int|
                at <= i < self.entries@.len() ==> !(#[trigger] self.entries@[i]).0.before(key),
    {
        let mut at: usize = 0;
        while at < self.entries.len() && self.entries[at].0.is_before(&key)
            invariant
                self.wf(),
                at <= self.entries@.len(),
                forall|i: int| 0 <= i < at ==> (#[trigger] self.entries@[i]).0.before(key),
            decreases self.entries@.len() - at,
        {
            at = at + 1;
        }
        proof {
            assert forall|i: int| at <= i < self.entries@.len() implies !(
            #[trigger] self.entries@[i]).0.before(key) by {
                if at < i {
                    assert(self.entries@[at as int].0.before(self.entries@[i].0));
                }
            }
        }
        at
    }

    /// What `key` is mapped to.
    pub fn get(&self, key: ProcessKey) -> (value: Option<&V>)
        requires
            self.wf(),
        ensures
            value matches Some(v) ==> self@.dom().contains(key) && *v == self@[key],
            value is None ==> !self@.dom().contains(key),
    {
        let at: usize = self.lower_bound(key);
        if at < self.entries.len() && self.entries[at].0 == key {
            proof {
                self.items_are_the_map();
                assert(self.items()[at as int].0 == key);
            }
            Some(&self.entries[at].1)
        } else {
            proof {
                if has_key(self.entries@, key) {
                    let p = place_of(self.entries@, key);
                    if at < p {
                        assert(self.entries@[at as int].0.before(self.entries@[p].0));
                    }
                }
            }
            None
        }
    }

    /// Whether `key` is mapped.
    pub fn contains(&self, key: ProcessKey) -> (found: bool)
        requires
            self.wf(),
        ensures
            found == self@.dom().contains(key),
    {
        match self.get(key) {
            Some(_) => true,
            None => false,
        }
    }

    /// The key at a place in key order.
    pub fn key_at(&self, at: usize) -> (key: ProcessKey)
        requires
            at < self.items().len(),
        ensures
            key == self.items()[at as int].0,
    {
        self.entries[at].0
    }

    /// The value at a place in key order.
    pub fn value_at(&self, at: usize) -> (value: &V)
        requires
            at < self.items().len(),
        ensures
            *value == self.items()[at as int].1,
    {
        &self.entries[at].1
    }

    /// Maps `key` to `value`, in place of what it was mapped to before.
    pub fn insert(&mut self, key: ProcessKey, value: V)
        requires
            old(self).wf(),
        ensures
            final(self).wf(),
            final(self)@ == old(self)@.insert(key, value),
    {
        let at: usize = self.lower_bound(key);
        let ghost before = self.entries@;
        if at < self.entries.len() && self.entries[at].0 == key {
            self.entries.set(at, (key, value));
            proof {
                assert forall|k: ProcessKey| has_key(before, k) == has_key(self.entries@, k) by {
                    if has_key(before, k) {
                        assert(self.entries@[place_of(before, k)].0 == k);
                    }
                    if has_key(self.entries@, k) {
                        assert(before[place_of(self.entries@, k)].0 == k);
                    }
                }
            }
        } else {
            self.entries.insert(at, (key, value));
            proof {
                let after = self.entries@;
                assert forall|i: int, j: int| 0 <= i < j < after.len() implies #[trigger] after[i].0.before(
                #[trigger] after[j].0) by {
                    if i < at && j > at {
                        assert(before[i].0.before(before[j - 1].0));
                    } else if i > at {
                        assert(before[i - 1].0.before(before[j - 1].0));
                    } else if j < at {
                        assert(before[i].0.before(before[j].0));
                    } else if i == at {
                        assert(!before[j - 1].0.before(key));
                        if before[j - 1].0 == key {
                            if at < j - 1 {
                                assert(before[at as int].0.before(before[j - 1].0));
                            }
                            assert(false);
                        }
                    }
                }
                assert forall|k: ProcessKey|
                    (has_key(before, k) || k == key) == has_key(after, k) by {
                    if has_key(before, k) {
                        let p = place_of(before, k);
                        assert(after[if p < at {
                            p
                        } else {
                            p + 1
                        }].0 == k);
                    }
                    if k == key {
                        assert(after[at as int].0 == k);
                    }
                    if has_key(after, k) && k != key {
                        let p = place_of(after, k);
                        assert(before[if p < at {
                            p
                        } else {
                            p - 1
                        }].0 == k);
                    }
                }
            }
        }
        proof {
            self.items_are_the_map();
            let prior = KeyMap { entries: old(self).entries };
            prior.items_are_the_map();
            assert(self.entries@[at as int].0 == key);
            assert(self.items()[at as int].0 == key);
            assert(self@ =~= old(self)@.insert(key, value)) by {
                assert forall|k: ProcessKey|
                    self@.dom().contains(k) && k != key implies self@[k] == old(self)@[k] by {
                    let p = place_of(self.items(), k);
                    assert(self.items()[p].0 == k);
                    let q = place_of(prior.items(), k);
                    assert(has_key(prior.items(), k));
                    assert(prior.items()[q].0 == k);
                    assert(self.items()[p].1 == self@[k]);
                    assert(prior.items()[q].1 == prior@[k]);
                    if self.items().len() == prior.items().len() {
                        assert(prior.items()[p].0 == k);
                    } else if p < at {
                        assert(prior.items()[p].0 == k);
                    } else {
                        assert(prior.items()[p - 1].0 == k);
                    }
                }
            }
        }
    }

    /// Removes `key`.
    pub fn remove(&mut self, key: ProcessKey)
        requires
            old(self).wf(),
        ensures
            final(self).wf(),
            final(self)@ == old(self)@.remove(key),
    {
        let at: usize = self.lower_bound(key);
        let ghost before = self.entries@;
        let ghost prior = KeyMap { entries: self.entries };
        proof {
            prior.items_are_the_map();
        }
        if at < self.entries.len() && self.entries[at].0 == key {
            let _ = self.entries.remove(at);
            proof {
                let after = self.entries@;
                assert forall|i: int, j: int| 0 <= i < j < after.len() implies #[trigger] after[i].0.before(
                #[trigger] after[j].0) by {
                    let a = if i < at {
                        i
                    } else {
                        i + 1
                    };
                    let b = if j < at {
                        j
                    } else {
                        j + 1
                    };
                    assert(before[a].0.before(before[b].0));
                }
                self.items_are_the_map();
                assert forall|k: ProcessKey| #[trigger]
                    has_key(after, k) == (has_key(before, k) && k != key) by {
                    if has_key(after, k) {
                        let p = place_of(after, k);
                        let a = if p < at {
                            p
                        } else {
                            p + 1
                        };
                        assert(before[a].0 == k);
                        if k == key {
                            if a < at {
                                assert(before[a].0.before(before[at as int].0));
                            } else {
                                assert(before[at as int].0.before(before[a].0));
                            }
                        }
                    }
                    if has_key(before, k) && k != key {
                        let p = place_of(before, k);
                        assert(after[if p < at {
                            p
                        } else {
                            p - 1
                        }].0 == k);
                    }
                }
                assert forall|k: ProcessKey| self@.dom().contains(k) implies self@[k]
                    == old(self)@[k] by {
                    let p = place_of(after, k);
                    assert(has_key(after, k));
                    assert(self.items()[p].0 == k);
                    let a = if p < at {
                        p
                    } else {
                        p + 1
                    };
                    assert(prior.items()[a].0 == k);
                }
                assert(self@ =~= old(self)@.remove(key));
            }
        } else {
            proof {
                if has_key(before, key) {
                    let p = place_of(before, key);
                    if at < p {
                        assert(before[at as int].0.before(before[p].0));
                    }
                }
                assert(self@ =~= old(self)@.remove(key));
            }
        }
    }
}

/// The entries whose flag is set.
pub open spec fn flagged<V>(entries: Seq<(ProcessKey, V)>, keep: Seq<bool>) -> Seq<(ProcessKey, V)>
    decreases entries.len(),
{
    if entries.len() == 0 {
        Seq::empty()
    } else {
        let front = flagged(entries.drop_last(), keep);
        if keep[entries.len() - 1] {
            front.push(entries.last())
        } else {
            front
        }
    }
}

/// Whether an entry is among the entries, with its flag set.
pub open spec fn kept_among<V>(
    entries: Seq<(ProcessKey, V)>,
    keep: Seq<bool>,
    entry: (ProcessKey, V),
) -> bool {
    exists|i: int| 0 <= i < entries.len() && keep[i] && #[trigger] entries[i] == entry
}

/// The flagged entries are among the entries, in the same order.
pub proof fn flagged_are_entries<V>(entries: Seq<(ProcessKey, V)>, keep: Seq<bool>)
    requires
        in_key_order(entries),
    ensures
        in_key_order(flagged(entries, keep)),
        flagged(entries, keep).len() <= entries.len(),
        forall|j: int|
            0 <= j < flagged(entries, keep).len() ==> kept_among(
                entries,
                keep,
                #[trigger] flagged(entries, keep)[j],
            ),
        forall|i: int|
            0 <= i < entries.len() && keep[i] ==> flagged(entries, keep).contains(
                #[trigger] entries[i],
            ),
    decreases entries.len(),
{
    if entries.len() > 0 {
        let front = entries.drop_last();
        let last = entries.len() - 1;
        assert(in_key_order(front)) by {
            assert forall|i: int, j: int| 0 <= i < j < front.len() implies #[trigger] front[i].0.before(
            #[trigger] front[j].0) by {
                assert(entries[i].0.before(entries[j].0));
            }
        }
        flagged_are_entries(front, keep);
        let some = flagged(front, keep);
        let all = flagged(entries, keep);
        assert forall|j: int| 0 <= j < all.len() implies kept_among(
            entries,
            keep,
            #[trigger] all[j],
        ) by {
            if j < some.len() {
                let i = choose|i: int|
                    0 <= i < front.len() && keep[i] && #[trigger] front[i] == some[j];
                assert(entries[i] == all[j]);
            } else {
                assert(entries[last] == all[j]);
            }
        }
        assert forall|i: int| 0 <= i < entries.len() && keep[i] implies all.contains(
            #[trigger] entries[i],
        ) by {
            if i < last {
                assert(front[i] == entries[i]);
                assert(some.contains(front[i]));
                let j = choose|j: int| 0 <= j < some.len() && some[j] == front[i];
                assert(all[j] == entries[i]);
            } else {
                assert(all[all.len() - 1] == entries[i]);
            }
        }
        assert forall|i: int, j: int| 0 <= i < j < all.len() implies #[trigger] all[i].0.before(
        #[trigger] all[j].0) by {
            if j < some.len() {
                assert(some[i].0.before(some[j].0));
            } else {
                let k = choose|k: int|
                    0 <= k < front.len() && keep[k] && #[trigger] front[k] == some[i];
                assert(entries[k].0.before(entries[last].0));
            }
        }
    }
}

impl<V> KeyMap<V> {
    /// Keeps the entries whose flag is set. The flags stand in key order.
    pub fn retain_flagged(&mut self, keep: &Vec<bool>)
        requires
            old(self).wf(),
            keep.len() == old(self).items().len(),
        ensures
            final(self).wf(),
            final(self).items() == flagged(old(self).items(), keep@),
    {
        let ghost all = self.entries@;
        let mut at: usize = 0;
        let mut kept: usize = 0;
        while at < keep.len()
            invariant
                at <= keep.len(),
                keep.len() == all.len(),
                kept <= at,
                kept == flagged(all.take(at as int), keep@).len(),
                self.entries@ == flagged(all.take(at as int), keep@) + all.skip(at as int),
            decreases keep.len() - at,
        {
            proof {
                assert(all.take(at + 1).drop_last() =~= all.take(at as int));
                assert(all.take(at + 1).last() == all[at as int]);
                assert(all.skip(at as int)[0] == all[at as int]);
            }
            let ghost front = flagged(all.take(at as int), keep@);
            if keep[at] {
                kept = kept + 1;
                proof {
                    assert(front.push(all[at as int]) + all.skip(at + 1) =~= front + all.skip(
                        at as int,
                    ));
                }
            } else {
                let _ = self.entries.remove(kept);
                proof {
                    assert(self.entries@ =~= front + all.skip(at + 1));
                }
            }
            at = at + 1;
        }
        proof {
            assert(all.take(at as int) =~= all);
            assert(all.skip(at as int) =~= Seq::<(ProcessKey, V)>::empty());
            assert(self.entries@ =~= flagged(all, keep@));
            flagged_are_entries(all, keep@);
        }
    }
}

/// The map that results from inserting the entries one after the other: of
/// two entries with one key the later one counts.
pub open spec fn collected<V>(entries: Seq<(ProcessKey, V)>) -> Map<ProcessKey, V>
    decreases entries.len(),
{
    if entries.len() == 0 {
        Map::empty()
    } else {
        collected(entries.drop_last()).insert(entries.last().0, entries.last().1)
    }
}

/// Entries in key order are collected to what they map each key to.
pub proof fn ordered_entries_collect<V>(entries: Seq<(ProcessKey, V)>)
    requires
        in_key_order(entries),
    ensures
        collected(entries) == entries_map(entries),
    decreases entries.len(),
{
    if entries.len() == 0 {
        assert(collected(entries) =~= entries_map(entries));
    } else {
        let front = entries.drop_last();
        let last = entries.last();
        assert(in_key_order(front)) by {
            assert forall|i: int, j: int| 0 <= i < j < front.len() implies #[trigger] front[i].0.before(
            #[trigger] front[j].0) by {
                assert(entries[i].0.before(entries[j].0));
            }
        }
        ordered_entries_collect(front);
        let map = entries_map(entries);
        let smaller = entries_map(front);
        assert forall|key: ProcessKey| #[trigger]
            map.dom().contains(key) <==> smaller.dom().contains(key) || key == last.0 by {
            if map.dom().contains(key) {
                let i = place_of(entries, key);
                if i < front.len() {
                    assert(front[i].0 == key);
                }
            }
            if smaller.dom().contains(key) {
                let i = place_of(front, key);
                assert(entries[i].0 == key);
            }
            if key == last.0 {
                assert(entries[entries.len() - 1].0 == key);
            }
        }
        assert forall|key: ProcessKey| #[trigger] map.dom().contains(key) implies map[key]
            == smaller.insert(last.0, last.1)[key] by {
            let i = place_of(entries, key);
            assert(entries[i].0 == key);
            if key == last.0 {
                if i < entries.len() - 1 {
                    assert(entries[i].0.before(entries[entries.len() - 1].0));
                }
            } else {
                assert(smaller.dom().contains(key));
                let j = place_of(front, key);
                assert(front[j].0 == key && entries[j].0 == key);
                if i < j {
                    assert(entries[i].0.before(entries[j].0));
                } else if j < i {
                    assert(entries[j].0.before(entries[i].0));
                }
            }
        }
        assert(map =~= smaller.insert(last.0, last.1));
    }
}

/// Keys are ordered by their identifier and, where it is the same, by their
/// creation time; of two different keys one is before the other, and not the
/// other way round.
pub proof fn keys_are_ordered(a: ProcessKey, b: ProcessKey, c: ProcessKey)
    ensures
        !a.before(a),
        a.before(b) ==> !b.before(a),
        a != b ==> a.before(b) || b.before(a),
        a.before(b) && b.before(c) ==> a.before(c),
        a.pid < b.pid ==> a.before(b),
        a.pid == b.pid ==> (a.before(b) <==> a.creation_time_100ns < b.creation_time_100ns),
{
}

/// Of entries with one key the last one counts, and no other key is touched by
/// it.
pub proof fn the_last_entry_counts<V>(
    entries: Seq<(ProcessKey, V)>,
    key: ProcessKey,
    value: V,
    other: ProcessKey,
)
    ensures
        collected(entries.push((key, value))).dom().contains(key),
        collected(entries.push((key, value)))[key] == value,
        other != key ==> (collected(entries.push((key, value))).dom().contains(other) <==> collected(
            entries,
        ).dom().contains(other)),
        other != key && collected(entries).dom().contains(other) ==> collected(
            entries.push((key, value)),
        )[other] == collected(entries)[other],
        collected(Seq::<(ProcessKey, V)>::empty()) == Map::<ProcessKey, V>::empty(),
{
    assert(entries.push((key, value)).drop_last() =~= entries);
}

/// What is flagged is kept and nothing else.
pub proof fn flagged_entries_are_kept<V>(
    entries: Seq<(ProcessKey, V)>,
    keep: Seq<bool>,
    entry: (ProcessKey, V),
)
    requires
        keep.len() == entries.len() + 1,
    ensures
        flagged(entries.push(entry), keep) == if keep.last() {
            flagged(entries, keep).push(entry)
        } else {
            flagged(entries, keep)
        },
        flagged(Seq::<(ProcessKey, V)>::empty(), keep).len() == 0,
{
    assert(entries.push(entry).drop_last() =~= entries);
}

} // verus!
