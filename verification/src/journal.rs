//! Bounded journals: append-only records of which only the newest are kept.
//!
//! Every entry carries the time at which it was made. After each append a
//! journal that holds more entries than its capacity drops its oldest entry,
//! the one with the smallest time and, among equals, the one appended first,
//! until it fits again.

use vstd::prelude::*;

verus! {

/// An entry that knows when it was made.
pub trait Stamped: Sized {
    /// The time of the entry.
    spec fn stamp(&self) -> u64;

    fn timestamp(&self) -> (t: u64)
        ensures
            t == self.stamp(),
    ;

    fn duplicate(&self) -> (copy: Self)
        ensures
            copy == *self,
    ;
}

/// Index of the oldest entry of `s`: the first one among those with the
/// smallest time. 0 for an empty sequence.
pub open spec fn oldest_index<T: Stamped>(s: Seq<T>) -> int
    decreases s.len(),
{
    if s.len() <= 1 {
        0
    } else {
        let i = oldest_index(s.drop_last());
        if s.last().stamp() < s[i].stamp() {
            s.len() - 1
        } else {
            i
        }
    }
}

/// The oldest entry is an entry, none is older, and none of the same age
/// stands before it.
pub proof fn lemma_oldest_index<T: Stamped>(s: Seq<T>)
    requires
        s.len() > 0,
    ensures
        0 <= oldest_index(s) < s.len(),
        forall|j: int| 0 <= j < s.len() ==> s[oldest_index(s)].stamp() <= (#[trigger] s[j]).stamp(),
        forall|j: int|
            0 <= j < oldest_index(s) ==> s[oldest_index(s)].stamp() < (#[trigger] s[j]).stamp(),
    decreases s.len(),
{
    if s.len() > 1 {
        let t = s.drop_last();
        lemma_oldest_index(t);
        let i = oldest_index(t);
        assert(t[i] == s[i]);
        assert forall|j: int| 0 <= j < s.len() implies s[oldest_index(s)].stamp() <= (
        #[trigger] s[j]).stamp() by {
            if j < t.len() {
                assert(t[j] == s[j]);
            }
        }
        assert forall|j: int| 0 <= j < oldest_index(s) implies s[oldest_index(s)].stamp() < (
        #[trigger] s[j]).stamp() by {
            assert(t[j] == s[j]);
        }
    }
}

/// What is left of `s` in a journal of the given capacity: the oldest entry
/// is dropped, again and again, until no more than `capacity` are left.
pub open spec fn evict_oldest<T: Stamped>(s: Seq<T>, capacity: nat) -> Seq<T>
    decreases s.len(),
{
    if s.len() <= capacity {
        s
    } else {
        proof {
            lemma_oldest_index(s);
        }
        evict_oldest(s.remove(oldest_index(s)), capacity)
    }
}

/// The entries stand in the order of their times.
pub open spec fn time_ordered<T: Stamped>(s: Seq<T>) -> bool {
    forall|i: int, j: int| 0 <= i <= j < s.len() ==> (#[trigger] s[i]).stamp() <= (#[trigger] s[j]).stamp()
}

/// A journal never holds more than its capacity, and loses nothing before
/// it is full.
pub proof fn lemma_evict_len<T: Stamped>(s: Seq<T>, capacity: nat)
    ensures
        evict_oldest(s, capacity).len() == if s.len() <= capacity {
            s.len()
        } else {
            capacity
        },
    decreases s.len(),
{
    if s.len() > capacity {
        lemma_oldest_index(s);
        lemma_evict_len(s.remove(oldest_index(s)), capacity);
    }
}

/// Where the entries came in the order of their times, the journal keeps
/// the last `capacity` of them: every entry it dropped was appended before
/// every entry it kept.
pub proof fn lemma_evict_keeps_newest<T: Stamped>(s: Seq<T>, capacity: nat)
    requires
        time_ordered(s),
    ensures
        s.len() <= capacity ==> evict_oldest(s, capacity) == s,
        s.len() > capacity ==> evict_oldest(s, capacity) == s.skip(s.len() - capacity),
    decreases s.len(),
{
    if s.len() > capacity {
        lemma_oldest_index(s);
        let i = oldest_index(s);
        if i > 0 {
            assert(s[i].stamp() < s[0].stamp());
            assert(s[0].stamp() <= s[i].stamp());
        }
        let t = s.remove(0);
        assert(t =~= s.skip(1));
        assert(time_ordered(t)) by {
            assert forall|a: int, b: int| 0 <= a <= b < t.len() implies (#[trigger] t[a]).stamp() <= (
            #[trigger] t[b]).stamp() by {
                assert(t[a] == s[a + 1]);
                assert(t[b] == s[b + 1]);
            }
        }
        lemma_evict_keeps_newest(t, capacity);
        if t.len() > capacity {
            assert(t.skip(t.len() - capacity) =~= s.skip(s.len() - capacity));
        } else {
            assert(t =~= s.skip(s.len() - capacity));
        }
    }
}

/// An append to a journal that is within its capacity drops at most one
/// entry: none while there is room, else the oldest of all, the new entry
/// counted among them. No entry that stays is older than the one that left.
pub proof fn lemma_append_drops_oldest<T: Stamped>(s: Seq<T>, entry: T, capacity: nat)
    requires
        s.len() <= capacity,
    ensures
        s.len() < capacity ==> evict_oldest(s.push(entry), capacity) == s.push(entry),
        s.len() == capacity ==> evict_oldest(s.push(entry), capacity) == s.push(entry).remove(
            oldest_index(s.push(entry)),
        ),
        forall|j: int|
            0 <= j < s.push(entry).len() ==> s.push(entry)[oldest_index(s.push(entry))].stamp() <= (
            #[trigger] s.push(entry)[j]).stamp(),
{
    let full = s.push(entry);
    lemma_oldest_index(full);
    if s.len() == capacity {
        let rest = full.remove(oldest_index(full));
        assert(rest.len() == capacity);
        assert(evict_oldest(rest, capacity) == rest);
    }
}

/// The journal after the entries of `more` were appended to `s`, one by one.
pub open spec fn append_all<T: Stamped>(s: Seq<T>, more: Seq<T>, capacity: nat) -> Seq<T>
    decreases more.len(),
{
    if more.len() == 0 {
        s
    } else {
        evict_oldest(append_all(s, more.drop_last(), capacity).push(more.last()), capacity)
    }
}

/// However many entries are appended to a journal that is within its
/// capacity, and whatever their times, it holds all of them while they are
/// no more than its capacity, and exactly its capacity after.
pub proof fn lemma_append_all_len<T: Stamped>(s: Seq<T>, more: Seq<T>, capacity: nat)
    requires
        s.len() <= capacity,
    ensures
        append_all(s, more, capacity).len() == if s.len() + more.len() <= capacity {
            s.len() + more.len()
        } else {
            capacity
        },
    decreases more.len(),
{
    if more.len() > 0 {
        lemma_append_all_len(s, more.drop_last(), capacity);
        lemma_evict_len(append_all(s, more.drop_last(), capacity).push(more.last()), capacity);
    }
}

/// Appending any number of entries, in the order of their times, to a journal
/// that is within its capacity leaves the newest `capacity` of all entries, or
/// all of them where they are no more than that.
pub proof fn lemma_append_all_keeps_newest<T: Stamped>(s: Seq<T>, more: Seq<T>, capacity: nat)
    requires
        s.len() <= capacity,
        time_ordered(s + more),
    ensures
        (s + more).len() <= capacity ==> append_all(s, more, capacity) == s + more,
        (s + more).len() > capacity ==> append_all(s, more, capacity) == (s + more).skip(
            (s + more).len() - capacity,
        ),
    decreases more.len(),
{
    let all = s + more;
    if more.len() == 0 {
        assert(all =~= s);
    } else {
        let before = s + more.drop_last();
        assert(before =~= all.drop_last());
        assert(time_ordered(before)) by {
            assert forall|a: int, b: int| 0 <= a <= b < before.len() implies (
            #[trigger] before[a]).stamp() <= (#[trigger] before[b]).stamp() by {
                assert(before[a] == all[a]);
                assert(before[b] == all[b]);
            }
        }
        lemma_append_all_keeps_newest(s, more.drop_last(), capacity);
        let kept = append_all(s, more.drop_last(), capacity);
        let next = kept.push(more.last());
        assert(more.last() == all.last());
        // `kept` is a suffix of `before`, so `next` is a suffix of `all`
        let cut: int = if before.len() <= capacity {
            0
        } else {
            before.len() - capacity
        };
        assert(kept =~= before.skip(cut));
        assert(next =~= all.skip(cut));
        assert(time_ordered(next)) by {
            assert forall|a: int, b: int| 0 <= a <= b < next.len() implies (#[trigger] next[a]).stamp()
                <= (#[trigger] next[b]).stamp() by {
                assert(next[a] == all[a + cut]);
                assert(next[b] == all[b + cut]);
            }
        }
        lemma_evict_keeps_newest(next, capacity);
        if next.len() > capacity {
            assert(next.skip(next.len() - capacity) =~= all.skip(all.len() - capacity));
        } else {
            assert(cut == 0);
            assert(next =~= all);
        }
    }
}

/// Where an entry of time `t` goes in `s`: right behind the last entry that
/// is not younger than it.
pub open spec fn slot_for<T: Stamped>(s: Seq<T>, t: u64) -> int
    decreases s.len(),
{
    if s.len() == 0 || s.last().stamp() <= t {
        s.len() as int
    } else {
        slot_for(s.drop_last(), t)
    }
}

/// The entries of `s` in the order of their times; entries of the same time
/// keep the order in which they were appended.
pub open spec fn by_time<T: Stamped>(s: Seq<T>) -> Seq<T>
    decreases s.len(),
{
    if s.len() == 0 {
        s
    } else {
        let sorted = by_time(s.drop_last());
        sorted.insert(slot_for(sorted, s.last().stamp()), s.last())
    }
}

/// The slot is a place in `s`; what stands from it on is younger than `t`,
/// and in a time-ordered `s` what stands before it is not.
pub proof fn lemma_slot_for<T: Stamped>(s: Seq<T>, t: u64)
    ensures
        0 <= slot_for(s, t) <= s.len(),
        forall|j: int| slot_for(s, t) <= j < s.len() ==> (#[trigger] s[j]).stamp() > t,
        time_ordered(s) ==> forall|j: int| 0 <= j < slot_for(s, t) ==> (#[trigger] s[j]).stamp() <= t,
    decreases s.len(),
{
    if !(s.len() == 0 || s.last().stamp() <= t) {
        let d = s.drop_last();
        lemma_slot_for(d, t);
        assert forall|j: int| slot_for(s, t) <= j < s.len() implies (#[trigger] s[j]).stamp() > t by {
            if j < d.len() {
                assert(d[j] == s[j]);
            }
        }
        if time_ordered(s) {
            assert(time_ordered(d)) by {
                assert forall|a: int, b: int| 0 <= a <= b < d.len() implies (#[trigger] d[a]).stamp() <= (
                #[trigger] d[b]).stamp() by {
                    assert(d[a] == s[a]);
                    assert(d[b] == s[b]);
                }
            }
            assert forall|j: int| 0 <= j < slot_for(s, t) implies (#[trigger] s[j]).stamp() <= t by {
                assert(d[j] == s[j]);
            }
        }
    } else if s.len() > 0 && time_ordered(s) {
        assert forall|j: int| 0 <= j < slot_for(s, t) implies (#[trigger] s[j]).stamp() <= t by {
            assert(s[j].stamp() <= s[s.len() - 1].stamp());
        }
    }
}

/// Ordering by time keeps every entry, once each, and puts them in the order
/// of their times.
pub proof fn lemma_by_time<T: Stamped>(s: Seq<T>)
    ensures
        by_time(s).len() == s.len(),
        by_time(s).to_multiset() == s.to_multiset(),
        time_ordered(by_time(s)),
    decreases s.len(),
{
    broadcast use vstd::seq_lib::to_multiset_insert, vstd::seq_lib::to_multiset_build;

    if s.len() > 0 {
        let d = s.drop_last();
        lemma_by_time(d);
        let sorted = by_time(d);
        let e = s.last();
        let k = slot_for(sorted, e.stamp());
        lemma_slot_for(sorted, e.stamp());
        let r = sorted.insert(k, e);
        assert(s =~= d.push(e));
        assert(r.to_multiset() == sorted.to_multiset().insert(e));
        assert(s.to_multiset() == d.to_multiset().insert(e));
        assert forall|a: int, b: int| 0 <= a <= b < r.len() implies (#[trigger] r[a]).stamp() <= (
        #[trigger] r[b]).stamp() by {
            if a < k {
                assert(r[a] == sorted[a]);
            } else if a > k {
                assert(r[a] == sorted[a - 1]);
            }
            if b < k {
                assert(r[b] == sorted[b]);
            } else if b > k {
                assert(r[b] == sorted[b - 1]);
            }
        }
    }
}

/// Entries that came in the order of their times are read back in the order
/// in which they were appended.
pub proof fn lemma_by_time_of_ordered<T: Stamped>(s: Seq<T>)
    requires
        time_ordered(s),
    ensures
        by_time(s) == s,
    decreases s.len(),
{
    if s.len() > 0 {
        let d = s.drop_last();
        assert(time_ordered(d)) by {
            assert forall|a: int, b: int| 0 <= a <= b < d.len() implies (#[trigger] d[a]).stamp() <= (
            #[trigger] d[b]).stamp() by {
                assert(d[a] == s[a]);
                assert(d[b] == s[b]);
            }
        }
        lemma_by_time_of_ordered(d);
        if d.len() > 0 {
            assert(d.last() == s[d.len() - 1]);
            assert(d.last().stamp() <= s.last().stamp());
        }
        assert(slot_for(d, s.last().stamp()) == d.len());
        assert(d.insert(d.len() as int, s.last()) =~= s);
    }
}

/// Index of the oldest entry.
pub fn find_oldest<T: Stamped>(entries: &Vec<T>) -> (best: usize)
    requires
        entries.len() > 0,
    ensures
        best == oldest_index(entries@),
        best < entries.len(),
{
    let mut best: usize = 0;
    let mut i: usize = 1;
    assert(entries@.take(1).len() == 1);
    while i < entries.len()
        invariant
            1 <= i <= entries.len(),
            best < i,
            best == oldest_index(entries@.take(i as int)),
        decreases entries.len() - i,
    {
        proof {
            let a = entries@.take(i as int);
            let b = entries@.take(i + 1);
            assert(b.drop_last() =~= a);
            assert(b.last() == entries@[i as int]);
            assert(b[best as int] == entries@[best as int]);
        }
        if entries[i].timestamp() < entries[best].timestamp() {
            best = i;
        }
        i += 1;
    }
    assert(entries@.take(entries@.len() as int) =~= entries@);
    best
}

/// Appends `entry` to `journal`, then drops the oldest entries until no more
/// than `capacity` are left.
pub fn append_with_eviction<T: Stamped>(journal: &mut Vec<T>, entry: T, capacity: usize)
    ensures
        final(journal)@ == evict_oldest(old(journal)@.push(entry), capacity as nat),
{
    journal.push(entry);
    let ghost full = journal@;
    while journal.len() > capacity
        invariant
            evict_oldest(journal@, capacity as nat) == evict_oldest(full, capacity as nat),
        decreases journal.len(),
    {
        let oldest = find_oldest(journal);
        journal.remove(oldest);
    }
}

/// A journal of entries of one kind, with its capacity.
pub struct Journal<T> {
    entries: Vec<T>,
    capacity: usize,
}

impl<T: Stamped> View for Journal<T> {
    type V = Seq<T>;

    /// The entries, in the order in which they were appended.
    closed spec fn view(&self) -> Seq<T> {
        self.entries@
    }
}

impl<T: Stamped> Journal<T> {
    /// The number of entries that the journal keeps at most.
    pub closed spec fn limit(&self) -> nat {
        self.capacity as nat
    }

    /// The journal holds no more than its capacity.
    pub closed spec fn wf(&self) -> bool {
        self.entries@.len() <= self.capacity
    }

    /// A journal never holds more than its capacity.
    pub proof fn lemma_within_limit(&self)
        requires
            self.wf(),
        ensures
            self@.len() <= self.limit(),
    {
    }

    /// An empty journal that keeps `capacity` entries.
    pub fn new(capacity: usize) -> (j: Self)
        ensures
            j.wf(),
            j@ == Seq::<T>::empty(),
            j.limit() == capacity,
    {
        Journal { entries: Vec::new(), capacity }
    }

    /// The number of entries that the journal keeps at most.
    pub fn capacity(&self) -> (c: usize)
        ensures
            c == self.limit(),
    {
        self.capacity
    }

    /// The number of entries.
    pub fn len(&self) -> (n: usize)
        requires
            self.wf(),
        ensures
            n == self@.len(),
            n <= self.limit(),
    {
        self.entries.len()
    }

    /// The entries, in the order in which they were appended.
    pub fn entries(&self) -> (r: &Vec<T>)
        requires
            self.wf(),
        ensures
            r@ == self@,
            r@.len() <= self.limit(),
    {
        &self.entries
    }

    /// Appends an entry and drops what is older than the journal has room for.
    pub fn append(&mut self, entry: T)
        requires
            old(self).wf(),
        ensures
            final(self).wf(),
            final(self).limit() == old(self).limit(),
            final(self)@ == evict_oldest(old(self)@.push(entry), old(self).limit()),
    {
        proof {
            lemma_evict_len(self.entries@.push(entry), self.capacity as nat);
        }
        append_with_eviction(&mut self.entries, entry, self.capacity);
    }

    /// Takes out the entry that was appended last.
    pub fn pop_newest(&mut self) -> (r: Option<T>)
        requires
            old(self).wf(),
        ensures
            final(self).wf(),
            final(self).limit() == old(self).limit(),
            old(self)@.len() == 0 ==> r.is_none() && final(self)@ == old(self)@,
            old(self)@.len() > 0 ==> r == Some(old(self)@.last()) && final(self)@ == old(
                self,
            )@.drop_last(),
    {
        self.entries.pop()
    }

    /// The entries, newest first.
    pub fn newest_first(&self) -> (r: Vec<T>)
        requires
            self.wf(),
        ensures
            r@ == self@.reverse(),
    {
        let mut out: Vec<T> = Vec::new();
        let n = self.entries.len();
        let mut i: usize = n;
        while i > 0
            invariant
                n == self.entries@.len(),
                i <= n,
                out@.len() == n - i,
                forall|k: int| 0 <= k < out@.len() ==> out@[k] == self.entries@[n - 1 - k],
            decreases i,
        {
            i -= 1;
            out.push(self.entries[i].duplicate());
        }
        assert(out@ =~= self.entries@.reverse());
        out
    }

    /// The entries in the order of their times, oldest first.
    pub fn in_time_order(&self) -> (r: Vec<T>)
        requires
            self.wf(),
        ensures
            r@ == by_time(self@),
    {
        let mut out: Vec<T> = Vec::new();
        let n = self.entries.len();
        let mut i: usize = 0;
        assert(self.entries@.take(0) =~= Seq::<T>::empty());
        while i < n
            invariant
                n == self.entries@.len(),
                i <= n,
                out@ == by_time(self.entries@.take(i as int)),
            decreases n - i,
        {
            let t = self.entries[i].timestamp();
            let mut k: usize = out.len();
            assert(out@.take(k as int) =~= out@);
            while k > 0 && out[k - 1].timestamp() > t
                invariant
                    k <= out@.len(),
                    slot_for(out@, t) == slot_for(out@.take(k as int), t),
                decreases k,
            {
                proof {
                    let a = out@.take(k as int);
                    assert(a.last() == out@[k - 1]);
                    assert(a.drop_last() =~= out@.take(k - 1));
                }
                k -= 1;
            }
            proof {
                let a = out@.take(k as int);
                if k > 0 {
                    assert(a.last() == out@[k - 1]);
                }
                assert(slot_for(a, t) == k);
                let b = self.entries@.take(i + 1);
                assert(b.drop_last() =~= self.entries@.take(i as int));
                assert(b.last() == self.entries@[i as int]);
            }
            out.insert(k, self.entries[i].duplicate());
            i += 1;
        }
        assert(self.entries@.take(n as int) =~= self.entries@);
        out
    }
}

} // verus!
