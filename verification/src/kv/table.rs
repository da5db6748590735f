//! The table behind the key-value operations.
//!
//! A key holds one value, and the value says of which kind it is. So a key is
//! never a scalar and a list at once: writing one kind replaces the other.
//! A list that loses its last element leaves the table with its key.

use crate::text::str_eq;
use vstd::prelude::*;
use vstd::string::StringExecFns;

verus! {

/// What a key can hold.
#[derive(Debug, Clone, PartialEq, Eq)]
pub enum KvValue {
    /// A string.
    Text(String),
    /// A number.
    Number(u32),
    /// A list of strings, in the order in which they were pushed.
    List(Vec<String>),
}

/// A `KvValue` as plain values.
pub enum KvValueView {
    Text(Seq<char>),
    Number(u32),
    List(Seq<Seq<char>>),
}

/// The texts that a list of strings holds.
pub open spec fn texts(list: Seq<String>) -> Seq<Seq<char>> {
    list.map_values(|s: String| s@)
}

impl View for KvValue {
    type V = KvValueView;

    open spec fn view(&self) -> KvValueView {
        match self {
            KvValue::Text(s) => KvValueView::Text(s@),
            KvValue::Number(n) => KvValueView::Number(*n),
            KvValue::List(l) => KvValueView::List(texts(l@)),
        }
    }
}

/// A key with its value.
#[derive(Debug, Clone, PartialEq, Eq)]
pub struct KvRecord {
    pub key: String,
    pub value: KvValue,
}

/// The table: a map from keys to values.
#[derive(Debug, Clone, PartialEq, Eq)]
pub struct KvTable {
    records: Vec<KvRecord>,
}

/// The map that a sequence of records stands for; of two records with one key
/// the later counts.
pub open spec fn map_of(records: Seq<KvRecord>) -> Map<Seq<char>, KvValueView>
    decreases records.len(),
{
    if records.len() == 0 {
        Map::empty()
    } else {
        map_of(records.drop_last()).insert(records.last().key@, records.last().value@)
    }
}

/// No two records have the same key.
pub open spec fn distinct_keys(records: Seq<KvRecord>) -> bool {
    forall|i: int, j: int|
        0 <= i < j < records.len() ==> (#[trigger] records[i]).key@ != (#[trigger] records[j]).key@
}

/// No record holds an empty list.
pub open spec fn no_empty_list(records: Seq<KvRecord>) -> bool {
    forall|i: int|
        0 <= i < records.len() ==> ((#[trigger] records[i]).value matches KvValue::List(l)
            ==> l@.len() > 0)
}

/// The list under `key`; empty where the key is absent or holds a scalar.
pub open spec fn list_at(m: Map<Seq<char>, KvValueView>, key: Seq<char>) -> Seq<Seq<char>> {
    if m.contains_key(key) {
        match m[key] {
            KvValueView::List(l) => l,
            _ => Seq::empty(),
        }
    } else {
        Seq::empty()
    }
}

/// The string under `key`, if the key holds one.
pub open spec fn text_at(m: Map<Seq<char>, KvValueView>, key: Seq<char>) -> Option<Seq<char>> {
    if m.contains_key(key) {
        match m[key] {
            KvValueView::Text(s) => Some(s),
            _ => None,
        }
    } else {
        None
    }
}

/// The number under `key`, if the key holds one.
pub open spec fn number_at(m: Map<Seq<char>, KvValueView>, key: Seq<char>) -> Option<u32> {
    if m.contains_key(key) {
        match m[key] {
            KvValueView::Number(n) => Some(n),
            _ => None,
        }
    } else {
        None
    }
}

/// The map after the list under `key` was replaced by `list`: an empty list
/// takes the key out.
pub open spec fn with_list(
    m: Map<Seq<char>, KvValueView>,
    key: Seq<char>,
    list: Seq<Seq<char>>,
) -> Map<Seq<char>, KvValueView> {
    if list.len() == 0 {
        m.remove(key)
    } else {
        m.insert(key, KvValueView::List(list))
    }
}

/// The map after `value` was put under `key`: an empty list takes the key
/// out.
pub open spec fn with_value(
    m: Map<Seq<char>, KvValueView>,
    key: Seq<char>,
    value: KvValueView,
) -> Map<Seq<char>, KvValueView> {
    match value {
        KvValueView::List(l) => with_list(m, key, l),
        _ => m.insert(key, value),
    }
}

/// The map after `value` was pushed onto the list under `key`. A key that
/// held nothing or a scalar holds the list of this one element after.
pub open spec fn pushed(
    m: Map<Seq<char>, KvValueView>,
    key: Seq<char>,
    value: Seq<char>,
) -> Map<Seq<char>, KvValueView> {
    m.insert(key, KvValueView::List(list_at(m, key).push(value)))
}

/// The map after the last element was popped off the list under `key`. A
/// key without a list is left as it is.
pub open spec fn popped(m: Map<Seq<char>, KvValueView>, key: Seq<char>) -> Map<
    Seq<char>,
    KvValueView,
> {
    if list_at(m, key).len() > 0 {
        with_list(m, key, list_at(m, key).drop_last())
    } else {
        m
    }
}

/// What was written under a key is read back from it, and no other key is
/// touched; a key that was taken out holds nothing.
pub proof fn lemma_write_then_read(
    m: Map<Seq<char>, KvValueView>,
    key: Seq<char>,
    other: Seq<char>,
    text: Seq<char>,
    number: u32,
)
    requires
        other != key,
    ensures
        text_at(m.insert(key, KvValueView::Text(text)), key) == Some(text),
        number_at(m.insert(key, KvValueView::Number(number)), key) == Some(number),
        text_at(m.remove(key), key).is_none(),
        number_at(m.remove(key), key).is_none(),
        list_at(m.remove(key), key).len() == 0,
        !m.remove(key).contains_key(key),
        text_at(m.insert(key, KvValueView::Text(text)), other) == text_at(m, other),
        text_at(m.remove(key), other) == text_at(m, other),
        number_at(m.insert(key, KvValueView::Number(number)), other) == number_at(m, other),
        number_at(m.remove(key), other) == number_at(m, other),
{
}

/// A key holds one kind of value: of its string, its number and its list,
/// at most one can be read. So after a scalar was written the list under
/// the key is empty, and after a push the key has no scalar.
pub proof fn lemma_one_kind_per_key(
    m: Map<Seq<char>, KvValueView>,
    key: Seq<char>,
    text: Seq<char>,
    number: u32,
)
    ensures
        !(text_at(m, key).is_some() && number_at(m, key).is_some()),
        !(text_at(m, key).is_some() && list_at(m, key).len() > 0),
        !(number_at(m, key).is_some() && list_at(m, key).len() > 0),
        list_at(m.insert(key, KvValueView::Text(text)), key).len() == 0,
        list_at(m.insert(key, KvValueView::Number(number)), key).len() == 0,
        text_at(pushed(m, key, text), key).is_none(),
        number_at(pushed(m, key, text), key).is_none(),
        list_at(pushed(m.insert(key, KvValueView::Text(text)), key, text), key) == seq![text],
{
    assert(Seq::<Seq<char>>::empty().push(text) =~= seq![text]);
}

/// A push appends: the list keeps its order and the new element is its last.
/// A pop takes off that last element: after a push it returns what was
/// pushed and leaves the list as it was before. Other keys are not touched,
/// and a pop from a key without a list changes nothing.
pub proof fn lemma_push_then_pop(
    m: Map<Seq<char>, KvValueView>,
    key: Seq<char>,
    other: Seq<char>,
    value: Seq<char>,
)
    requires
        other != key,
    ensures
        list_at(pushed(m, key, value), key) == list_at(m, key).push(value),
        list_at(pushed(m, key, value), key).last() == value,
        list_at(popped(pushed(m, key, value), key), key) == list_at(m, key),
        list_at(m, key).len() > 0 ==> list_at(popped(m, key), key) == list_at(m, key).drop_last(),
        list_at(m, key).len() == 0 ==> popped(m, key) == m,
        list_at(pushed(m, key, value), other) == list_at(m, other),
        list_at(popped(m, key), other) == list_at(m, other),
{
    assert(list_at(m, key).push(value).drop_last() =~= list_at(m, key));
}

/// With distinct keys, the map holds exactly the records.
pub proof fn lemma_map_of(records: Seq<KvRecord>)
    requires
        distinct_keys(records),
    ensures
        forall|i: int|
            0 <= i < records.len() ==> map_of(records).contains_key((#[trigger] records[i]).key@)
                && map_of(records)[records[i].key@] == records[i].value@,
        forall|k: Seq<char>|
            map_of(records).contains_key(k) ==> exists|i: int|
                0 <= i < records.len() && (#[trigger] records[i]).key@ == k,
    decreases records.len(),
{
    if records.len() > 0 {
        let d = records.drop_last();
        let n = records.len() - 1;
        assert(distinct_keys(d)) by {
            assert forall|i: int, j: int| 0 <= i < j < d.len() implies (#[trigger] d[i]).key@ != (
            #[trigger] d[j]).key@ by {
                assert(d[i] == records[i]);
                assert(d[j] == records[j]);
            }
        }
        lemma_map_of(d);
        assert forall|i: int| 0 <= i < records.len() implies map_of(records).contains_key(
            (#[trigger] records[i]).key@,
        ) && map_of(records)[records[i].key@] == records[i].value@ by {
            if i < n {
                assert(d[i] == records[i]);
                assert(records[i].key@ != records[n].key@);
            }
        }
        assert forall|k: Seq<char>| map_of(records).contains_key(k) implies exists|i: int|
            0 <= i < records.len() && (#[trigger] records[i]).key@ == k by {
            if k == records[n].key@ {
                assert(records[n].key@ == k);
            } else {
                assert(map_of(d).contains_key(k));
                let i = choose|i: int| 0 <= i < d.len() && (#[trigger] d[i]).key@ == k;
                assert(records[i].key@ == k);
            }
        }
    }
}

/// Taking a record out takes its key out of the map.
pub proof fn lemma_map_of_remove(records: Seq<KvRecord>, at: int)
    requires
        distinct_keys(records),
        0 <= at < records.len(),
    ensures
        distinct_keys(records.remove(at)),
        map_of(records.remove(at)) == map_of(records).remove(records[at].key@),
{
    let r = records.remove(at);
    let k = records[at].key@;
    assert forall|i: int, j: int| 0 <= i < j < r.len() implies (#[trigger] r[i]).key@ != (
    #[trigger] r[j]).key@ by {
        let a = if i < at { i } else { i + 1 };
        let b = if j < at { j } else { j + 1 };
        assert(r[i] == records[a]);
        assert(r[j] == records[b]);
    }
    lemma_map_of(records);
    lemma_map_of(r);
    let m1 = map_of(r);
    let m2 = map_of(records).remove(k);
    assert forall|key: Seq<char>| m1.contains_key(key) <==> m2.contains_key(key) by {
        if m1.contains_key(key) {
            let i = choose|i: int| 0 <= i < r.len() && (#[trigger] r[i]).key@ == key;
            let a = if i < at { i } else { i + 1 };
            assert(r[i] == records[a]);
            assert(records[a].key@ == key);
            if a < at {
                assert(records[a].key@ != records[at].key@);
            } else {
                assert(records[at].key@ != records[a].key@);
            }
        }
        if m2.contains_key(key) {
            let a = choose|a: int| 0 <= a < records.len() && (#[trigger] records[a]).key@ == key;
            let i = if a < at { a } else { a - 1 };
            assert(r[i] == records[a]);
            assert(r[i].key@ == key);
        }
    }
    assert forall|key: Seq<char>| m1.contains_key(key) implies m1[key] == m2[key] by {
        let i = choose|i: int| 0 <= i < r.len() && (#[trigger] r[i]).key@ == key;
        let a = if i < at { i } else { i + 1 };
        assert(r[i] == records[a]);
        assert(records[a].key@ == key);
    }
    assert(m1 =~= m2);
}

/// Adding a record with a new key adds it to the map.
pub proof fn lemma_map_of_push(records: Seq<KvRecord>, record: KvRecord)
    requires
        distinct_keys(records),
        !map_of(records).contains_key(record.key@),
    ensures
        distinct_keys(records.push(record)),
        map_of(records.push(record)) == map_of(records).insert(record.key@, record.value@),
{
    let r = records.push(record);
    lemma_map_of(records);
    assert(r.drop_last() =~= records);
    assert forall|i: int, j: int| 0 <= i < j < r.len() implies (#[trigger] r[i]).key@ != (
    #[trigger] r[j]).key@ by {
        assert(r[i] == records[i]);
        if j < records.len() {
            assert(r[j] == records[j]);
        }
    }
}

impl View for KvTable {
    type V = Map<Seq<char>, KvValueView>;

    closed spec fn view(&self) -> Map<Seq<char>, KvValueView> {
        map_of(self.records@)
    }
}

impl KvTable {
    /// Every key stands once, and no list is empty.
    pub closed spec fn wf(&self) -> bool {
        distinct_keys(self.records@) && no_empty_list(self.records@)
    }

    /// No key holds an empty list.
    pub proof fn lemma_lists_not_empty(&self, key: Seq<char>)
        requires
            self.wf(),
        ensures
            self@.contains_key(key) ==> (self@[key] matches KvValueView::List(l) ==> l.len() > 0),
    {
        lemma_map_of(self.records@);
        if self@.contains_key(key) {
            let i = choose|i: int| 0 <= i < self.records@.len() && (#[trigger] self.records@[i]).key@ == key;
            assert(self@[key] == self.records@[i].value@);
        }
    }

    /// An empty table.
    pub fn new() -> (t: Self)
        ensures
            t.wf(),
            t@ == Map::<Seq<char>, KvValueView>::empty(),
    {
        KvTable { records: Vec::new() }
    }

    /// The place of `key` among the records.
    fn index_of(&self, key: &str) -> (r: Option<usize>)
        requires
            self.wf(),
        ensures
            match r {
                Some(i) => i < self.records@.len() && self.records@[i as int].key@ == key@,
                None => !self@.contains_key(key@),
            },
    {
        let mut i: usize = 0;
        while i < self.records.len()
            invariant
                i <= self.records@.len(),
                forall|j: int| 0 <= j < i ==> (#[trigger] self.records@[j]).key@ != key@,
            decreases self.records.len() - i,
        {
            if str_eq(self.records[i].key.as_str(), key) {
                return Some(i);
            }
            i += 1;
        }
        proof {
            lemma_map_of(self.records@);
        }
        None
    }

    /// The number of keys.
    pub fn len(&self) -> (n: usize)
        requires
            self.wf(),
        ensures
            n == self@.dom().len(),
            self@.dom().finite(),
    {
        proof {
            lemma_map_of_len(self.records@);
        }
        self.records.len()
    }

    /// The records, each key once, in no particular order.
    pub fn records(&self) -> (r: &Vec<KvRecord>)
        requires
            self.wf(),
        ensures
            distinct_keys(r@),
            no_empty_list(r@),
            map_of(r@) == self@,
    {
        &self.records
    }

    /// Whether the key holds a value.
    pub fn contains(&self, key: &str) -> (r: bool)
        requires
            self.wf(),
        ensures
            r == self@.contains_key(key@),
    {
        proof {
            lemma_map_of(self.records@);
        }
        self.index_of(key).is_some()
    }

    /// The value under the key.
    pub fn get(&self, key: &str) -> (r: Option<&KvValue>)
        requires
            self.wf(),
        ensures
            match r {
                Some(v) => self@.contains_key(key@) && self@[key@] == v@ && (v matches KvValue::List(
                    l,
                ) ==> l@.len() > 0),
                None => !self@.contains_key(key@),
            },
    {
        proof {
            lemma_map_of(self.records@);
        }
        match self.index_of(key) {
            Some(i) => Some(&self.records[i].value),
            None => None,
        }
    }

    /// Takes the key out of the table and returns what it held.
    pub fn take(&mut self, key: &str) -> (r: Option<KvValue>)
        requires
            old(self).wf(),
        ensures
            final(self).wf(),
            final(self)@ == old(self)@.remove(key@),
            match r {
                Some(v) => old(self)@.contains_key(key@) && old(self)@[key@] == v@ && (
                v matches KvValue::List(l) ==> l@.len() > 0),
                None => !old(self)@.contains_key(key@),
            },
    {
        proof {
            lemma_map_of(self.records@);
        }
        match self.index_of(key) {
            Some(i) => {
                proof {
                    lemma_map_of_remove(self.records@, i as int);
                    let r = self.records@.remove(i as int);
                    assert forall|j: int| 0 <= j < r.len() implies ((#[trigger] r[j]).value matches KvValue::List(
                        l,
                    ) ==> l@.len() > 0) by {
                        let a = if j < i { j } else { j + 1 };
                        assert(r[j] == self.records@[a]);
                    }
                }
                let record = self.records.remove(i);
                Some(record.value)
            },
            None => {
                assert(self@.remove(key@) =~= self@);
                None
            },
        }
    }

    /// Puts `value` under the key, in place of what the key held. An empty
    /// list is no value: putting one takes the key out.
    pub fn put(&mut self, key: &str, value: KvValue)
        requires
            old(self).wf(),
        ensures
            final(self).wf(),
            final(self)@ == with_value(old(self)@, key@, value@),
    {
        let _ = self.take(key);
        let empty_list = match &value {
            KvValue::List(l) => l.len() == 0,
            _ => false,
        };
        if empty_list {
            return ;
        }
        let record = KvRecord { key: String::from_str(key), value };
        proof {
            lemma_map_of_push(self.records@, record);
            let r = self.records@.push(record);
            assert forall|j: int| 0 <= j < r.len() implies ((#[trigger] r[j]).value matches KvValue::List(
                l,
            ) ==> l@.len() > 0) by {
                if j < self.records@.len() {
                    assert(r[j] == self.records@[j]);
                }
            }
            assert(old(self)@.remove(key@).insert(key@, value@) =~= old(self)@.insert(key@, value@));
        }
        self.records.push(record);
    }
}

/// A table has as many keys as records.
pub proof fn lemma_map_of_len(records: Seq<KvRecord>)
    requires
        distinct_keys(records),
    ensures
        map_of(records).dom().finite(),
        map_of(records).dom().len() == records.len(),
    decreases records.len(),
{
    if records.len() > 0 {
        let d = records.drop_last();
        assert(distinct_keys(d)) by {
            assert forall|i: int, j: int| 0 <= i < j < d.len() implies (#[trigger] d[i]).key@ != (
            #[trigger] d[j]).key@ by {
                assert(d[i] == records[i]);
                assert(d[j] == records[j]);
            }
        }
        lemma_map_of_len(d);
        lemma_map_of(d);
        let k = records.last().key@;
        if map_of(d).contains_key(k) {
            let i = choose|i: int| 0 <= i < d.len() && (#[trigger] d[i]).key@ == k;
            assert(d[i] == records[i]);
            assert(records[i].key@ != records[records.len() - 1].key@);
        }
        assert(map_of(records).dom() =~= map_of(d).dom().insert(k));
    }
}

} // verus!
