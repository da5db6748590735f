//! Lists of strings under a key.

use crate::auth::guard_kv_write;
use crate::auth::roles::CallContext;
use crate::auth::write_permitted;
use crate::kv::primitive::{accepted, refused};
use crate::kv::table::{list_at, popped, pushed, texts, with_list, KvTable, KvValue, KvValueView};
use crate::text::{clone_strings, str_eq};
use crate::value::{StringListValue, StringValue, UnitValue};
use vstd::prelude::*;

verus! {

/// Appends `value` to the list under the key, whoever asks. A key that held
/// nothing or a scalar holds a list of this one element after.
pub fn store_list_item(kv: &mut KvTable, key: &str, value: String)
    requires
        old(kv).wf(),
    ensures
        final(kv).wf(),
        final(kv)@ == pushed(old(kv)@, key@, value@),
{
    let mut list = match kv.take(key) {
        Some(KvValue::List(l)) => l,
        _ => Vec::new(),
    };
    assert(texts(list@) == list_at(old(kv)@, key@)) by {
        assert(texts(Seq::<String>::empty()) =~= Seq::<Seq<char>>::empty());
    }
    proof {
        assert(texts(list@.push(value)) =~= texts(list@).push(value@));
        assert(old(kv)@.remove(key@).insert(key@, KvValueView::List(texts(list@.push(value))))
            =~= old(kv)@.insert(key@, KvValueView::List(texts(list@.push(value)))));
    }
    list.push(value);
    kv.put(key, KvValue::List(list));
}

/// Appends `value` to the list under the key, if the caller may write it. A
/// key that held nothing or a scalar holds a list of this one element after.
pub fn list_push_string(kv: &mut KvTable, ctx: &CallContext, key: &str, value: String) -> (r:
    UnitValue)
    requires
        old(kv).wf(),
    ensures
        final(kv).wf(),
        r.success == write_permitted(key@, ctx@),
        r.success ==> accepted(r) && final(kv)@ == pushed(old(kv)@, key@, value@),
        !r.success ==> refused(r, key@, ctx@) && *final(kv) == *old(kv),
{
    match guard_kv_write(key, ctx) {
        Ok(_) => {
            store_list_item(kv, key, value);
            UnitValue::ok()
        },
        Err(e) => UnitValue::from(Err(e)),
    }
}

/// Takes the last element off the list under the key and returns it, if the
/// caller may write the key. Where the key holds no list the result is a
/// success and `absent`, and nothing changes.
pub fn list_pop_string(kv: &mut KvTable, ctx: &CallContext, key: &str) -> (r: StringValue)
    requires
        old(kv).wf(),
    ensures
        final(kv).wf(),
        r.success == write_permitted(key@, ctx@),
        r.success ==> r.error@ == Seq::<char>::empty(),
        r.success ==> final(kv)@ == popped(old(kv)@, key@),
        r.success && list_at(old(kv)@, key@).len() > 0 ==> !r.absent && r.value@ == list_at(
            old(kv)@,
            key@,
        ).last(),
        r.success && list_at(old(kv)@, key@).len() == 0 ==> r.absent && r.value@ == Seq::<
            char,
        >::empty(),
        !r.success ==> !r.absent && r.value@ == Seq::<char>::empty() && r.error@
            == crate::error::error_text(crate::auth::write_denial(key@, ctx@)) && *final(kv) == *old(kv),
{
    match guard_kv_write(key, ctx) {
        Ok(_) => {
            let holds_list = match kv.get(key) {
                Some(KvValue::List(_)) => true,
                _ => false,
            };
            if !holds_list {
                return StringValue::from(Ok(None));
            }
            match kv.take(key) {
                Some(KvValue::List(mut list)) => {
                    let ghost before = list@;
                    let last = list.pop();
                    proof {
                        assert(texts(before).last() == before.last()@);
                        assert(texts(before.drop_last()) =~= texts(before).drop_last());
                    }
                    if list.len() > 0 {
                        proof {
                            assert(old(kv)@.remove(key@).insert(
                                key@,
                                KvValueView::List(texts(list@)),
                            ) =~= old(kv)@.insert(key@, KvValueView::List(texts(list@))));
                        }
                        kv.put(key, KvValue::List(list));
                    }
                    StringValue::from(Ok(last))
                },
                _ => StringValue::from(Ok(None)),
            }
        },
        Err(e) => StringValue::from(Err(e)),
    }
}

/// The whole list under the key, oldest element first; empty where the key
/// holds no list.
pub fn list_get_strings(kv: &KvTable, key: &str) -> (r: StringListValue)
    requires
        kv.wf(),
    ensures
        r.success,
        r.error@ == Seq::<char>::empty(),
        texts(r.value@) == list_at(kv@, key@),
{
    let list = match kv.get(key) {
        Some(KvValue::List(l)) => clone_strings(l),
        _ => Vec::new(),
    };
    assert(texts(Seq::<String>::empty()) =~= Seq::<Seq<char>>::empty());
    StringListValue::from(Ok(list))
}

/// The elements of `list` that differ from `value`, in their order.
pub open spec fn without(list: Seq<Seq<char>>, value: Seq<char>) -> Seq<Seq<char>> {
    list.filter(|s: Seq<char>| s != value)
}

/// Takes every occurrence of `value` out of the list under the key, if the
/// caller may write the key. It does not tell whether there was one; a key
/// that holds no list is left as it is.
pub fn list_remove_string(kv: &mut KvTable, ctx: &CallContext, key: &str, value: &str) -> (r:
    UnitValue)
    requires
        old(kv).wf(),
    ensures
        final(kv).wf(),
        r.success == write_permitted(key@, ctx@),
        r.success ==> accepted(r),
        r.success && list_at(old(kv)@, key@).len() > 0 ==> final(kv)@ == with_list(
            old(kv)@,
            key@,
            without(list_at(old(kv)@, key@), value@),
        ),
        r.success && list_at(old(kv)@, key@).len() == 0 ==> final(kv)@ == old(kv)@,
        !r.success ==> refused(r, key@, ctx@) && *final(kv) == *old(kv),
{
    match guard_kv_write(key, ctx) {
        Ok(_) => {
            let holds_list = match kv.get(key) {
                Some(KvValue::List(_)) => true,
                _ => false,
            };
            if !holds_list {
                return UnitValue::ok();
            }
            match kv.take(key) {
                Some(KvValue::List(list)) => {
                    let kept = drop_equal(list, value);
                    if kept.len() > 0 {
                        proof {
                            assert(old(kv)@.remove(key@).insert(
                                key@,
                                KvValueView::List(texts(kept@)),
                            ) =~= old(kv)@.insert(key@, KvValueView::List(texts(kept@))));
                        }
                        kv.put(key, KvValue::List(kept));
                    }
                },
                _ => {},
            }
            UnitValue::ok()
        },
        Err(e) => UnitValue::from(Err(e)),
    }
}

/// The strings of `list` that differ from `value`, in their order.
fn drop_equal(list: Vec<String>, value: &str) -> (kept: Vec<String>)
    ensures
        texts(kept@) == without(texts(list@), value@),
{
    let mut kept: Vec<String> = Vec::new();
    let mut list = list;
    let ghost all = list@;
    let ghost pred = |s: Seq<char>| s != value@;
    let mut i: usize = 0;
    let n = list.len();
    proof {
        reveal(Seq::filter);
        assert(texts(all).take(0) =~= Seq::<Seq<char>>::empty());
        assert(texts(kept@) =~= Seq::<Seq<char>>::empty());
    }
    while i < n
        invariant
            i <= n,
            n == all.len(),
            list@ == all,
            pred == (|s: Seq<char>| s != value@),
            texts(kept@) == texts(all).take(i as int).filter(pred),
        decreases n - i,
    {
        proof {
            let a = texts(all).take(i as int);
            let b = texts(all).take(i + 1);
            assert(b =~= a.push(all[i as int]@));
            a.lemma_filter_push(all[i as int]@, pred);
        }
        if !str_eq(list[i].as_str(), value) {
            let ghost before = kept@;
            kept.push(list[i].clone());
            assert(texts(kept@) =~= texts(before).push(all[i as int]@));
        }
        i += 1;
    }
    assert(texts(all).take(n as int) =~= texts(all));
    kept
}

} // verus!
