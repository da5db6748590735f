//! Strings and numbers under a key.

use crate::auth::roles::{CallContext, CallContextView};
use crate::auth::{guard_kv_write, write_denial, write_permitted};
use crate::error::error_text;
use crate::kv::table::{number_at, text_at, KvTable, KvValue, KvValueView};
use crate::value::{BoolValue, StringValue, U32Value, UnitValue};
use vstd::prelude::*;

verus! {

/// The result of a write that the guard let through.
pub open spec fn accepted(r: UnitValue) -> bool {
    r.success && r.error@ == Seq::<char>::empty()
}

/// The result of a write of `key` that the guard refused.
pub open spec fn refused(r: UnitValue, key: Seq<char>, ctx: CallContextView) -> bool {
    !r.success && r.error@ == error_text(write_denial(key, ctx))
}

/// Puts a string under the key, whoever asks. What the key held before,
/// scalar or list, is gone.
pub fn store_string(kv: &mut KvTable, key: &str, value: String)
    requires
        old(kv).wf(),
    ensures
        final(kv).wf(),
        final(kv)@ == old(kv)@.insert(key@, KvValueView::Text(value@)),
{
    kv.put(key, KvValue::Text(value));
}

/// Puts a string under the key, if the caller may write it.
pub fn set_string(kv: &mut KvTable, ctx: &CallContext, key: &str, value: String) -> (r: UnitValue)
    requires
        old(kv).wf(),
    ensures
        final(kv).wf(),
        r.success == write_permitted(key@, ctx@),
        r.success ==> accepted(r) && final(kv)@ == old(kv)@.insert(
            key@,
            KvValueView::Text(value@),
        ),
        !r.success ==> refused(r, key@, ctx@) && *final(kv) == *old(kv),
{
    match guard_kv_write(key, ctx) {
        Ok(_) => {
            store_string(kv, key, value);
            UnitValue::ok()
        },
        Err(e) => UnitValue::from(Err(e)),
    }
}

/// The string under the key. A key that holds a number or a list, or
/// nothing, has none: the result is a success and `absent`.
pub fn get_string(kv: &KvTable, key: &str) -> (r: StringValue)
    requires
        kv.wf(),
    ensures
        r.success,
        r.error@ == Seq::<char>::empty(),
        match text_at(kv@, key@) {
            Some(s) => !r.absent && r.value@ == s,
            None => r.absent && r.value@ == Seq::<char>::empty(),
        },
{
    match kv.get(key) {
        Some(KvValue::Text(s)) => StringValue::from(Ok(Some(s.clone()))),
        _ => StringValue::from(Ok(None)),
    }
}

/// Puts a number under the key, if the caller may write it.
pub fn set_u32(kv: &mut KvTable, ctx: &CallContext, key: &str, value: u32) -> (r: UnitValue)
    requires
        old(kv).wf(),
    ensures
        final(kv).wf(),
        r.success == write_permitted(key@, ctx@),
        r.success ==> accepted(r) && final(kv)@ == old(kv)@.insert(
            key@,
            KvValueView::Number(value),
        ),
        !r.success ==> refused(r, key@, ctx@) && *final(kv) == *old(kv),
{
    match guard_kv_write(key, ctx) {
        Ok(_) => {
            kv.put(key, KvValue::Number(value));
            UnitValue::ok()
        },
        Err(e) => UnitValue::from(Err(e)),
    }
}

/// The number under the key. A key that holds a string or a list, or
/// nothing, has none: the result is a success and `absent`.
pub fn get_u32(kv: &KvTable, key: &str) -> (r: U32Value)
    requires
        kv.wf(),
    ensures
        r.success,
        r.error@ == Seq::<char>::empty(),
        match number_at(kv@, key@) {
            Some(n) => !r.absent && r.value == n,
            None => r.absent && r.value == 0,
        },
{
    match kv.get(key) {
        Some(KvValue::Number(n)) => U32Value::from(Ok(Some(*n))),
        _ => U32Value::from(Ok(None)),
    }
}

/// Takes the key out of the table, with its value or its whole list, if the
/// caller may write it. Taking out an absent key is a success.
pub fn remove_key(kv: &mut KvTable, ctx: &CallContext, key: &str) -> (r: UnitValue)
    requires
        old(kv).wf(),
    ensures
        final(kv).wf(),
        r.success == write_permitted(key@, ctx@),
        r.success ==> accepted(r) && final(kv)@ == old(kv)@.remove(key@),
        !r.success ==> refused(r, key@, ctx@) && *final(kv) == *old(kv),
{
    match guard_kv_write(key, ctx) {
        Ok(_) => {
            let _ = kv.take(key);
            UnitValue::ok()
        },
        Err(e) => UnitValue::from(Err(e)),
    }
}

/// Whether the key holds anything: a string, a number or a list.
pub fn key_exists(kv: &KvTable, key: &str) -> (r: BoolValue)
    requires
        kv.wf(),
    ensures
        r.success,
        r.error@ == Seq::<char>::empty(),
        r.value == kv@.contains_key(key@),
{
    BoolValue::from(Ok(kv.contains(key)))
}

} // verus!
