//! The script of the spell and its content identifier.

use crate::auth::roles::{by_creator, is_by_creator, CallContext};
use crate::error::{error_text, SpellError, SpellErrorView};
use crate::kv::primitive::accepted;
use crate::value::{CIDv1Value, Script, ScriptValue, UnitValue};
use vstd::prelude::*;
use vstd::string::{StringExecFns, StringSliceAdditionalSpecFns};

verus! {

/// The multicodec code of raw binary content.
pub const RAW: u64 = 0x55;

/// The multihash code of SHA2-256.
pub const SHA2_256: u64 = 0x12;

/// The SHA2-256 digest of `data`.
pub uninterp spec fn sha2_256(data: Seq<u8>) -> Seq<u8>;

/// The text of the version 1 content identifier made of a codec and of a
/// digest with the code of its hash function.
pub uninterp spec fn cid_v1_text(codec: u64, hash_code: u64, digest: Seq<u8>) -> Seq<char>;

/// `sha2::Sha256::digest`. The contract claims that the outcome is the
/// SHA2-256 digest of the data, which has 32 bytes.
#[verifier::external_body]
fn sha256_digest(data: &[u8]) -> (digest: Vec<u8>)
    ensures
        digest@ == sha2_256(data@),
        digest@.len() == 32,
{
    <sha2::Sha256 as sha2::Digest>::digest(data).to_vec()
}

/// `cid::Cid::new_v1` on the multihash that `Multihash::wrap` makes of the
/// digest, written with the identifier's `Display`. A multihash has room
/// for 64 bytes; `wrap` refuses a longer digest.
#[verifier::external_body]
fn cid_v1_string(codec: u64, hash_code: u64, digest: &[u8]) -> (text: String)
    requires
        digest@.len() <= 64,
    ensures
        text@ == cid_v1_text(codec, hash_code, digest@),
{
    let hash = cid::multihash::Multihash::<64>::wrap(hash_code, digest).unwrap();
    cid::Cid::new_v1(codec, hash).to_string()
}

/// The content identifier of a script: version 1, raw codec, SHA2-256 of the
/// script's bytes.
pub open spec fn script_cid_text(script: Seq<char>) -> Seq<char> {
    cid_v1_text(RAW, SHA2_256, sha2_256(vstd::utf8::encode_utf8(script)))
}

/// The content identifier of `script`, as text.
pub fn cid_of_script(script: &str) -> (text: String)
    ensures
        text@ == script_cid_text(script@),
{
    let digest = sha256_digest(script.as_bytes());
    cid_v1_string(RAW, SHA2_256, digest.as_slice())
}

/// Replaces the stored script by `script`, if the caller is the creator of
/// the service.
pub fn set_script(stored: &mut Option<String>, ctx: &CallContext, script: String) -> (r: UnitValue)
    ensures
        r.success == by_creator(ctx@),
        r.success ==> accepted(r) && *final(stored) == Some(script),
        !r.success ==> r.error@ == error_text(SpellErrorView::SetScriptForbidden) && *final(stored)
            == *old(stored),
{
    if !is_by_creator(ctx) {
        return UnitValue::from(Err(SpellError::SetScriptForbidden));
    }
    *stored = Some(script);
    UnitValue::ok()
}

/// Stores `script` where none is stored yet, if the caller is the creator
/// of the service. A stored script is never replaced.
pub fn set_script_source_to_file(stored: &mut Option<String>, ctx: &CallContext, script: String) -> (r:
    UnitValue)
    ensures
        r.success == (by_creator(ctx@) && old(stored).is_none()),
        r.success ==> accepted(r) && *final(stored) == Some(script),
        !r.success ==> *final(stored) == *old(stored),
        !by_creator(ctx@) ==> r.error@ == error_text(SpellErrorView::SetScriptForbidden),
        by_creator(ctx@) && old(stored).is_some() ==> r.error@ == error_text(
            SpellErrorView::ScriptAlreadySet,
        ),
{
    if !is_by_creator(ctx) {
        return UnitValue::from(Err(SpellError::SetScriptForbidden));
    }
    if stored.is_some() {
        return UnitValue::from(Err(SpellError::ScriptAlreadySet));
    }
    *stored = Some(script);
    UnitValue::ok()
}

/// The stored script. Where none was ever set the result is a failure.
pub fn get_script(stored: &Option<String>) -> (r: ScriptValue)
    ensures
        match *stored {
            Some(script) => r.success && r.value == script && r.error@ == Seq::<char>::empty(),
            None => !r.success && r.value@ == Seq::<char>::empty() && r.error@ == error_text(
                SpellErrorView::NoScript,
            ),
        },
{
    match stored {
        Some(script) => ScriptValue { value: script.clone(), success: true, error: String::new() },
        None => ScriptValue {
            value: String::new(),
            success: false,
            error: SpellError::NoScript.message(),
        },
    }
}

/// The stored script as source code. Where none was ever set the result is
/// a failure.
pub fn get_script_source_from_file(stored: &Option<String>) -> (r: Script)
    ensures
        match *stored {
            Some(script) => r.success && r.source_code == script && r.error@ == Seq::<
                char,
            >::empty(),
            None => !r.success && r.source_code@ == Seq::<char>::empty() && r.error@ == error_text(
                SpellErrorView::NoScript,
            ),
        },
{
    let script = get_script(stored);
    Script { source_code: script.value, success: script.success, error: script.error }
}

/// The content identifier of the stored script. Where no script was ever
/// set the result is a failure.
pub fn script_cid(stored: &Option<String>) -> (r: CIDv1Value)
    ensures
        match *stored {
            Some(script) => r.success && r.value@ == script_cid_text(script@) && r.error@ == Seq::<
                char,
            >::empty(),
            None => !r.success && r.value@ == Seq::<char>::empty() && r.error@
                == "error loading script: "@ + error_text(SpellErrorView::NoScript),
        },
{
    let script = get_script(stored);
    if script.success {
        CIDv1Value {
            value: cid_of_script(script.value.as_str()),
            success: true,
            error: String::new(),
        }
    } else {
        CIDv1Value {
            value: String::new(),
            success: false,
            error: String::from_str("error loading script: ").concat(script.error.as_str()),
        }
    }
}

} // verus!
