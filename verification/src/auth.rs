//! Who is calling, and what may they write.
//!
//! Reading is open to everyone. A write is let through for the spell itself,
//! and for any other caller where the key's prefix names one of its roles.

pub mod keys;
pub mod roles;

use crate::auth::keys::{lemma_permission_by_prefix, parse_permission, permitted_roles};
use crate::auth::roles::{
    authenticate, by_host, by_worker, from_spell, roles_of, underscore_from, CallContext,
    CallContextView, Role,
};
use crate::error::{SpellError, SpellErrorView};
use vstd::prelude::*;
use vstd::string::StringExecFns;

verus! {

/// Whether the call may write the key: the spell may write every key, the
/// host the keys that name the host, the worker those that name the worker.
pub open spec fn write_permitted(key: Seq<char>, ctx: CallContextView) -> bool {
    ||| from_spell(ctx)
    ||| by_host(ctx) && permitted_roles(key).contains(Role::Host)
    ||| by_worker(ctx) && permitted_roles(key).contains(Role::Worker)
}

/// Why the call may not write the key. It means something only where
/// `write_permitted` is false.
pub open spec fn write_denial(key: Seq<char>, ctx: CallContextView) -> SpellErrorView {
    if from_spell(ctx) {
        SpellErrorView::WriteForbiddenForRole(key, Role::Spell)
    } else if by_host(ctx) && by_worker(ctx) {
        SpellErrorView::WriteForbiddenForHostAndWorker(key)
    } else if by_host(ctx) {
        SpellErrorView::WriteForbiddenForRole(key, Role::Host)
    } else if by_worker(ctx) {
        SpellErrorView::WriteForbiddenForRole(key, Role::Worker)
    } else {
        SpellErrorView::WriteForbiddenForOutsider(key)
    }
}

/// A write is permitted exactly where the call is the spell's or one of its
/// roles is among the roles that the key names.
pub proof fn lemma_write_permitted_by_roles(key: Seq<char>, ctx: CallContextView)
    ensures
        write_permitted(key, ctx) == (roles_of(ctx).contains(Role::Spell) || !roles_of(ctx).disjoint(permitted_roles(key))),
{
    let roles = roles_of(ctx);
    let allowed = permitted_roles(key);
    lemma_permission_by_prefix(key);
    assert(!allowed.contains(Role::Spell));
    if !roles.disjoint(allowed) {
        let r = choose|r: Role| roles.contains(r) && allowed.contains(r);
        assert(r != Role::Spell);
    }
    if !from_spell(ctx) && write_permitted(key, ctx) {
        if by_host(ctx) && allowed.contains(Role::Host) {
            assert(roles.contains(Role::Host) && allowed.contains(Role::Host));
        } else {
            assert(roles.contains(Role::Worker) && allowed.contains(Role::Worker));
        }
    }
}

/// Decides on a write of `key` by the caller that `ctx` describes: accepted
/// exactly where `write_permitted` holds, else refused with `write_denial`.
pub fn check_kv_write(key: &str, ctx: &CallContext) -> (r: Result<(), SpellError>)
    ensures
        r.is_ok() == write_permitted(key@, ctx@),
        r matches Err(e) ==> e@ == write_denial(key@, ctx@),
{
    let roles = authenticate(ctx);
    proof {
        lemma_write_permitted_by_roles(key@, ctx@);
        assert(roles@.contains(Role::Host) == roles.host);
        assert(roles@.contains(Role::Worker) == roles.worker);
        assert(roles@.contains(Role::Spell) == roles.spell);
    }
    if roles.contains(&Role::Spell) {
        return Ok(());
    }
    let allowed_roles = parse_permission(key);
    if roles.intersects(&allowed_roles) {
        Ok(())
    } else if roles.host && roles.worker {
        Err(SpellError::WriteForbiddenForHostAndWorker(String::from_str(key)))
    } else if roles.host {
        Err(SpellError::WriteForbiddenForRole(String::from_str(key), Role::Host))
    } else if roles.worker {
        Err(SpellError::WriteForbiddenForRole(String::from_str(key), Role::Worker))
    } else {
        Err(SpellError::WriteForbiddenForOutsider(String::from_str(key)))
    }
}

/// The guard that every write passes before it touches the store.
pub fn guard_kv_write(key: &str, ctx: &CallContext) -> (r: Result<(), SpellError>)
    ensures
        r.is_ok() == write_permitted(key@, ctx@),
        r matches Err(e) ==> e@ == write_denial(key@, ctx@),
{
    check_kv_write(key, ctx)
}

/// Whether the guard lets the call write the key.
pub fn is_kv_write_permitted(key: &str, ctx: &CallContext) -> (r: bool)
    ensures
        r == write_permitted(key@, ctx@),
{
    check_kv_write(key, ctx).is_ok()
}

/// A particle id of the form `spell_<service id>_<anything>`, sent by the
/// spell's worker, is a call of the spell itself, whatever the other
/// identifiers are. The service id must hold no `_`: the id in a particle id
/// ends at the next `_`.
pub proof fn lemma_spell_particle_resolves_to_spell(ctx: CallContextView, rest: Seq<char>)
    requires
        !ctx.service_id.contains('_'),
        ctx.particle_id == seq!['s', 'p', 'e', 'l', 'l', '_'] + ctx.service_id + seq!['_'] + rest,
        ctx.caller_peer_id == ctx.worker_id,
    ensures
        from_spell(ctx),
        roles_of(ctx) == set![Role::Spell],
{
    let p = ctx.particle_id;
    let id = ctx.service_id;
    let head = seq!['s', 'p', 'e', 'l', 'l', '_'];
    assert(p.len() == 6 + id.len() + 1 + rest.len());
    assert forall|j: int| 0 <= j < 6 implies p[j] == head[j] by {}
    assert(p.subrange(0, 6) =~= head);
    assert forall|j: int| 6 <= j < 6 + id.len() implies p[j] != '_' by {
        assert(p[j] == id[j - 6]);
        assert(id.contains(id[j - 6]));
    }
    let end: int = (6 + id.len()) as int;
    assert(p[end] == '_');
    lemma_underscore_from_is(p, 6, end);
    assert(p.subrange(6, end) =~= id);
}

/// Where `s` holds a `_` at `at` and none from `from` up to there,
/// `underscore_from(s, from)` is `at`.
proof fn lemma_underscore_from_is(s: Seq<char>, from: int, at: int)
    requires
        0 <= from <= at < s.len(),
        s[at] == '_',
        forall|j: int| from <= j < at ==> s[j] != '_',
    ensures
        underscore_from(s, from) == at,
    decreases at - from,
{
    if from < at {
        lemma_underscore_from_is(s, from + 1, at);
    }
}

/// The spell may write every key, also one whose prefix names no role.
pub proof fn lemma_spell_writes_any_key(key: Seq<char>, ctx: CallContextView)
    requires
        roles_of(ctx).contains(Role::Spell),
    ensures
        write_permitted(key, ctx),
{
    if !from_spell(ctx) {
        assert(!roles_of(ctx).contains(Role::Spell));
    }
}

/// A caller without a role may write no key.
pub proof fn lemma_outsider_writes_no_key(key: Seq<char>, ctx: CallContextView)
    requires
        roles_of(ctx) == Set::<Role>::empty(),
    ensures
        !write_permitted(key, ctx),
        write_denial(key, ctx) == SpellErrorView::WriteForbiddenForOutsider(key),
{
    assert(!roles_of(ctx).contains(Role::Spell));
    assert(!roles_of(ctx).contains(Role::Host));
    assert(!roles_of(ctx).contains(Role::Worker));
    if from_spell(ctx) {
        assert(roles_of(ctx).contains(Role::Spell));
    }
}

/// A caller that is the host and nothing else may write exactly the keys
/// that begin with `h_` or `hw_`: not the keys of a worker (`w_`), and not
/// the spell's own.
pub proof fn lemma_host_writes_host_keys(key: Seq<char>, ctx: CallContextView)
    requires
        roles_of(ctx) == set![Role::Host],
    ensures
        write_permitted(key, ctx) == permitted_roles(key).contains(Role::Host),
        write_permitted(key, ctx) == (seq!['h', '_'].is_prefix_of(key) || seq![
            'h',
            'w',
            '_',
        ].is_prefix_of(key)),
        !write_permitted(key, ctx) ==> write_denial(key, ctx)
            == SpellErrorView::WriteForbiddenForRole(key, Role::Host),
{
    lemma_roles(ctx);
    lemma_permission_by_prefix(key);
    lemma_prefixes_differ(key);
}

/// A caller that is the worker and nothing else may write exactly the keys
/// that begin with `w_` or `hw_`.
pub proof fn lemma_worker_writes_worker_keys(key: Seq<char>, ctx: CallContextView)
    requires
        roles_of(ctx) == set![Role::Worker],
    ensures
        write_permitted(key, ctx) == permitted_roles(key).contains(Role::Worker),
        write_permitted(key, ctx) == (seq!['w', '_'].is_prefix_of(key) || seq![
            'h',
            'w',
            '_',
        ].is_prefix_of(key)),
        !write_permitted(key, ctx) ==> write_denial(key, ctx)
            == SpellErrorView::WriteForbiddenForRole(key, Role::Worker),
{
    lemma_roles(ctx);
    lemma_permission_by_prefix(key);
    lemma_prefixes_differ(key);
}

/// A caller that is the host and the worker at once may write what either
/// may: the keys that begin with `h_`, `w_` or `hw_`, and no others.
pub proof fn lemma_host_and_worker_writes_both(key: Seq<char>, ctx: CallContextView)
    requires
        roles_of(ctx) == set![Role::Host, Role::Worker],
    ensures
        write_permitted(key, ctx) == (permitted_roles(key) != Set::<Role>::empty()),
        write_permitted(key, ctx) == (seq!['h', '_'].is_prefix_of(key) || seq![
            'w',
            '_',
        ].is_prefix_of(key) || seq!['h', 'w', '_'].is_prefix_of(key)),
        !write_permitted(key, ctx) ==> write_denial(key, ctx)
            == SpellErrorView::WriteForbiddenForHostAndWorker(key),
{
    lemma_roles(ctx);
    lemma_permission_by_prefix(key);
    lemma_prefixes_differ(key);
    if permitted_roles(key) != Set::<Role>::empty() {
        assert(permitted_roles(key).contains(Role::Host) || permitted_roles(key).contains(
            Role::Worker,
        ));
    }
}

/// The roles of a call say who the caller is.
proof fn lemma_roles(ctx: CallContextView)
    ensures
        roles_of(ctx).contains(Role::Spell) == from_spell(ctx),
        roles_of(ctx).contains(Role::Host) == (!from_spell(ctx) && by_host(ctx)),
        roles_of(ctx).contains(Role::Worker) == (!from_spell(ctx) && by_worker(ctx)),
{
}

/// No key begins with two of `h_`, `w_` and `hw_`.
proof fn lemma_prefixes_differ(key: Seq<char>)
    ensures
        !(seq!['h', '_'].is_prefix_of(key) && seq!['w', '_'].is_prefix_of(key)),
        !(seq!['h', '_'].is_prefix_of(key) && seq!['h', 'w', '_'].is_prefix_of(key)),
        !(seq!['w', '_'].is_prefix_of(key) && seq!['h', 'w', '_'].is_prefix_of(key)),
{
    if seq!['h', '_'].is_prefix_of(key) {
        assert(key.subrange(0, 2)[0] == 'h' && key.subrange(0, 2)[1] == '_');
    }
    if seq!['w', '_'].is_prefix_of(key) {
        assert(key.subrange(0, 2)[0] == 'w' && key.subrange(0, 2)[1] == '_');
    }
    if seq!['h', 'w', '_'].is_prefix_of(key) {
        assert(key.subrange(0, 3)[0] == 'h' && key.subrange(0, 3)[1] == 'w');
    }
}

} // verus!
