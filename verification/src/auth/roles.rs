//! Roles of the security model, and how a call is matched to them.
//!
//! - `Host`: the call is made in the name of the peer that hosts the spell;
//! - `Worker`: the call is made in the name of the worker the spell runs on;
//! - `Spell`: the call is made by the spell itself, in the name of its worker.
//!
//! A call of the spell carries the role `Spell` and no other. Any other call
//! carries every role that its caller has: both `Host` and `Worker` where the
//! host is the worker.

use crate::auth::keys::RoleSet;
use crate::text::{chars_of, str_eq};
use vstd::prelude::*;
use vstd::string::StrSliceExecFns;

verus! {

/// A role that a caller can have.
#[derive(Debug, Clone, Copy, PartialEq, Eq, Hash, Structural)]
pub enum Role {
    /// The call is made by the spell itself.
    Spell,
    /// The call is made in the name of the peer that hosts the spell.
    Host,
    /// The call is made in the name of the worker that owns the spell.
    Worker,
}

/// Where a call comes from. The host environment builds one per call.
#[derive(Debug, Clone, PartialEq, Eq, Default)]
pub struct CallContext {
    /// Peer that started the particle.
    pub caller_peer_id: String,
    /// Id of the particle that made the call.
    pub particle_id: String,
    /// Id of this service, which is the id of the spell.
    pub service_id: String,
    /// Peer that created this service.
    pub service_creator_peer_id: String,
    /// Worker on which this service runs.
    pub worker_id: String,
    /// Peer that hosts the worker.
    pub host_id: String,
}

/// A `CallContext` as plain sequences of characters.
pub struct CallContextView {
    pub caller_peer_id: Seq<char>,
    pub particle_id: Seq<char>,
    pub service_id: Seq<char>,
    pub service_creator_peer_id: Seq<char>,
    pub worker_id: Seq<char>,
    pub host_id: Seq<char>,
}

impl View for CallContext {
    type V = CallContextView;

    open spec fn view(&self) -> CallContextView {
        CallContextView {
            caller_peer_id: self.caller_peer_id@,
            particle_id: self.particle_id@,
            service_id: self.service_id@,
            service_creator_peer_id: self.service_creator_peer_id@,
            worker_id: self.worker_id@,
            host_id: self.host_id@,
        }
    }
}

/// Index of the first `_` of `s` at or after `from`; `s.len()` if there is none.
pub open spec fn underscore_from(s: Seq<char>, from: int) -> int
    decreases s.len() - from,
{
    if from < 0 || from >= s.len() {
        s.len() as int
    } else if s[from] == '_' {
        from
    } else {
        underscore_from(s, from + 1)
    }
}

/// What every spell particle id starts with: the word `spell` and a `_`.
pub open spec fn spell_head() -> Seq<char> {
    seq!['s', 'p', 'e', 'l', 'l', '_']
}

/// The spell id that a particle id names. A spell particle has an id of the
/// form `spell_<id>_<counter>`: it starts with `spell_`, and the id is what
/// stands between that and the next `_`. The counter and its `_` may be
/// missing: the id then runs to the end. Any other particle id names no spell.
pub open spec fn spell_id_of(particle_id: Seq<char>) -> Option<Seq<char>> {
    if spell_head().is_prefix_of(particle_id) {
        Some(particle_id.subrange(6, underscore_from(particle_id, 6)))
    } else {
        None
    }
}

/// The caller is the peer that created the service.
pub open spec fn by_creator(ctx: CallContextView) -> bool {
    ctx.caller_peer_id == ctx.service_creator_peer_id
}

/// The caller is the hosting peer.
pub open spec fn by_host(ctx: CallContextView) -> bool {
    ctx.caller_peer_id == ctx.host_id
}

/// The caller is the worker the spell runs on.
pub open spec fn by_worker(ctx: CallContextView) -> bool {
    ctx.caller_peer_id == ctx.worker_id
}

/// The particle id names this very spell.
pub open spec fn spell_particle(ctx: CallContextView) -> bool {
    spell_id_of(ctx.particle_id) == Some(ctx.service_id)
}

/// The call comes from this spell: its particle names the spell and the
/// caller is the spell's worker.
///
/// This decides who has every right over the store, so it matters what is
/// not asked for: the creator of the service. A spell runs in the name of
/// its worker, whoever installed it, and a particle id cannot be forged in
/// another peer's name, since particles are signed. So the worker's own
/// particle that names this spell is the spell. `by_spell` is the test that
/// asks for the creator.
pub open spec fn from_spell(ctx: CallContextView) -> bool {
    spell_particle(ctx) && by_worker(ctx)
}

/// The call comes from the spell script as installed by its creator: the
/// particle names the spell and the caller is the service creator. This is
/// the stricter test, for what only the spell script may do: anyone can
/// choose a particle id, so the id alone is never trusted.
pub open spec fn by_spell(ctx: CallContextView) -> bool {
    spell_particle(ctx) && by_creator(ctx)
}

/// The roles of a call. `Spell` excludes the others. Of a call that is not
/// the spell's, the caller has the role `Host` where it is the host and the
/// role `Worker` where it is the worker: both, where the host is the worker,
/// and none, where it is neither.
pub open spec fn roles_of(ctx: CallContextView) -> Set<Role> {
    if from_spell(ctx) {
        set![Role::Spell]
    } else {
        Set::new(
            |r: Role|
                match r {
                    Role::Spell => false,
                    Role::Host => by_host(ctx),
                    Role::Worker => by_worker(ctx),
                },
        )
    }
}

pub proof fn lemma_underscore_from_bounds(s: Seq<char>, from: int)
    requires
        0 <= from <= s.len(),
    ensures
        from <= underscore_from(s, from) <= s.len(),
        underscore_from(s, from) < s.len() ==> s[underscore_from(s, from)] == '_',
        forall|j: int| from <= j < underscore_from(s, from) ==> s[j] != '_',
    decreases s.len() - from,
{
    if from < s.len() && s[from] != '_' {
        lemma_underscore_from_bounds(s, from + 1);
    }
}

/// Index of the first `_` of `chars` at or after `from`.
fn find_underscore(chars: &Vec<char>, from: usize) -> (i: usize)
    requires
        from <= chars.len(),
    ensures
        i == underscore_from(chars@, from as int),
        from <= i <= chars.len(),
{
    let mut i: usize = from;
    while i < chars.len() && chars[i] != '_'
        invariant
            from <= i <= chars.len(),
            underscore_from(chars@, from as int) == underscore_from(chars@, i as int),
        decreases chars.len() - i,
    {
        i += 1;
    }
    i
}

/// Reads the spell id out of a particle id of the form `spell_<id>_<counter>`
/// or `spell_<id>`. An id that starts otherwise names no spell.
pub fn parse_spell_id(particle_id: &str) -> (r: Option<&str>)
    ensures
        match r {
            Some(id) => spell_id_of(particle_id@) == Some(id@),
            None => spell_id_of(particle_id@).is_none(),
        },
{
    let chars = chars_of(particle_id);
    let n = chars.len();
    let starts = n >= 6 && chars[0] == 's' && chars[1] == 'p' && chars[2] == 'e' && chars[3] == 'l'
        && chars[4] == 'l' && chars[5] == '_';
    proof {
        if starts {
            assert(spell_head() =~= particle_id@.subrange(0, 6));
        } else if spell_head().is_prefix_of(particle_id@) {
            assert(spell_head()[0] == particle_id@.subrange(0, 6)[0]);
            assert(spell_head()[1] == particle_id@.subrange(0, 6)[1]);
            assert(spell_head()[2] == particle_id@.subrange(0, 6)[2]);
            assert(spell_head()[3] == particle_id@.subrange(0, 6)[3]);
            assert(spell_head()[4] == particle_id@.subrange(0, 6)[4]);
            assert(spell_head()[5] == particle_id@.subrange(0, 6)[5]);
        }
    }
    if !starts {
        return None;
    }
    let end = find_underscore(&chars, 6);
    Some(particle_id.substring_char(6, end))
}

/// Whether the call was made by the service creator.
pub fn is_by_creator(ctx: &CallContext) -> (r: bool)
    ensures
        r == by_creator(ctx@),
{
    ctx.caller_peer_id == ctx.service_creator_peer_id
}

/// Whether the call was made by the host.
pub fn is_by_host(ctx: &CallContext) -> (r: bool)
    ensures
        r == by_host(ctx@),
{
    ctx.caller_peer_id == ctx.host_id
}

/// Whether the call was made by the worker. The creator of a spell service is
/// its worker, so a call started by that peer is a spell of the same worker.
pub fn is_by_worker(ctx: &CallContext) -> (r: bool)
    ensures
        r == by_worker(ctx@),
{
    ctx.caller_peer_id == ctx.worker_id
}

/// Whether the particle id has the form `spell_<spell_id>_<counter>`, or
/// `spell_<spell_id>` without a counter, with the id of this service.
pub fn is_spell_particle(ctx: &CallContext) -> (r: bool)
    ensures
        r == spell_particle(ctx@),
{
    match parse_spell_id(ctx.particle_id.as_str()) {
        Some(id) => str_eq(id, ctx.service_id.as_str()),
        None => false,
    }
}

/// Whether the call is made by the spell itself: the particle names the spell
/// and the call was produced by the spell's worker.
pub fn is_spell(ctx: &CallContext) -> (r: bool)
    ensures
        r == from_spell(ctx@),
{
    is_spell_particle(ctx) && is_by_worker(ctx)
}

/// Guards what only the spell script may do. Anyone can choose a particle id,
/// so the caller must also be the service creator.
pub fn is_by_spell(ctx: &CallContext) -> (r: bool)
    ensures
        r == by_spell(ctx@),
{
    is_spell_particle(ctx) && is_by_creator(ctx)
}

/// The roles that the call carries.
pub fn authenticate(ctx: &CallContext) -> (r: RoleSet)
    ensures
        r@ == roles_of(ctx@),
{
    let r = if is_spell(ctx) {
        RoleSet { spell: true, host: false, worker: false }
    } else {
        RoleSet { spell: false, host: is_by_host(ctx), worker: is_by_worker(ctx) }
    };
    assert(r@ =~= roles_of(ctx@));
    r
}

} // verus!
