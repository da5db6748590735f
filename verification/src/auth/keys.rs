//! Reading the write rights out of a key.
//!
//! Format: `{prefix}_{name}`, where the prefix encodes the rights and the name
//! is any text. The prefix is one of:
//! - `h`: the key can be written by the host;
//! - `w`: the key can be written by a worker (the worker's spell, or another
//!   spell on the same worker);
//! - `hw`: the key can be written by the host and by a worker.
//!
//! A key without such a prefix can be written only by the spell itself.
//! Everyone may read every key.

use crate::auth::roles::{underscore_from, Role};
use crate::text::chars_of;
use vstd::prelude::*;

verus! {

/// A set of roles.
#[derive(Debug, Clone, Copy, PartialEq, Eq, Hash, Default, Structural)]
pub struct RoleSet {
    pub spell: bool,
    pub host: bool,
    pub worker: bool,
}

impl View for RoleSet {
    type V = Set<Role>;

    open spec fn view(&self) -> Set<Role> {
        Set::new(
            |r: Role|
                match r {
                    Role::Spell => self.spell,
                    Role::Host => self.host,
                    Role::Worker => self.worker,
                },
        )
    }
}

impl RoleSet {
    /// The empty set.
    pub fn new() -> (s: RoleSet)
        ensures
            s@ == Set::<Role>::empty(),
    {
        let s = RoleSet { spell: false, host: false, worker: false };
        assert(s@ =~= Set::<Role>::empty());
        s
    }

    /// The set of the given roles.
    pub fn from_roles(roles: &[Role]) -> (s: RoleSet)
        ensures
            s@ == roles@.to_set(),
    {
        let mut s = RoleSet { spell: false, host: false, worker: false };
        let mut i: usize = 0;
        assert(s@ =~= roles@.take(0).to_set());
        while i < roles.len()
            invariant
                i <= roles.len(),
                s@ == roles@.take(i as int).to_set(),
            decreases roles.len() - i,
        {
            let ghost before = s;
            match roles[i] {
                Role::Spell => {
                    s.spell = true;
                },
                Role::Host => {
                    s.host = true;
                },
                Role::Worker => {
                    s.worker = true;
                },
            }
            proof {
                let a = roles@.take(i as int);
                let b = roles@.take(i + 1);
                assert(b =~= a.push(roles@[i as int]));
                assert forall|r: Role| s@.contains(r) <==> b.to_set().contains(r) by {
                    if b.contains(r) {
                        let j = choose|j: int| 0 <= j < b.len() && b[j] == r;
                        if j < i {
                            assert(a[j] == r);
                            assert(a.contains(r));
                        }
                    }
                    if a.contains(r) {
                        let j = choose|j: int| 0 <= j < a.len() && a[j] == r;
                        assert(b[j] == r);
                    }
                    if r == roles@[i as int] {
                        assert(b[i as int] == r);
                    }
                    assert(before@.contains(r) == a.to_set().contains(r));
                }
                assert(s@ =~= b.to_set());
            }
            i += 1;
        }
        assert(roles@.take(roles@.len() as int) =~= roles@);
        s
    }

    /// Adds a role. Returns whether it was absent before.
    pub fn insert(&mut self, role: Role) -> (fresh: bool)
        ensures
            final(self)@ == old(self)@.insert(role),
            fresh == !old(self)@.contains(role),
    {
        let ghost before = *self;
        let fresh = !self.contains(&role);
        match role {
            Role::Spell => {
                self.spell = true;
            },
            Role::Host => {
                self.host = true;
            },
            Role::Worker => {
                self.worker = true;
            },
        }
        assert(self@ =~= before@.insert(role));
        fresh
    }

    /// Whether the role is in the set.
    pub fn contains(&self, role: &Role) -> (r: bool)
        ensures
            r == self@.contains(*role),
    {
        match role {
            Role::Spell => self.spell,
            Role::Host => self.host,
            Role::Worker => self.worker,
        }
    }

    /// Whether the set holds no role.
    pub fn is_empty(&self) -> (r: bool)
        ensures
            r == (self@ == Set::<Role>::empty()),
    {
        let r = !self.spell && !self.host && !self.worker;
        proof {
            if r {
                assert(self@ =~= Set::<Role>::empty());
            } else {
                assert(self@.contains(Role::Spell) || self@.contains(Role::Host)
                    || self@.contains(Role::Worker));
            }
        }
        r
    }

    /// Whether the two sets share a role.
    pub fn intersects(&self, other: &RoleSet) -> (r: bool)
        ensures
            r == !self@.disjoint(other@),
    {
        let r = (self.spell && other.spell) || (self.host && other.host) || (self.worker
            && other.worker);
        proof {
            if r {
                assert((self@.contains(Role::Spell) && other@.contains(Role::Spell)) || (
                self@.contains(Role::Host) && other@.contains(Role::Host)) || (self@.contains(
                    Role::Worker,
                ) && other@.contains(Role::Worker)));
            }
        }
        r
    }
}

/// What stands before the first `_` of a key; nothing where the key has no `_`.
pub open spec fn key_prefix(key: Seq<char>) -> Option<Seq<char>> {
    let i = underscore_from(key, 0);
    if i < key.len() {
        Some(key.subrange(0, i))
    } else {
        None
    }
}

/// The roles, other than the spell, that may write a key.
pub open spec fn permitted_roles(key: Seq<char>) -> Set<Role> {
    let prefix = key_prefix(key);
    if prefix == Some(seq!['h']) {
        set![Role::Host]
    } else if prefix == Some(seq!['w']) {
        set![Role::Worker]
    } else if prefix == Some(seq!['h', 'w']) {
        set![Role::Host, Role::Worker]
    } else {
        Set::empty()
    }
}

/// Keys that begin with `h_`, `w_` or `hw_` are exactly those with a
/// recognised prefix: the first gives the host the right to write, the second
/// a worker, the third both. Every other key gives it to nobody.
pub proof fn lemma_permission_by_prefix(key: Seq<char>)
    ensures
        seq!['h', '_'].is_prefix_of(key) ==> permitted_roles(key) == set![Role::Host],
        seq!['w', '_'].is_prefix_of(key) ==> permitted_roles(key) == set![Role::Worker],
        seq!['h', 'w', '_'].is_prefix_of(key) ==> permitted_roles(key) == set![
            Role::Host,
            Role::Worker,
        ],
        !seq!['h', '_'].is_prefix_of(key) && !seq!['w', '_'].is_prefix_of(key) && !seq![
            'h',
            'w',
            '_',
        ].is_prefix_of(key) ==> permitted_roles(key) == Set::<Role>::empty(),
{
    let i = underscore_from(key, 0);
    reveal_with_fuel(underscore_from, 4);
    if seq!['h', '_'].is_prefix_of(key) {
        assert(key[0] == seq!['h', '_'][0] && key[1] == seq!['h', '_'][1]) by {
            assert(key.subrange(0, 2)[0] == key[0]);
            assert(key.subrange(0, 2)[1] == key[1]);
        }
        assert(i == 1);
        assert(key.subrange(0, 1) =~= seq!['h']);
    }
    if seq!['w', '_'].is_prefix_of(key) {
        assert(key[0] == seq!['w', '_'][0] && key[1] == seq!['w', '_'][1]) by {
            assert(key.subrange(0, 2)[0] == key[0]);
            assert(key.subrange(0, 2)[1] == key[1]);
        }
        assert(i == 1);
        assert(key.subrange(0, 1) =~= seq!['w']);
        assert(seq!['w'][0] != seq!['h'][0]);
    }
    if seq!['h', 'w', '_'].is_prefix_of(key) {
        assert(key[0] == 'h' && key[1] == 'w' && key[2] == '_') by {
            assert(key.subrange(0, 3)[0] == key[0]);
            assert(key.subrange(0, 3)[1] == key[1]);
            assert(key.subrange(0, 3)[2] == key[2]);
            assert(seq!['h', 'w', '_'][0] == 'h');
            assert(seq!['h', 'w', '_'][1] == 'w');
            assert(seq!['h', 'w', '_'][2] == '_');
        }
        assert(i == 2);
        assert(key.subrange(0, 2) =~= seq!['h', 'w']);
        assert(seq!['h', 'w'].len() != seq!['h'].len());
        assert(seq!['h', 'w'].len() != seq!['w'].len());
    }
    if permitted_roles(key) != Set::<Role>::empty() {
        let p = key_prefix(key)->0;
        assert(i < key.len());
        crate::auth::roles::lemma_underscore_from_bounds(key, 0);
        if p == seq!['h'] {
            assert(p.len() == 1);
            assert(p[0] == 'h');
            assert(key.subrange(0, 2) =~= seq!['h', '_']);
        } else if p == seq!['w'] {
            assert(p.len() == 1);
            assert(p[0] == 'w');
            assert(key.subrange(0, 2) =~= seq!['w', '_']);
        } else if p == seq!['h', 'w'] {
            assert(p.len() == 2);
            assert(p[0] == 'h' && p[1] == 'w');
            assert(key.subrange(0, 3) =~= seq!['h', 'w', '_']);
        } else {
            assert(false);
        }
    }
}

/// The roles that the key's prefix lets write it.
pub fn parse_permission(key: &str) -> (r: RoleSet)
    ensures
        r@ == permitted_roles(key@),
{
    let chars = chars_of(key);
    let n = chars.len();
    proof {
        lemma_permission_by_prefix(key@);
    }
    if n >= 2 && chars[0] == 'h' && chars[1] == '_' {
        assert(key@.subrange(0, 2) =~= seq!['h', '_']);
        RoleSet::from_roles(&[Role::Host])
    } else if n >= 2 && chars[0] == 'w' && chars[1] == '_' {
        assert(key@.subrange(0, 2) =~= seq!['w', '_']);
        RoleSet::from_roles(&[Role::Worker])
    } else if n >= 3 && chars[0] == 'h' && chars[1] == 'w' && chars[2] == '_' {
        assert(key@.subrange(0, 3) =~= seq!['h', 'w', '_']);
        RoleSet::from_roles(&[Role::Host, Role::Worker])
    } else {
        proof {
            if seq!['h', '_'].is_prefix_of(key@) {
                assert(key@.subrange(0, 2)[0] == 'h');
                assert(key@.subrange(0, 2)[1] == '_');
            }
            if seq!['w', '_'].is_prefix_of(key@) {
                assert(key@.subrange(0, 2)[0] == 'w');
                assert(key@.subrange(0, 2)[1] == '_');
            }
            if seq!['h', 'w', '_'].is_prefix_of(key@) {
                assert(key@.subrange(0, 3)[0] == 'h');
                assert(key@.subrange(0, 3)[1] == 'w');
                assert(key@.subrange(0, 3)[2] == '_');
            }
        }
        RoleSet::new()
    }
}

} // verus!
