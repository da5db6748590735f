//! The errors that particles of the spell ran into, kept per particle.
//!
//! The journal keeps the errors of a limited number of particles. When an
//! error of a new particle makes them too many, the oldest particle leaves,
//! and all its errors with it.

use crate::auth::roles::{by_spell, is_by_spell, CallContext};
use crate::error::{error_text, SpellError, SpellErrorView};
use crate::journal::{evict_oldest, lemma_oldest_index, oldest_index, Journal, Stamped};
use crate::kv::primitive::accepted;
use crate::text::str_eq;
use crate::trigger_config::{low_u32, u32_from_column};
use crate::value::UnitValue;
use vstd::prelude::*;

verus! {

/// What the script saw as its last error.
#[derive(Clone, Debug, PartialEq, Eq)]
pub struct LastError {
    /// The error code.
    pub error_code: u32,
    /// The failed instruction.
    pub instruction: String,
    /// The error message.
    pub message: String,
    /// The peer where the call failed.
    pub peer_id: String,
}

/// A reported error with its number.
#[derive(Clone, Debug, PartialEq, Eq)]
pub struct LastErrorEntry {
    /// The reported error.
    pub last_error: LastError,
    /// The number that the script itself gave to the error.
    pub error_idx: u32,
}

impl LastErrorEntry {
    /// The entry that the columns of a stored row stand for; the numbers are
    /// stored as signed integers and read back with the cast `as u32`.
    pub fn from_columns(
        error_idx: i64,
        error_code: i64,
        instruction: String,
        message: String,
        peer_id: String,
    ) -> (r: Self)
        ensures
            r == (LastErrorEntry {
                last_error: LastError {
                    error_code: low_u32(error_code),
                    instruction,
                    message,
                    peer_id,
                },
                error_idx: low_u32(error_idx),
            }),
    {
        LastErrorEntry {
            error_idx: u32_from_column(error_idx),
            last_error: LastError {
                error_code: u32_from_column(error_code),
                instruction,
                message,
                peer_id,
            },
        }
    }

    /// A copy of the entry.
    pub fn duplicate(&self) -> (copy: Self)
        ensures
            copy == *self,
    {
        LastErrorEntry {
            last_error: LastError {
                error_code: self.last_error.error_code,
                instruction: self.last_error.instruction.clone(),
                message: self.last_error.message.clone(),
                peer_id: self.last_error.peer_id.clone(),
            },
            error_idx: self.error_idx,
        }
    }
}

/// The errors of one particle.
#[derive(Clone, Debug, PartialEq, Eq)]
pub struct ParticleErrors {
    pub particle_id: String,
    pub errors: Vec<LastErrorEntry>,
}

/// The errors of all particles.
#[derive(Clone, Debug, PartialEq, Eq)]
pub struct AllErrorsResult {
    pub particle_errors: Vec<ParticleErrors>,
    pub success: bool,
    pub error: String,
}

/// A particle whose errors are kept, with the time of its first error.
#[derive(Clone, Debug, PartialEq, Eq)]
pub struct Particle {
    pub particle_id: String,
    pub timestamp: u64,
}

impl Stamped for Particle {
    open spec fn stamp(&self) -> u64 {
        self.timestamp
    }

    fn timestamp(&self) -> (t: u64) {
        self.timestamp
    }

    fn duplicate(&self) -> (copy: Self) {
        Particle { particle_id: self.particle_id.clone(), timestamp: self.timestamp }
    }
}

/// An error as it is stored: with the particle it belongs to.
#[derive(Clone, Debug, PartialEq, Eq)]
pub struct ErrorRecord {
    pub particle_id: String,
    pub entry: LastErrorEntry,
}

/// The errors of the latest particles.
pub struct ErrorJournal {
    particles: Journal<Particle>,
    records: Vec<ErrorRecord>,
}

/// Whether `particle_id` is among the particles.
pub open spec fn known(particles: Seq<Particle>, particle_id: Seq<char>) -> bool {
    exists|i: int| 0 <= i < particles.len() && (#[trigger] particles[i]).particle_id@ == particle_id
}

/// No particle stands twice.
pub open spec fn distinct_particles(particles: Seq<Particle>) -> bool {
    forall|i: int, j: int|
        0 <= i < j < particles.len() ==> (#[trigger] particles[i]).particle_id@ != (
        #[trigger] particles[j]).particle_id@
}

/// The particles after an error of `particle` came in: a particle that is
/// known already changes nothing, a new one is appended and the oldest ones
/// leave where they are too many.
pub open spec fn particles_after(particles: Seq<Particle>, particle: Particle, limit: nat) -> Seq<
    Particle,
> {
    if known(particles, particle.particle_id@) {
        particles
    } else {
        evict_oldest(particles.push(particle), limit)
    }
}

/// The records whose particle is among `particles`, in their order.
pub open spec fn records_of_known(records: Seq<ErrorRecord>, particles: Seq<Particle>) -> Seq<
    ErrorRecord,
> {
    records.filter(|r: ErrorRecord| known(particles, r.particle_id@))
}

/// The errors of one particle, in the order in which they were stored.
pub open spec fn errors_of(records: Seq<ErrorRecord>, particle_id: Seq<char>) -> Seq<LastErrorEntry> {
    records.filter_map(
        |r: ErrorRecord|
            if r.particle_id@ == particle_id {
                Some(r.entry)
            } else {
                None
            },
    )
}

/// Whatever leaves a journal, what stays stood there before, in the same
/// order: no particle comes to stand twice.
pub proof fn lemma_evict_keeps_distinct(particles: Seq<Particle>, limit: nat)
    requires
        distinct_particles(particles),
    ensures
        distinct_particles(evict_oldest(particles, limit)),
        forall|id: Seq<char>| known(evict_oldest(particles, limit), id) ==> known(particles, id),
    decreases particles.len(),
{
    if particles.len() > limit {
        lemma_oldest_index(particles);
        let at = oldest_index(particles);
        let rest = particles.remove(at);
        assert forall|i: int, j: int| 0 <= i < j < rest.len() implies (#[trigger] rest[i]).particle_id@
            != (#[trigger] rest[j]).particle_id@ by {
            let a = if i < at { i } else { i + 1 };
            let b = if j < at { j } else { j + 1 };
            assert(rest[i] == particles[a]);
            assert(rest[j] == particles[b]);
        }
        lemma_evict_keeps_distinct(rest, limit);
        assert forall|id: Seq<char>| known(evict_oldest(particles, limit), id) implies known(
            particles,
            id,
        ) by {
            assert(known(rest, id));
            let i = choose|i: int| 0 <= i < rest.len() && (#[trigger] rest[i]).particle_id@ == id;
            let a = if i < at { i } else { i + 1 };
            assert(rest[i] == particles[a]);
            assert(particles[a].particle_id@ == id);
        }
    }
}

/// A filter that every element passes changes nothing.
proof fn lemma_filter_all<A>(s: Seq<A>, pred: spec_fn(A) -> bool)
    requires
        forall|i: int| 0 <= i < s.len() ==> pred(#[trigger] s[i]),
    ensures
        s.filter(pred) == s,
    decreases s.len(),
{
    reveal(Seq::filter);
    if s.len() > 0 {
        let d = s.drop_last();
        assert forall|i: int| 0 <= i < d.len() implies pred(#[trigger] d[i]) by {
            assert(d[i] == s[i]);
        }
        lemma_filter_all(d, pred);
        assert(d.push(s.last()) =~= s);
    }
}

impl ErrorJournal {
    /// The particles whose errors are kept, in the order of their first errors.
    pub closed spec fn particles(&self) -> Seq<Particle> {
        self.particles@
    }

    /// The stored errors, in the order in which they came.
    pub closed spec fn records(&self) -> Seq<ErrorRecord> {
        self.records@
    }

    /// The number of particles whose errors are kept at most.
    pub closed spec fn limit(&self) -> nat {
        self.particles.limit()
    }

    /// No more particles than the limit, none twice, and no error without
    /// its particle.
    pub closed spec fn wf(&self) -> bool {
        &&& self.particles.wf()
        &&& distinct_particles(self.particles@)
        &&& forall|i: int|
            0 <= i < self.records@.len() ==> known(
                self.particles@,
                (#[trigger] self.records@[i]).particle_id@,
            )
    }

    /// What `wf` promises.
    pub proof fn lemma_wf(&self)
        requires
            self.wf(),
        ensures
            self.particles().len() <= self.limit(),
            distinct_particles(self.particles()),
            forall|i: int|
                0 <= i < self.records().len() ==> known(
                    self.particles(),
                    (#[trigger] self.records()[i]).particle_id@,
                ),
    {
        self.particles.lemma_within_limit();
    }

    /// An empty journal for the errors of up to `max_particles` particles.
    pub fn new(max_particles: usize) -> (j: Self)
        ensures
            j.wf(),
            j.particles() == Seq::<Particle>::empty(),
            j.records() == Seq::<ErrorRecord>::empty(),
            j.limit() == max_particles,
    {
        ErrorJournal { particles: Journal::new(max_particles), records: Vec::new() }
    }

    /// The particles whose errors are kept, in the order of their first errors.
    pub fn particle_list(&self) -> (r: &Vec<Particle>)
        requires
            self.wf(),
        ensures
            r@ == self.particles(),
            r@.len() <= self.limit(),
            distinct_particles(r@),
    {
        self.particles.entries()
    }

    /// The stored errors, in the order in which they came.
    pub fn record_list(&self) -> (r: &Vec<ErrorRecord>)
        ensures
            r@ == self.records(),
    {
        &self.records
    }

    /// Whether errors of the particle are kept.
    fn knows(&self, particle_id: &str) -> (r: bool)
        requires
            self.particles.wf(),
        ensures
            r == known(self.particles@, particle_id@),
    {
        let particles = self.particles.entries();
        let mut i: usize = 0;
        while i < particles.len()
            invariant
                i <= particles@.len(),
                particles@ == self.particles@,
                forall|j: int| 0 <= j < i ==> (#[trigger] particles@[j]).particle_id@ != particle_id@,
            decreases particles.len() - i,
        {
            if str_eq(particles[i].particle_id.as_str(), particle_id) {
                assert(self.particles@[i as int].particle_id@ == particle_id@);
                return true;
            }
            i += 1;
        }
        false
    }

    /// Drops the errors whose particle has left.
    fn drop_orphans(&mut self)
        requires
            old(self).particles.wf(),
        ensures
            final(self).particles == old(self).particles,
            final(self).records@ == records_of_known(old(self).records@, old(self).particles@),
    {
        let mut kept: Vec<ErrorRecord> = Vec::new();
        let ghost all = self.records@;
        let ghost pred = |r: ErrorRecord| known(self.particles@, r.particle_id@);
        let n = self.records.len();
        let mut i: usize = 0;
        proof {
            reveal(Seq::filter);
            assert(all.take(0) =~= Seq::<ErrorRecord>::empty());
        }
        while i < n
            invariant
                i <= n,
                n == all.len(),
                self.records@ == all,
                self.particles == old(self).particles,
                self.particles.wf(),
                pred == (|r: ErrorRecord| known(self.particles@, r.particle_id@)),
                kept@ == all.take(i as int).filter(pred),
            decreases n - i,
        {
            proof {
                let a = all.take(i as int);
                assert(all.take(i + 1) =~= a.push(all[i as int]));
                a.lemma_filter_push(all[i as int], pred);
            }
            if self.knows(self.records[i].particle_id.as_str()) {
                kept.push(
                    ErrorRecord {
                        particle_id: self.records[i].particle_id.clone(),
                        entry: self.records[i].entry.duplicate(),
                    },
                );
            }
            i += 1;
        }
        assert(all.take(n as int) =~= all);
        self.records = kept;
    }

    /// Stores an error of `particle`. A particle that is new to the journal
    /// is appended to the particles, and the oldest particles leave, with all
    /// their errors, where they are too many.
    pub fn record(&mut self, particle: Particle, entry: LastErrorEntry)
        requires
            old(self).wf(),
        ensures
            final(self).wf(),
            final(self).limit() == old(self).limit(),
            final(self).particles() == particles_after(
                old(self).particles(),
                particle,
                old(self).limit(),
            ),
            final(self).records() == records_of_known(
                old(self).records().push(ErrorRecord { particle_id: particle.particle_id, entry }),
                final(self).particles(),
            ),
    {
        let ghost record = ErrorRecord { particle_id: particle.particle_id, entry };
        let ghost before = self.particles@;
        let ghost pred = |r: ErrorRecord| known(before, r.particle_id@);
        if self.knows(particle.particle_id.as_str()) {
            proof {
                let s = self.records@.push(record);
                assert forall|i: int| 0 <= i < s.len() implies pred(#[trigger] s[i]) by {
                    if i < self.records@.len() {
                        assert(s[i] == self.records@[i]);
                    }
                }
                lemma_filter_all(s, pred);
            }
            self.records.push(ErrorRecord { particle_id: particle.particle_id, entry });
        } else {
            self.records.push(
                ErrorRecord { particle_id: particle.particle_id.clone(), entry },
            );
            proof {
                let pushed = before.push(particle);
                assert forall|i: int, j: int| 0 <= i < j < pushed.len() implies (
                #[trigger] pushed[i]).particle_id@ != (#[trigger] pushed[j]).particle_id@ by {
                    assert(pushed[i] == before[i]);
                    if j < before.len() {
                        assert(pushed[j] == before[j]);
                    }
                }
                lemma_evict_keeps_distinct(pushed, self.particles.limit());
            }
            self.particles.append(particle);
            self.drop_orphans();
            proof {
                let after = self.particles@;
                let p = |r: ErrorRecord| known(after, r.particle_id@);
                let s = old(self).records@.push(record);
                assert forall|i: int| 0 <= i < s.filter(p).len() implies known(
                    after,
                    (#[trigger] s.filter(p)[i]).particle_id@,
                ) by {
                    s.lemma_filter_pred(p, i);
                }
            }
        }
    }

    /// The errors of one particle, in the order in which they were stored.
    pub fn errors_of_particle(&self, particle_id: &str) -> (r: Vec<LastErrorEntry>)
        ensures
            r@ == errors_of(self.records(), particle_id@),
    {
        let mut out: Vec<LastErrorEntry> = Vec::new();
        let n = self.records.len();
        let mut i: usize = 0;
        let ghost f = |r: ErrorRecord|
            if r.particle_id@ == particle_id@ {
                Some(r.entry)
            } else {
                None
            };
        assert(self.records@.take(0) =~= Seq::<ErrorRecord>::empty());
        while i < n
            invariant
                i <= n,
                n == self.records@.len(),
                f == (|r: ErrorRecord|
                    if r.particle_id@ == particle_id@ {
                        Some(r.entry)
                    } else {
                        None
                    }),
                out@ == self.records@.take(i as int).filter_map(f),
            decreases n - i,
        {
            proof {
                let a = self.records@.take(i as int);
                let b = self.records@.take(i + 1);
                assert(b.drop_last() =~= a);
                assert(b.last() == self.records@[i as int]);
            }
            if str_eq(self.records[i].particle_id.as_str(), particle_id) {
                let ghost before = out@;
                out.push(self.records[i].entry.duplicate());
                assert(out@ =~= before + seq![self.records@[i as int].entry]);
            }
            i += 1;
        }
        assert(self.records@.take(n as int) =~= self.records@);
        out
    }

    /// The errors of every particle, the particles in the order of their
    /// first errors.
    pub fn all(&self) -> (r: Vec<ParticleErrors>)
        requires
            self.wf(),
        ensures
            r@.len() == self.particles().len(),
            forall|i: int|
                0 <= i < r@.len() ==> (#[trigger] r@[i]).particle_id == self.particles()[i].particle_id
                    && r@[i].errors@ == errors_of(self.records(), self.particles()[i].particle_id@),
    {
        let particles = self.particles.entries();
        let mut out: Vec<ParticleErrors> = Vec::new();
        let mut i: usize = 0;
        while i < particles.len()
            invariant
                i <= particles@.len(),
                particles@ == self.particles@,
                out@.len() == i,
                forall|k: int|
                    0 <= k < i ==> (#[trigger] out@[k]).particle_id == particles@[k].particle_id
                        && out@[k].errors@ == errors_of(self.records@, particles@[k].particle_id@),
            decreases particles.len() - i,
        {
            let errors = self.errors_of_particle(particles[i].particle_id.as_str());
            out.push(ParticleErrors { particle_id: particles[i].particle_id.clone(), errors });
            i += 1;
        }
        out
    }
}

/// Stores an error of the particle that makes the call. Only the spell
/// itself may do so. `particle_timestamp` is the time of the particle: it
/// decides which particle is the oldest.
pub fn store_error(
    errors: &mut ErrorJournal,
    ctx: &CallContext,
    error: LastError,
    error_idx: u32,
    particle_timestamp: u64,
) -> (r: UnitValue)
    requires
        old(errors).wf(),
    ensures
        final(errors).wf(),
        final(errors).limit() == old(errors).limit(),
        r.success == by_spell(ctx@),
        r.success ==> accepted(r) && final(errors).particles() == particles_after(
            old(errors).particles(),
            Particle { particle_id: ctx.particle_id, timestamp: particle_timestamp },
            old(errors).limit(),
        ) && final(errors).records() == records_of_known(
            old(errors).records().push(
                ErrorRecord {
                    particle_id: ctx.particle_id,
                    entry: LastErrorEntry { last_error: error, error_idx },
                },
            ),
            final(errors).particles(),
        ),
        !r.success ==> r.error@ == error_text(SpellErrorView::StoreErrorForbidden) && *final(errors) == *old(errors),
{
    // Nobody but this spell stores errors here
    if !is_by_spell(ctx) {
        return UnitValue::from(Err(SpellError::StoreErrorForbidden));
    }
    errors.record(
        Particle { particle_id: ctx.particle_id.clone(), timestamp: particle_timestamp },
        LastErrorEntry { last_error: error, error_idx },
    );
    UnitValue::ok()
}

/// The errors of one particle, in the order in which they were stored.
pub fn get_errors(errors: &ErrorJournal, particle_id: &str) -> (r: Vec<LastErrorEntry>)
    ensures
        r@ == errors_of(errors.records(), particle_id@),
{
    errors.errors_of_particle(particle_id)
}

/// The errors of every particle that the journal keeps, the particles in
/// the order of their first errors.
pub fn get_all_errors(errors: &ErrorJournal) -> (r: AllErrorsResult)
    requires
        errors.wf(),
    ensures
        r.success,
        r.error@ == Seq::<char>::empty(),
        r.particle_errors@.len() == errors.particles().len(),
        r.particle_errors@.len() <= errors.limit(),
        forall|i: int|
            0 <= i < r.particle_errors@.len() ==> (#[trigger] r.particle_errors@[i]).particle_id
                == errors.particles()[i].particle_id && r.particle_errors@[i].errors@ == errors_of(
                errors.records(),
                errors.particles()[i].particle_id@,
            ),
{
    proof {
        errors.lemma_wf();
    }
    AllErrorsResult { particle_errors: errors.all(), success: true, error: String::new() }
}

} // verus!
