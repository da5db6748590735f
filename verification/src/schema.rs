//! The store as a whole, and how it starts.

use crate::error_handling::{ErrorJournal, ErrorRecord, Particle};
use crate::journal::Journal;
use crate::kv::table::{KvTable, KvValueView};
use crate::location::Relay;
use crate::trigger_config::TriggerConfig;
use crate::value::{Log, MailboxMessage};
use vstd::prelude::*;

verus! {

/// The number of particles whose errors are kept.
pub const DEFAULT_MAX_ERR_PARTICLES: usize = 50;

/// The number of messages that the mailbox keeps.
pub const DEFAULT_MAX_MAILBOX: usize = 50;

/// The number of lines that the log keeps.
pub const DEFAULT_MAX_LOGS: usize = 50;

/// Everything that a spell stores. Each operation of the service works on
/// the part that it concerns.
pub struct Store {
    /// The keys and their values.
    pub kv: KvTable,
    /// The relay, written once.
    pub relay: Relay,
    /// The trigger config, replaced as a whole.
    pub trigger_config: Option<TriggerConfig>,
    /// The script of the spell.
    pub script: Option<String>,
    /// The log.
    pub logs: Journal<Log>,
    /// The mailbox.
    pub mailbox: Journal<MailboxMessage>,
    /// The errors of the latest particles.
    pub errors: ErrorJournal,
}

impl Store {
    /// Every part of the store is as its operations expect it.
    pub open spec fn wf(&self) -> bool {
        &&& self.kv.wf()
        &&& self.logs.wf()
        &&& self.mailbox.wf()
        &&& self.errors.wf()
    }
}

/// A new store: nothing in it, and room for the default numbers of log
/// lines, messages and particles with errors.
pub fn create() -> (store: Store)
    ensures
        store.wf(),
        store.kv@ == Map::<Seq<char>, KvValueView>::empty(),
        store.relay@.is_none(),
        store.trigger_config.is_none(),
        store.script.is_none(),
        store.logs@ == Seq::<Log>::empty(),
        store.logs.limit() == DEFAULT_MAX_LOGS,
        store.mailbox@ == Seq::<MailboxMessage>::empty(),
        store.mailbox.limit() == DEFAULT_MAX_MAILBOX,
        store.errors.particles() == Seq::<Particle>::empty(),
        store.errors.records() == Seq::<ErrorRecord>::empty(),
        store.errors.limit() == DEFAULT_MAX_ERR_PARTICLES,
{
    Store {
        kv: KvTable::new(),
        relay: Relay::new(),
        trigger_config: None,
        script: None,
        logs: Journal::new(DEFAULT_MAX_LOGS),
        mailbox: Journal::new(DEFAULT_MAX_MAILBOX),
        errors: ErrorJournal::new(DEFAULT_MAX_ERR_PARTICLES),
    }
}

} // verus!
