//! The log of the spell: the latest lines it wrote, up to a capacity.

use crate::auth::roles::{by_spell, is_by_spell, CallContext};
use crate::error::{error_text, SpellError, SpellErrorView};
use crate::journal::{by_time, evict_oldest, Journal, Stamped};
use crate::kv::primitive::accepted;
use crate::value::{GetLogsResult, Log, UnitValue};
use vstd::prelude::*;

verus! {

impl Stamped for Log {
    open spec fn stamp(&self) -> u64 {
        self.timestamp
    }

    fn timestamp(&self) -> (t: u64) {
        self.timestamp
    }

    fn duplicate(&self) -> (copy: Self) {
        Log { timestamp: self.timestamp, message: self.message.clone() }
    }
}

/// Appends a line to the log, made at the time `timestamp`. Only the spell
/// itself may do so. A log over its capacity loses its oldest line.
pub fn store_log(logs: &mut Journal<Log>, ctx: &CallContext, log: String, timestamp: u64) -> (r:
    UnitValue)
    requires
        old(logs).wf(),
    ensures
        final(logs).wf(),
        final(logs).limit() == old(logs).limit(),
        r.success == by_spell(ctx@),
        r.success ==> accepted(r) && final(logs)@ == evict_oldest(
            old(logs)@.push(Log { timestamp, message: log }),
            old(logs).limit(),
        ),
        !r.success ==> r.error@ == error_text(SpellErrorView::StoreLogForbidden) && *final(logs)
            == *old(logs),
{
    // Nobody but this spell stores logs here
    if !is_by_spell(ctx) {
        return UnitValue::from(Err(SpellError::StoreLogForbidden));
    }
    logs.append(Log { timestamp, message: log });
    UnitValue::ok()
}

/// All lines of the log, in the order of their times; lines of one time in
/// the order in which they were stored.
pub fn get_logs(logs: &Journal<Log>) -> (r: GetLogsResult)
    requires
        logs.wf(),
    ensures
        r.success,
        r.error@ == Seq::<char>::empty(),
        r.logs@ == by_time(logs@),
        r.logs@.len() <= logs.limit(),
{
    proof {
        crate::journal::lemma_by_time(logs@);
        logs.lemma_within_limit();
    }
    GetLogsResult::from(Ok(logs.in_time_order()))
}

} // verus!
