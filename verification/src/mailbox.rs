//! The mailbox of the spell: the latest messages sent to it, up to a capacity.

use crate::auth::roles::{by_spell, is_by_spell, CallContext};
use crate::error::{error_text, SpellError, SpellErrorView};
use crate::journal::{evict_oldest, Journal, Stamped};
use crate::kv::primitive::accepted;
use crate::value::{GetMailboxResult, MailboxMessage, PopMailboxResult, UnitValue};
use vstd::prelude::*;

verus! {

impl Stamped for MailboxMessage {
    open spec fn stamp(&self) -> u64 {
        self.timestamp
    }

    fn timestamp(&self) -> (t: u64) {
        self.timestamp
    }

    fn duplicate(&self) -> (copy: Self) {
        MailboxMessage {
            init_peer_id: self.init_peer_id.clone(),
            timestamp: self.timestamp,
            message: self.message.clone(),
        }
    }
}

impl MailboxMessage {
    /// The message that the three columns of a stored row stand for. The time
    /// is stored as a signed integer and read back with the cast `as u64`.
    pub fn from_columns(init_peer_id: String, timestamp: i64, message: String) -> (r: Self)
        ensures
            r == (MailboxMessage { init_peer_id, timestamp: timestamp as u64, message }),
    {
        MailboxMessage {
            init_peer_id,
            timestamp: #[verifier::truncate]
            (timestamp as u64),
            message,
        }
    }
}

/// Puts a message into the mailbox, in the name of the caller and at the
/// time `timestamp`. Everyone may do so. A mailbox over its capacity loses
/// its oldest message.
pub fn push_mailbox(
    mailbox: &mut Journal<MailboxMessage>,
    ctx: &CallContext,
    message: String,
    timestamp: u64,
) -> (r: UnitValue)
    requires
        old(mailbox).wf(),
    ensures
        final(mailbox).wf(),
        final(mailbox).limit() == old(mailbox).limit(),
        accepted(r),
        final(mailbox)@ == evict_oldest(
            old(mailbox)@.push(
                MailboxMessage { init_peer_id: ctx.caller_peer_id, timestamp, message },
            ),
            old(mailbox).limit(),
        ),
{
    mailbox.append(MailboxMessage { init_peer_id: ctx.caller_peer_id.clone(), timestamp, message });
    UnitValue::ok()
}

/// All messages of the mailbox, the one pushed last first.
pub fn get_mailbox(mailbox: &Journal<MailboxMessage>) -> (r: GetMailboxResult)
    requires
        mailbox.wf(),
    ensures
        r.success,
        r.error@ == Seq::<char>::empty(),
        r.messages@ == mailbox@.reverse(),
        r.messages@.len() <= mailbox.limit(),
{
    proof {
        mailbox.lemma_within_limit();
    }
    GetMailboxResult::from(Ok(mailbox.newest_first()))
}

/// Takes the message that was pushed last out of the mailbox and returns it.
/// Only the spell itself may do so. On an empty mailbox the result is a
/// success and `absent`.
pub fn pop_mailbox(mailbox: &mut Journal<MailboxMessage>, ctx: &CallContext) -> (r:
    PopMailboxResult)
    requires
        old(mailbox).wf(),
    ensures
        final(mailbox).wf(),
        final(mailbox).limit() == old(mailbox).limit(),
        r.success == by_spell(ctx@),
        r.success ==> r.error@ == Seq::<char>::empty(),
        r.success && old(mailbox)@.len() > 0 ==> !r.absent && r.message@ == seq![
            old(mailbox)@.last(),
        ] && final(mailbox)@ == old(mailbox)@.drop_last(),
        r.success && old(mailbox)@.len() == 0 ==> r.absent && r.message@ == Seq::<
            MailboxMessage,
        >::empty() && final(mailbox)@ == old(mailbox)@,
        !r.success ==> !r.absent && r.message@ == Seq::<MailboxMessage>::empty() && r.error@
            == error_text(SpellErrorView::PopMailboxForbidden) && *final(mailbox) == *old(mailbox),
{
    // Nobody but this spell takes messages out
    if !is_by_spell(ctx) {
        return PopMailboxResult::from(Err(SpellError::PopMailboxForbidden));
    }
    PopMailboxResult::from(Ok(mailbox.pop_newest()))
}

} // verus!
