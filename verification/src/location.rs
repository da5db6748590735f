//! Where the spell can be reached: its relay, its host, its service id.
//!
//! The relay is written once, by the creator of the service, and never again.

use crate::auth::roles::{by_creator, is_by_creator, CallContext};
use crate::error::{debug_text, error_text, SpellError, SpellErrorView};
use crate::kv::primitive::accepted;
use crate::value::{LocationValue, UnitValue};
use vstd::prelude::*;

verus! {

/// The relay of the spell, once it is set.
#[derive(Debug, Clone, PartialEq, Eq)]
pub struct Relay {
    peer_id: Option<String>,
}

impl View for Relay {
    type V = Option<Seq<char>>;

    closed spec fn view(&self) -> Option<Seq<char>> {
        match self.peer_id {
            Some(id) => Some(id@),
            None => None,
        }
    }
}

impl Relay {
    /// No relay yet.
    pub fn new() -> (r: Self)
        ensures
            r@.is_none(),
    {
        Relay { peer_id: None }
    }

    /// Whether the relay was set.
    pub fn is_set(&self) -> (r: bool)
        ensures
            r == self@.is_some(),
    {
        self.peer_id.is_some()
    }

    /// Sets the relay, if none was set before.
    pub fn set(&mut self, peer_id: String) -> (r: Result<(), SpellError>)
        ensures
            r.is_ok() == old(self)@.is_none(),
            r.is_ok() ==> final(self)@ == Some(peer_id@),
            r matches Err(e) ==> e@ == SpellErrorView::RelayAlreadySet && *final(self) == *old(self),
    {
        if self.peer_id.is_some() {
            return Err(SpellError::RelayAlreadySet);
        }
        self.peer_id = Some(peer_id);
        Ok(())
    }
}

/// The relay, or `NoRelay` where it was not set.
pub fn get_relay(relay: &Relay) -> (r: Result<String, SpellError>)
    ensures
        match relay@ {
            Some(id) => r matches Ok(s) && s@ == id,
            None => r matches Err(e) && e@ == SpellErrorView::NoRelay,
        },
{
    match &relay.peer_id {
        Some(id) => Ok(id.clone()),
        None => Err(SpellError::NoRelay),
    }
}

/// What a call of `set_relay_peer_id` answers, for a relay that was `before`.
pub open spec fn relay_refusal(before: Option<Seq<char>>, ctx: crate::auth::roles::CallContextView) -> Option<
    SpellErrorView,
> {
    if before.is_some() {
        Some(SpellErrorView::RelayAlreadySet)
    } else if !by_creator(ctx) {
        Some(SpellErrorView::SetRelayForbidden)
    } else {
        None
    }
}

/// Sets the relay. It succeeds once: for the creator of the service, while
/// no relay is set. Once a relay is set every call fails with
/// `RelayAlreadySet`, whoever makes it, and the relay stays as it is. A
/// failure carries its error rendered as the value it is.
pub fn set_relay_peer_id(relay: &mut Relay, ctx: &CallContext, relay_peer_id: String) -> (r:
    UnitValue)
    ensures
        match relay_refusal(old(relay)@, ctx@) {
            None => accepted(r) && final(relay)@ == Some(relay_peer_id@),
            Some(e) => !r.success && r.error@ == debug_text(e) && *final(relay) == *old(relay),
        },
{
    if relay.is_set() {
        return UnitValue::from(SpellError::RelayAlreadySet);
    }
    if !is_by_creator(ctx) {
        return UnitValue::from(SpellError::SetRelayForbidden);
    }
    UnitValue::from(relay.set(relay_peer_id))
}

/// The location of the spell: the relay, and the host and the service id of
/// the call. Where no relay was set the result is a failure.
pub fn get_location(relay: &Relay, ctx: &CallContext) -> (r: LocationValue)
    ensures
        match relay@ {
            Some(id) => r.success && r.error@ == Seq::<char>::empty() && r.relay@ == id && r.host@
                == ctx.host_id@ && r.service_id@ == ctx.service_id@,
            None => !r.success && r.error@ == error_text(SpellErrorView::NoRelay) && r.relay@
                == Seq::<char>::empty() && r.host@ == Seq::<char>::empty() && r.service_id@
                == Seq::<char>::empty(),
        },
{
    match get_relay(relay) {
        Ok(relay) => LocationValue::success(relay, ctx),
        Err(e) => LocationValue::error(&e),
    }
}

/// Once a relay is set, no call of `set_relay_peer_id` is accepted, whoever
/// makes it: each is answered with `RelayAlreadySet`.
pub proof fn lemma_relay_is_set_once(before: Option<Seq<char>>, ctx: crate::auth::roles::CallContextView)
    ensures
        before.is_some() ==> relay_refusal(before, ctx) == Some(SpellErrorView::RelayAlreadySet),
        relay_refusal(before, ctx).is_none() <==> before.is_none() && by_creator(ctx),
{
}

} // verus!
