//! The single message-intake point: every inbound message is offered to
//! the correlator first and falls through to ordinary dispatch otherwise,
//! never both — so a pending guess ("5") is resolved as a reply and is
//! never mistaken for an unknown command.

use vstd::prelude::*;
use crate::correlator::Correlator;
use crate::dispatch::DispatchConfig;
use crate::dispatch::DispatchOutcome;
use crate::dispatch::DispatchRequest;
use crate::dispatch::dispatch;
use crate::dispatch::dispatch_post;
use crate::game::accepted_reply;
use crate::registry::Registry;

verus! {

/// Where one inbound message went.
pub enum Routed {
    /// It resolved an outstanding wait: hand its content to the suspended
    /// session, and do not dispatch it.
    ToSession,
    /// It fell through to ordinary dispatch, with this outcome.
    Dispatched(DispatchOutcome),
}

/// Routes one inbound message. A bot-authored message is ignored outright
/// and touches no wait; a message whose (author, channel) pair has an
/// outstanding wait and whose content passes the reply predicate resolves
/// that wait and bypasses dispatch; anything else leaves every wait in
/// place and is dispatched.
pub fn intake(
    correlator: &mut Correlator,
    cfg: &DispatchConfig,
    reg: &Registry,
    req: &DispatchRequest,
) -> (r: Routed)
    requires
        old(correlator).wf(),
        reg.wf(),
    ensures
        final(correlator).wf(),
        req.from_bot ==> *final(correlator) == *old(correlator) && (r matches Routed::Dispatched(o)
            && o is Ignored),
        !req.from_bot && old(correlator).has_wait(req.author_id, req.channel_id)
            && accepted_reply(req.content@) ==> r is ToSession && !final(correlator).has_wait(
            req.author_id,
            req.channel_id,
        ) && (forall|a: u64, c: u64|
            !(a == req.author_id && c == req.channel_id) ==> final(correlator).has_wait(a, c)
                == old(correlator).has_wait(a, c)),
        !req.from_bot && !(old(correlator).has_wait(req.author_id, req.channel_id)
            && accepted_reply(req.content@)) ==> *final(correlator) == *old(correlator) && (
        r matches Routed::Dispatched(o) && dispatch_post(*cfg, *reg, *req, o)),
{
    if req.from_bot {
        return Routed::Dispatched(DispatchOutcome::Ignored);
    }
    if correlator.deliver(req) {
        Routed::ToSession
    } else {
        Routed::Dispatched(dispatch(cfg, reg, req))
    }
}

} // verus!
