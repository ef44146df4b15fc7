//! A handler that accepts no protocols: its listening descriptor rejects every
//! negotiation, it never emits an event, and polling it reports pending until
//! `shutdown` is called, after which it reports terminal completion.

use vstd::prelude::*;

use core::marker::PhantomData;

use crate::handler::HandlerPoll;
use crate::handler::ProtocolsHandler;
use crate::types::DeniedConnectionUpgrade;
use crate::types::NodeHandlerEndpoint;
use crate::types::UpgradeError;
use crate::types::Void;

verus! {

/// Implementation of [`ProtocolsHandler`] that doesn't handle anything.
pub struct DummyProtocolsHandler<TSubstream> {
    /// Whether `shutdown` has been requested.
    pub shutting_down: bool,
    /// The substream type this placeholder stands in for.
    pub marker: PhantomData<TSubstream>,
}

impl<TSubstream> Default for DummyProtocolsHandler<TSubstream> {
    /// A dummy handler that is not shutting down yet.
    fn default() -> (r: Self)
        ensures
            !r.shutting_down,
    {
        DummyProtocolsHandler { shutting_down: false, marker: PhantomData }
    }
}

impl<TSubstream> ProtocolsHandler for DummyProtocolsHandler<TSubstream> {
    type InEvent = Void;

    type OutEvent = Void;

    type Substream = TSubstream;

    type Protocol = DeniedConnectionUpgrade;

    type Output = Void;

    type OutboundOpenInfo = Void;

    open spec fn wf(self) -> bool {
        true
    }

    open spec fn listen_protocol_spec(self) -> DeniedConnectionUpgrade {
        DeniedConnectionUpgrade
    }

    open spec fn fully_negotiated_rel(
        pre: Self,
        protocol: Void,
        endpoint: NodeHandlerEndpoint<Void>,
        post: Self,
    ) -> bool {
        post == pre
    }

    open spec fn event_rel(pre: Self, event: Void, post: Self) -> bool {
        post == pre
    }

    open spec fn dial_upgrade_error_rel(
        pre: Self,
        info: Void,
        error: UpgradeError,
        post: Self,
    ) -> bool {
        post == pre
    }

    open spec fn inbound_closed_rel(pre: Self, post: Self) -> bool {
        post == pre
    }

    open spec fn shutdown_rel(pre: Self, post: Self) -> bool {
        post == DummyProtocolsHandler { shutting_down: true, ..pre }
    }

    open spec fn poll_rel(
        pre: Self,
        post: Self,
        result: HandlerPoll<DeniedConnectionUpgrade, Void, Void>,
    ) -> bool {
        &&& post == pre
        &&& result == if pre.shutting_down {
            HandlerPoll::<DeniedConnectionUpgrade, Void, Void>::Finished
        } else {
            HandlerPoll::<DeniedConnectionUpgrade, Void, Void>::Pending
        }
    }

    fn listen_protocol(&self) -> (r: DeniedConnectionUpgrade) {
        DeniedConnectionUpgrade
    }

    fn inject_fully_negotiated(&mut self, protocol: Void, endpoint: NodeHandlerEndpoint<Void>) {
    }

    fn inject_event(&mut self, event: Void) {
    }

    fn inject_dial_upgrade_error(&mut self, info: Void, error: UpgradeError) {
    }

    fn inject_inbound_closed(&mut self) {
    }

    fn shutdown(&mut self) {
        self.shutting_down = true;
    }

    fn poll(&mut self) -> (r: HandlerPoll<DeniedConnectionUpgrade, Void, Void>) {
        if self.shutting_down {
            HandlerPoll::Finished
        } else {
            HandlerPoll::Pending
        }
    }
}

/// The null handler's shutdown life cycle: polling never touches the state; a
/// poll answers pending for as long as `shutdown` was not requested, reports
/// terminal completion on every poll afterwards, and never emits an event or
/// asks for a substream in either phase.
pub proof fn lemma_dummy_poll_life_cycle<TSubstream>(
    pre: DummyProtocolsHandler<TSubstream>,
    post: DummyProtocolsHandler<TSubstream>,
    result: HandlerPoll<DeniedConnectionUpgrade, Void, Void>,
)
    requires
        DummyProtocolsHandler::<TSubstream>::poll_rel(pre, post, result),
    ensures
        post == pre,
        !pre.shutting_down ==> result is Pending,
        pre.shutting_down ==> result is Finished,
        !(result is Ready),
{
}

/// Once `shutdown` has been requested on the null handler, the very next poll
/// (and every later one) reports terminal completion.
pub proof fn lemma_dummy_shutdown_then_finished<TSubstream>(
    s0: DummyProtocolsHandler<TSubstream>,
    s1: DummyProtocolsHandler<TSubstream>,
    s2: DummyProtocolsHandler<TSubstream>,
    result: HandlerPoll<DeniedConnectionUpgrade, Void, Void>,
)
    requires
        DummyProtocolsHandler::<TSubstream>::shutdown_rel(s0, s1),
        DummyProtocolsHandler::<TSubstream>::poll_rel(s1, s2, result),
    ensures
        result is Finished,
        s2.shutting_down,
{
}

} // verus!
