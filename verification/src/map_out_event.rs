//! A wrapper capability that translates the output-event type of an inner
//! handler. Only the `Custom` variant of the inner poll result is rewritten;
//! everything else passes through unchanged.

use vstd::prelude::*;

use crate::events::ProtocolsHandlerEvent;
use crate::handler::HandlerPoll;
use crate::handler::ProtocolsHandler;
use crate::types::NodeHandlerEndpoint;
use crate::types::UpgradeError;

verus! {

/// Wrapper around a protocol handler that turns the output event into
/// something else.
pub struct MapOutEvent<TProtoHandler, TMap> {
    /// The wrapped handler.
    pub inner: TProtoHandler,
    /// Rewrites each custom event the inner handler produces.
    pub map: TMap,
}

impl<TProtoHandler, TMap, TNewOut> ProtocolsHandler for MapOutEvent<TProtoHandler, TMap> where
    TProtoHandler: ProtocolsHandler,
    TMap: Fn(TProtoHandler::OutEvent) -> TNewOut,
 {
    type InEvent = TProtoHandler::InEvent;

    type OutEvent = TNewOut;

    type Substream = TProtoHandler::Substream;

    type Protocol = TProtoHandler::Protocol;

    type Output = TProtoHandler::Output;

    type OutboundOpenInfo = TProtoHandler::OutboundOpenInfo;

    open spec fn wf(self) -> bool {
        &&& self.inner.wf()
        &&& forall|event: TProtoHandler::OutEvent| call_requires(self.map, (event,))
    }

    open spec fn listen_protocol_spec(self) -> TProtoHandler::Protocol {
        self.inner.listen_protocol_spec()
    }

    open spec fn fully_negotiated_rel(
        pre: Self,
        protocol: TProtoHandler::Output,
        endpoint: NodeHandlerEndpoint<TProtoHandler::OutboundOpenInfo>,
        post: Self,
    ) -> bool {
        &&& TProtoHandler::fully_negotiated_rel(pre.inner, protocol, endpoint, post.inner)
        &&& post.map == pre.map
    }

    open spec fn event_rel(pre: Self, event: TProtoHandler::InEvent, post: Self) -> bool {
        &&& TProtoHandler::event_rel(pre.inner, event, post.inner)
        &&& post.map == pre.map
    }

    open spec fn dial_upgrade_error_rel(
        pre: Self,
        info: TProtoHandler::OutboundOpenInfo,
        error: UpgradeError,
        post: Self,
    ) -> bool {
        &&& TProtoHandler::dial_upgrade_error_rel(pre.inner, info, error, post.inner)
        &&& post.map == pre.map
    }

    open spec fn inbound_closed_rel(pre: Self, post: Self) -> bool {
        &&& TProtoHandler::inbound_closed_rel(pre.inner, post.inner)
        &&& post.map == pre.map
    }

    open spec fn shutdown_rel(pre: Self, post: Self) -> bool {
        &&& TProtoHandler::shutdown_rel(pre.inner, post.inner)
        &&& post.map == pre.map
    }

    /// The inner poll result passes through, except that the payload of a
    /// `Custom` event is rewritten by the translation function. An
    /// `OutboundSubstreamRequest` keeps its upgrade and its correlation data
    /// untouched.
    open spec fn poll_rel(
        pre: Self,
        post: Self,
        result: HandlerPoll<TProtoHandler::Protocol, TProtoHandler::OutboundOpenInfo, TNewOut>,
    ) -> bool {
        &&& exists|inner_result:
            HandlerPoll<
                TProtoHandler::Protocol,
                TProtoHandler::OutboundOpenInfo,
                TProtoHandler::OutEvent,
            >|
            {
                &&& #[trigger] TProtoHandler::poll_rel(pre.inner, post.inner, inner_result)
                &&& match inner_result {
                    HandlerPoll::Pending => result is Pending,
                    HandlerPoll::Finished => result is Finished,
                    HandlerPoll::Failed => result is Failed,
                    HandlerPoll::Ready(inner_event) => match inner_event {
                        ProtocolsHandlerEvent::OutboundSubstreamRequest { upgrade, info } => result
                            == HandlerPoll::Ready(
                            ProtocolsHandlerEvent::<
                                TProtoHandler::Protocol,
                                TProtoHandler::OutboundOpenInfo,
                                TNewOut,
                            >::OutboundSubstreamRequest { upgrade, info },
                        ),
                        ProtocolsHandlerEvent::Custom(event) => exists|mapped: TNewOut|
                            {
                                &&& #[trigger] call_ensures(pre.map, (event,), mapped)
                                &&& result == HandlerPoll::Ready(
                                    ProtocolsHandlerEvent::<
                                        TProtoHandler::Protocol,
                                        TProtoHandler::OutboundOpenInfo,
                                        TNewOut,
                                    >::Custom(mapped),
                                )
                            },
                    },
                }
            }
        &&& post.map == pre.map
    }

    fn listen_protocol(&self) -> (r: TProtoHandler::Protocol) {
        self.inner.listen_protocol()
    }

    fn inject_fully_negotiated(
        &mut self,
        protocol: TProtoHandler::Output,
        endpoint: NodeHandlerEndpoint<TProtoHandler::OutboundOpenInfo>,
    ) {
        self.inner.inject_fully_negotiated(protocol, endpoint);
    }

    fn inject_event(&mut self, event: TProtoHandler::InEvent) {
        self.inner.inject_event(event);
    }

    fn inject_dial_upgrade_error(
        &mut self,
        info: TProtoHandler::OutboundOpenInfo,
        error: UpgradeError,
    ) {
        self.inner.inject_dial_upgrade_error(info, error);
    }

    fn inject_inbound_closed(&mut self) {
        self.inner.inject_inbound_closed();
    }

    fn shutdown(&mut self) {
        self.inner.shutdown();
    }

    fn poll(&mut self) -> (r: HandlerPoll<
        TProtoHandler::Protocol,
        TProtoHandler::OutboundOpenInfo,
        TNewOut,
    >) {
        match self.inner.poll() {
            HandlerPoll::Pending => HandlerPoll::Pending,
            HandlerPoll::Finished => HandlerPoll::Finished,
            HandlerPoll::Failed => HandlerPoll::Failed,
            HandlerPoll::Ready(ProtocolsHandlerEvent::OutboundSubstreamRequest {
                upgrade,
                info,
            }) => HandlerPoll::Ready(
                ProtocolsHandlerEvent::OutboundSubstreamRequest { upgrade, info },
            ),
            HandlerPoll::Ready(ProtocolsHandlerEvent::Custom(event)) => HandlerPoll::Ready(
                ProtocolsHandlerEvent::Custom((self.map)(event)),
            ),
        }
    }
}

/// Output-event mapping leaves outbound-substream requests untouched: when the
/// inner handler can only answer `OutboundSubstreamRequest { upgrade, info }`,
/// the wrapped poll passes both the upgrade and the correlation data through
/// unchanged.
pub proof fn lemma_map_out_event_request_passes_through<TProtoHandler, TMap, TNewOut>(
    pre: MapOutEvent<TProtoHandler, TMap>,
    post: MapOutEvent<TProtoHandler, TMap>,
    result: HandlerPoll<TProtoHandler::Protocol, TProtoHandler::OutboundOpenInfo, TNewOut>,
    upgrade: TProtoHandler::Protocol,
    info: TProtoHandler::OutboundOpenInfo,
) where
    TProtoHandler: ProtocolsHandler,
    TMap: Fn(TProtoHandler::OutEvent) -> TNewOut,

    requires
        MapOutEvent::<TProtoHandler, TMap>::poll_rel(pre, post, result),
        forall|inner_post: TProtoHandler, inner_result:
            HandlerPoll<
                TProtoHandler::Protocol,
                TProtoHandler::OutboundOpenInfo,
                TProtoHandler::OutEvent,
            >|
            TProtoHandler::poll_rel(pre.inner, inner_post, inner_result) ==> inner_result
                == HandlerPoll::Ready(
                ProtocolsHandlerEvent::<
                    TProtoHandler::Protocol,
                    TProtoHandler::OutboundOpenInfo,
                    TProtoHandler::OutEvent,
                >::OutboundSubstreamRequest { upgrade, info },
            ),
    ensures
        result == HandlerPoll::Ready(
            ProtocolsHandlerEvent::<
                TProtoHandler::Protocol,
                TProtoHandler::OutboundOpenInfo,
                TNewOut,
            >::OutboundSubstreamRequest { upgrade, info },
        ),
{
}

/// Output-event mapping rewrites exactly the custom events: when the inner
/// handler can only answer `Custom(event)`, the wrapped poll answers
/// `Custom(mapped)` for some value `mapped` that the translation function may
/// produce from `event`.
pub proof fn lemma_map_out_event_custom_is_mapped<TProtoHandler, TMap, TNewOut>(
    pre: MapOutEvent<TProtoHandler, TMap>,
    post: MapOutEvent<TProtoHandler, TMap>,
    result: HandlerPoll<TProtoHandler::Protocol, TProtoHandler::OutboundOpenInfo, TNewOut>,
    event: TProtoHandler::OutEvent,
) where
    TProtoHandler: ProtocolsHandler,
    TMap: Fn(TProtoHandler::OutEvent) -> TNewOut,

    requires
        MapOutEvent::<TProtoHandler, TMap>::poll_rel(pre, post, result),
        forall|inner_post: TProtoHandler, inner_result:
            HandlerPoll<
                TProtoHandler::Protocol,
                TProtoHandler::OutboundOpenInfo,
                TProtoHandler::OutEvent,
            >|
            TProtoHandler::poll_rel(pre.inner, inner_post, inner_result) ==> inner_result
                == HandlerPoll::Ready(
                ProtocolsHandlerEvent::<
                    TProtoHandler::Protocol,
                    TProtoHandler::OutboundOpenInfo,
                    TProtoHandler::OutEvent,
                >::Custom(event),
            ),
    ensures
        exists|mapped: TNewOut|
            #[trigger] call_ensures(pre.map, (event,), mapped) && result == HandlerPoll::Ready(
                ProtocolsHandlerEvent::<
                    TProtoHandler::Protocol,
                    TProtoHandler::OutboundOpenInfo,
                    TNewOut,
                >::Custom(mapped),
            ),
{
}

} // verus!
