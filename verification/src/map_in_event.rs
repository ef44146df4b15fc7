//! A wrapper capability that translates the input-event type of an inner
//! handler. Every other operation passes through unchanged.

use vstd::prelude::*;

use core::marker::PhantomData;

use crate::handler::HandlerPoll;
use crate::handler::ProtocolsHandler;
use crate::types::NodeHandlerEndpoint;
use crate::types::UpgradeError;

verus! {

/// Wrapper around a protocol handler that turns the input event into something
/// else. The translation function may reject an event by answering `None`: a
/// rejected event is silently dropped and the inner handler never sees it.
pub struct MapInEvent<TProtoHandler, TNewIn, TMap> {
    /// The wrapped handler.
    pub inner: TProtoHandler,
    /// Turns an outer event into an inner one, or into nothing.
    pub map: TMap,
    /// The outer event type.
    pub marker: PhantomData<TNewIn>,
}

impl<TProtoHandler, TNewIn, TMap> ProtocolsHandler for MapInEvent<TProtoHandler, TNewIn, TMap> where
    TProtoHandler: ProtocolsHandler,
    TMap: Fn(TNewIn) -> Option<TProtoHandler::InEvent>,
 {
    type InEvent = TNewIn;

    type OutEvent = TProtoHandler::OutEvent;

    type Substream = TProtoHandler::Substream;

    type Protocol = TProtoHandler::Protocol;

    type Output = TProtoHandler::Output;

    type OutboundOpenInfo = TProtoHandler::OutboundOpenInfo;

    open spec fn wf(self) -> bool {
        &&& self.inner.wf()
        &&& forall|event: TNewIn| call_requires(self.map, (event,))
    }

    open spec fn listen_protocol_spec(self) -> TProtoHandler::Protocol {
        self.inner.listen_protocol_spec()
    }

    open spec fn fully_negotiated_rel(
        pre: Self,
        protocol: TProtoHandler::Output,
        endpoint: NodeHandlerEndpoint<TProtoHandler::OutboundOpenInfo>,
        post: Self,
    ) -> bool {
        &&& TProtoHandler::fully_negotiated_rel(pre.inner, protocol, endpoint, post.inner)
        &&& post.map == pre.map
    }

    /// The outer event is translated; `None` drops it before the inner handler,
    /// `Some` forwards exactly the translated event.
    open spec fn event_rel(pre: Self, event: TNewIn, post: Self) -> bool {
        &&& exists|translated: Option<TProtoHandler::InEvent>|
            {
                &&& #[trigger] call_ensures(pre.map, (event,), translated)
                &&& match translated {
                    Option::None => post.inner == pre.inner,
                    Option::Some(inner_event) => TProtoHandler::event_rel(
                        pre.inner,
                        inner_event,
                        post.inner,
                    ),
                }
            }
        &&& post.map == pre.map
    }

    open spec fn dial_upgrade_error_rel(
        pre: Self,
        info: TProtoHandler::OutboundOpenInfo,
        error: UpgradeError,
        post: Self,
    ) -> bool {
        &&& TProtoHandler::dial_upgrade_error_rel(pre.inner, info, error, post.inner)
        &&& post.map == pre.map
    }

    open spec fn inbound_closed_rel(pre: Self, post: Self) -> bool {
        &&& TProtoHandler::inbound_closed_rel(pre.inner, post.inner)
        &&& post.map == pre.map
    }

    open spec fn shutdown_rel(pre: Self, post: Self) -> bool {
        &&& TProtoHandler::shutdown_rel(pre.inner, post.inner)
        &&& post.map == pre.map
    }

    open spec fn poll_rel(
        pre: Self,
        post: Self,
        result: HandlerPoll<
            TProtoHandler::Protocol,
            TProtoHandler::OutboundOpenInfo,
            TProtoHandler::OutEvent,
        >,
    ) -> bool {
        &&& TProtoHandler::poll_rel(pre.inner, post.inner, result)
        &&& post.map == pre.map
    }

    fn listen_protocol(&self) -> (r: TProtoHandler::Protocol) {
        self.inner.listen_protocol()
    }

    fn inject_fully_negotiated(
        &mut self,
        protocol: TProtoHandler::Output,
        endpoint: NodeHandlerEndpoint<TProtoHandler::OutboundOpenInfo>,
    ) {
        self.inner.inject_fully_negotiated(protocol, endpoint);
    }

    fn inject_event(&mut self, event: TNewIn) {
        let translated = (self.map)(event);
        if let Some(inner_event) = translated {
            self.inner.inject_event(inner_event);
        }
    }

    fn inject_dial_upgrade_error(
        &mut self,
        info: TProtoHandler::OutboundOpenInfo,
        error: UpgradeError,
    ) {
        self.inner.inject_dial_upgrade_error(info, error);
    }

    fn inject_inbound_closed(&mut self) {
        self.inner.inject_inbound_closed();
    }

    fn shutdown(&mut self) {
        self.inner.shutdown();
    }

    fn poll(&mut self) -> (r: HandlerPoll<
        TProtoHandler::Protocol,
        TProtoHandler::OutboundOpenInfo,
        TProtoHandler::OutEvent,
    >) {
        self.inner.poll()
    }
}

/// Input-event mapping drops exactly the rejected events: when the translation
/// function can only answer `None` on `event`, injecting `event` leaves the
/// inner handler untouched.
pub proof fn lemma_map_in_event_rejected<TProtoHandler, TNewIn, TMap>(
    pre: MapInEvent<TProtoHandler, TNewIn, TMap>,
    event: TNewIn,
    post: MapInEvent<TProtoHandler, TNewIn, TMap>,
) where
    TProtoHandler: ProtocolsHandler,
    TMap: Fn(TNewIn) -> Option<TProtoHandler::InEvent>,

    requires
        MapInEvent::<TProtoHandler, TNewIn, TMap>::event_rel(pre, event, post),
        forall|translated: Option<TProtoHandler::InEvent>|
            call_ensures(pre.map, (event,), translated) ==> translated is None,
    ensures
        post.inner == pre.inner,
        post.map == pre.map,
{
}

/// Input-event mapping forwards exactly the accepted events: when the
/// translation function can only answer `Some(inner_event)` on `event`,
/// injecting `event` drives the inner handler through exactly one
/// `inject_event(inner_event)` call.
pub proof fn lemma_map_in_event_accepted<TProtoHandler, TNewIn, TMap>(
    pre: MapInEvent<TProtoHandler, TNewIn, TMap>,
    event: TNewIn,
    inner_event: TProtoHandler::InEvent,
    post: MapInEvent<TProtoHandler, TNewIn, TMap>,
) where
    TProtoHandler: ProtocolsHandler,
    TMap: Fn(TNewIn) -> Option<TProtoHandler::InEvent>,

    requires
        MapInEvent::<TProtoHandler, TNewIn, TMap>::event_rel(pre, event, post),
        forall|translated: Option<TProtoHandler::InEvent>|
            call_ensures(pre.map, (event,), translated) ==> translated == Some(inner_event),
    ensures
        TProtoHandler::event_rel(pre.inner, inner_event, post.inner),
        post.map == pre.map,
{
}

} // verus!
