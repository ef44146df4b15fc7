//! The pluggable handler interface: business logic for a set of protocols on
//! one connection, indifferent to substream bookkeeping.
//!
//! Every operation's observable effect is pinned by a relation the implementor
//! supplies as a spec function: callers that hold a handler generically (the
//! negotiation adapter above all) reason through these relations, and each
//! implementation proves that its code realises its declared relation.

use vstd::prelude::*;

use core::marker::PhantomData;

use crate::events::ProtocolsHandlerEvent;
use crate::map_in_event::MapInEvent;
use crate::map_out_event::MapOutEvent;
use crate::types::NodeHandlerEndpoint;
use crate::types::UpgradeError;
use crate::wrapper::DEFAULT_NEGOTIATION_TIMEOUT_MS;
use crate::wrapper::NodeHandlerWrapper;
use crate::wrapper::NodeHandlerWrapperBuilder;

verus! {

/// What a handler answers when polled for work.
#[derive(Debug, Clone, Copy, PartialEq, Eq)]
pub enum HandlerPoll<TConnectionUpgrade, TOutboundOpenInfo, TCustom> {
    /// Nothing to report for now; poll again later.
    Pending,
    /// Terminal completion: the handler is done and can be destroyed.
    Finished,
    /// The handler asks for work or reports an event.
    Ready(ProtocolsHandlerEvent<TConnectionUpgrade, TOutboundOpenInfo, TCustom>),
    /// The handler hit an unrecoverable error; the connection must close.
    Failed,
}

/// Handler for a set of protocols for a specific connection with a remote.
///
/// Protocols with the remote can be opened in two different ways:
///
/// - Dialing, a voluntary process: `poll()` returns an
///   `OutboundSubstreamRequest` variant containing the upgrade to use.
/// - Listening, used when the remote opens a substream: `listen_protocol()`
///   returns the upgrades supported when listening.
///
/// When the connection closes, `shutdown()` is called, and the handler keeps
/// being polled until it reports [`HandlerPoll::Finished`]; only then is it
/// destroyed. A handler can therefore finish delivering events even after it
/// knows that it is shutting down.
pub trait ProtocolsHandler: Sized {
    /// Custom event that can be received from the outside.
    type InEvent;
    /// Custom event that can be produced by the handler and that will be
    /// returned to the outside.
    type OutEvent;
    /// The type of the substream that contains the raw data.
    type Substream;
    /// The upgrade for the protocol or protocols handled by this handler.
    type Protocol;
    /// What a successful negotiation of `Protocol` produces.
    type Output;
    /// Information about a substream: attached to an outbound request and
    /// passed back verbatim in `inject_fully_negotiated` or
    /// `inject_outbound_closed`.
    type OutboundOpenInfo;

    /// Well-formedness of the handler's state; every operation keeps it.
    spec fn wf(self) -> bool;

    /// The protocol descriptor that `listen_protocol` answers.
    spec fn listen_protocol_spec(self) -> Self::Protocol;

    /// How `inject_fully_negotiated` may change the handler's state.
    spec fn fully_negotiated_rel(
        pre: Self,
        protocol: Self::Output,
        endpoint: NodeHandlerEndpoint<Self::OutboundOpenInfo>,
        post: Self,
    ) -> bool;

    /// How `inject_event` may change the handler's state.
    spec fn event_rel(pre: Self, event: Self::InEvent, post: Self) -> bool;

    /// How `inject_dial_upgrade_error` may change the handler's state.
    spec fn dial_upgrade_error_rel(
        pre: Self,
        info: Self::OutboundOpenInfo,
        error: UpgradeError,
        post: Self,
    ) -> bool;

    /// How `inject_inbound_closed` may change the handler's state.
    spec fn inbound_closed_rel(pre: Self, post: Self) -> bool;

    /// How `shutdown` may change the handler's state.
    spec fn shutdown_rel(pre: Self, post: Self) -> bool;

    /// How `poll` may change the handler's state, and which results it may
    /// answer from a given state.
    spec fn poll_rel(
        pre: Self,
        post: Self,
        result: HandlerPoll<Self::Protocol, Self::OutboundOpenInfo, Self::OutEvent>,
    ) -> bool;

    /// Produces the protocol descriptor to accept when listening.
    ///
    /// The answer must be stable, and must always advertise every protocol the
    /// handler is prepared to accept: callers may cache it and never re-query
    /// to decide whether to accept a specific attempt.
    fn listen_protocol(&self) -> (r: Self::Protocol)
        requires
            self.wf(),
        ensures
            r == self.listen_protocol_spec(),
    ;

    /// Delivers a successfully negotiated protocol instance, plus which
    /// direction (and, when dialing, which correlation data) it came from.
    fn inject_fully_negotiated(
        &mut self,
        protocol: Self::Output,
        endpoint: NodeHandlerEndpoint<Self::OutboundOpenInfo>,
    )
        requires
            old(self).wf(),
        ensures
            final (self).wf(),
            Self::fully_negotiated_rel(*old(self), protocol, endpoint, *final (self)),
    ;

    /// Delivers an application-level input event.
    fn inject_event(&mut self, event: Self::InEvent)
        requires
            old(self).wf(),
        ensures
            final (self).wf(),
            Self::event_rel(*old(self), event, *final (self)),
    ;

    /// Reports that an outbound substream requested with correlation data
    /// `info` failed to negotiate (timeout and connection-reset included).
    fn inject_dial_upgrade_error(&mut self, info: Self::OutboundOpenInfo, error: UpgradeError)
        requires
            old(self).wf(),
        ensures
            final (self).wf(),
            Self::dial_upgrade_error_rel(*old(self), info, error, *final (self)),
    ;

    /// Reports that no more inbound substream will ever be offered.
    fn inject_inbound_closed(&mut self)
        requires
            old(self).wf(),
        ensures
            final (self).wf(),
            Self::inbound_closed_rel(*old(self), *final (self)),
    ;

    /// Requests graceful termination: after this call the handler must
    /// eventually answer polls with [`HandlerPoll::Finished`], but may keep
    /// producing events beforehand to let in-flight work finish.
    fn shutdown(&mut self)
        requires
            old(self).wf(),
        ensures
            final (self).wf(),
            Self::shutdown_rel(*old(self), *final (self)),
    ;

    /// The handler's sole source of proactive output. Must be callable
    /// repeatedly, under no particular cadence.
    fn poll(&mut self) -> (r: HandlerPoll<Self::Protocol, Self::OutboundOpenInfo, Self::OutEvent>)
        requires
            old(self).wf(),
        ensures
            final (self).wf(),
            Self::poll_rel(*old(self), *final (self), r),
    ;

    /// Adds a closure that turns the input event into something else, or drops
    /// it. The closure must accept every event of the new input type.
    fn map_in_event<TNewIn, TMap>(self, map: TMap) -> (r: MapInEvent<Self, TNewIn, TMap>) where
        TMap: Fn(TNewIn) -> Option<Self::InEvent>,

        requires
            forall|event: TNewIn| call_requires(map, (event,)),
        ensures
            r.inner == self,
            r.map == map,
    {
        MapInEvent { inner: self, map, marker: PhantomData }
    }

    /// Adds a closure that turns the output event into something else. The
    /// closure must accept every event the handler can produce.
    fn map_out_event<TMap, TNewOut>(self, map: TMap) -> (r: MapOutEvent<Self, TMap>) where
        TMap: Fn(Self::OutEvent) -> TNewOut,

        requires
            forall|event: Self::OutEvent| call_requires(map, (event,)),
        ensures
            r.inner == self,
            r.map == map,
    {
        MapOutEvent { inner: self, map }
    }

    /// Creates a builder that will allow creating the negotiation adapter that
    /// handles this protocol exclusively, with the default timeouts.
    fn into_node_handler_builder(self) -> (r: NodeHandlerWrapperBuilder<Self>)
        ensures
            r.handler == self,
            r.in_timeout_ms == DEFAULT_NEGOTIATION_TIMEOUT_MS,
            r.out_timeout_ms == DEFAULT_NEGOTIATION_TIMEOUT_MS,
    {
        NodeHandlerWrapperBuilder {
            handler: self,
            in_timeout_ms: DEFAULT_NEGOTIATION_TIMEOUT_MS,
            out_timeout_ms: DEFAULT_NEGOTIATION_TIMEOUT_MS,
        }
    }

    /// Builds the negotiation adapter that handles this protocol exclusively,
    /// with the default timeouts: a shortcut for
    /// `self.into_node_handler_builder().build()`.
    fn into_node_handler(self) -> (r: NodeHandlerWrapper<Self>)
        ensures
            r.handler == self,
            r.in_timeout_ms == DEFAULT_NEGOTIATION_TIMEOUT_MS,
            r.out_timeout_ms == DEFAULT_NEGOTIATION_TIMEOUT_MS,
            r.negotiating_in@ == Seq::<u64>::empty(),
            r.negotiating_out@ == Seq::<(u64, Self::OutboundOpenInfo)>::empty(),
            r.queued_dial_upgrades@ == Seq::<(u64, Self::Protocol)>::empty(),
            r.unique_dial_upgrade_id == 0,
            r.next_inbound_token == 0,
    {
        NodeHandlerWrapper {
            handler: self,
            negotiating_in: Vec::new(),
            negotiating_out: Vec::new(),
            in_timeout_ms: DEFAULT_NEGOTIATION_TIMEOUT_MS,
            out_timeout_ms: DEFAULT_NEGOTIATION_TIMEOUT_MS,
            queued_dial_upgrades: Vec::new(),
            unique_dial_upgrade_id: 0,
            next_inbound_token: 0,
        }
    }
}

} // verus!
