//! The negotiation adapter: wraps a [`ProtocolsHandler`] and implements the
//! lower-level contract a connection manager drives. It tracks in-flight
//! substream negotiations, matches outbound completions to previously queued
//! requests by a unique identifier, applies the configured timeouts, and
//! forwards all resulting signals to and from the wrapped handler.
//!
//! The byte-level negotiation and the deadline timer are collaborators outside
//! this crate. When the adapter accepts a substream it answers a
//! [`NegotiationStart`] instruction; whoever drives the negotiation later
//! reports each resolved outcome to [`NodeHandlerWrapper::poll`] as a
//! [`NegotiationResult`] keyed by the instruction's token. An outcome that has
//! not resolved yet is simply not reported and stays pending.

use vstd::prelude::*;

use crate::events::ProtocolsHandlerEvent;
use crate::handler::HandlerPoll;
use crate::handler::ProtocolsHandler;
use crate::types::Endpoint;
use crate::types::NegotiationResult;
use crate::types::NegotiationStart;
use crate::types::NodeHandlerEndpoint;
use crate::types::NodeHandlerEvent;
use crate::types::UnknownUpgradeId;
use crate::types::UpgradeError;

verus! {

/// Negotiation timeout used in each direction unless overridden, in
/// milliseconds.
pub const DEFAULT_NEGOTIATION_TIMEOUT_MS: u64 = 10_000;

/// Whether some entry of `entries` carries the identifier `id`.
pub open spec fn has_id<T>(entries: Seq<(u64, T)>, id: u64) -> bool {
    exists|i: int| 0 <= i < entries.len() && (#[trigger] entries[i]).0 == id
}

/// The index of the entry of `entries` carrying `id`; meaningful when `has_id`
/// holds and the identifiers are distinct.
pub open spec fn idx_of_id<T>(entries: Seq<(u64, T)>, id: u64) -> int {
    choose|i: int| 0 <= i < entries.len() && (#[trigger] entries[i]).0 == id
}

/// No two entries of `entries` carry the same identifier.
pub open spec fn distinct_ids<T>(entries: Seq<(u64, T)>) -> bool {
    forall|i: int, j: int|
        0 <= i < j < entries.len() ==> (#[trigger] entries[i]).0 != (#[trigger] entries[j]).0
}

/// No token appears twice in `tokens`.
pub open spec fn distinct_tokens(tokens: Seq<u64>) -> bool {
    forall|i: int, j: int| 0 <= i < j < tokens.len() ==> tokens[i] != tokens[j]
}

/// Removing the only entry that carries `id` takes exactly that identifier out
/// of the collection and keeps every other entry.
pub(crate) proof fn lemma_remove_id<T>(entries: Seq<(u64, T)>, i: int, id: u64)
    requires
        distinct_ids(entries),
        0 <= i < entries.len(),
        entries[i].0 == id,
    ensures
        !has_id(entries.remove(i), id),
        distinct_ids(entries.remove(i)),
        forall|other: u64|
            other != id ==> (has_id(entries.remove(i), other) <==> has_id(entries, other)),
        forall|p: (u64, T)| #[trigger]
            entries.remove(i).contains(p) <==> entries.contains(p) && p.0 != id,
{
    let removed = entries.remove(i);
    entries.remove_ensures(i);
    assert forall|p: (u64, T)| #[trigger]
        removed.contains(p) implies entries.contains(p) && p.0 != id by {
        let k = choose|k: int| 0 <= k < removed.len() && removed[k] == p;
        if k < i {
            assert(entries[k] == p);
            assert(k != i);
        } else {
            assert(entries[k + 1] == p);
            assert(k + 1 != i);
        }
    }
    assert forall|p: (u64, T)| entries.contains(p) && p.0 != id implies #[trigger] removed.contains(
        p,
    ) by {
        let k = choose|k: int| 0 <= k < entries.len() && entries[k] == p;
        assert(k != i);
        if k < i {
            assert(removed[k] == p);
        } else {
            assert(removed[k - 1] == p);
        }
    }
    assert forall|other: u64| other != id && has_id(entries, other) implies has_id(
        removed,
        other,
    ) by {
        let k = choose|k: int| 0 <= k < entries.len() && (#[trigger] entries[k]).0 == other;
        assert(entries.contains(entries[k]));
        assert(removed.contains(entries[k]));
        let m = choose|m: int| 0 <= m < removed.len() && removed[m] == entries[k];
        assert(removed[m].0 == other);
    }
}

/// Removing one occurrence of `token` from a duplicate-free sequence of tokens
/// takes exactly that token out and keeps every other.
proof fn lemma_remove_token(tokens: Seq<u64>, i: int, token: u64)
    requires
        distinct_tokens(tokens),
        0 <= i < tokens.len(),
        tokens[i] == token,
    ensures
        distinct_tokens(tokens.remove(i)),
        forall|t: u64| tokens.remove(i).contains(t) <==> (tokens.contains(t) && t != token),
{
    let removed = tokens.remove(i);
    tokens.remove_ensures(i);
    assert forall|t: u64| #[trigger]
        removed.contains(t) implies tokens.contains(t) && t != token by {
        let k = choose|k: int| 0 <= k < removed.len() && removed[k] == t;
        if k < i {
            assert(tokens[k] == t);
        } else {
            assert(tokens[k + 1] == t);
        }
    }
    assert forall|t: u64| tokens.contains(t) && t != token implies #[trigger] removed.contains(
        t,
    ) by {
        let k = choose|k: int| 0 <= k < tokens.len() && tokens[k] == t;
        assert(k != i);
        if k < i {
            assert(removed[k] == t);
        } else {
            assert(removed[k - 1] == t);
        }
    }
}

/// Finds the position of `token`, scanning front to back.
fn position_of_token(tokens: &Vec<u64>, token: u64) -> (r: Option<usize>)
    ensures
        match r {
            Option::Some(i) => i < tokens@.len() && tokens@[i as int] == token,
            Option::None => !tokens@.contains(token),
        },
{
    let mut i: usize = 0;
    while i < tokens.len()
        invariant
            i <= tokens@.len(),
            forall|j: int| 0 <= j < i ==> tokens@[j] != token,
        decreases tokens@.len() - i,
    {
        if tokens[i] == token {
            return Some(i);
        }
        i += 1;
    }
    None
}

/// Finds the position of the entry carrying `id`, scanning front to back.
fn position_of_id<T>(entries: &Vec<(u64, T)>, id: u64) -> (r: Option<usize>)
    ensures
        match r {
            Option::Some(i) => i < entries@.len() && entries@[i as int].0 == id,
            Option::None => !has_id(entries@, id),
        },
{
    let mut i: usize = 0;
    while i < entries.len()
        invariant
            i <= entries@.len(),
            forall|j: int| 0 <= j < i ==> (#[trigger] entries@[j]).0 != id,
        decreases entries@.len() - i,
    {
        if entries[i].0 == id {
            return Some(i);
        }
        i += 1;
    }
    None
}

/// What the negotiation adapter answers when polled.
#[derive(Debug, Clone, Copy, PartialEq, Eq)]
pub enum AdapterPoll<TOutboundOpenInfo, TCustom> {
    /// Nothing to report for now; poll again later.
    Pending,
    /// Terminal completion: the wrapped handler is done, the connection can be
    /// torn down from this side.
    Finished,
    /// An event for the connection manager.
    Ready(NodeHandlerEvent<TOutboundOpenInfo, TCustom>),
    /// The wrapped handler reported an unrecoverable error.
    HandlerFailed,
}

/// Prototype for a [`NodeHandlerWrapper`]: fixes the two negotiation timeouts
/// before the adapter is built.
pub struct NodeHandlerWrapperBuilder<TProtoHandler> where TProtoHandler: ProtocolsHandler {
    /// The underlying handler.
    pub handler: TProtoHandler,
    /// Timeout for incoming substreams negotiation, in milliseconds.
    pub in_timeout_ms: u64,
    /// Timeout for outgoing substreams negotiation, in milliseconds.
    pub out_timeout_ms: u64,
}

impl<TProtoHandler> NodeHandlerWrapperBuilder<TProtoHandler> where TProtoHandler: ProtocolsHandler {
    /// Sets the timeout to use when negotiating a protocol on an ingoing
    /// substream.
    pub fn with_in_negotiation_timeout(self, timeout_ms: u64) -> (r: Self)
        ensures
            r.handler == self.handler,
            r.in_timeout_ms == timeout_ms,
            r.out_timeout_ms == self.out_timeout_ms,
    {
        NodeHandlerWrapperBuilder { in_timeout_ms: timeout_ms, ..self }
    }

    /// Sets the timeout to use when negotiating a protocol on an outgoing
    /// substream.
    pub fn with_out_negotiation_timeout(self, timeout_ms: u64) -> (r: Self)
        ensures
            r.handler == self.handler,
            r.in_timeout_ms == self.in_timeout_ms,
            r.out_timeout_ms == timeout_ms,
    {
        NodeHandlerWrapperBuilder { out_timeout_ms: timeout_ms, ..self }
    }

    /// Builds the [`NodeHandlerWrapper`]: no negotiation pending, nothing
    /// queued, and the identifier counter at zero.
    pub fn build(self) -> (r: NodeHandlerWrapper<TProtoHandler>)
        ensures
            r.handler == self.handler,
            r.in_timeout_ms == self.in_timeout_ms,
            r.out_timeout_ms == self.out_timeout_ms,
            r.negotiating_in@ == Seq::<u64>::empty(),
            r.negotiating_out@ == Seq::<(u64, TProtoHandler::OutboundOpenInfo)>::empty(),
            r.queued_dial_upgrades@ == Seq::<(u64, TProtoHandler::Protocol)>::empty(),
            r.unique_dial_upgrade_id == 0,
            r.next_inbound_token == 0,
            self.handler.wf() ==> r.wf(),
    {
        NodeHandlerWrapper {
            handler: self.handler,
            negotiating_in: Vec::new(),
            negotiating_out: Vec::new(),
            in_timeout_ms: self.in_timeout_ms,
            out_timeout_ms: self.out_timeout_ms,
            queued_dial_upgrades: Vec::new(),
            unique_dial_upgrade_id: 0,
            next_inbound_token: 0,
        }
    }
}

/// Wraps around an implementation of [`ProtocolsHandler`] and exposes the
/// substream- and identifier-aware contract the connection manager drives.
pub struct NodeHandlerWrapper<TProtoHandler> where TProtoHandler: ProtocolsHandler {
    /// The underlying handler.
    pub handler: TProtoHandler,
    /// Tokens of the inbound negotiations currently running outside.
    pub negotiating_in: Vec<u64>,
    /// Outbound negotiations currently running outside: the token under which
    /// the outcome will be reported (the dial upgrade's identifier), and the
    /// correlation data to pass back once resolved.
    pub negotiating_out: Vec<(u64, TProtoHandler::OutboundOpenInfo)>,
    /// Timeout for incoming substreams negotiation, in milliseconds.
    pub in_timeout_ms: u64,
    /// Timeout for outgoing substreams negotiation, in milliseconds.
    pub out_timeout_ms: u64,
    /// For each outbound substream request not yet matched by a substream: the
    /// request's unique identifier and the upgrade to apply.
    pub queued_dial_upgrades: Vec<(u64, TProtoHandler::Protocol)>,
    /// Unique identifier assigned to the next queued dial upgrade.
    pub unique_dial_upgrade_id: u64,
    /// Token assigned to the next inbound negotiation.
    pub next_inbound_token: u64,
}

impl<TProtoHandler> NodeHandlerWrapper<TProtoHandler> where TProtoHandler: ProtocolsHandler {
    /// The adapter's invariant: the wrapped handler is well formed, every
    /// identifier in the queue and in the outbound collection was assigned by
    /// the counter and appears exactly once, a queued identifier is never also
    /// negotiating, and inbound tokens are likewise unique.
    pub open spec fn wf(self) -> bool {
        &&& self.handler.wf()
        &&& distinct_ids(self.queued_dial_upgrades@)
        &&& forall|i: int|
            0 <= i < self.queued_dial_upgrades@.len() ==> (#[trigger] self.queued_dial_upgrades@[i]).0
                < self.unique_dial_upgrade_id
        &&& distinct_ids(self.negotiating_out@)
        &&& forall|i: int|
            0 <= i < self.negotiating_out@.len() ==> (#[trigger] self.negotiating_out@[i]).0
                < self.unique_dial_upgrade_id
        &&& forall|id: u64|
            has_id(self.queued_dial_upgrades@, id) ==> !has_id(self.negotiating_out@, id)
        &&& distinct_tokens(self.negotiating_in@)
        &&& forall|i: int|
            0 <= i < self.negotiating_in@.len() ==> #[trigger] self.negotiating_in@[i]
                < self.next_inbound_token
    }

    /// The two configured timeouts are the same in `pre` and `post`.
    pub open spec fn same_config(pre: Self, post: Self) -> bool {
        &&& post.in_timeout_ms == pre.in_timeout_ms
        &&& post.out_timeout_ms == pre.out_timeout_ms
    }

    /// `pre` and `post` are the same adapter state.
    pub open spec fn state_eq(pre: Self, post: Self) -> bool {
        &&& post.handler == pre.handler
        &&& post.negotiating_in@ == pre.negotiating_in@
        &&& post.negotiating_out@ == pre.negotiating_out@
        &&& post.queued_dial_upgrades@ == pre.queued_dial_upgrades@
        &&& post.unique_dial_upgrade_id == pre.unique_dial_upgrade_id
        &&& post.next_inbound_token == pre.next_inbound_token
        &&& Self::same_config(pre, post)
    }

    /// All bookkeeping is unchanged; only the handler may have moved.
    pub open spec fn only_handler_changed(pre: Self, post: Self) -> bool {
        &&& post.negotiating_in@ == pre.negotiating_in@
        &&& post.negotiating_out@ == pre.negotiating_out@
        &&& post.queued_dial_upgrades@ == pre.queued_dial_upgrades@
        &&& post.unique_dial_upgrade_id == pre.unique_dial_upgrade_id
        &&& post.next_inbound_token == pre.next_inbound_token
        &&& Self::same_config(pre, post)
    }

    /// Accepting a listener substream: the adapter asks the handler's current
    /// listen protocol, hands out a negotiation instruction under a fresh
    /// token with the inbound timeout, and records that token as pending.
    pub open spec fn listener_accept_transition(
        pre: Self,
        substream: TProtoHandler::Substream,
        post: Self,
        start: NegotiationStart<TProtoHandler::Substream, TProtoHandler::Protocol>,
    ) -> bool {
        &&& start.token == pre.next_inbound_token
        &&& start.substream == substream
        &&& start.protocol == pre.handler.listen_protocol_spec()
        &&& start.endpoint == Endpoint::Listener
        &&& start.timeout_ms == pre.in_timeout_ms
        &&& post.negotiating_in@ == pre.negotiating_in@.push(pre.next_inbound_token)
        &&& post.next_inbound_token == pre.next_inbound_token + 1
        &&& post.handler == pre.handler
        &&& post.negotiating_out@ == pre.negotiating_out@
        &&& post.queued_dial_upgrades@ == pre.queued_dial_upgrades@
        &&& post.unique_dial_upgrade_id == pre.unique_dial_upgrade_id
        &&& Self::same_config(pre, post)
    }

    /// Accepting a dialer substream: when `id` is queued, its entry is
    /// consumed, its upgrade negotiates on the substream under the outbound
    /// timeout, and the correlation data waits under the same identifier.
    /// When `id` is not queued the caller broke the identifier contract: the
    /// adapter refuses and nothing changes.
    pub open spec fn dialer_accept_transition(
        pre: Self,
        substream: TProtoHandler::Substream,
        id: u64,
        info: TProtoHandler::OutboundOpenInfo,
        post: Self,
        r: Result<NegotiationStart<TProtoHandler::Substream, TProtoHandler::Protocol>, UnknownUpgradeId>,
    ) -> bool {
        if has_id(pre.queued_dial_upgrades@, id) {
            let i = idx_of_id(pre.queued_dial_upgrades@, id);
            &&& r matches Ok(start)
            &&& start.token == id
            &&& start.substream == substream
            &&& start.protocol == pre.queued_dial_upgrades@[i].1
            &&& start.endpoint == Endpoint::Dialer
            &&& start.timeout_ms == pre.out_timeout_ms
            &&& post.queued_dial_upgrades@ == pre.queued_dial_upgrades@.remove(i)
            &&& post.negotiating_out@ == pre.negotiating_out@.push((id, info))
            &&& post.handler == pre.handler
            &&& post.negotiating_in@ == pre.negotiating_in@
            &&& post.unique_dial_upgrade_id == pre.unique_dial_upgrade_id
            &&& post.next_inbound_token == pre.next_inbound_token
            &&& Self::same_config(pre, post)
        } else {
            &&& r matches Err(_)
            &&& Self::state_eq(pre, post)
        }
    }

    /// Closing the outbound direction for `id` before a substream arrived:
    /// when `id` is queued, exactly its entry leaves the queue and the handler
    /// receives one dial-upgrade error carrying the correlation data and a
    /// reset-like cause. When `id` is not queued the caller broke the
    /// identifier contract: the adapter refuses and nothing changes.
    pub open spec fn outbound_closed_transition(
        pre: Self,
        id: u64,
        info: TProtoHandler::OutboundOpenInfo,
        post: Self,
        accepted: bool,
    ) -> bool {
        if has_id(pre.queued_dial_upgrades@, id) {
            let i = idx_of_id(pre.queued_dial_upgrades@, id);
            &&& accepted
            &&& post.queued_dial_upgrades@ == pre.queued_dial_upgrades@.remove(i)
            &&& TProtoHandler::dial_upgrade_error_rel(
                pre.handler,
                info,
                UpgradeError::ConnectionReset,
                post.handler,
            )
            &&& post.negotiating_in@ == pre.negotiating_in@
            &&& post.negotiating_out@ == pre.negotiating_out@
            &&& post.unique_dial_upgrade_id == pre.unique_dial_upgrade_id
            &&& post.next_inbound_token == pre.next_inbound_token
            &&& Self::same_config(pre, post)
        } else {
            &&& !accepted
            &&& Self::state_eq(pre, post)
        }
    }

    /// Injects a substream delivered by the connection manager.
    ///
    /// The answer is the negotiation instruction the caller must now run: the
    /// adapter itself never touches the substream's bytes. A dialer substream
    /// must carry the identifier of a queued request; referencing an unknown
    /// identifier is a contract violation and is refused.
    pub fn inject_substream(
        &mut self,
        substream: TProtoHandler::Substream,
        endpoint: NodeHandlerEndpoint<(u64, TProtoHandler::OutboundOpenInfo)>,
    ) -> (r: Result<
        NegotiationStart<TProtoHandler::Substream, TProtoHandler::Protocol>,
        UnknownUpgradeId,
    >)
        requires
            old(self).wf(),
            old(self).next_inbound_token < u64::MAX,
        ensures
            final (self).wf(),
            (endpoint matches NodeHandlerEndpoint::Listener ==> (r matches Ok(start)
                && Self::listener_accept_transition(*old(self), substream, *final (self), start))),
            (endpoint matches NodeHandlerEndpoint::Dialer(user_data)
                ==> Self::dialer_accept_transition(
                *old(self),
                substream,
                user_data.0,
                user_data.1,
                *final (self),
                r,
            )),
    {
        match endpoint {
            NodeHandlerEndpoint::Listener => {
                let protocol = self.handler.listen_protocol();
                let token = self.next_inbound_token;
                self.next_inbound_token = self.next_inbound_token + 1;
                self.negotiating_in.push(token);
                proof {
                    assert forall|i: int|
                        0 <= i < self.negotiating_in@.len() implies #[trigger] self.negotiating_in@[i]
                        < self.next_inbound_token by {
                        if i < old(self).negotiating_in@.len() {
                            assert(self.negotiating_in@[i] == old(self).negotiating_in@[i]);
                        }
                    }
                }
                Ok(
                    NegotiationStart {
                        token,
                        substream,
                        protocol,
                        endpoint: Endpoint::Listener,
                        timeout_ms: self.in_timeout_ms,
                    },
                )
            },
            NodeHandlerEndpoint::Dialer((upgrade_id, user_data)) => {
                let pos = match position_of_id(&self.queued_dial_upgrades, upgrade_id) {
                    Some(p) => p,
                    None => {
                        return Err(UnknownUpgradeId);
                    },
                };
                proof {
                    assert(has_id(self.queued_dial_upgrades@, upgrade_id));
                    assert(pos as int == idx_of_id(self.queued_dial_upgrades@, upgrade_id)) by {
                        let i = idx_of_id(self.queued_dial_upgrades@, upgrade_id);
                        if i != pos as int {
                            assert(self.queued_dial_upgrades@[i].0
                                != self.queued_dial_upgrades@[pos as int].0);
                        }
                    }
                    lemma_remove_id(self.queued_dial_upgrades@, pos as int, upgrade_id);
                }
                let entry = self.queued_dial_upgrades.remove(pos);
                self.negotiating_out.push((upgrade_id, user_data));
                proof {
                    let pre = *old(self);
                    assert forall|i: int|
                        0 <= i < self.queued_dial_upgrades@.len() implies (
                        #[trigger] self.queued_dial_upgrades@[i]).0
                        < self.unique_dial_upgrade_id by {
                        assert(pre.queued_dial_upgrades@.remove(pos as int).contains(
                            self.queued_dial_upgrades@[i],
                        ));
                        let k = choose|k: int|
                            0 <= k < pre.queued_dial_upgrades@.len()
                                && pre.queued_dial_upgrades@[k] == self.queued_dial_upgrades@[i];
                    }
                    assert forall|i: int, j: int|
                        0 <= i < j < self.negotiating_out@.len() implies (
                        #[trigger] self.negotiating_out@[i]).0 != (
                        #[trigger] self.negotiating_out@[j]).0 by {
                        if j == self.negotiating_out@.len() - 1 {
                            assert(has_id(pre.negotiating_out@, pre.negotiating_out@[i].0));
                        }
                    }
                    assert forall|i: int|
                        0 <= i < self.negotiating_out@.len() implies (
                        #[trigger] self.negotiating_out@[i]).0 < self.unique_dial_upgrade_id by {
                        if i < pre.negotiating_out@.len() {
                        } else {
                            assert(self.negotiating_out@[i].0 == upgrade_id);
                            assert(pre.queued_dial_upgrades@[pos as int].0 < pre.unique_dial_upgrade_id);
                        }
                    }
                    assert forall|id: u64|
                        has_id(self.queued_dial_upgrades@, id) implies !has_id(
                        self.negotiating_out@,
                        id,
                    ) by {
                        assert(has_id(pre.queued_dial_upgrades@, id));
                        assert(id != upgrade_id);
                        assert(!has_id(pre.negotiating_out@, id));
                        if has_id(self.negotiating_out@, id) {
                            let k = choose|k: int|
                                0 <= k < self.negotiating_out@.len() && (
                                #[trigger] self.negotiating_out@[k]).0 == id;
                            assert(k < pre.negotiating_out@.len());
                            assert(pre.negotiating_out@[k].0 == id);
                        }
                    }
                }
                Ok(
                    NegotiationStart {
                        token: upgrade_id,
                        substream,
                        protocol: entry.1,
                        endpoint: Endpoint::Dialer,
                        timeout_ms: self.out_timeout_ms,
                    },
                )
            },
        }
    }

    /// Forwards to the handler: no more inbound substream will ever be offered.
    pub fn inject_inbound_closed(&mut self)
        requires
            old(self).wf(),
        ensures
            final (self).wf(),
            TProtoHandler::inbound_closed_rel(old(self).handler, final (self).handler),
            Self::only_handler_changed(*old(self), *final (self)),
    {
        self.handler.inject_inbound_closed();
    }

    /// Reports that the outbound direction for a requested substream was
    /// closed before the substream arrived. Consumes the queued entry and
    /// reports a dial-upgrade error with a reset-like cause to the handler;
    /// an identifier that is not queued is a contract violation and is
    /// refused.
    pub fn inject_outbound_closed(
        &mut self,
        user_data: (u64, TProtoHandler::OutboundOpenInfo),
    ) -> (r: Result<(), UnknownUpgradeId>)
        requires
            old(self).wf(),
        ensures
            final (self).wf(),
            Self::outbound_closed_transition(
                *old(self),
                user_data.0,
                user_data.1,
                *final (self),
                r is Ok,
            ),
    {
        let (upgrade_id, info) = user_data;
        let pos = match position_of_id(&self.queued_dial_upgrades, upgrade_id) {
            Some(p) => p,
            None => {
                return Err(UnknownUpgradeId);
            },
        };
        proof {
            assert(has_id(self.queued_dial_upgrades@, upgrade_id));
            assert(pos as int == idx_of_id(self.queued_dial_upgrades@, upgrade_id)) by {
                let i = idx_of_id(self.queued_dial_upgrades@, upgrade_id);
                if i != pos as int {
                    assert(self.queued_dial_upgrades@[i].0
                        != self.queued_dial_upgrades@[pos as int].0);
                }
            }
            lemma_remove_id(self.queued_dial_upgrades@, pos as int, upgrade_id);
        }
        let _ = self.queued_dial_upgrades.remove(pos);
        self.handler.inject_dial_upgrade_error(info, UpgradeError::ConnectionReset);
        proof {
            let pre = *old(self);
            assert forall|i: int|
                0 <= i < self.queued_dial_upgrades@.len() implies (
                #[trigger] self.queued_dial_upgrades@[i]).0 < self.unique_dial_upgrade_id by {
                assert(pre.queued_dial_upgrades@.remove(pos as int).contains(
                    self.queued_dial_upgrades@[i],
                ));
                let k = choose|k: int|
                    0 <= k < pre.queued_dial_upgrades@.len() && pre.queued_dial_upgrades@[k]
                        == self.queued_dial_upgrades@[i];
            }
        }
        Ok(())
    }

    /// Forwards an application-level input event to the handler.
    pub fn inject_event(&mut self, event: TProtoHandler::InEvent)
        requires
            old(self).wf(),
        ensures
            final (self).wf(),
            TProtoHandler::event_rel(old(self).handler, event, final (self).handler),
            Self::only_handler_changed(*old(self), *final (self)),
    {
        self.handler.inject_event(event);
    }

    /// What one resolved inbound negotiation does to the handler: a success is
    /// delivered as exactly one fully-negotiated signal tagged `Listener`
    /// carrying the produced output; a failure (timeout included) is silently
    /// discarded and the handler never hears of it.
    pub open spec fn inbound_outcome_step(
        pre_handler: TProtoHandler,
        outcome: (u64, NegotiationResult<TProtoHandler::Output>),
        post_handler: TProtoHandler,
    ) -> bool {
        match outcome.1 {
            NegotiationResult::Negotiated(output) => TProtoHandler::fully_negotiated_rel(
                pre_handler,
                output,
                NodeHandlerEndpoint::Listener,
                post_handler,
            ),
            NegotiationResult::Failed => post_handler == pre_handler,
        }
    }

    /// The handler's journey through a list of resolved inbound negotiations,
    /// delivered front to back: one [`Self::inbound_outcome_step`] per entry.
    pub open spec fn inbound_drain_rel(
        pre_handler: TProtoHandler,
        outcomes: Seq<(u64, NegotiationResult<TProtoHandler::Output>)>,
        post_handler: TProtoHandler,
    ) -> bool
        decreases outcomes.len(),
    {
        if outcomes.len() == 0 {
            post_handler == pre_handler
        } else {
            exists|mid: TProtoHandler|
                #[trigger] Self::inbound_outcome_step(pre_handler, outcomes[0], mid)
                    && Self::inbound_drain_rel(mid, outcomes.drop_first(), post_handler)
        }
    }

    /// What one resolved outbound negotiation does to the handler. The
    /// correlation data is the one waiting under the outcome's token in
    /// `pending`: a success is delivered as exactly one fully-negotiated
    /// signal tagged `Dialer` with that data; a failure (timeout included) as
    /// exactly one dial-upgrade error with that data.
    pub open spec fn outbound_outcome_step(
        pending: Seq<(u64, TProtoHandler::OutboundOpenInfo)>,
        pre_handler: TProtoHandler,
        outcome: (u64, NegotiationResult<TProtoHandler::Output>),
        post_handler: TProtoHandler,
    ) -> bool {
        let info = pending[idx_of_id(pending, outcome.0)].1;
        match outcome.1 {
            NegotiationResult::Negotiated(output) => TProtoHandler::fully_negotiated_rel(
                pre_handler,
                output,
                NodeHandlerEndpoint::Dialer(info),
                post_handler,
            ),
            NegotiationResult::Failed => TProtoHandler::dial_upgrade_error_rel(
                pre_handler,
                info,
                UpgradeError::NegotiationFailed,
                post_handler,
            ),
        }
    }

    /// The handler's journey through a list of resolved outbound
    /// negotiations, delivered front to back.
    pub open spec fn outbound_drain_rel(
        pending: Seq<(u64, TProtoHandler::OutboundOpenInfo)>,
        pre_handler: TProtoHandler,
        outcomes: Seq<(u64, NegotiationResult<TProtoHandler::Output>)>,
        post_handler: TProtoHandler,
    ) -> bool
        decreases outcomes.len(),
    {
        if outcomes.len() == 0 {
            post_handler == pre_handler
        } else {
            exists|mid: TProtoHandler|
                #[trigger] Self::outbound_outcome_step(pending, pre_handler, outcomes[0], mid)
                    && Self::outbound_drain_rel(pending, mid, outcomes.drop_first(), post_handler)
        }
    }

    /// The request queue and the identifier counter are the same in `pre` and
    /// `post`.
    pub open spec fn queue_unchanged(pre: Self, post: Self) -> bool {
        &&& post.queued_dial_upgrades@ == pre.queued_dial_upgrades@
        &&& post.unique_dial_upgrade_id == pre.unique_dial_upgrade_id
    }

    /// The final stage of a poll: the handler is polled exactly once, and its
    /// answer decides the adapter's. A custom event and terminal completion
    /// pass through; an outbound-substream request is assigned the current
    /// counter value as its unique identifier, queued under it together with
    /// its upgrade, and re-emitted upward carrying that identifier beside the
    /// handler's correlation data.
    pub open spec fn poll_result_transition(
        pre: Self,
        handler_before_poll: TProtoHandler,
        post: Self,
        r: AdapterPoll<(u64, TProtoHandler::OutboundOpenInfo), TProtoHandler::OutEvent>,
    ) -> bool {
        exists|handler_result:
            HandlerPoll<
                TProtoHandler::Protocol,
                TProtoHandler::OutboundOpenInfo,
                TProtoHandler::OutEvent,
            >|
            #[trigger] TProtoHandler::poll_rel(handler_before_poll, post.handler, handler_result)
                && match handler_result {
                HandlerPoll::Pending => r is Pending && Self::queue_unchanged(pre, post),
                HandlerPoll::Finished => r is Finished && Self::queue_unchanged(pre, post),
                HandlerPoll::Failed => r is HandlerFailed && Self::queue_unchanged(pre, post),
                HandlerPoll::Ready(ProtocolsHandlerEvent::Custom(event)) => r == AdapterPoll::<
                    (u64, TProtoHandler::OutboundOpenInfo),
                    TProtoHandler::OutEvent,
                >::Ready(NodeHandlerEvent::Custom(event)) && Self::queue_unchanged(pre, post),
                HandlerPoll::Ready(
                    ProtocolsHandlerEvent::OutboundSubstreamRequest { upgrade, info },
                ) => {
                    &&& r == AdapterPoll::<
                        (u64, TProtoHandler::OutboundOpenInfo),
                        TProtoHandler::OutEvent,
                    >::Ready(
                        NodeHandlerEvent::OutboundSubstreamRequest(
                            (pre.unique_dial_upgrade_id, info),
                        ),
                    )
                    &&& post.queued_dial_upgrades@ == pre.queued_dial_upgrades@.push(
                        (pre.unique_dial_upgrade_id, upgrade),
                    )
                    &&& post.unique_dial_upgrade_id == pre.unique_dial_upgrade_id + 1
                },
            }
    }

    /// Appending one more inbound outcome to a drained prefix extends the
    /// drain relation by one step.
    proof fn lemma_inbound_drain_snoc(
        pre_handler: TProtoHandler,
        outcomes: Seq<(u64, NegotiationResult<TProtoHandler::Output>)>,
        mid_handler: TProtoHandler,
        outcome: (u64, NegotiationResult<TProtoHandler::Output>),
        post_handler: TProtoHandler,
    )
        requires
            Self::inbound_drain_rel(pre_handler, outcomes, mid_handler),
            Self::inbound_outcome_step(mid_handler, outcome, post_handler),
        ensures
            Self::inbound_drain_rel(pre_handler, outcomes.push(outcome), post_handler),
        decreases outcomes.len(),
    {
        let extended = outcomes.push(outcome);
        if outcomes.len() == 0 {
            assert(extended[0] == outcome);
            assert(extended.drop_first() =~= outcomes);
            assert(Self::inbound_outcome_step(pre_handler, extended[0], post_handler));
            assert(Self::inbound_drain_rel(post_handler, extended.drop_first(), post_handler));
        } else {
            let mid0 = choose|mid: TProtoHandler|
                #[trigger] Self::inbound_outcome_step(pre_handler, outcomes[0], mid)
                    && Self::inbound_drain_rel(mid, outcomes.drop_first(), mid_handler);
            Self::lemma_inbound_drain_snoc(
                mid0,
                outcomes.drop_first(),
                mid_handler,
                outcome,
                post_handler,
            );
            assert(extended.drop_first() =~= outcomes.drop_first().push(outcome));
            assert(extended[0] == outcomes[0]);
            assert(Self::inbound_outcome_step(pre_handler, extended[0], mid0));
        }
    }

    /// Appending one more outbound outcome to a drained prefix extends the
    /// drain relation by one step.
    proof fn lemma_outbound_drain_snoc(
        pending: Seq<(u64, TProtoHandler::OutboundOpenInfo)>,
        pre_handler: TProtoHandler,
        outcomes: Seq<(u64, NegotiationResult<TProtoHandler::Output>)>,
        mid_handler: TProtoHandler,
        outcome: (u64, NegotiationResult<TProtoHandler::Output>),
        post_handler: TProtoHandler,
    )
        requires
            Self::outbound_drain_rel(pending, pre_handler, outcomes, mid_handler),
            Self::outbound_outcome_step(pending, mid_handler, outcome, post_handler),
        ensures
            Self::outbound_drain_rel(pending, pre_handler, outcomes.push(outcome), post_handler),
        decreases outcomes.len(),
    {
        let extended = outcomes.push(outcome);
        if outcomes.len() == 0 {
            assert(extended[0] == outcome);
            assert(extended.drop_first() =~= outcomes);
            assert(Self::outbound_outcome_step(pending, pre_handler, extended[0], post_handler));
            assert(Self::outbound_drain_rel(
                pending,
                post_handler,
                extended.drop_first(),
                post_handler,
            ));
        } else {
            let mid0 = choose|mid: TProtoHandler|
                #[trigger] Self::outbound_outcome_step(pending, pre_handler, outcomes[0], mid)
                    && Self::outbound_drain_rel(pending, mid, outcomes.drop_first(), mid_handler);
            Self::lemma_outbound_drain_snoc(
                pending,
                mid0,
                outcomes.drop_first(),
                mid_handler,
                outcome,
                post_handler,
            );
            assert(extended.drop_first() =~= outcomes.drop_first().push(outcome));
            assert(extended[0] == outcomes[0]);
            assert(Self::outbound_outcome_step(pending, pre_handler, extended[0], mid0));
        }
    }

    /// Forwards the shutdown request to the handler.
    pub fn shutdown(&mut self)
        requires
            old(self).wf(),
        ensures
            final (self).wf(),
            TProtoHandler::shutdown_rel(old(self).handler, final (self).handler),
            Self::only_handler_changed(*old(self), *final (self)),
    {
        self.handler.shutdown();
    }

    /// Polls the adapter, reporting the outcomes of the externally driven
    /// negotiations that resolved since the last poll. A negotiation that has
    /// not resolved is simply not reported and stays pending.
    ///
    /// The call works in a fixed order, because later steps must observe the
    /// state changes made by earlier ones: every resolved inbound negotiation
    /// is delivered to the handler first, then every resolved outbound one,
    /// and only then is the handler itself polled, exactly once. Within one
    /// list, outcomes are delivered front to back; callers must not rely on
    /// any finer ordering than the three stages.
    ///
    /// Every reported token must belong to a pending negotiation of the
    /// matching direction, and no token may be reported twice: outcomes come
    /// from the negotiation futures this adapter handed out, each of which
    /// resolves at most once.
    pub fn poll(
        &mut self,
        inbound: Vec<(u64, NegotiationResult<TProtoHandler::Output>)>,
        outbound: Vec<(u64, NegotiationResult<TProtoHandler::Output>)>,
    ) -> (r: AdapterPoll<(u64, TProtoHandler::OutboundOpenInfo), TProtoHandler::OutEvent>)
        requires
            old(self).wf(),
            old(self).unique_dial_upgrade_id < u64::MAX,
            distinct_ids(inbound@),
            forall|i: int|
                0 <= i < inbound@.len() ==> old(self).negotiating_in@.contains(
                    (#[trigger] inbound@[i]).0,
                ),
            distinct_ids(outbound@),
            forall|i: int|
                0 <= i < outbound@.len() ==> has_id(
                    old(self).negotiating_out@,
                    (#[trigger] outbound@[i]).0,
                ),
        ensures
            final (self).wf(),
            Self::same_config(*old(self), *final (self)),
            final (self).next_inbound_token == old(self).next_inbound_token,
            forall|t: u64|
                final (self).negotiating_in@.contains(t) <==> (old(
                    self,
                ).negotiating_in@.contains(t) && !has_id(inbound@, t)),
            forall|p: (u64, TProtoHandler::OutboundOpenInfo)| #[trigger]
                final (self).negotiating_out@.contains(p) <==> (old(
                    self,
                ).negotiating_out@.contains(p) && !has_id(outbound@, p.0)),
            exists|after_inbound: TProtoHandler, after_outbound: TProtoHandler|
                #![trigger Self::outbound_drain_rel(
                    old(self).negotiating_out@,
                    after_inbound,
                    outbound@,
                    after_outbound,
                )]
                Self::inbound_drain_rel(old(self).handler, inbound@, after_inbound)
                    && Self::outbound_drain_rel(
                    old(self).negotiating_out@,
                    after_inbound,
                    outbound@,
                    after_outbound,
                ) && Self::poll_result_transition(*old(self), after_outbound, *final (self), r),
    {
        let ghost pre = *old(self);
        let ghost inbound_all = inbound@;
        let mut inbound_left = inbound;
        proof {
            assert(inbound_left@ =~= inbound_all.subrange(
                inbound_all.len() - inbound_left@.len(),
                inbound_all.len() as int,
            ));
            assert(inbound_all.take(inbound_all.len() - inbound_left@.len()) =~= Seq::<
                (u64, NegotiationResult<TProtoHandler::Output>),
            >::empty());
        }
        while inbound_left.len() > 0
            invariant
                self.wf(),
                pre.wf(),
                inbound_left@.len() <= inbound_all.len(),
                distinct_ids(inbound_all),
                forall|i: int|
                    0 <= i < inbound_all.len() ==> pre.negotiating_in@.contains(
                        (#[trigger] inbound_all[i]).0,
                    ),
                inbound_left@ == inbound_all.subrange(
                    inbound_all.len() - inbound_left@.len(),
                    inbound_all.len() as int,
                ),
                Self::inbound_drain_rel(
                    pre.handler,
                    inbound_all.take(inbound_all.len() - inbound_left@.len()),
                    self.handler,
                ),
                forall|t: u64|
                    self.negotiating_in@.contains(t) <==> (pre.negotiating_in@.contains(t)
                        && !has_id(
                        inbound_all.take(inbound_all.len() - inbound_left@.len()),
                        t,
                    )),
                self.negotiating_out@ == pre.negotiating_out@,
                self.queued_dial_upgrades@ == pre.queued_dial_upgrades@,
                self.unique_dial_upgrade_id == pre.unique_dial_upgrade_id,
                self.next_inbound_token == pre.next_inbound_token,
                Self::same_config(pre, *self),
            decreases inbound_left@.len(),
        {
            let ghost k = inbound_all.len() - inbound_left@.len();
            let ghost before_seq = inbound_left@;
            let ghost handler_before = self.handler;
            let ghost tokens_before = self.negotiating_in@;
            let (token, result) = inbound_left.remove(0);
            proof {
                before_seq.remove_ensures(0);
                assert(before_seq[0] == inbound_all[k]);
                assert(token == before_seq[0].0 && result == before_seq[0].1);
                assert((token, result) =~= inbound_all[k]);
                assert(inbound_left@ == before_seq.remove(0));
                assert forall|i: int|
                    0 <= i < inbound_left@.len() implies inbound_left@[i] == inbound_all[k + 1
                    + i] by {
                    assert(before_seq.remove(0)[i] == before_seq[i + 1]);
                    assert(before_seq[i + 1] == inbound_all[k + 1 + i]);
                }
                assert(inbound_left@ =~= inbound_all.subrange(
                    k + 1,
                    inbound_all.len() as int,
                ));
                assert(pre.negotiating_in@.contains(token));
                if has_id(inbound_all.take(k), token) {
                    let j = choose|j: int|
                        0 <= j < k && (#[trigger] inbound_all.take(k)[j]).0 == token;
                    assert(inbound_all[j].0 == inbound_all[k].0);
                    assert(false);
                }
                assert(self.negotiating_in@.contains(token));
            }
            let pos = position_of_token(&self.negotiating_in, token).unwrap();
            proof {
                lemma_remove_token(tokens_before, pos as int, token);
            }
            let _ = self.negotiating_in.remove(pos);
            match result {
                NegotiationResult::Negotiated(output) => {
                    self.handler.inject_fully_negotiated(output, NodeHandlerEndpoint::Listener);
                },
                NegotiationResult::Failed => {},
            }
            proof {
                assert(Self::inbound_outcome_step(handler_before, inbound_all[k], self.handler));
                Self::lemma_inbound_drain_snoc(
                    pre.handler,
                    inbound_all.take(k),
                    handler_before,
                    inbound_all[k],
                    self.handler,
                );
                assert(inbound_all.take(k + 1) =~= inbound_all.take(k).push(inbound_all[k]));
                assert(inbound_all.len() - inbound_left@.len() == k + 1);
                assert forall|t: u64|
                    self.negotiating_in@.contains(t) <==> (pre.negotiating_in@.contains(t)
                        && !has_id(inbound_all.take(k + 1), t)) by {
                    assert(inbound_all.take(k + 1)[k] == inbound_all[k]);
                    if t == token {
                        assert(has_id(inbound_all.take(k + 1), t));
                        assert(!self.negotiating_in@.contains(t));
                    } else {
                        if has_id(inbound_all.take(k + 1), t) {
                            let j = choose|j: int|
                                0 <= j < k + 1 && (#[trigger] inbound_all.take(k + 1)[j]).0 == t;
                            assert(j != k);
                            assert(inbound_all.take(k)[j].0 == t);
                            assert(has_id(inbound_all.take(k), t));
                        }
                        if has_id(inbound_all.take(k), t) {
                            let j = choose|j: int|
                                0 <= j < k && (#[trigger] inbound_all.take(k)[j]).0 == t;
                            assert(inbound_all.take(k + 1)[j].0 == t);
                            assert(has_id(inbound_all.take(k + 1), t));
                        }
                        assert(self.negotiating_in@.contains(t) <==> tokens_before.contains(t));
                    }
                }
                assert forall|i: int|
                    0 <= i < self.negotiating_in@.len() implies #[trigger] self.negotiating_in@[i]
                    < self.next_inbound_token by {
                    assert(self.negotiating_in@.contains(self.negotiating_in@[i]));
                    assert(pre.negotiating_in@.contains(self.negotiating_in@[i]));
                    let j = choose|j: int|
                        0 <= j < pre.negotiating_in@.len() && pre.negotiating_in@[j]
                            == self.negotiating_in@[i];
                }
            }
        }
        proof {
            assert(inbound_all.take(inbound_all.len() as int) =~= inbound_all);
        }
        let ghost after_inbound_handler = self.handler;
        let ghost in_tokens_after = self.negotiating_in@;
        let ghost outbound_all = outbound@;
        let mut outbound_left = outbound;
        proof {
            assert(outbound_left@ =~= outbound_all.subrange(
                outbound_all.len() - outbound_left@.len(),
                outbound_all.len() as int,
            ));
            assert(outbound_all.take(outbound_all.len() - outbound_left@.len()) =~= Seq::<
                (u64, NegotiationResult<TProtoHandler::Output>),
            >::empty());
        }
        while outbound_left.len() > 0
            invariant
                self.wf(),
                pre.wf(),
                outbound_left@.len() <= outbound_all.len(),
                distinct_ids(outbound_all),
                forall|i: int|
                    0 <= i < outbound_all.len() ==> has_id(
                        pre.negotiating_out@,
                        (#[trigger] outbound_all[i]).0,
                    ),
                outbound_left@ == outbound_all.subrange(
                    outbound_all.len() - outbound_left@.len(),
                    outbound_all.len() as int,
                ),
                Self::outbound_drain_rel(
                    pre.negotiating_out@,
                    after_inbound_handler,
                    outbound_all.take(outbound_all.len() - outbound_left@.len()),
                    self.handler,
                ),
                forall|p: (u64, TProtoHandler::OutboundOpenInfo)| #[trigger]
                    self.negotiating_out@.contains(p) <==> (pre.negotiating_out@.contains(p)
                        && !has_id(
                        outbound_all.take(outbound_all.len() - outbound_left@.len()),
                        p.0,
                    )),
                self.negotiating_in@ == in_tokens_after,
                self.queued_dial_upgrades@ == pre.queued_dial_upgrades@,
                self.unique_dial_upgrade_id == pre.unique_dial_upgrade_id,
                self.next_inbound_token == pre.next_inbound_token,
                Self::same_config(pre, *self),
            decreases outbound_left@.len(),
        {
            let ghost k = outbound_all.len() - outbound_left@.len();
            let ghost before_seq = outbound_left@;
            let ghost handler_before = self.handler;
            let ghost entries_before = self.negotiating_out@;
            let (token, result) = outbound_left.remove(0);
            proof {
                before_seq.remove_ensures(0);
                assert(before_seq[0] == outbound_all[k]);
                assert(token == before_seq[0].0 && result == before_seq[0].1);
                assert((token, result) =~= outbound_all[k]);
                assert(outbound_left@ == before_seq.remove(0));
                assert forall|i: int|
                    0 <= i < outbound_left@.len() implies outbound_left@[i] == outbound_all[k + 1
                    + i] by {
                    assert(before_seq.remove(0)[i] == before_seq[i + 1]);
                    assert(before_seq[i + 1] == outbound_all[k + 1 + i]);
                }
                assert(outbound_left@ =~= outbound_all.subrange(
                    k + 1,
                    outbound_all.len() as int,
                ));
                assert(has_id(pre.negotiating_out@, token));
                let m = idx_of_id(pre.negotiating_out@, token);
                assert(0 <= m < pre.negotiating_out@.len() && pre.negotiating_out@[m].0 == token);
                let p0 = pre.negotiating_out@[m];
                assert(pre.negotiating_out@.contains(p0));
                if has_id(outbound_all.take(k), token) {
                    let j = choose|j: int|
                        0 <= j < k && (#[trigger] outbound_all.take(k)[j]).0 == token;
                    assert(outbound_all[j].0 == outbound_all[k].0);
                    assert(false);
                }
                assert(self.negotiating_out@.contains(p0));
            }
            let pos = position_of_id(&self.negotiating_out, token).unwrap();
            proof {
                let m = idx_of_id(pre.negotiating_out@, token);
                let p0 = pre.negotiating_out@[m];
                let q = entries_before[pos as int];
                assert(entries_before.contains(q));
                assert(pre.negotiating_out@.contains(q));
                let kq = choose|i: int|
                    0 <= i < pre.negotiating_out@.len() && pre.negotiating_out@[i] == q;
                assert(pre.negotiating_out@[kq].0 == token);
                if kq != m {
                    assert(pre.negotiating_out@[kq].0 != pre.negotiating_out@[m].0);
                }
                assert(q == p0);
                lemma_remove_id(entries_before, pos as int, token);
            }
            let entry = self.negotiating_out.remove(pos);
            let info = entry.1;
            match result {
                NegotiationResult::Negotiated(output) => {
                    self.handler.inject_fully_negotiated(
                        output,
                        NodeHandlerEndpoint::Dialer(info),
                    );
                },
                NegotiationResult::Failed => {
                    self.handler.inject_dial_upgrade_error(
                        info,
                        UpgradeError::NegotiationFailed,
                    );
                },
            }
            proof {
                let m = idx_of_id(pre.negotiating_out@, token);
                assert(pre.negotiating_out@[m].1 == info);
                assert(Self::outbound_outcome_step(
                    pre.negotiating_out@,
                    handler_before,
                    outbound_all[k],
                    self.handler,
                ));
                Self::lemma_outbound_drain_snoc(
                    pre.negotiating_out@,
                    after_inbound_handler,
                    outbound_all.take(k),
                    handler_before,
                    outbound_all[k],
                    self.handler,
                );
                assert(outbound_all.take(k + 1) =~= outbound_all.take(k).push(outbound_all[k]));
                assert(outbound_all.len() - outbound_left@.len() == k + 1);
                assert forall|p: (u64, TProtoHandler::OutboundOpenInfo)| #[trigger]
                    self.negotiating_out@.contains(p) <==> (pre.negotiating_out@.contains(p)
                        && !has_id(outbound_all.take(k + 1), p.0)) by {
                    assert(outbound_all.take(k + 1)[k] == outbound_all[k]);
                    if p.0 == token {
                        assert(has_id(outbound_all.take(k + 1), p.0));
                        assert(!self.negotiating_out@.contains(p));
                    } else {
                        if has_id(outbound_all.take(k + 1), p.0) {
                            let j = choose|j: int|
                                0 <= j < k + 1 && (#[trigger] outbound_all.take(k + 1)[j]).0
                                    == p.0;
                            assert(j != k);
                            assert(outbound_all.take(k)[j].0 == p.0);
                            assert(has_id(outbound_all.take(k), p.0));
                        }
                        if has_id(outbound_all.take(k), p.0) {
                            let j = choose|j: int|
                                0 <= j < k && (#[trigger] outbound_all.take(k)[j]).0 == p.0;
                            assert(outbound_all.take(k + 1)[j].0 == p.0);
                            assert(has_id(outbound_all.take(k + 1), p.0));
                        }
                        assert(self.negotiating_out@.contains(p) <==> entries_before.contains(p));
                    }
                }
                assert forall|i: int|
                    0 <= i < self.negotiating_out@.len() implies (
                #[trigger] self.negotiating_out@[i]).0 < self.unique_dial_upgrade_id by {
                    assert(self.negotiating_out@.contains(self.negotiating_out@[i]));
                    assert(pre.negotiating_out@.contains(self.negotiating_out@[i]));
                    let j = choose|j: int|
                        0 <= j < pre.negotiating_out@.len() && pre.negotiating_out@[j]
                            == self.negotiating_out@[i];
                }
                assert forall|id: u64|
                    has_id(self.queued_dial_upgrades@, id) implies !has_id(
                    self.negotiating_out@,
                    id,
                ) by {
                    if has_id(self.negotiating_out@, id) {
                        let j = choose|j: int|
                            0 <= j < self.negotiating_out@.len() && (
                            #[trigger] self.negotiating_out@[j]).0 == id;
                        assert(self.negotiating_out@.contains(self.negotiating_out@[j]));
                        assert(pre.negotiating_out@.contains(self.negotiating_out@[j]));
                        let jj = choose|i: int|
                            0 <= i < pre.negotiating_out@.len() && pre.negotiating_out@[i]
                                == self.negotiating_out@[j];
                        assert(has_id(pre.negotiating_out@, id));
                    }
                }
            }
        }
        proof {
            assert(outbound_all.take(outbound_all.len() as int) =~= outbound_all);
        }
        let ghost after_outbound_handler = self.handler;
        let handler_result = self.handler.poll();
        let r = match handler_result {
            HandlerPoll::Pending => AdapterPoll::Pending,
            HandlerPoll::Finished => AdapterPoll::Finished,
            HandlerPoll::Failed => AdapterPoll::HandlerFailed,
            HandlerPoll::Ready(ProtocolsHandlerEvent::Custom(event)) => AdapterPoll::Ready(
                NodeHandlerEvent::Custom(event),
            ),
            HandlerPoll::Ready(ProtocolsHandlerEvent::OutboundSubstreamRequest {
                upgrade,
                info,
            }) => {
                let id = self.unique_dial_upgrade_id;
                self.unique_dial_upgrade_id = id + 1;
                self.queued_dial_upgrades.push((id, upgrade));
                proof {
                    assert forall|i: int, j: int|
                        0 <= i < j < self.queued_dial_upgrades@.len() implies (
                    #[trigger] self.queued_dial_upgrades@[i]).0 != (
                    #[trigger] self.queued_dial_upgrades@[j]).0 by {
                        if j == self.queued_dial_upgrades@.len() - 1 {
                            assert(pre.queued_dial_upgrades@[i].0 < id);
                        }
                    }
                    assert forall|id2: u64|
                        has_id(self.queued_dial_upgrades@, id2) implies !has_id(
                        self.negotiating_out@,
                        id2,
                    ) by {
                        let j = choose|j: int|
                            0 <= j < self.queued_dial_upgrades@.len() && (
                            #[trigger] self.queued_dial_upgrades@[j]).0 == id2;
                        if j < pre.queued_dial_upgrades@.len() {
                            assert(has_id(pre.queued_dial_upgrades@, id2));
                        } else {
                            assert(id2 == id);
                            if has_id(self.negotiating_out@, id2) {
                                let n = choose|n: int|
                                    0 <= n < self.negotiating_out@.len() && (
                                    #[trigger] self.negotiating_out@[n]).0 == id2;
                            }
                        }
                    }
                }
                AdapterPoll::Ready(NodeHandlerEvent::OutboundSubstreamRequest((id, info)))
            },
        };
        proof {
            assert(Self::inbound_drain_rel(pre.handler, inbound_all, after_inbound_handler));
            assert(Self::outbound_drain_rel(
                pre.negotiating_out@,
                after_inbound_handler,
                outbound_all,
                after_outbound_handler,
            ));
            assert(TProtoHandler::poll_rel(after_outbound_handler, self.handler, handler_result));
            assert(Self::poll_result_transition(pre, after_outbound_handler, *self, r));
        }
        r
    }
}

} // verus!
