//! Plain value types shared by the handler interface and the negotiation
//! adapter: direction tags, the events exchanged with the connection manager,
//! and the instructions and outcomes of externally-driven negotiations.

use vstd::prelude::*;

verus! {

/// An event type that is never produced: it has no public constructor and this
/// crate never builds one. Used by handlers that consume or produce no events
/// at all, such as [`crate::dummy::DummyProtocolsHandler`].
#[derive(Clone, Copy, Debug, PartialEq, Eq, Structural)]
pub struct Void {
    never: bool,
}

/// Whether a substream was accepted passively (`Listener`) or opened by a
/// local request (`Dialer`).
#[derive(Clone, Copy, Debug, PartialEq, Eq, Structural)]
pub enum Endpoint {
    /// The substream was opened by us.
    Dialer,
    /// The substream was opened by the remote.
    Listener,
}

/// Direction tag attached to a substream when the connection manager delivers
/// it, or to a fully-negotiated protocol when it is handed to a handler. The
/// `Dialer` side carries back whatever correlation data was supplied when the
/// substream was requested.
#[derive(Clone, Copy, Debug, PartialEq, Eq)]
pub enum NodeHandlerEndpoint<TOutboundOpenInfo> {
    /// The substream answers an outbound request; carries the request's data.
    Dialer(TOutboundOpenInfo),
    /// The substream was offered by the remote.
    Listener,
}

/// Event that the negotiation adapter reports upward to the connection
/// manager.
#[derive(Clone, Copy, Debug, PartialEq, Eq)]
pub enum NodeHandlerEvent<TOutboundOpenInfo, TCustom> {
    /// Require a new outbound substream to be opened with the remote.
    OutboundSubstreamRequest(TOutboundOpenInfo),
    /// Other event.
    Custom(TCustom),
}

/// Why an outbound substream upgrade was reported as failed to the handler.
#[derive(Clone, Copy, Debug, PartialEq, Eq, Structural)]
pub enum UpgradeError {
    /// The outbound direction was closed before a substream arrived.
    ConnectionReset,
    /// Negotiation on the substream failed or timed out.
    NegotiationFailed,
}

/// Outcome of one negotiation, reported to the adapter by whoever drives the
/// negotiation future. A negotiation that has not resolved yet is simply not
/// reported. A timeout is indistinguishable from any other failure.
#[derive(Clone, Copy, Debug, PartialEq, Eq)]
pub enum NegotiationResult<TOutput> {
    /// Negotiation completed and produced a typed protocol instance.
    Negotiated(TOutput),
    /// Negotiation failed or exceeded its deadline.
    Failed,
}

/// Instruction handed back by the adapter when it accepts a substream: the
/// caller must start negotiating `protocol` on `substream` in the given role,
/// fail the attempt after `timeout_ms` milliseconds, and later report the
/// outcome to [`crate::wrapper::NodeHandlerWrapper::poll`] under `token`.
pub struct NegotiationStart<TSubstream, TProtocol> {
    /// Key under which the outcome must be reported back.
    pub token: u64,
    /// The raw substream to negotiate on.
    pub substream: TSubstream,
    /// The upgrade to apply on the substream.
    pub protocol: TProtocol,
    /// Which side of the negotiation we are.
    pub endpoint: Endpoint,
    /// Deadline for the whole negotiation, in milliseconds.
    pub timeout_ms: u64,
}

/// Defensive failure: the connection manager referenced an upgrade id that is
/// not queued. This signals a violation of the id-uniqueness contract by the
/// caller, not a normal error path.
#[derive(Clone, Copy, Debug, PartialEq, Eq, Structural)]
pub struct UnknownUpgradeId;

/// A protocol descriptor that rejects every negotiation attempt. Its output
/// type is [`Void`]: no substream ever negotiates it successfully.
#[derive(Clone, Copy, Debug, PartialEq, Eq, Structural)]
pub struct DeniedConnectionUpgrade;

} // verus!
