//! Per-connection protocol-negotiation bookkeeping.
//!
//! A [`ProtocolsHandler`](handler::ProtocolsHandler) holds the business logic
//! for one or more protocols spoken with a single remote, indifferent to
//! substream bookkeeping. The negotiation adapter
//! ([`NodeHandlerWrapper`](wrapper::NodeHandlerWrapper)) turns such a handler
//! into the lower-level contract a connection manager drives: it tracks
//! in-flight substream negotiations, matches completions back to the requests
//! that caused them by a unique identifier, applies the configured timeouts,
//! and exposes a single polled event stream.
//!
//! The byte-level negotiation itself and the timer are collaborators outside
//! this crate: the adapter hands out [`NegotiationStart`](types::NegotiationStart)
//! instructions and is later told each outcome as a plain
//! [`NegotiationResult`](types::NegotiationResult) value.

pub mod dummy;
pub mod events;
pub mod handler;
pub mod laws;
pub mod map_in_event;
pub mod map_out_event;
pub mod types;
pub mod wrapper;

pub use dummy::DummyProtocolsHandler;
pub use events::ProtocolsHandlerEvent;
pub use handler::HandlerPoll;
pub use handler::ProtocolsHandler;
pub use map_in_event::MapInEvent;
pub use map_out_event::MapOutEvent;
pub use wrapper::AdapterPoll;
pub use wrapper::DEFAULT_NEGOTIATION_TIMEOUT_MS;
pub use wrapper::NodeHandlerWrapper;
pub use wrapper::NodeHandlerWrapperBuilder;

pub use types::DeniedConnectionUpgrade;
pub use types::Endpoint;
pub use types::NegotiationResult;
pub use types::NegotiationStart;
pub use types::NodeHandlerEndpoint;
pub use types::NodeHandlerEvent;
pub use types::UnknownUpgradeId;
pub use types::UpgradeError;
pub use types::Void;
