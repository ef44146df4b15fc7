//! Behaviour of the negotiation adapter: accepting substreams in both
//! directions, delivering negotiation outcomes, identifier assignment, and the
//! defensive handling of unknown identifiers.

use protocols_handler::AdapterPoll;
use protocols_handler::HandlerPoll;
use protocols_handler::ProtocolsHandler;
use protocols_handler::ProtocolsHandlerEvent;
use protocols_handler::types::Endpoint;
use protocols_handler::types::NegotiationResult;
use protocols_handler::types::NodeHandlerEndpoint;
use protocols_handler::types::NodeHandlerEvent;
use protocols_handler::types::UnknownUpgradeId;
use protocols_handler::types::UpgradeError;

/// A handler that records every signal it receives and answers polls from a
/// script; `Protocol`/`Output`/`OutboundOpenInfo` are plain strings.
struct ScriptedHandler {
    negotiated: Vec<(String, NodeHandlerEndpoint<String>)>,
    dial_errors: Vec<(String, UpgradeError)>,
    inbound_closed_count: u32,
    shutting_down: bool,
    script: Vec<HandlerPoll<String, String, u32>>,
}

impl ScriptedHandler {
    fn new() -> Self {
        ScriptedHandler {
            negotiated: Vec::new(),
            dial_errors: Vec::new(),
            inbound_closed_count: 0,
            shutting_down: false,
            script: Vec::new(),
        }
    }

    fn requesting(info: &str) -> Self {
        let mut handler = ScriptedHandler::new();
        handler.script.push(HandlerPoll::Ready(
            ProtocolsHandlerEvent::OutboundSubstreamRequest {
                upgrade: "dial-proto".to_string(),
                info: info.to_string(),
            },
        ));
        handler
    }
}

impl ProtocolsHandler for ScriptedHandler {
    type InEvent = u32;
    type OutEvent = u32;
    type Substream = u8;
    type Protocol = String;
    type Output = String;
    type OutboundOpenInfo = String;


    fn wf(self) -> bool {
        true
    }

    fn listen_protocol_spec(self) -> String {
        "listen-proto".to_string()
    }

    fn fully_negotiated_rel(
        _pre: Self,
        _protocol: String,
        _endpoint: NodeHandlerEndpoint<String>,
        _post: Self,
    ) -> bool {
        true
    }

    fn event_rel(_pre: Self, _event: u32, _post: Self) -> bool {
        true
    }

    fn dial_upgrade_error_rel(_pre: Self, _info: String, _error: UpgradeError, _post: Self) -> bool {
        true
    }

    fn inbound_closed_rel(_pre: Self, _post: Self) -> bool {
        true
    }

    fn shutdown_rel(_pre: Self, _post: Self) -> bool {
        true
    }

    fn poll_rel(_pre: Self, _post: Self, _result: HandlerPoll<String, String, u32>) -> bool {
        true
    }

    fn listen_protocol(&self) -> String {
        "listen-proto".to_string()
    }

    fn inject_fully_negotiated(&mut self, protocol: String, endpoint: NodeHandlerEndpoint<String>) {
        self.negotiated.push((protocol, endpoint));
    }

    fn inject_event(&mut self, _event: u32) {}

    fn inject_dial_upgrade_error(&mut self, info: String, error: UpgradeError) {
        self.dial_errors.push((info, error));
    }

    fn inject_inbound_closed(&mut self) {
        self.inbound_closed_count += 1;
    }

    fn shutdown(&mut self) {
        self.shutting_down = true;
    }

    fn poll(&mut self) -> HandlerPoll<String, String, u32> {
        if !self.script.is_empty() {
            self.script.remove(0)
        } else if self.shutting_down {
            HandlerPoll::Finished
        } else {
            HandlerPoll::Pending
        }
    }
}

#[test]
fn builder_uses_ten_second_defaults() {
    let adapter = ScriptedHandler::new().into_node_handler();
    assert_eq!(adapter.in_timeout_ms, 10_000);
    assert_eq!(adapter.out_timeout_ms, 10_000);
}

#[test]
fn builder_overrides_each_timeout_independently() {
    let adapter = ScriptedHandler::new()
        .into_node_handler_builder()
        .with_in_negotiation_timeout(111)
        .with_out_negotiation_timeout(222)
        .build();
    assert_eq!(adapter.in_timeout_ms, 111);
    assert_eq!(adapter.out_timeout_ms, 222);
}

#[test]
fn listener_substream_starts_inbound_negotiation() {
    let mut adapter = ScriptedHandler::new()
        .into_node_handler_builder()
        .with_in_negotiation_timeout(500)
        .build();
    let start = adapter
        .inject_substream(7u8, NodeHandlerEndpoint::Listener)
        .unwrap();
    assert_eq!(start.token, 0);
    assert_eq!(start.substream, 7u8);
    assert_eq!(start.protocol, "listen-proto".to_string());
    assert_eq!(start.endpoint, Endpoint::Listener);
    assert_eq!(start.timeout_ms, 500);
    assert_eq!(adapter.negotiating_in, vec![0]);
}

#[test]
fn inbound_success_is_delivered_tagged_listener() {
    let mut adapter = ScriptedHandler::new().into_node_handler();
    let start = adapter
        .inject_substream(7u8, NodeHandlerEndpoint::Listener)
        .unwrap();
    let result = adapter.poll(
        vec![(start.token, NegotiationResult::Negotiated("opened".to_string()))],
        Vec::new(),
    );
    assert_eq!(result, AdapterPoll::Pending);
    assert_eq!(
        adapter.handler.negotiated,
        vec![("opened".to_string(), NodeHandlerEndpoint::Listener)]
    );
    assert!(adapter.negotiating_in.is_empty());
}

#[test]
fn inbound_failure_is_silently_dropped() {
    let mut adapter = ScriptedHandler::new().into_node_handler();
    let start = adapter
        .inject_substream(7u8, NodeHandlerEndpoint::Listener)
        .unwrap();
    let result = adapter.poll(vec![(start.token, NegotiationResult::Failed)], Vec::new());
    assert_eq!(result, AdapterPoll::Pending);
    assert!(adapter.handler.negotiated.is_empty());
    assert!(adapter.handler.dial_errors.is_empty());
    assert!(adapter.negotiating_in.is_empty());
}

#[test]
fn outbound_request_is_assigned_id_zero_and_queued() {
    let mut adapter = ScriptedHandler::requesting("A").into_node_handler();
    let result = adapter.poll(Vec::new(), Vec::new());
    assert_eq!(
        result,
        AdapterPoll::Ready(NodeHandlerEvent::OutboundSubstreamRequest((
            0,
            "A".to_string()
        )))
    );
    assert_eq!(adapter.queued_dial_upgrades.len(), 1);
    assert_eq!(adapter.queued_dial_upgrades[0].0, 0);
    assert_eq!(adapter.queued_dial_upgrades[0].1, "dial-proto".to_string());
    assert_eq!(adapter.unique_dial_upgrade_id, 1);
}

#[test]
fn assigned_ids_are_unique_and_strictly_increasing() {
    let mut handler = ScriptedHandler::requesting("A");
    handler.script.push(HandlerPoll::Ready(
        ProtocolsHandlerEvent::OutboundSubstreamRequest {
            upgrade: "dial-proto".to_string(),
            info: "B".to_string(),
        },
    ));
    let mut adapter = handler.into_node_handler();
    let first = adapter.poll(Vec::new(), Vec::new());
    let second = adapter.poll(Vec::new(), Vec::new());
    assert_eq!(
        first,
        AdapterPoll::Ready(NodeHandlerEvent::OutboundSubstreamRequest((
            0,
            "A".to_string()
        )))
    );
    assert_eq!(
        second,
        AdapterPoll::Ready(NodeHandlerEvent::OutboundSubstreamRequest((
            1,
            "B".to_string()
        )))
    );
    let ids: Vec<u64> = adapter.queued_dial_upgrades.iter().map(|e| e.0).collect();
    assert_eq!(ids, vec![0, 1]);
}

#[test]
fn end_to_end_outbound_negotiation() {
    let mut adapter = ScriptedHandler::requesting("A").into_node_handler();
    let result = adapter.poll(Vec::new(), Vec::new());
    assert_eq!(
        result,
        AdapterPoll::Ready(NodeHandlerEvent::OutboundSubstreamRequest((
            0,
            "A".to_string()
        )))
    );
    let start = adapter
        .inject_substream(9u8, NodeHandlerEndpoint::Dialer((0, "A".to_string())))
        .unwrap();
    assert_eq!(start.token, 0);
    assert_eq!(start.substream, 9u8);
    assert_eq!(start.protocol, "dial-proto".to_string());
    assert_eq!(start.endpoint, Endpoint::Dialer);
    assert_eq!(start.timeout_ms, 10_000);
    assert!(adapter.queued_dial_upgrades.is_empty());
    assert_eq!(adapter.negotiating_out.len(), 1);

    let result = adapter.poll(
        Vec::new(),
        vec![(0, NegotiationResult::Negotiated("opened".to_string()))],
    );
    assert_eq!(result, AdapterPoll::Pending);
    assert_eq!(
        adapter.handler.negotiated,
        vec![(
            "opened".to_string(),
            NodeHandlerEndpoint::Dialer("A".to_string())
        )]
    );
    assert!(adapter.negotiating_out.is_empty());
}

#[test]
fn outbound_timeout_reports_dial_upgrade_error() {
    let mut adapter = ScriptedHandler::requesting("A").into_node_handler();
    let _ = adapter.poll(Vec::new(), Vec::new());
    let _ = adapter
        .inject_substream(9u8, NodeHandlerEndpoint::Dialer((0, "A".to_string())))
        .unwrap();
    let result = adapter.poll(Vec::new(), vec![(0, NegotiationResult::Failed)]);
    assert_eq!(result, AdapterPoll::Pending);
    assert_eq!(
        adapter.handler.dial_errors,
        vec![("A".to_string(), UpgradeError::NegotiationFailed)]
    );
    assert!(adapter.negotiating_out.is_empty());
    assert!(adapter.handler.negotiated.is_empty());
}

#[test]
fn outbound_closed_reports_reset_and_consumes_entry() {
    let mut adapter = ScriptedHandler::requesting("A").into_node_handler();
    let _ = adapter.poll(Vec::new(), Vec::new());
    assert_eq!(adapter.queued_dial_upgrades.len(), 1);
    let first = adapter.inject_outbound_closed((0, "A".to_string()));
    assert_eq!(first, Ok(()));
    assert_eq!(
        adapter.handler.dial_errors,
        vec![("A".to_string(), UpgradeError::ConnectionReset)]
    );
    assert!(adapter.queued_dial_upgrades.is_empty());

    let second = adapter.inject_outbound_closed((0, "A".to_string()));
    assert_eq!(second, Err(UnknownUpgradeId));
    assert_eq!(adapter.handler.dial_errors.len(), 1);
}

#[test]
fn dialer_substream_with_unknown_id_is_refused() {
    let mut adapter = ScriptedHandler::new().into_node_handler();
    let result = adapter.inject_substream(9u8, NodeHandlerEndpoint::Dialer((7, "X".to_string())));
    assert_eq!(result.err(), Some(UnknownUpgradeId));
    assert!(adapter.negotiating_out.is_empty());
}

#[test]
fn injections_are_forwarded_to_the_handler() {
    let mut adapter = ScriptedHandler::new().into_node_handler();
    adapter.inject_inbound_closed();
    assert_eq!(adapter.handler.inbound_closed_count, 1);
    adapter.inject_event(4);
    adapter.shutdown();
    assert!(adapter.handler.shutting_down);
}

#[test]
fn handler_custom_event_passes_through_poll() {
    let mut handler = ScriptedHandler::new();
    handler.script.push(HandlerPoll::Ready(ProtocolsHandlerEvent::Custom(42)));
    let mut adapter = handler.into_node_handler();
    let result = adapter.poll(Vec::new(), Vec::new());
    assert_eq!(result, AdapterPoll::Ready(NodeHandlerEvent::Custom(42)));
}

#[test]
fn handler_completion_and_failure_propagate() {
    let mut handler = ScriptedHandler::new();
    handler.shutting_down = true;
    let mut adapter = handler.into_node_handler();
    assert_eq!(adapter.poll(Vec::new(), Vec::new()), AdapterPoll::Finished);

    let mut failing = ScriptedHandler::new();
    failing.script.push(HandlerPoll::Failed);
    let mut adapter = failing.into_node_handler();
    assert_eq!(adapter.poll(Vec::new(), Vec::new()), AdapterPoll::HandlerFailed);
}

#[test]
fn outcomes_are_delivered_before_the_handler_is_polled() {
    // The handler's request is emitted by the same poll call that delivers a
    // resolved inbound negotiation: the delivery happens first, so the
    // handler's answer can already depend on it.
    let mut adapter = ScriptedHandler::requesting("A").into_node_handler();
    let start = adapter
        .inject_substream(7u8, NodeHandlerEndpoint::Listener)
        .unwrap();
    let result = adapter.poll(
        vec![(start.token, NegotiationResult::Negotiated("opened".to_string()))],
        Vec::new(),
    );
    assert_eq!(
        adapter.handler.negotiated,
        vec![("opened".to_string(), NodeHandlerEndpoint::Listener)]
    );
    assert_eq!(
        result,
        AdapterPoll::Ready(NodeHandlerEvent::OutboundSubstreamRequest((
            0,
            "A".to_string()
        )))
    );
}
