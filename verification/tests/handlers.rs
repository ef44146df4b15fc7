//! Behaviour of the handler implementations and combinators: the null
//! handler's shutdown life cycle, the event transforms, and the two
//! event-mapping wrappers.

use protocols_handler::DummyProtocolsHandler;
use protocols_handler::HandlerPoll;
use protocols_handler::ProtocolsHandler;
use protocols_handler::ProtocolsHandlerEvent;
use protocols_handler::types::NodeHandlerEndpoint;
use protocols_handler::types::UpgradeError;

/// A handler that records every signal it receives and answers polls from a
/// script; `Protocol`/`Output`/`OutboundOpenInfo` are plain strings.
struct RecordingHandler {
    negotiated: Vec<(String, NodeHandlerEndpoint<String>)>,
    events: Vec<u32>,
    dial_errors: Vec<(String, UpgradeError)>,
    inbound_closed_count: u32,
    shutting_down: bool,
    script: Vec<ProtocolsHandlerEvent<String, String, u32>>,
}

impl RecordingHandler {
    fn new() -> Self {
        RecordingHandler {
            negotiated: Vec::new(),
            events: Vec::new(),
            dial_errors: Vec::new(),
            inbound_closed_count: 0,
            shutting_down: false,
            script: Vec::new(),
        }
    }
}

impl ProtocolsHandler for RecordingHandler {
    type InEvent = u32;
    type OutEvent = u32;
    type Substream = u8;
    type Protocol = String;
    type Output = String;
    type OutboundOpenInfo = String;


    fn wf(self) -> bool {
        true
    }

    fn listen_protocol_spec(self) -> String {
        "proto".to_string()
    }

    fn fully_negotiated_rel(
        _pre: Self,
        _protocol: String,
        _endpoint: NodeHandlerEndpoint<String>,
        _post: Self,
    ) -> bool {
        true
    }

    fn event_rel(_pre: Self, _event: u32, _post: Self) -> bool {
        true
    }

    fn dial_upgrade_error_rel(_pre: Self, _info: String, _error: UpgradeError, _post: Self) -> bool {
        true
    }

    fn inbound_closed_rel(_pre: Self, _post: Self) -> bool {
        true
    }

    fn shutdown_rel(_pre: Self, _post: Self) -> bool {
        true
    }

    fn poll_rel(_pre: Self, _post: Self, _result: HandlerPoll<String, String, u32>) -> bool {
        true
    }

    fn listen_protocol(&self) -> String {
        "proto".to_string()
    }

    fn inject_fully_negotiated(&mut self, protocol: String, endpoint: NodeHandlerEndpoint<String>) {
        self.negotiated.push((protocol, endpoint));
    }

    fn inject_event(&mut self, event: u32) {
        self.events.push(event);
    }

    fn inject_dial_upgrade_error(&mut self, info: String, error: UpgradeError) {
        self.dial_errors.push((info, error));
    }

    fn inject_inbound_closed(&mut self) {
        self.inbound_closed_count += 1;
    }

    fn shutdown(&mut self) {
        self.shutting_down = true;
    }

    fn poll(&mut self) -> HandlerPoll<String, String, u32> {
        if !self.script.is_empty() {
            HandlerPoll::Ready(self.script.remove(0))
        } else if self.shutting_down {
            HandlerPoll::Finished
        } else {
            HandlerPoll::Pending
        }
    }
}

#[test]
fn dummy_reports_pending_before_shutdown() {
    let mut handler: DummyProtocolsHandler<u8> = Default::default();
    assert_eq!(handler.poll(), HandlerPoll::Pending);
    assert_eq!(handler.poll(), HandlerPoll::Pending);
}

#[test]
fn dummy_reports_finished_after_shutdown() {
    let mut handler: DummyProtocolsHandler<u8> = Default::default();
    assert_eq!(handler.poll(), HandlerPoll::Pending);
    handler.shutdown();
    assert_eq!(handler.poll(), HandlerPoll::Finished);
    assert_eq!(handler.poll(), HandlerPoll::Finished);
}

#[test]
fn map_custom_rewrites_only_custom() {
    let event: ProtocolsHandlerEvent<String, String, u32> = ProtocolsHandlerEvent::Custom(3);
    let mapped = event.map_custom(|x| x + 1);
    assert_eq!(mapped, ProtocolsHandlerEvent::Custom(4));

    let request: ProtocolsHandlerEvent<String, String, u32> =
        ProtocolsHandlerEvent::OutboundSubstreamRequest {
            upgrade: "u".to_string(),
            info: "i".to_string(),
        };
    let passed = request.map_custom(|x| x + 1);
    assert_eq!(
        passed,
        ProtocolsHandlerEvent::OutboundSubstreamRequest {
            upgrade: "u".to_string(),
            info: "i".to_string(),
        }
    );
}

#[test]
fn map_outbound_open_info_rewrites_only_info() {
    let request: ProtocolsHandlerEvent<String, String, u32> =
        ProtocolsHandlerEvent::OutboundSubstreamRequest {
            upgrade: "u".to_string(),
            info: "i".to_string(),
        };
    let mapped = request.map_outbound_open_info(|i| i.len());
    assert_eq!(
        mapped,
        ProtocolsHandlerEvent::OutboundSubstreamRequest {
            upgrade: "u".to_string(),
            info: 1usize,
        }
    );

    let event: ProtocolsHandlerEvent<String, String, u32> = ProtocolsHandlerEvent::Custom(3);
    let passed = event.map_outbound_open_info(|i: String| i.len());
    assert_eq!(passed, ProtocolsHandlerEvent::Custom(3));
}

#[test]
fn map_protocol_rewrites_only_upgrade() {
    let request: ProtocolsHandlerEvent<String, String, u32> =
        ProtocolsHandlerEvent::OutboundSubstreamRequest {
            upgrade: "u".to_string(),
            info: "i".to_string(),
        };
    let mapped = request.map_protocol(|u| format!("{}!", u));
    assert_eq!(
        mapped,
        ProtocolsHandlerEvent::OutboundSubstreamRequest {
            upgrade: "u!".to_string(),
            info: "i".to_string(),
        }
    );
}

#[test]
fn map_in_event_drops_rejected_event() {
    let inner = RecordingHandler::new();
    let mut wrapped = inner.map_in_event(|x: u32| if x == 1 { Some(10) } else { None });
    wrapped.inject_event(2);
    assert!(wrapped.inner.events.is_empty());
}

#[test]
fn map_in_event_forwards_accepted_event_translated() {
    let inner = RecordingHandler::new();
    let mut wrapped = inner.map_in_event(|x: u32| if x == 1 { Some(10) } else { None });
    wrapped.inject_event(1);
    assert_eq!(wrapped.inner.events, vec![10]);
    wrapped.inject_event(2);
    assert_eq!(wrapped.inner.events, vec![10]);
}

#[test]
fn map_in_event_passes_other_operations_through() {
    let inner = RecordingHandler::new();
    let mut wrapped = inner.map_in_event(|x: u32| Some(x));
    assert_eq!(wrapped.listen_protocol(), "proto".to_string());
    wrapped.inject_fully_negotiated("out".to_string(), NodeHandlerEndpoint::Listener);
    wrapped.inject_dial_upgrade_error("i".to_string(), UpgradeError::NegotiationFailed);
    wrapped.inject_inbound_closed();
    assert_eq!(
        wrapped.inner.negotiated,
        vec![("out".to_string(), NodeHandlerEndpoint::Listener)]
    );
    assert_eq!(
        wrapped.inner.dial_errors,
        vec![("i".to_string(), UpgradeError::NegotiationFailed)]
    );
    assert_eq!(wrapped.inner.inbound_closed_count, 1);
    assert_eq!(wrapped.poll(), HandlerPoll::Pending);
    wrapped.shutdown();
    assert_eq!(wrapped.poll(), HandlerPoll::Finished);
}

#[test]
fn map_out_event_rewrites_custom_events() {
    let mut inner = RecordingHandler::new();
    inner.script.push(ProtocolsHandlerEvent::Custom(5));
    let mut wrapped = inner.map_out_event(|x: u32| format!("ev{}", x));
    assert_eq!(
        wrapped.poll(),
        HandlerPoll::Ready(ProtocolsHandlerEvent::Custom("ev5".to_string()))
    );
    assert_eq!(wrapped.poll(), HandlerPoll::Pending);
}

#[test]
fn map_out_event_passes_requests_through_unchanged() {
    let mut inner = RecordingHandler::new();
    inner.script.push(ProtocolsHandlerEvent::OutboundSubstreamRequest {
        upgrade: "u".to_string(),
        info: "i".to_string(),
    });
    let mut wrapped = inner.map_out_event(|x: u32| format!("ev{}", x));
    assert_eq!(
        wrapped.poll(),
        HandlerPoll::Ready(ProtocolsHandlerEvent::OutboundSubstreamRequest {
            upgrade: "u".to_string(),
            info: "i".to_string(),
        })
    );
}

#[test]
fn map_out_event_passes_injections_through() {
    let inner = RecordingHandler::new();
    let mut wrapped = inner.map_out_event(|x: u32| x + 1);
    wrapped.inject_event(9);
    wrapped.inject_fully_negotiated(
        "out".to_string(),
        NodeHandlerEndpoint::Dialer("d".to_string()),
    );
    assert_eq!(wrapped.inner.events, vec![9]);
    assert_eq!(
        wrapped.inner.negotiated,
        vec![(
            "out".to_string(),
            NodeHandlerEndpoint::Dialer("d".to_string())
        )]
    );
}
