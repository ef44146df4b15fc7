//! The event type a protocol handler produces when polled, and its three
//! transform operations. Each transform rewrites one of the event's type
//! parameters and leaves the other two untouched.

use vstd::prelude::*;

verus! {

/// Event produced by a handler.
#[derive(Debug, Clone, Copy, PartialEq, Eq)]
pub enum ProtocolsHandlerEvent<TConnectionUpgrade, TOutboundOpenInfo, TCustom> {
    /// Require a new outbound substream to be opened with the remote.
    OutboundSubstreamRequest {
        /// The upgrade to apply on the substream.
        upgrade: TConnectionUpgrade,
        /// User-defined information, passed back when the substream is open.
        info: TOutboundOpenInfo,
    },
    /// Other event.
    Custom(TCustom),
}

impl<TConnectionUpgrade, TOutboundOpenInfo, TCustom>
    ProtocolsHandlerEvent<TConnectionUpgrade, TOutboundOpenInfo, TCustom>
{
    /// If this is `OutboundSubstreamRequest`, maps the content to something else.
    pub fn map_outbound_open_info<F, I>(
        self,
        map: F,
    ) -> (r: ProtocolsHandlerEvent<TConnectionUpgrade, I, TCustom>) where
        F: FnOnce(TOutboundOpenInfo) -> I,

        requires
            (self matches ProtocolsHandlerEvent::OutboundSubstreamRequest { info, .. }
                ==> call_requires(map, (info,))),
        ensures
            (self matches ProtocolsHandlerEvent::OutboundSubstreamRequest { upgrade, info }
                ==> (r matches ProtocolsHandlerEvent::OutboundSubstreamRequest {
                        upgrade: r_upgrade, info: r_info }
                    && r_upgrade == upgrade
                    && call_ensures(map, (info,), r_info))),
            (self matches ProtocolsHandlerEvent::Custom(val)
                ==> r == ProtocolsHandlerEvent::<TConnectionUpgrade, I, TCustom>::Custom(val)),
    {
        match self {
            ProtocolsHandlerEvent::OutboundSubstreamRequest { upgrade, info } => {
                ProtocolsHandlerEvent::OutboundSubstreamRequest { upgrade, info: map(info) }
            },
            ProtocolsHandlerEvent::Custom(val) => ProtocolsHandlerEvent::Custom(val),
        }
    }

    /// If this is `OutboundSubstreamRequest`, maps the protocol to another.
    pub fn map_protocol<F, I>(
        self,
        map: F,
    ) -> (r: ProtocolsHandlerEvent<I, TOutboundOpenInfo, TCustom>) where
        F: FnOnce(TConnectionUpgrade) -> I,

        requires
            (self matches ProtocolsHandlerEvent::OutboundSubstreamRequest { upgrade, .. }
                ==> call_requires(map, (upgrade,))),
        ensures
            (self matches ProtocolsHandlerEvent::OutboundSubstreamRequest { upgrade, info }
                ==> (r matches ProtocolsHandlerEvent::OutboundSubstreamRequest {
                        upgrade: r_upgrade, info: r_info }
                    && call_ensures(map, (upgrade,), r_upgrade)
                    && r_info == info)),
            (self matches ProtocolsHandlerEvent::Custom(val)
                ==> r == ProtocolsHandlerEvent::<I, TOutboundOpenInfo, TCustom>::Custom(val)),
    {
        match self {
            ProtocolsHandlerEvent::OutboundSubstreamRequest { upgrade, info } => {
                ProtocolsHandlerEvent::OutboundSubstreamRequest { upgrade: map(upgrade), info }
            },
            ProtocolsHandlerEvent::Custom(val) => ProtocolsHandlerEvent::Custom(val),
        }
    }

    /// If this is `Custom`, maps the content to something else.
    pub fn map_custom<F, I>(
        self,
        map: F,
    ) -> (r: ProtocolsHandlerEvent<TConnectionUpgrade, TOutboundOpenInfo, I>) where
        F: FnOnce(TCustom) -> I,

        requires
            (self matches ProtocolsHandlerEvent::Custom(val) ==> call_requires(map, (val,))),
        ensures
            (self matches ProtocolsHandlerEvent::OutboundSubstreamRequest { upgrade, info }
                ==> (r matches ProtocolsHandlerEvent::OutboundSubstreamRequest {
                        upgrade: r_upgrade, info: r_info }
                    && r_upgrade == upgrade
                    && r_info == info)),
            (self matches ProtocolsHandlerEvent::Custom(val)
                ==> (r matches ProtocolsHandlerEvent::Custom(r_val)
                    && call_ensures(map, (val,), r_val))),
    {
        match self {
            ProtocolsHandlerEvent::OutboundSubstreamRequest { upgrade, info } => {
                ProtocolsHandlerEvent::OutboundSubstreamRequest { upgrade, info }
            },
            ProtocolsHandlerEvent::Custom(val) => ProtocolsHandlerEvent::Custom(map(val)),
        }
    }
}

} // verus!
