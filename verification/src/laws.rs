//! Laws of the negotiation adapter, stated over the transition relations its
//! methods ensure: identifiers are handed out strictly increasing and consumed
//! exactly once, resolved negotiations reach the handler as exactly one signal
//! each, and a repeated closure report is refused.

use vstd::prelude::*;

use crate::handler::ProtocolsHandler;
use crate::types::NegotiationResult;
use crate::types::NegotiationStart;
use crate::types::NodeHandlerEndpoint;
use crate::types::UpgradeError;
use crate::wrapper::AdapterPoll;
use crate::wrapper::NodeHandlerWrapper;
use crate::wrapper::has_id;
use crate::wrapper::idx_of_id;
use crate::wrapper::lemma_remove_id;

verus! {

/// One call of the adapter's mutating interface, as its contracts describe
/// them: accepting a substream in either direction, a closure report, one of
/// the pure forwards to the handler, or a poll. Both endpoints satisfy the
/// adapter's invariant, as every method requires and ensures it.
pub open spec fn adapter_step<TProtoHandler: ProtocolsHandler>(
    pre: NodeHandlerWrapper<TProtoHandler>,
    post: NodeHandlerWrapper<TProtoHandler>,
) -> bool {
    &&& pre.wf()
    &&& post.wf()
    &&& {
        ||| exists|substream: TProtoHandler::Substream, start:
            NegotiationStart<TProtoHandler::Substream, TProtoHandler::Protocol>|
            #[trigger] NodeHandlerWrapper::<TProtoHandler>::listener_accept_transition(
                pre,
                substream,
                post,
                start,
            )
        ||| exists|
            substream: TProtoHandler::Substream,
            id: u64,
            info: TProtoHandler::OutboundOpenInfo,
            r: Result<
                NegotiationStart<TProtoHandler::Substream, TProtoHandler::Protocol>,
                crate::types::UnknownUpgradeId,
            >,
        |
            #[trigger] NodeHandlerWrapper::<TProtoHandler>::dialer_accept_transition(
                pre,
                substream,
                id,
                info,
                post,
                r,
            )
        ||| exists|id: u64, info: TProtoHandler::OutboundOpenInfo, accepted: bool|
            #[trigger] NodeHandlerWrapper::<TProtoHandler>::outbound_closed_transition(
                pre,
                id,
                info,
                post,
                accepted,
            )
        ||| NodeHandlerWrapper::<TProtoHandler>::only_handler_changed(pre, post)
        ||| exists|handler_mid: TProtoHandler, r:
            AdapterPoll<(u64, TProtoHandler::OutboundOpenInfo), TProtoHandler::OutEvent>|
            #[trigger] NodeHandlerWrapper::<TProtoHandler>::poll_result_transition(
                pre,
                handler_mid,
                post,
                r,
            )
    }
}

/// The step `pre -> post` hands out the identifier `id`: this is what the
/// adapter's poll does when the handler asks for an outbound substream — the
/// request takes the counter's current value and the counter moves past it.
pub open spec fn assigns_id<TProtoHandler: ProtocolsHandler>(
    pre: NodeHandlerWrapper<TProtoHandler>,
    post: NodeHandlerWrapper<TProtoHandler>,
    id: u64,
) -> bool {
    &&& id == pre.unique_dial_upgrade_id
    &&& post.unique_dial_upgrade_id == pre.unique_dial_upgrade_id + 1
}

/// A poll whose answer carries an outbound-substream request has assigned
/// exactly the identifier it emits: the counter's current value, which was
/// never queued before and is queued afterwards.
pub proof fn lemma_poll_request_assigns_id<TProtoHandler: ProtocolsHandler>(
    pre: NodeHandlerWrapper<TProtoHandler>,
    handler_mid: TProtoHandler,
    post: NodeHandlerWrapper<TProtoHandler>,
    id: u64,
    info: TProtoHandler::OutboundOpenInfo,
)
    requires
        pre.wf(),
        NodeHandlerWrapper::<TProtoHandler>::poll_result_transition(
            pre,
            handler_mid,
            post,
            AdapterPoll::Ready(
                crate::types::NodeHandlerEvent::OutboundSubstreamRequest((id, info)),
            ),
        ),
    ensures
        assigns_id(pre, post, id),
        !has_id(pre.queued_dial_upgrades@, id),
        has_id(post.queued_dial_upgrades@, id),
{
    assert(!has_id(pre.queued_dial_upgrades@, id)) by {
        if has_id(pre.queued_dial_upgrades@, id) {
            let i = idx_of_id(pre.queued_dial_upgrades@, id);
            assert(pre.queued_dial_upgrades@[i].0 < pre.unique_dial_upgrade_id);
        }
    }
    let n = post.queued_dial_upgrades@.len() - 1;
    assert(post.queued_dial_upgrades@[n].0 == id);
}

/// No adapter step ever moves the identifier counter backwards.
pub proof fn lemma_step_counter_monotone<TProtoHandler: ProtocolsHandler>(
    pre: NodeHandlerWrapper<TProtoHandler>,
    post: NodeHandlerWrapper<TProtoHandler>,
)
    requires
        adapter_step(pre, post),
    ensures
        post.unique_dial_upgrade_id >= pre.unique_dial_upgrade_id,
{
}

/// Along a run of adapter steps the identifier counter never decreases.
pub proof fn lemma_run_counter_monotone<TProtoHandler: ProtocolsHandler>(
    trace: Seq<NodeHandlerWrapper<TProtoHandler>>,
    i: int,
    j: int,
)
    requires
        forall|k: int|
            0 <= k < trace.len() - 1 ==> adapter_step(#[trigger] trace[k], trace[k + 1]),
        0 <= i <= j < trace.len(),
    ensures
        trace[j].unique_dial_upgrade_id >= trace[i].unique_dial_upgrade_id,
    decreases j - i,
{
    if i < j {
        lemma_run_counter_monotone(trace, i, j - 1);
        lemma_step_counter_monotone(trace[j - 1], trace[j]);
    }
}

/// Identifiers are assigned strictly increasing, hence each one only once:
/// when step `i` of a run assigns `id_i` and a later step `j` assigns `id_j`,
/// then `id_i < id_j`.
pub proof fn lemma_assigned_ids_strictly_increase<TProtoHandler: ProtocolsHandler>(
    trace: Seq<NodeHandlerWrapper<TProtoHandler>>,
    i: int,
    j: int,
    id_i: u64,
    id_j: u64,
)
    requires
        forall|k: int|
            0 <= k < trace.len() - 1 ==> adapter_step(#[trigger] trace[k], trace[k + 1]),
        0 <= i < j < trace.len() - 1,
        assigns_id(trace[i], trace[i + 1], id_i),
        assigns_id(trace[j], trace[j + 1], id_j),
    ensures
        id_i < id_j,
{
    lemma_run_counter_monotone(trace, i + 1, j);
}

/// An identifier that has been consumed never returns to the queue: one step
/// keeps a below-counter identifier absent.
pub proof fn lemma_consumed_id_stays_consumed<TProtoHandler: ProtocolsHandler>(
    pre: NodeHandlerWrapper<TProtoHandler>,
    post: NodeHandlerWrapper<TProtoHandler>,
    id: u64,
)
    requires
        adapter_step(pre, post),
        id < pre.unique_dial_upgrade_id,
        !has_id(pre.queued_dial_upgrades@, id),
    ensures
        id < post.unique_dial_upgrade_id,
        !has_id(post.queued_dial_upgrades@, id),
{
    lemma_step_counter_monotone(pre, post);
    if has_id(post.queued_dial_upgrades@, id) {
        let n = choose|n: int|
            0 <= n < post.queued_dial_upgrades@.len() && (
            #[trigger] post.queued_dial_upgrades@[n]).0 == id;
        if post.queued_dial_upgrades@ == pre.queued_dial_upgrades@ {
            assert(has_id(pre.queued_dial_upgrades@, id));
        } else if exists|id2: u64, info: TProtoHandler::OutboundOpenInfo, accepted: bool|
            #[trigger] NodeHandlerWrapper::<TProtoHandler>::outbound_closed_transition(
                pre,
                id2,
                info,
                post,
                accepted,
            ) {
            let (id2, info, accepted) = choose|
                id2: u64,
                info: TProtoHandler::OutboundOpenInfo,
                accepted: bool,
            |
                #[trigger] NodeHandlerWrapper::<TProtoHandler>::outbound_closed_transition(
                    pre,
                    id2,
                    info,
                    post,
                    accepted,
                );
            if has_id(pre.queued_dial_upgrades@, id2) {
                let i2 = idx_of_id(pre.queued_dial_upgrades@, id2);
                lemma_remove_id(pre.queued_dial_upgrades@, i2, id2);
                assert(has_id(pre.queued_dial_upgrades@, id));
            }
        } else if exists|
            substream: TProtoHandler::Substream,
            id2: u64,
            info: TProtoHandler::OutboundOpenInfo,
            r: Result<
                NegotiationStart<TProtoHandler::Substream, TProtoHandler::Protocol>,
                crate::types::UnknownUpgradeId,
            >,
        |
            #[trigger] NodeHandlerWrapper::<TProtoHandler>::dialer_accept_transition(
                pre,
                substream,
                id2,
                info,
                post,
                r,
            ) {
            let (substream, id2, info, r) = choose|
                substream: TProtoHandler::Substream,
                id2: u64,
                info: TProtoHandler::OutboundOpenInfo,
                r: Result<
                    NegotiationStart<TProtoHandler::Substream, TProtoHandler::Protocol>,
                    crate::types::UnknownUpgradeId,
                >,
            |
                #[trigger] NodeHandlerWrapper::<TProtoHandler>::dialer_accept_transition(
                    pre,
                    substream,
                    id2,
                    info,
                    post,
                    r,
                );
            if has_id(pre.queued_dial_upgrades@, id2) {
                let i2 = idx_of_id(pre.queued_dial_upgrades@, id2);
                lemma_remove_id(pre.queued_dial_upgrades@, i2, id2);
                assert(has_id(pre.queued_dial_upgrades@, id));
            }
        } else {
            // a poll: the queue is unchanged or gains only the fresh identifier
            if n == pre.queued_dial_upgrades@.len() {
                assert(id == pre.unique_dial_upgrade_id);
            } else {
                assert(pre.queued_dial_upgrades@[n].0 == id);
            }
        }
    }
}

/// P1 over a whole run: an identifier below the counter that is out of the
/// queue stays out of the queue forever — a consumed request can never return
/// to a "matched" state.
pub proof fn lemma_consumed_id_stays_consumed_in_run<TProtoHandler: ProtocolsHandler>(
    trace: Seq<NodeHandlerWrapper<TProtoHandler>>,
    id: u64,
    i: int,
    j: int,
)
    requires
        forall|k: int|
            0 <= k < trace.len() - 1 ==> adapter_step(#[trigger] trace[k], trace[k + 1]),
        0 <= i <= j < trace.len(),
        id < trace[i].unique_dial_upgrade_id,
        !has_id(trace[i].queued_dial_upgrades@, id),
    ensures
        !has_id(trace[j].queued_dial_upgrades@, id),
    decreases j - i,
{
    if i < j {
        lemma_consumed_id_stays_consumed_in_run(trace, id, i, j - 1);
        lemma_run_counter_monotone(trace, i, j - 1);
        lemma_consumed_id_stays_consumed(trace[j - 1], trace[j], id);
    }
}

/// An inbound negotiation that completes before its timeout is delivered as
/// exactly one fully-negotiated signal tagged `Listener`, carrying the
/// produced output. (A poll that reports further outcomes delivers exactly one
/// such signal per completed inbound negotiation, in report order.)
pub proof fn lemma_inbound_success_delivers_once<TProtoHandler: ProtocolsHandler>(
    pre_handler: TProtoHandler,
    token: u64,
    output: TProtoHandler::Output,
    post_handler: TProtoHandler,
)
    requires
        NodeHandlerWrapper::<TProtoHandler>::inbound_drain_rel(
            pre_handler,
            seq![(token, NegotiationResult::Negotiated(output))],
            post_handler,
        ),
    ensures
        TProtoHandler::fully_negotiated_rel(
            pre_handler,
            output,
            NodeHandlerEndpoint::Listener,
            post_handler,
        ),
{
    let outcomes = seq![(token, NegotiationResult::Negotiated(output))];
    let mid = choose|mid: TProtoHandler|
        #[trigger] NodeHandlerWrapper::<TProtoHandler>::inbound_outcome_step(
            pre_handler,
            outcomes[0],
            mid,
        ) && NodeHandlerWrapper::<TProtoHandler>::inbound_drain_rel(
            mid,
            outcomes.drop_first(),
            post_handler,
        );
    assert(outcomes.drop_first().len() == 0);
    assert(mid == post_handler);
}

/// Inbound negotiation failures — timeouts included — are silently dropped:
/// a poll whose inbound outcomes are all failures leaves the handler exactly
/// as it was, with no callback of any kind.
pub proof fn lemma_inbound_failures_are_silent<TProtoHandler: ProtocolsHandler>(
    pre_handler: TProtoHandler,
    outcomes: Seq<(u64, NegotiationResult<TProtoHandler::Output>)>,
    post_handler: TProtoHandler,
)
    requires
        NodeHandlerWrapper::<TProtoHandler>::inbound_drain_rel(pre_handler, outcomes, post_handler),
        forall|i: int| 0 <= i < outcomes.len() ==> (#[trigger] outcomes[i]).1 is Failed,
    ensures
        post_handler == pre_handler,
    decreases outcomes.len(),
{
    if outcomes.len() > 0 {
        let mid = choose|mid: TProtoHandler|
            #[trigger] NodeHandlerWrapper::<TProtoHandler>::inbound_outcome_step(
                pre_handler,
                outcomes[0],
                mid,
            ) && NodeHandlerWrapper::<TProtoHandler>::inbound_drain_rel(
                mid,
                outcomes.drop_first(),
                post_handler,
            );
        assert(mid == pre_handler);
        assert forall|i: int|
            0 <= i < outcomes.drop_first().len() implies (
        #[trigger] outcomes.drop_first()[i]).1 is Failed by {
            assert(outcomes.drop_first()[i] == outcomes[i + 1]);
        }
        lemma_inbound_failures_are_silent(pre_handler, outcomes.drop_first(), post_handler);
    }
}

/// An outbound negotiation that fails — its timeout elapsing included — is
/// reported as exactly one dial-upgrade error carrying the correlation data
/// that was supplied with the original request. (That the pending entry leaves
/// the adapter is part of the poll contract itself.)
pub proof fn lemma_outbound_failure_reports_once<TProtoHandler: ProtocolsHandler>(
    pending: Seq<(u64, TProtoHandler::OutboundOpenInfo)>,
    pre_handler: TProtoHandler,
    token: u64,
    post_handler: TProtoHandler,
)
    requires
        NodeHandlerWrapper::<TProtoHandler>::outbound_drain_rel(
            pending,
            pre_handler,
            seq![(token, NegotiationResult::Failed)],
            post_handler,
        ),
    ensures
        TProtoHandler::dial_upgrade_error_rel(
            pre_handler,
            pending[idx_of_id(pending, token)].1,
            UpgradeError::NegotiationFailed,
            post_handler,
        ),
{
    let outcomes = seq![(token, NegotiationResult::<TProtoHandler::Output>::Failed)];
    let mid = choose|mid: TProtoHandler|
        #[trigger] NodeHandlerWrapper::<TProtoHandler>::outbound_outcome_step(
            pending,
            pre_handler,
            outcomes[0],
            mid,
        ) && NodeHandlerWrapper::<TProtoHandler>::outbound_drain_rel(
            pending,
            mid,
            outcomes.drop_first(),
            post_handler,
        );
    assert(outcomes.drop_first().len() == 0);
    assert(mid == post_handler);
}

/// Closing the outbound direction for a queued identifier reports exactly one
/// dial-upgrade error with a reset-like cause and removes exactly that
/// identifier from the queue; a second closure report for the same identifier
/// is refused as a contract violation and changes nothing.
pub proof fn lemma_second_close_is_violation<TProtoHandler: ProtocolsHandler>(
    s0: NodeHandlerWrapper<TProtoHandler>,
    s1: NodeHandlerWrapper<TProtoHandler>,
    s2: NodeHandlerWrapper<TProtoHandler>,
    id: u64,
    info1: TProtoHandler::OutboundOpenInfo,
    info2: TProtoHandler::OutboundOpenInfo,
    ok1: bool,
    ok2: bool,
)
    requires
        s0.wf(),
        has_id(s0.queued_dial_upgrades@, id),
        NodeHandlerWrapper::<TProtoHandler>::outbound_closed_transition(s0, id, info1, s1, ok1),
        NodeHandlerWrapper::<TProtoHandler>::outbound_closed_transition(s1, id, info2, s2, ok2),
    ensures
        ok1,
        TProtoHandler::dial_upgrade_error_rel(
            s0.handler,
            info1,
            UpgradeError::ConnectionReset,
            s1.handler,
        ),
        !has_id(s1.queued_dial_upgrades@, id),
        !ok2,
        NodeHandlerWrapper::<TProtoHandler>::state_eq(s1, s2),
{
    let i = idx_of_id(s0.queued_dial_upgrades@, id);
    assert(0 <= i < s0.queued_dial_upgrades@.len() && s0.queued_dial_upgrades@[i].0 == id);
    lemma_remove_id(s0.queued_dial_upgrades@, i, id);
}

} // verus!
