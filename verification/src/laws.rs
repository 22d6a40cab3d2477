//! What holds of the drone as a whole.
use crate::action::{ActionView, DroneCommand, EventView, ReactionView};
use crate::packet::{FloodRequestView, HeaderView, NackType, NodeId, PacketTypeView, PacketView};
use crate::protocol::{DroneState, Route};
use vstd::prelude::*;

verus! {

/// The way back from a hop starts there, leads to the sender, and has the hop before as its
/// next one.
pub proof fn law_way_back_leads_to_sender(header: HeaderView)
    requires
        header.has_previous(),
    ensures
        header.reversed().hops.first() == header.current(),
        header.reversed().hops.last() == header.hops.first(),
        header.reversed().hops.len() == header.hop_index + 1,
        header.reversed().has_current(),
        header.reversed().current() == header.previous(),
{
}

/// The way back from the end of a way back is the way that was travelled.
pub proof fn law_way_back_of_way_back(header: HeaderView)
    requires
        header.has_current(),
    ensures
        ({
            let back = header.reversed().hops;
            HeaderView { hop_index: back.len() - 1, hops: back }.reversed().hops
        }) == header.hops.take(header.hop_index + 1),
{
    let back = header.reversed().hops;
    assert(back.take(back.len() as int) == back);
}

/// An ack, a nack or a flood response is never lost: sending it is exactly one action, which
/// hands it unchanged to the neighbour or, where there is none, to the controller.
pub proof fn law_must_arrive_is_never_lost<S>(
    state: DroneState<S>,
    dest_id: NodeId,
    packet: PacketView,
)
    requires
        packet.pack_type.must_arrive(),
    ensures
        state.sending(dest_id, packet) == seq![
            if state.neighbours().contains(dest_id) {
                ActionView::Send(dest_id, packet)
            } else {
                ActionView::Notify(EventView::ControllerShortcut(packet))
            },
        ],
{
}

/// A fragment or a flood request for a node that is no neighbour is lost.
pub proof fn law_others_need_a_neighbour<S>(
    state: DroneState<S>,
    dest_id: NodeId,
    packet: PacketView,
)
    requires
        !packet.pack_type.must_arrive(),
        !state.neighbours().contains(dest_id),
    ensures
        state.sending(dest_id, packet).len() == 0,
{
}

/// A nack always gets out: it is handed to the hop before or to the controller, and then
/// reported, as dropped if it says that a fragment was dropped, and as sent otherwise.
pub proof fn law_nack_gets_out<S>(
    state: DroneState<S>,
    header: HeaderView,
    nack_type: NackType,
    session_id: u64,
    fragment_index: u64,
)
    requires
        header.has_previous(),
    ensures
        ({
            let nack = crate::protocol::nack_packet(header, nack_type, session_id, fragment_index);
            state.nacking(header, nack_type, session_id, fragment_index) == seq![
                if state.neighbours().contains(header.previous()) {
                    ActionView::Send(header.previous(), nack)
                } else {
                    ActionView::Notify(EventView::ControllerShortcut(nack))
                },
                if nack_type == NackType::Dropped {
                    ActionView::Notify(EventView::PacketDropped(nack))
                } else {
                    ActionView::Notify(EventView::PacketSent(nack))
                },
            ]
        }),
{
}

/// What becomes of a packet that is no flood request, given the number that is drawn for it
/// if it is a fragment.
pub open spec fn outcome<S>(
    state: DroneState<S>,
    packet: PacketView,
    fragment_index: u64,
    draw: u32,
) -> Seq<ActionView> {
    match state.on_packet(packet, fragment_index) {
        ReactionView::Finished(actions) => actions,
        _ => state.on_fragment(packet, fragment_index, draw),
    }
}

/// The packet that an action carries.
pub open spec fn carried(action: ActionView) -> PacketView {
    match action {
        ActionView::Send(_, packet) => packet,
        ActionView::Notify(EventView::PacketSent(packet)) => packet,
        ActionView::Notify(EventView::PacketDropped(packet)) => packet,
        ActionView::Notify(EventView::ControllerShortcut(packet)) => packet,
    }
}

/// The action reports a packet as sent.
pub open spec fn is_sent_report(action: ActionView) -> bool {
    action matches ActionView::Notify(event) && event is PacketSent
}

/// The action reports a packet as dropped.
pub open spec fn is_drop_report(action: ActionView) -> bool {
    action matches ActionView::Notify(event) && event is PacketDropped
}

/// A packet is refused for exactly these reasons, each with its own nack.
pub proof fn law_refusals<S>(state: DroneState<S>, header: HeaderView)
    requires
        header.has_current(),
    ensures
        state.route(header) == Route::Refused(NackType::UnexpectedRecipient(state.id))
            <==> header.current() != state.id,
        state.route(header) == Route::Refused(NackType::DestinationIsDrone) <==> header.current()
            == state.id && header.hop_index == header.hops.len() - 1,
        forall|next: NodeId| #[trigger]
            state.route(header) == Route::Refused(NackType::ErrorInRouting(next)) <==> {
                &&& header.current() == state.id
                &&& header.advanced().has_current()
                &&& header.advanced().current() == next
                &&& !state.neighbours().contains(next)
            },
        forall|next: NodeId| #[trigger]
            state.route(header) == Route::Onward(next) <==> {
                &&& header.current() == state.id
                &&& header.advanced().has_current()
                &&& header.advanced().current() == next
                &&& state.neighbours().contains(next)
            },
{
}

/// A packet of any kind that is refused is answered with the nack for the reason: it goes back the
/// way that the packet came, with the packet's session and fragment index, and is reported as sent.
pub proof fn law_refused_packet_is_answered<S>(
    state: DroneState<S>,
    packet: PacketView,
    fragment_index: u64,
    nack_type: NackType,
)
    requires
        packet.routing_header.has_previous(),
        state.route(packet.routing_header) == Route::Refused(nack_type),
    ensures
        ({
            let nack = crate::protocol::nack_packet(
                packet.routing_header,
                nack_type,
                packet.session_id,
                fragment_index,
            );
            state.on_packet(packet, fragment_index) == ReactionView::Finished(
                seq![
                    if state.neighbours().contains(packet.routing_header.previous()) {
                        ActionView::Send(packet.routing_header.previous(), nack)
                    } else {
                        ActionView::Notify(EventView::ControllerShortcut(nack))
                    },
                    ActionView::Notify(EventView::PacketSent(nack)),
                ],
            )
        }),
{
    law_nack_gets_out(
        state,
        packet.routing_header,
        nack_type,
        packet.session_id,
        fragment_index,
    );
}

/// A packet that is passed on goes to its next hop and is reported as sent. Only its hop
/// index changes, by one.
pub proof fn law_passing_on_changes_only_the_hop<S>(
    state: DroneState<S>,
    packet: PacketView,
    fragment_index: u64,
    draw: u32,
)
    requires
        !(packet.pack_type is FloodRequest),
        packet.routing_header.has_current(),
        state.route(packet.routing_header) is Onward,
        packet.pack_type is MsgFragment ==> !crate::rate::drops(draw, state.pdr),
    ensures
        ({
            let onward = PacketView {
                pack_type: packet.pack_type,
                routing_header: HeaderView {
                    hop_index: packet.routing_header.hop_index + 1,
                    hops: packet.routing_header.hops,
                },
                session_id: packet.session_id,
            };
            outcome(state, packet, fragment_index, draw) == seq![
                ActionView::Send(
                    packet.routing_header.hops[packet.routing_header.hop_index + 1],
                    onward,
                ),
                ActionView::Notify(EventView::PacketSent(onward)),
            ]
        }),
{
}

/// Every packet that is no flood request is reported exactly once, last of all, and the
/// packet reported is the one that was handed on just before.
pub proof fn law_reported_once<S>(
    state: DroneState<S>,
    packet: PacketView,
    fragment_index: u64,
    draw: u32,
)
    requires
        !(packet.pack_type is FloodRequest),
        state.accepts(packet.routing_header),
    ensures
        ({
            let actions = outcome(state, packet, fragment_index, draw);
            &&& actions.len() == 2
            &&& match actions[0] {
                ActionView::Send(dest_id, _) => state.neighbours().contains(dest_id),
                ActionView::Notify(event) => event is ControllerShortcut,
            }
            &&& is_sent_report(actions[1]) || is_drop_report(actions[1])
            &&& carried(actions[1]) == carried(actions[0])
        }),
{
}

/// Only a fragment can be dropped, and it is dropped exactly if it could be passed on and
/// the number drawn for it is at most the drop rate.
pub proof fn law_only_fragments_are_dropped<S>(
    state: DroneState<S>,
    packet: PacketView,
    fragment_index: u64,
    draw: u32,
)
    requires
        !(packet.pack_type is FloodRequest),
        state.accepts(packet.routing_header),
    ensures
        (exists|i: int|
            0 <= i < outcome(state, packet, fragment_index, draw).len() && is_drop_report(
                #[trigger] outcome(state, packet, fragment_index, draw)[i],
            )) <==> {
            &&& packet.pack_type is MsgFragment
            &&& state.route(packet.routing_header) is Onward
            &&& crate::rate::drops(draw, state.pdr)
        },
{
    let actions = outcome(state, packet, fragment_index, draw);
    law_reported_once(state, packet, fragment_index, draw);
    assert(actions[0] == actions[0] && actions[1] == actions[1]);
}

/// A broadcast is one action for each of the nodes, and that action sends it the packet.
pub proof fn law_broadcast_reaches_each_node_once(
    actions: Seq<ActionView>,
    dests: Set<NodeId>,
    packet: PacketView,
)
    requires
        crate::protocol::is_broadcast(actions, dests, packet),
    ensures
        actions.len() == dests.len(),
        actions.no_duplicates(),
        forall|dest: NodeId| #[trigger]
            dests.contains(dest) <==> actions.contains(ActionView::Send(dest, packet)),
        forall|i: int|
            0 <= i < actions.len() ==> {
                &&& #[trigger] actions[i] is Send
                &&& carried(actions[i]) == packet
            },
{
    let send = |dest: NodeId| ActionView::Send(dest, packet);
    let order = choose|order: Seq<NodeId>|
        {
            &&& #[trigger] order.no_duplicates()
            &&& order.to_set() == dests
            &&& actions == order.map_values(send)
        };
    order.unique_seq_to_set();
    assert forall|dest: NodeId| #[trigger] dests.contains(dest) implies actions.contains(
        ActionView::Send(dest, packet),
    ) by {
        assert(order.to_set().contains(dest));
        let i = choose|i: int| 0 <= i < order.len() && order[i] == dest;
        assert(actions[i] == ActionView::Send(dest, packet));
    }
    assert forall|dest: NodeId|
        actions.contains(ActionView::Send(dest, packet)) implies #[trigger] dests.contains(dest) by {
        let i = choose|i: int|
            0 <= i < actions.len() && actions[i] == ActionView::Send(dest, packet);
        assert(order[i] == dest);
        assert(order.to_set().contains(dest));
    }
}

/// A flood that comes a second time changes nothing and spreads no further: all that is done is
/// to send the response to the neighbour that the request came from.
pub proof fn law_flood_spreads_once<S>(
    state: DroneState<S>,
    packet: PacketView,
    extended: FloodRequestView,
    response: PacketView,
    actions: Seq<ActionView>,
)
    ensures
        state.after_flood(extended.flood_id).after_flood(extended.flood_id) == state.after_flood(
            extended.flood_id,
        ),
        state.after_flood(extended.flood_id).on_flood_request(packet, extended, response, actions)
            <==> actions == state.after_flood(extended.flood_id).sending(
            crate::protocol::flood_sender(packet, extended),
            response,
        ),
{
    let seen = state.after_flood(extended.flood_id).flood_ids;
    assert(seen.contains(extended.flood_id)) by {
        if !state.flood_ids.contains(extended.flood_id) {
            assert(seen.last() == extended.flood_id);
        }
    }
}

/// The floods that a drone has seen stay seen, whatever flood comes, and a flood request
/// changes nothing else.
pub proof fn law_floods_stay_seen<S>(state: DroneState<S>, flood_id: u64)
    ensures
        state.flood_ids.is_prefix_of(state.after_flood(flood_id).flood_ids),
        state.after_flood(flood_id).flood_ids.contains(flood_id),
        state.after_flood(flood_id).id == state.id,
        state.after_flood(flood_id).packet_send == state.packet_send,
        state.after_flood(flood_id).pdr == state.pdr,
{
    let seen = state.after_flood(flood_id).flood_ids;
    if !state.flood_ids.contains(flood_id) {
        assert(seen.last() == flood_id);
    }
}

/// No flood is ever recorded twice: a drone starts with none, and neither flood requests nor
/// commands can bring a second record of one.
pub proof fn law_no_flood_is_recorded_twice<S>(
    id: NodeId,
    packet_send: Map<NodeId, S>,
    pdr: u32,
    state: DroneState<S>,
    flood_id: u64,
    command: DroneCommand<S>,
)
    ensures
        DroneState::initial(id, packet_send, pdr).wf(),
        state.wf() ==> state.after_flood(flood_id).wf(),
        state.wf() ==> state.on_command(command).wf(),
{
}

/// The answer to a flood that cannot spread is exactly one action that carries the response.
pub proof fn law_flood_response_is_never_lost<S>(
    state: DroneState<S>,
    packet: PacketView,
    extended: FloodRequestView,
    response: PacketView,
    actions: Seq<ActionView>,
)
    requires
        state.flood_ids.contains(extended.flood_id) || state.neighbours().len() == 1,
        response.pack_type is FloodResponse,
        state.on_flood_request(packet, extended, response, actions),
    ensures
        actions.len() == 1,
        carried(actions[0]) == response,
{
}

/// The answer to a flood that cannot spread goes back to the neighbour that the request came from,
/// which is the last node of the trace with which it arrived.
pub proof fn law_flood_is_answered_to_its_sender<S>(
    state: DroneState<S>,
    packet: PacketView,
    request: FloodRequestView,
    extended: FloodRequestView,
    response: PacketView,
    actions: Seq<ActionView>,
)
    requires
        packet.pack_type == PacketTypeView::FloodRequest(request),
        request.path_trace.len() > 0,
        state.neighbours().contains(request.path_trace.last().0),
        state.flood_ids.contains(extended.flood_id) || state.neighbours().len() == 1,
        state.on_flood_request(packet, extended, response, actions),
    ensures
        actions == seq![ActionView::Send(request.path_trace.last().0, response)],
{
}

/// A flood that spreads reaches every neighbour but the one that the request came from: each gets
/// exactly one copy, that one gets none, and nothing else is done.
pub proof fn law_flood_spares_its_sender<S>(
    state: DroneState<S>,
    packet: PacketView,
    request: FloodRequestView,
    extended: FloodRequestView,
    response: PacketView,
    actions: Seq<ActionView>,
)
    requires
        packet.pack_type == PacketTypeView::FloodRequest(request),
        request.path_trace.len() > 0,
        !state.flood_ids.contains(extended.flood_id),
        state.neighbours().len() != 1,
        state.on_flood_request(packet, extended, response, actions),
    ensures
        actions.no_duplicates(),
        forall|i: int|
            0 <= i < actions.len() ==> (#[trigger] actions[i] matches ActionView::Send(dest_id, copy)
                && dest_id != request.path_trace.last().0 && copy == packet.with_response(extended)),
        forall|dest_id: NodeId| #[trigger]
            state.neighbours().contains(dest_id) && dest_id != request.path_trace.last().0
                ==> actions.contains(ActionView::Send(dest_id, packet.with_response(extended))),
{
    let sender = request.path_trace.last().0;
    let dests = state.neighbours().remove(sender);
    let copy = packet.with_response(extended);
    law_broadcast_reaches_each_node_once(actions, dests, copy);
    assert forall|i: int| 0 <= i < actions.len() implies (#[trigger] actions[i] matches
        ActionView::Send(dest_id, sent) && dest_id != sender && sent == copy) by {
        let dest_id = actions[i]->Send_0;
        assert(actions[i] == ActionView::Send(dest_id, copy));
        assert(actions.contains(ActionView::Send(dest_id, copy)));
        assert(dests.contains(dest_id));
    }
    assert forall|dest_id: NodeId| #[trigger]
        state.neighbours().contains(dest_id) && dest_id != sender implies actions.contains(
        ActionView::Send(dest_id, copy),
    ) by {
        assert(dests.contains(dest_id));
    }
}

/// A node that was added is a neighbour with the channel given, a node that was removed is none,
/// and neither command concerns any other node.
pub proof fn law_senders<S>(state: DroneState<S>, id: NodeId, sender: S, other: NodeId)
    ensures
        ({
            let added = state.on_command(DroneCommand::AddSender(id, sender));
            &&& added.neighbours().contains(id)
            &&& added.packet_send[id] == sender
            &&& other != id ==> (added.neighbours().contains(other)
                <==> state.neighbours().contains(other))
            &&& other != id && state.neighbours().contains(other) ==> added.packet_send[other]
                == state.packet_send[other]
        }),
        ({
            let removed = state.on_command(DroneCommand::RemoveSender(id));
            &&& !removed.neighbours().contains(id)
            &&& other != id ==> (removed.neighbours().contains(other)
                <==> state.neighbours().contains(other))
            &&& other != id && state.neighbours().contains(other) ==> removed.packet_send[other]
                == state.packet_send[other]
        }),
{
}

/// No command changes the identifier of a drone or the floods that it has seen, and a crash changes
/// nothing at all.
pub proof fn law_commands_keep_identity_and_floods<S>(
    state: DroneState<S>,
    command: DroneCommand<S>,
)
    ensures
        state.on_command(command).id == state.id,
        state.on_command(command).flood_ids == state.flood_ids,
        command is Crash ==> state.on_command(command) == state,
{
}

/// Removing a node undoes adding it, where it was no neighbour before.
pub proof fn law_remove_undoes_add<S>(state: DroneState<S>, id: NodeId, sender: S)
    requires
        !state.neighbours().contains(id),
    ensures
        state.on_command(DroneCommand::AddSender(id, sender)).on_command(
            DroneCommand::RemoveSender(id),
        ) == state,
{
    assert(state.packet_send.insert(id, sender).remove(id) == state.packet_send);
}

/// Setting the drop rate changes only how fragments fare: the last rate set counts.
pub proof fn law_last_rate_counts<S>(state: DroneState<S>, first: u32, second: u32)
    ensures
        state.on_command(DroneCommand::SetPacketDropRate(first)).on_command(
            DroneCommand::SetPacketDropRate(second),
        ) == state.on_command(DroneCommand::SetPacketDropRate(second)),
        state.on_command(DroneCommand::SetPacketDropRate(second)).pdr == second,
        state.on_command(DroneCommand::SetPacketDropRate(second)).packet_send == state.packet_send,
{
}

/// A drone with a drop rate of one or more drops every fragment: numbers are drawn below one.
pub proof fn law_full_rate_drops_every_fragment(draw: u32, pdr: u32)
    requires
        crate::rate::is_number(draw),
        crate::rate::is_number(pdr),
        crate::rate::units(draw) < crate::rate::units(crate::rate::ONE),
        crate::rate::units(crate::rate::ONE) <= crate::rate::units(pdr),
    ensures
        crate::rate::drops(draw, pdr),
{
    law_one_in_units();
    vstd::arithmetic::power2::lemma_pow2_pos(149);
}

/// A drone with a drop rate of zero or less drops no fragment, whatever number is drawn.
pub proof fn law_no_rate_drops_no_fragment(draw: u32, pdr: u32)
    requires
        crate::rate::units(pdr) <= 0,
    ensures
        !crate::rate::drops(draw, pdr),
{
}

/// A drone with a drop rate of zero or less passes on every packet that can be passed on, whatever
/// number is drawn.
pub proof fn law_no_rate_passes_every_packet_on<S>(
    state: DroneState<S>,
    packet: PacketView,
    fragment_index: u64,
    draw: u32,
)
    requires
        !(packet.pack_type is FloodRequest),
        packet.routing_header.has_current(),
        state.route(packet.routing_header) is Onward,
        crate::rate::units(state.pdr) <= 0,
    ensures
        outcome(state, packet, fragment_index, draw) == seq![
            ActionView::Send(packet.advanced().routing_header.current(), packet.advanced()),
            ActionView::Notify(EventView::PacketSent(packet.advanced())),
        ],
{
    law_passing_on_changes_only_the_hop(state, packet, fragment_index, draw);
}

/// What is dropped at a rate is dropped at every higher one.
pub proof fn law_higher_rate_drops_more(draw: u32, low: u32, high: u32)
    requires
        crate::rate::drops(draw, low),
        crate::rate::is_number(high),
        crate::rate::units(low) <= crate::rate::units(high),
    ensures
        crate::rate::drops(draw, high),
{
}

/// A unit is 2 to the power -149: the encoding of one stands for 2 to the power 149 units.
pub proof fn law_one_in_units()
    ensures
        crate::rate::units(crate::rate::ONE) == vstd::arithmetic::power2::pow2(149),
{
    assert(0x3f80_0000int / 0x80_0000 == 127 && 0x3f80_0000int % 0x80_0000 == 0);
    vstd::arithmetic::power2::lemma2_to64();
    vstd::arithmetic::power2::lemma_pow2_adds(23, 126);
}

/// A crashing drone still passes on every ack, nack and flood response that a running one
/// would pass on, in the same way.
pub proof fn law_crash_still_passes_on<S>(
    state: DroneState<S>,
    packet: PacketView,
    fragment_index: u64,
)
    requires
        packet.pack_type.must_arrive(),
        packet.routing_header.has_current(),
        state.route(packet.routing_header) is Onward,
    ensures
        state.on_packet(packet, fragment_index) == ReactionView::Finished(
            state.on_packet_crashing(packet, fragment_index),
        ),
{
}

/// A crashing drone answers every fragment with a nack that names the drone itself, and does
/// nothing about flood requests.
pub proof fn law_crash_refuses_fragments<S>(
    state: DroneState<S>,
    packet: PacketView,
    fragment_index: u64,
)
    requires
        !packet.pack_type.must_arrive(),
        state.accepts_crashing(packet),
    ensures
        packet.pack_type is FloodRequest ==> state.on_packet_crashing(packet, fragment_index).len()
            == 0,
        packet.pack_type is MsgFragment ==> ({
            let actions = state.on_packet_crashing(packet, fragment_index);
            &&& actions.len() == 2
            &&& is_sent_report(actions[1])
            &&& carried(actions[0]) == carried(actions[1])
            &&& carried(actions[0]) == crate::protocol::nack_packet(
                packet.routing_header,
                NackType::ErrorInRouting(state.id),
                packet.session_id,
                fragment_index,
            )
        }),
{
}

/// A crashing drone works packets off in the order in which they arrive and independently of one
/// another: what it does for two runs of packets is what it does for the first, followed by what it
/// does for the second.
pub proof fn law_crash_works_off_in_order<S>(
    state: DroneState<S>,
    first: Seq<(PacketView, u64)>,
    second: Seq<(PacketView, u64)>,
)
    ensures
        state.on_packets_crashing(first + second) == state.on_packets_crashing(first)
            + state.on_packets_crashing(second),
        state.on_packets_crashing(seq![]).len() == 0,
        forall|packet: PacketView, fragment_index: u64|
            state.on_packets_crashing(seq![(packet, fragment_index)]) == #[trigger]
            state.on_packet_crashing(packet, fragment_index),
    decreases second.len(),
{
    if second.len() == 0 {
        assert(first + second == first);
    } else {
        assert((first + second).drop_last() == first + second.drop_last());
        law_crash_works_off_in_order(state, first, second.drop_last());
    }
    assert forall|packet: PacketView, fragment_index: u64|
        state.on_packets_crashing(seq![(packet, fragment_index)]) == #[trigger]
        state.on_packet_crashing(packet, fragment_index) by {
        let one = seq![(packet, fragment_index)];
        assert(one.drop_last().len() == 0);
        assert(state.on_packets_crashing(one.drop_last()) == Seq::<ActionView>::empty());
    }
}

} // verus!
