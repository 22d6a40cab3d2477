//! What each rule of the drone comes to, spelled out over the fields of what goes in and what comes
//! out.
use crate::action::{Action, ActionView, DroneCommand, DroneEvent, EventView, Reaction, ReactionView};
use crate::packet::{
    FloodRequest, FloodRequestView, FloodResponse, FloodResponseView, HeaderView, Nack, NackType,
    NodeId, NodeType, Packet, PacketType, PacketTypeView, PacketView, SourceRoutingHeader,
};
use crate::protocol::{DroneState, Route};
use vstd::prelude::*;

verus! {

/// A new drone has the identifier, the neighbours and the drop rate that it was given, and has seen
/// no flood.
pub proof fn law_new_drone_is_as_configured<S>(
    id: NodeId,
    packet_send: Map<NodeId, S>,
    pdr: u32,
)
    ensures
        DroneState::initial(id, packet_send, pdr).id == id,
        DroneState::initial(id, packet_send, pdr).packet_send == packet_send,
        DroneState::initial(id, packet_send, pdr).pdr == pdr,
        DroneState::initial(id, packet_send, pdr).flood_ids.len() == 0,
{
}

/// The neighbours of a drone are the nodes that it has a channel to, and its record of floods is in
/// order exactly if no two entries are the same.
pub proof fn law_neighbours_and_record<S>(state: DroneState<S>, node: NodeId)
    ensures
        state.neighbours().contains(node) <==> state.packet_send.contains_key(node),
        state.neighbours().len() == state.packet_send.dom().len(),
        state.wf() <==> forall|i: int, j: int|
            0 <= i < j < state.flood_ids.len() ==> state.flood_ids[i] != state.flood_ids[j],
{
}

/// The parts of a header: the current hop is the one at the hop index, the previous one stands
/// before it, and one hop further only the hop index is different, by one.
pub proof fn law_header_positions(header: HeaderView)
    ensures
        header.has_current() <==> 0 <= header.hop_index && header.hop_index < header.hops.len(),
        header.has_previous() <==> 1 <= header.hop_index && header.hop_index < header.hops.len(),
        header.current() == header.hops[header.hop_index],
        header.previous() == header.hops[header.hop_index - 1],
        header.advanced().hop_index - header.hop_index == 1,
        header.advanced().hops == header.hops,
{
}

/// The way back mirrors the way there: what is so many hops behind the current one comes so many hops
/// after it. It has all the hops up to the current one and no others, and starts at position one.
pub proof fn law_way_back_mirrors_the_way(header: HeaderView)
    requires
        0 <= header.hop_index < header.hops.len(),
    ensures
        header.reversed().hop_index == 1,
        header.reversed().hops.len() == header.hop_index + 1,
        forall|i: int|
            0 <= i <= header.hop_index ==> #[trigger] header.reversed().hops[i] == header.hops[
            header.hop_index - i],
{
}

/// A nack carries the fragment index, the reason and the session that it was asked to carry, and
/// travels the way back.
pub proof fn law_nack_says_what_failed(
    header: HeaderView,
    nack_type: NackType,
    session_id: u64,
    fragment_index: u64,
)
    requires
        0 <= header.hop_index < header.hops.len(),
    ensures
        ({
            let nack = crate::protocol::nack_packet(header, nack_type, session_id, fragment_index);
            &&& nack.pack_type == PacketTypeView::Nack(Nack { fragment_index, nack_type })
            &&& nack.session_id == session_id
            &&& nack.routing_header.hop_index == 1
            &&& nack.routing_header.hops.len() == header.hop_index + 1
            &&& forall|i: int|
                0 <= i <= header.hop_index ==> #[trigger] nack.routing_header.hops[i]
                    == header.hops[header.hop_index - i]
        }),
{
}

/// Nacks for different failures are different: from a nack its reader can tell which fragment of
/// which session failed, and why.
pub proof fn law_nacks_tell_failures_apart(
    header: HeaderView,
    nack_type: NackType,
    session_id: u64,
    fragment_index: u64,
    other_type: NackType,
    other_session: u64,
    other_index: u64,
)
    ensures
        crate::protocol::nack_packet(header, nack_type, session_id, fragment_index)
            == crate::protocol::nack_packet(header, other_type, other_session, other_index) <==> {
            &&& nack_type == other_type
            &&& session_id == other_session
            &&& fragment_index == other_index
        },
{
    let nack = crate::protocol::nack_packet(header, nack_type, session_id, fragment_index);
    let other = crate::protocol::nack_packet(header, other_type, other_session, other_index);
    assert(nack.pack_type->Nack_0.nack_type == nack_type);
    assert(nack.pack_type->Nack_0.fragment_index == fragment_index);
    assert(other.pack_type->Nack_0.nack_type == other_type);
    assert(other.pack_type->Nack_0.fragment_index == other_index);
}

/// Acks, nacks and flood responses must arrive; fragments and flood requests need not.
pub proof fn law_which_packets_must_arrive(pack_type: PacketTypeView)
    ensures
        pack_type is Ack ==> pack_type.must_arrive(),
        pack_type is Nack ==> pack_type.must_arrive(),
        pack_type is FloodResponse ==> pack_type.must_arrive(),
        pack_type is MsgFragment ==> !pack_type.must_arrive(),
        pack_type is FloodRequest ==> !pack_type.must_arrive(),
{
}

/// One hop further, a packet has the same content, session and hops. As the response to a flood
/// request, it has the same header and session, and the flood and the trace of the request.
pub proof fn law_what_changes_in_a_packet(packet: PacketView, request: FloodRequestView)
    ensures
        packet.advanced().pack_type == packet.pack_type,
        packet.advanced().session_id == packet.session_id,
        packet.advanced().routing_header.hops == packet.routing_header.hops,
        packet.advanced().routing_header.hop_index == packet.routing_header.hop_index + 1,
        packet.with_response(request).routing_header == packet.routing_header,
        packet.with_response(request).session_id == packet.session_id,
        packet.with_response(request).pack_type is FloodResponse,
        packet.with_response(request).pack_type->FloodResponse_0.flood_id == request.flood_id,
        packet.with_response(request).pack_type->FloodResponse_0.path_trace == request.path_trace,
{
}

/// A packet for a neighbour goes to that neighbour, and nothing else is done, whatever the packet
/// is. For any other node, the controller is asked to deliver what must arrive, and the rest is lost.
pub proof fn law_where_a_packet_goes<S>(
    state: DroneState<S>,
    dest_id: NodeId,
    packet: PacketView,
)
    ensures
        state.packet_send.contains_key(dest_id) ==> state.sending(dest_id, packet) == seq![
            ActionView::Send(dest_id, packet),
        ],
        !state.packet_send.contains_key(dest_id) && (packet.pack_type is Ack || packet.pack_type is Nack
            || packet.pack_type is FloodResponse) ==> state.sending(dest_id, packet) == seq![
            ActionView::Notify(EventView::ControllerShortcut(packet)),
        ],
        !state.packet_send.contains_key(dest_id) && (packet.pack_type is MsgFragment
            || packet.pack_type is FloodRequest) ==> state.sending(dest_id, packet).len() == 0,
{
}

/// Sending a packet as valid and dropping it differ only in the report, which comes last and names
/// the packet that was sent.
pub proof fn law_reports_follow_sending<S>(
    state: DroneState<S>,
    dest_id: NodeId,
    packet: PacketView,
)
    ensures
        state.sending_valid(dest_id, packet) == state.sending(dest_id, packet) + seq![
            ActionView::Notify(EventView::PacketSent(packet)),
        ],
        state.dropping(dest_id, packet) == state.sending(dest_id, packet) + seq![
            ActionView::Notify(EventView::PacketDropped(packet)),
        ],
{
}

/// The nack that answers a packet goes to the hop before the current one, or to the controller where
/// that hop is no neighbour. It is reported after that: as dropped if it says that a fragment was
/// dropped, and as sent for every other reason.
pub proof fn law_nack_goes_to_the_hop_before<S>(
    state: DroneState<S>,
    header: HeaderView,
    nack_type: NackType,
    session_id: u64,
    fragment_index: u64,
)
    requires
        1 <= header.hop_index < header.hops.len(),
    ensures
        ({
            let nack = crate::protocol::nack_packet(header, nack_type, session_id, fragment_index);
            let before = header.hops[header.hop_index - 1];
            let actions = state.nacking(header, nack_type, session_id, fragment_index);
            &&& actions.len() == 2
            &&& actions[0] == if state.packet_send.contains_key(before) {
                ActionView::Send(before, nack)
            } else {
                ActionView::Notify(EventView::ControllerShortcut(nack))
            }
            &&& nack_type is Dropped ==> actions[1] == ActionView::Notify(
                EventView::PacketDropped(nack),
            )
            &&& !(nack_type is Dropped) ==> actions[1] == ActionView::Notify(
                EventView::PacketSent(nack),
            )
        }),
{
}

/// Where a packet goes: on to its next hop if it is at this drone and the next hop is a neighbour.
/// One that is not at this drone, has no next hop, or has a stranger as its next hop is refused, for
/// the first of these reasons that holds.
pub proof fn law_how_packets_are_routed<S>(state: DroneState<S>, header: HeaderView)
    requires
        0 <= header.hop_index < header.hops.len(),
    ensures
        header.hops[header.hop_index] != state.id ==> state.route(header) == Route::Refused(
            NackType::UnexpectedRecipient(state.id),
        ),
        header.hops[header.hop_index] == state.id && header.hop_index == header.hops.len() - 1
            ==> state.route(header) == Route::Refused(NackType::DestinationIsDrone),
        header.hops[header.hop_index] == state.id && header.hop_index < header.hops.len() - 1
            && !state.packet_send.contains_key(header.hops[header.hop_index + 1]) ==> state.route(header)
            == Route::Refused(NackType::ErrorInRouting(header.hops[header.hop_index + 1])),
        header.hops[header.hop_index] == state.id && header.hop_index < header.hops.len() - 1
            && state.packet_send.contains_key(header.hops[header.hop_index + 1]) ==> state.route(header)
            == Route::Onward(header.hops[header.hop_index + 1]),
{
}

/// The headers that a drone can answer for: all that have a current hop, but for those at the first
/// hop that it would have to send a nack for. Such a packet must be at this drone and have a
/// neighbour as its next hop.
pub proof fn law_which_headers_are_accepted<S>(state: DroneState<S>, header: HeaderView)
    ensures
        header.hop_index < 0 || header.hop_index >= header.hops.len() ==> !state.accepts(header),
        1 <= header.hop_index < header.hops.len() ==> state.accepts(header),
        header.hop_index == 0 && header.hops.len() > 0 ==> (state.accepts(header) <==> {
            &&& header.hops[0] == state.id
            &&& header.hops.len() > 1
            &&& state.packet_send.contains_key(header.hops[1])
        }),
{
}

/// A packet of any kind that is not at this drone, ends here or goes on to a stranger is finished
/// with the nack that names the reason, the session and the fragment, sent to the hop before.
pub proof fn law_what_refused_packets_get<S>(
    state: DroneState<S>,
    packet: PacketView,
    fragment_index: u64,
)
    requires
        1 <= packet.routing_header.hop_index < packet.routing_header.hops.len(),
    ensures
        ({
            let header = packet.routing_header;
            let at = header.hop_index;
            let before = header.hops[at - 1];
            let reason = if header.hops[at] != state.id {
                Some(NackType::UnexpectedRecipient(state.id))
            } else if at + 1 == header.hops.len() {
                Some(NackType::DestinationIsDrone)
            } else if !state.packet_send.contains_key(header.hops[at + 1]) {
                Some(NackType::ErrorInRouting(header.hops[at + 1]))
            } else {
                None
            };
            reason matches Some(nack_type) ==> {
                let nack = PacketView {
                    pack_type: PacketTypeView::Nack(Nack { fragment_index, nack_type }),
                    routing_header: HeaderView {
                        hop_index: 1,
                        hops: Seq::new((at + 1) as nat, |i: int| header.hops[at - i]),
                    },
                    session_id: packet.session_id,
                };
                state.on_packet(packet, fragment_index) == ReactionView::Finished(
                    seq![
                        if state.packet_send.contains_key(before) {
                            ActionView::Send(before, nack)
                        } else {
                            ActionView::Notify(EventView::ControllerShortcut(nack))
                        },
                        ActionView::Notify(EventView::PacketSent(nack)),
                    ],
                )
            }
        }),
{
    let header = packet.routing_header;
    assert(header.reversed().hops =~= Seq::new(
        (header.hop_index + 1) as nat,
        |i: int| header.hops[header.hop_index - i],
    ));
    if let Route::Refused(nack_type) = state.route(header) {
        crate::laws::law_refused_packet_is_answered(state, packet, fragment_index, nack_type);
    }
}

/// A flood request that the drone can pass on is taken up, whatever trace it carries and whatever
/// floods were seen: the request as it came is to be extended by this drone, as a drone, and the
/// response is to carry session seven.
pub proof fn law_flood_requests_are_taken_up<S>(
    state: DroneState<S>,
    packet: PacketView,
    request: FloodRequestView,
    fragment_index: u64,
)
    requires
        packet.pack_type == PacketTypeView::FloodRequest(request),
        0 <= packet.routing_header.hop_index,
        packet.routing_header.hop_index + 1 < packet.routing_header.hops.len(),
        packet.routing_header.hops[packet.routing_header.hop_index] == state.id,
        state.packet_send.contains_key(
            packet.routing_header.hops[packet.routing_header.hop_index + 1],
        ),
    ensures
        state.on_packet(packet, fragment_index) == (ReactionView::ExtendTrace {
            request,
            node_id: state.id,
            node_type: NodeType::Drone,
            session_id: 7,
        }),
{
}

/// For a fragment that the drone can pass on a number is drawn, whatever the fragment holds and
/// whatever the drop rate is.
pub proof fn law_fragments_call_for_a_draw<S>(
    state: DroneState<S>,
    packet: PacketView,
    fragment_index: u64,
)
    requires
        packet.pack_type is MsgFragment,
        0 <= packet.routing_header.hop_index,
        packet.routing_header.hop_index + 1 < packet.routing_header.hops.len(),
        packet.routing_header.hops[packet.routing_header.hop_index] == state.id,
        state.packet_send.contains_key(
            packet.routing_header.hops[packet.routing_header.hop_index + 1],
        ),
    ensures
        state.on_packet(packet, fragment_index) is DrawNumber,
{
}

/// An ack, a nack or a flood response that the drone can pass on goes to its next hop, with the same
/// content, session and hops and the hop index one higher, and is reported as sent. So it does while
/// the drone crashes.
pub proof fn law_control_packets_go_on<S>(
    state: DroneState<S>,
    packet: PacketView,
    fragment_index: u64,
)
    requires
        packet.pack_type is Ack || packet.pack_type is Nack || packet.pack_type is FloodResponse,
        0 <= packet.routing_header.hop_index,
        packet.routing_header.hop_index + 1 < packet.routing_header.hops.len(),
        packet.routing_header.hops[packet.routing_header.hop_index] == state.id,
        state.packet_send.contains_key(
            packet.routing_header.hops[packet.routing_header.hop_index + 1],
        ),
    ensures
        ({
            let next_hop = packet.routing_header.hops[packet.routing_header.hop_index + 1];
            let onward = PacketView {
                pack_type: packet.pack_type,
                routing_header: HeaderView {
                    hop_index: packet.routing_header.hop_index + 1,
                    hops: packet.routing_header.hops,
                },
                session_id: packet.session_id,
            };
            let actions = seq![
                ActionView::Send(next_hop, onward),
                ActionView::Notify(EventView::PacketSent(onward)),
            ];
            &&& state.on_packet(packet, fragment_index) == ReactionView::Finished(actions)
            &&& state.on_packet_crashing(packet, fragment_index) == actions
        }),
{
}

/// The reaction to a packet does not depend on the drop rate or on the floods that were seen.
pub proof fn law_reaction_rests_on_route_alone<S>(
    state: DroneState<S>,
    other: DroneState<S>,
    packet: PacketView,
    fragment_index: u64,
)
    requires
        other.id == state.id,
        other.packet_send.dom() == state.packet_send.dom(),
    ensures
        other.on_packet(packet, fragment_index) == state.on_packet(packet, fragment_index),
        other.on_packet_crashing(packet, fragment_index) == state.on_packet_crashing(
            packet,
            fragment_index,
        ),
{
}

/// Which draws drop, over the encodings. At a positive rate, that is, one encoded by bits from 1 up
/// to those of infinity, a draw without a sign drops exactly if its bits are at most those of the
/// rate, and a negative number always does. At any other rate, and for a draw that is no number,
/// nothing is dropped.
pub proof fn law_which_draws_drop(draw: u32, pdr: u32)
    ensures
        crate::rate::drops(draw, pdr) <==> {
            &&& 0 < pdr && pdr <= 0x7f80_0000
            &&& draw <= pdr || (0x8000_0000 <= draw && draw <= 0xff80_0000)
        },
{
    crate::rate::law_rates_compare_as_encodings(draw, pdr);
    crate::rate::law_rates_compare_as_encodings(pdr, 0);
}

/// At a positive rate, a draw drops exactly if the number drawn is at most the rate.
pub proof fn law_threshold_is_the_rate(draw: u32, pdr: u32)
    requires
        draw % 0x8000_0000 <= 0x7f80_0000,
        pdr % 0x8000_0000 <= 0x7f80_0000,
        crate::rate::units(pdr) > 0,
    ensures
        crate::rate::drops(draw, pdr) <==> crate::rate::units(draw) <= crate::rate::units(pdr),
        crate::rate::drops(pdr, pdr),
{
}

/// How bits encode numbers: below 2 to the power 24 they count units; from 2 to the power 23 on, an
/// exponent that is higher by one doubles the number; and the sign bit negates it.
pub proof fn law_how_bits_encode_numbers(bits: u32)
    ensures
        bits < 0x100_0000 ==> crate::rate::units(bits) == bits,
        0x80_0000 <= bits && bits < 0x7f80_0000 ==> crate::rate::units((bits + 0x80_0000) as u32) == 2
            * crate::rate::units(bits),
        bits < 0x8000_0000 ==> crate::rate::units((bits + 0x8000_0000) as u32)
            == -crate::rate::units(bits),
        crate::rate::is_number(bits) <==> bits <= 0x7f80_0000 || (0x8000_0000 <= bits && bits
            <= 0xff80_0000),
        crate::rate::ONE == 0x3f80_0000,
{
    vstd::arithmetic::power2::lemma2_to64();
    if 0x80_0000 <= bits < 0x100_0000 {
        let f = bits as int % 0x80_0000;
        let p = vstd::arithmetic::power2::pow2(0);
        assert(bits as int / 0x80_0000 == 1 && f == bits - 0x80_0000);
        assert((0x80_0000 + f) * p == 0x80_0000 + f) by (nonlinear_arith)
            requires
                p == 1,
        ;
    }
    if 0x80_0000 <= bits < 0x7f80_0000 {
        let e = bits as int / 0x80_0000;
        let f = bits as int % 0x80_0000;
        assert((bits + 0x80_0000) / 0x80_0000 == e + 1 && (bits + 0x80_0000) % 0x80_0000 == f);
        vstd::arithmetic::power2::lemma_pow2_unfold(e as nat);
        let p = vstd::arithmetic::power2::pow2((e - 1) as nat);
        let q = vstd::arithmetic::power2::pow2(e as nat);
        assert((0x80_0000 + f) * q == 2 * ((0x80_0000 + f) * p)) by (nonlinear_arith)
            requires
                q == 2 * p,
        ;
    }
}

/// The fate of a fragment that can be passed on. It is dropped if the rate is positive and the draw is
/// a number that is at most the rate, both read off their encodings: the nack that says so, with the session and the fragment, goes to the hop before
/// and is reported as dropped. Otherwise the fragment goes to its next hop, unchanged but for the hop
/// index, and is reported as sent.
pub proof fn law_fate_of_a_fragment<S>(
    state: DroneState<S>,
    packet: PacketView,
    fragment_index: u64,
    draw: u32,
)
    requires
        packet.pack_type is MsgFragment,
        1 <= packet.routing_header.hop_index,
        packet.routing_header.hop_index + 1 < packet.routing_header.hops.len(),
        packet.routing_header.hops[packet.routing_header.hop_index] == state.id,
        state.packet_send.contains_key(
            packet.routing_header.hops[packet.routing_header.hop_index + 1],
        ),
    ensures
        ({
            let header = packet.routing_header;
            let at = header.hop_index;
            let nack = PacketView {
                pack_type: PacketTypeView::Nack(
                    Nack { fragment_index, nack_type: NackType::Dropped },
                ),
                routing_header: HeaderView {
                    hop_index: 1,
                    hops: Seq::new((at + 1) as nat, |i: int| header.hops[at - i]),
                },
                session_id: packet.session_id,
            };
            let onward = PacketView {
                pack_type: packet.pack_type,
                routing_header: HeaderView { hop_index: at + 1, hops: header.hops },
                session_id: packet.session_id,
            };
            state.on_fragment(packet, fragment_index, draw) == if 0 < state.pdr && state.pdr
                <= 0x7f80_0000 && (draw <= state.pdr || (0x8000_0000 <= draw && draw <= 0xff80_0000)) {
                seq![
                    if state.packet_send.contains_key(header.hops[at - 1]) {
                        ActionView::Send(header.hops[at - 1], nack)
                    } else {
                        ActionView::Notify(EventView::ControllerShortcut(nack))
                    },
                    ActionView::Notify(EventView::PacketDropped(nack)),
                ]
            } else {
                seq![
                    ActionView::Send(header.hops[at + 1], onward),
                    ActionView::Notify(EventView::PacketSent(onward)),
                ]
            }
        }),
{
    let header = packet.routing_header;
    law_which_draws_drop(draw, state.pdr);
    assert(header.reversed().hops =~= Seq::new(
        (header.hop_index + 1) as nat,
        |i: int| header.hops[header.hop_index - i],
    ));
}

/// A fragment that is not dropped goes on from any hop of its route, the first one too.
pub proof fn law_undropped_fragments_go_on<S>(
    state: DroneState<S>,
    packet: PacketView,
    fragment_index: u64,
    draw: u32,
)
    requires
        packet.pack_type is MsgFragment,
        0 <= packet.routing_header.hop_index,
        packet.routing_header.hop_index + 1 < packet.routing_header.hops.len(),
        state.packet_send.contains_key(
            packet.routing_header.hops[packet.routing_header.hop_index + 1],
        ),
        !(0 < state.pdr && state.pdr <= 0x7f80_0000 && (draw <= state.pdr || (0x8000_0000 <= draw
            && draw <= 0xff80_0000))),
    ensures
        ({
            let onward = PacketView {
                pack_type: packet.pack_type,
                routing_header: HeaderView {
                    hop_index: packet.routing_header.hop_index + 1,
                    hops: packet.routing_header.hops,
                },
                session_id: packet.session_id,
            };
            state.on_fragment(packet, fragment_index, draw) == seq![
                ActionView::Send(
                    packet.routing_header.hops[packet.routing_header.hop_index + 1],
                    onward,
                ),
                ActionView::Notify(EventView::PacketSent(onward)),
            ]
        }),
{
    law_which_draws_drop(draw, state.pdr);
}

/// A flood is recorded at the end of the record if it is not in it, and then it is in it; one that is
/// in it leaves the record as it is. Nothing else about the drone changes.
pub proof fn law_how_floods_are_recorded<S>(state: DroneState<S>, flood_id: u64)
    ensures
        state.flood_ids.contains(flood_id) ==> state.after_flood(flood_id) == state,
        !state.flood_ids.contains(flood_id) ==> {
            let seen = state.after_flood(flood_id).flood_ids;
            &&& seen.len() == state.flood_ids.len() + 1
            &&& seen[seen.len() - 1] == flood_id
            &&& forall|i: int| 0 <= i < state.flood_ids.len() ==> seen[i] == state.flood_ids[i]
        },
        state.after_flood(flood_id).id == state.id,
        state.after_flood(flood_id).packet_send == state.packet_send,
        state.after_flood(flood_id).pdr == state.pdr,
{
}

/// The neighbour that a flood request came from is the last node of the trace with which it arrived,
/// or, where that trace is empty, the last node of the extended one.
pub proof fn law_who_sent_a_flood(
    packet: PacketView,
    request: FloodRequestView,
    extended: FloodRequestView,
)
    requires
        packet.pack_type == PacketTypeView::FloodRequest(request),
    ensures
        request.path_trace.len() > 0 ==> crate::protocol::flood_sender(packet, extended)
            == request.path_trace[request.path_trace.len() - 1].0,
        request.path_trace.len() == 0 ==> crate::protocol::flood_sender(packet, extended)
            == extended.path_trace[extended.path_trace.len() - 1].0,
{
}

/// A flood that was seen before, and any flood where there is but one neighbour, is answered: the
/// response, as it was handed in, goes to the neighbour that the request came from, or to the
/// controller where that node is no neighbour. Nothing else is done.
pub proof fn law_how_floods_are_answered<S>(
    state: DroneState<S>,
    packet: PacketView,
    request: FloodRequestView,
    extended: FloodRequestView,
    response: PacketView,
    actions: Seq<ActionView>,
)
    requires
        packet.pack_type == PacketTypeView::FloodRequest(request),
        state.flood_ids.contains(extended.flood_id) || state.packet_send.dom().len() == 1,
    ensures
        ({
            let sender = if request.path_trace.len() > 0 {
                request.path_trace[request.path_trace.len() - 1].0
            } else {
                extended.path_trace[extended.path_trace.len() - 1].0
            };
            state.on_flood_request(packet, extended, response, actions) <==> actions
                == if state.packet_send.contains_key(sender) {
                seq![ActionView::Send(sender, response)]
            } else if response.pack_type is Ack || response.pack_type is Nack
                || response.pack_type is FloodResponse {
                seq![ActionView::Notify(EventView::ControllerShortcut(response))]
            } else {
                seq![]
            }
        }),
{
}

/// A flood that is new spreads where there are several neighbours: each of them but the one that the
/// request came from gets exactly one copy. The copy is a flood response with the flood and the trace
/// of the extended request, and with the header and the session of the packet that came. Nothing
/// else is done.
pub proof fn law_how_floods_spread<S>(
    state: DroneState<S>,
    packet: PacketView,
    request: FloodRequestView,
    extended: FloodRequestView,
    response: PacketView,
    actions: Seq<ActionView>,
)
    requires
        packet.pack_type == PacketTypeView::FloodRequest(request),
        !state.flood_ids.contains(extended.flood_id),
        state.packet_send.dom().len() != 1,
        state.on_flood_request(packet, extended, response, actions),
    ensures
        ({
            let sender = if request.path_trace.len() > 0 {
                request.path_trace[request.path_trace.len() - 1].0
            } else {
                extended.path_trace[extended.path_trace.len() - 1].0
            };
            let copy = PacketView {
                pack_type: PacketTypeView::FloodResponse(
                    FloodResponseView {
                        flood_id: extended.flood_id,
                        path_trace: extended.path_trace,
                    },
                ),
                routing_header: packet.routing_header,
                session_id: packet.session_id,
            };
            &&& forall|i: int|
                0 <= i < actions.len() ==> (#[trigger] actions[i] matches ActionView::Send(
                    dest_id,
                    sent,
                ) && state.packet_send.contains_key(dest_id) && dest_id != sender && sent == copy)
            &&& forall|i: int, j: int| 0 <= i < j < actions.len() ==> actions[i] != actions[j]
            &&& forall|dest_id: NodeId| #[trigger]
                state.packet_send.contains_key(dest_id) && dest_id != sender ==> actions.contains(
                    ActionView::Send(dest_id, copy),
                )
        }),
{
    let sender = crate::protocol::flood_sender(packet, extended);
    let copy = packet.with_response(extended);
    crate::laws::law_broadcast_reaches_each_node_once(
        actions,
        state.neighbours().remove(sender),
        copy,
    );
    assert forall|i: int| 0 <= i < actions.len() implies (#[trigger] actions[i] matches
        ActionView::Send(dest_id, sent) && state.packet_send.contains_key(dest_id) && dest_id != sender
        && sent == copy) by {
        let dest_id = actions[i]->Send_0;
        assert(actions[i] == ActionView::Send(dest_id, copy));
        assert(actions.contains(ActionView::Send(dest_id, copy)));
        assert(state.neighbours().remove(sender).contains(dest_id));
        assert(state.packet_send.contains_key(dest_id));
    }
    assert forall|dest_id: NodeId| #[trigger]
        state.packet_send.contains_key(dest_id) && dest_id != sender implies actions.contains(
        ActionView::Send(dest_id, copy),
    ) by {
        assert(state.neighbours().remove(sender).contains(dest_id));
    }
}

/// What each command does to a drone, field by field.
pub proof fn law_what_commands_do<S>(
    state: DroneState<S>,
    id: NodeId,
    sender: S,
    pdr: u32,
    other: NodeId,
)
    ensures
        ({
            let added = state.on_command(DroneCommand::AddSender(id, sender));
            &&& added.packet_send.contains_key(other) <==> other == id
                || state.packet_send.contains_key(other)
            &&& added.packet_send[id] == sender
            &&& other != id ==> added.packet_send[other] == state.packet_send[other]
            &&& (added.id, added.pdr, added.flood_ids) == (state.id, state.pdr, state.flood_ids)
        }),
        ({
            let removed = state.on_command(DroneCommand::RemoveSender(id));
            &&& removed.packet_send.contains_key(other) <==> other != id
                && state.packet_send.contains_key(other)
            &&& other != id ==> removed.packet_send[other] == state.packet_send[other]
            &&& (removed.id, removed.pdr, removed.flood_ids) == (
                state.id,
                state.pdr,
                state.flood_ids,
            )
        }),
        ({
            let set = state.on_command(DroneCommand::SetPacketDropRate(pdr));
            &&& set.pdr == pdr
            &&& set.packet_send == state.packet_send
            &&& (set.id, set.flood_ids) == (state.id, state.flood_ids)
        }),
        state.on_command(DroneCommand::Crash) == state,
{
}

/// What a crashing drone can work off: flood requests always, fragments where there is a hop before
/// the current one, and other packets where there is a current hop.
pub proof fn law_what_a_crash_accepts<S>(state: DroneState<S>, packet: PacketView)
    ensures
        packet.pack_type is FloodRequest ==> state.accepts_crashing(packet),
        packet.pack_type is MsgFragment ==> (state.accepts_crashing(packet) <==> 1
            <= packet.routing_header.hop_index && packet.routing_header.hop_index
            < packet.routing_header.hops.len()),
        packet.pack_type is Ack || packet.pack_type is Nack || packet.pack_type is FloodResponse ==> (
        state.accepts_crashing(packet) <==> 0 <= packet.routing_header.hop_index
            && packet.routing_header.hop_index < packet.routing_header.hops.len()),
{
}

/// A fragment that comes to a crashing drone is answered: the nack says that the route fails at this
/// drone, for this session and this fragment. It goes to the hop before, or to the controller where
/// that is no neighbour, and is then reported as sent.
pub proof fn law_crash_answers_fragments_to_the_hop_before<S>(
    state: DroneState<S>,
    packet: PacketView,
    fragment_index: u64,
)
    requires
        packet.pack_type is MsgFragment,
        1 <= packet.routing_header.hop_index < packet.routing_header.hops.len(),
    ensures
        ({
            let header = packet.routing_header;
            let at = header.hop_index;
            let nack = PacketView {
                pack_type: PacketTypeView::Nack(
                    Nack { fragment_index, nack_type: NackType::ErrorInRouting(state.id) },
                ),
                routing_header: HeaderView {
                    hop_index: 1,
                    hops: Seq::new((at + 1) as nat, |i: int| header.hops[at - i]),
                },
                session_id: packet.session_id,
            };
            state.on_packet_crashing(packet, fragment_index) == seq![
                if state.packet_send.contains_key(header.hops[at - 1]) {
                    ActionView::Send(header.hops[at - 1], nack)
                } else {
                    ActionView::Notify(EventView::ControllerShortcut(nack))
                },
                ActionView::Notify(EventView::PacketSent(nack)),
            ]
        }),
{
    let header = packet.routing_header;
    assert(header.reversed().hops =~= Seq::new(
        (header.hop_index + 1) as nat,
        |i: int| header.hops[header.hop_index - i],
    ));
}

/// A crashing drone does nothing about a flood request, and nothing about an ack, a nack or a flood
/// response that is not at this drone, ends here or goes on to a stranger.
pub proof fn law_what_a_crash_loses<S>(
    state: DroneState<S>,
    packet: PacketView,
    fragment_index: u64,
)
    ensures
        packet.pack_type is FloodRequest ==> state.on_packet_crashing(packet, fragment_index).len()
            == 0,
        ({
            let header = packet.routing_header;
            &&& packet.pack_type is Ack || packet.pack_type is Nack || packet.pack_type is FloodResponse
            &&& 0 <= header.hop_index && header.hop_index < header.hops.len()
            &&& header.hops[header.hop_index] != state.id || header.hop_index + 1
                == header.hops.len() || !state.packet_send.contains_key(
                header.hops[header.hop_index + 1],
            )
        }) ==> state.on_packet_crashing(packet, fragment_index).len() == 0,
{
}

/// The model of a packet holds each of its parts.
pub proof fn law_packet_models(packet: Packet)
    ensures
        packet@.session_id == packet.session_id,
        packet@.routing_header.hop_index == packet.routing_header.hop_index,
        packet@.routing_header.hops == packet.routing_header.hops@,
        packet.pack_type matches PacketType::MsgFragment(fragment) ==> packet@.pack_type
            == PacketTypeView::MsgFragment(fragment),
        packet.pack_type matches PacketType::Ack(ack) ==> packet@.pack_type == PacketTypeView::Ack(ack),
        packet.pack_type matches PacketType::Nack(nack) ==> packet@.pack_type == PacketTypeView::Nack(
            nack,
        ),
        packet.pack_type matches PacketType::FloodRequest(request) ==> packet@.pack_type
            == PacketTypeView::FloodRequest(
            FloodRequestView {
                flood_id: request.flood_id,
                initiator_id: request.initiator_id,
                path_trace: request.path_trace@,
            },
        ),
        packet.pack_type matches PacketType::FloodResponse(response) ==> packet@.pack_type
            == PacketTypeView::FloodResponse(
            FloodResponseView { flood_id: response.flood_id, path_trace: response.path_trace@ },
        ),
{
}

/// The models of headers, flood requests and flood responses hold each of their parts.
pub proof fn law_part_models(
    header: SourceRoutingHeader,
    request: FloodRequest,
    response: FloodResponse,
)
    ensures
        header@.hop_index == header.hop_index,
        header@.hops == header.hops@,
        request@.flood_id == request.flood_id,
        request@.initiator_id == request.initiator_id,
        request@.path_trace == request.path_trace@,
        response@.flood_id == response.flood_id,
        response@.path_trace == response.path_trace@,
{
}

/// The model of an action names the same node or event and the same packet, and the model of a list
/// of actions is the list of their models, in order.
pub proof fn law_action_models(
    dest_id: NodeId,
    packet: Packet,
    event: DroneEvent,
    actions: Seq<Action>,
)
    ensures
        Action::Send(dest_id, packet)@ == ActionView::Send(dest_id, packet@),
        Action::Notify(event)@ == ActionView::Notify(event@),
        DroneEvent::PacketSent(packet)@ == EventView::PacketSent(packet@),
        DroneEvent::PacketDropped(packet)@ == EventView::PacketDropped(packet@),
        DroneEvent::ControllerShortcut(packet)@ == EventView::ControllerShortcut(packet@),
        crate::action::trace(actions).len() == actions.len(),
        forall|i: int|
            0 <= i < actions.len() ==> #[trigger] crate::action::trace(actions)[i] == actions[i]@,
{
}

/// The model of a reaction holds the actions in order, or what is asked for.
pub proof fn law_reaction_models(reaction: Reaction)
    ensures
        reaction matches Reaction::Finished(actions) ==> {
            &&& reaction@ is Finished
            &&& reaction@->Finished_0.len() == actions@.len()
            &&& forall|i: int|
                0 <= i < actions@.len() ==> #[trigger] reaction@->Finished_0[i] == actions@[i]@
        },
        reaction is DrawNumber ==> reaction@ is DrawNumber,
        reaction matches Reaction::ExtendTrace { request, node_id, node_type, session_id } ==> reaction@
            == (ReactionView::ExtendTrace { request: request@, node_id, node_type, session_id }),
{
}

} // verus!
