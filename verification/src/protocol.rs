//! The rules that a drone follows, stated over mathematical models.
use crate::action::{ActionView, DroneCommand, EventView, ReactionView};
use crate::packet::{
    FloodRequestView, FloodResponseView, HeaderView, Nack, NackType, NodeId, NodeType, PacketTypeView,
    PacketView,
};
use vstd::prelude::*;

verus! {

/// The session that the responses to flood requests carry.
pub const FLOOD_RESPONSE_SESSION: u64 = 7;

/// The state of a drone.
#[verifier::ext_equal]
pub struct DroneState<S> {
    pub id: NodeId,
    /// The neighbours, each with the sending half of the channel to it.
    pub packet_send: Map<NodeId, S>,
    /// The drop rate, as the bits that encode it.
    pub pdr: u32,
    /// The floods that the drone has seen, in the order in which they came.
    pub flood_ids: Seq<u64>,
}

/// Where a drone passes a packet on to, or why it does not.
pub enum Route {
    Onward(NodeId),
    Refused(NackType),
}

impl HeaderView {
    /// The header of a packet that travels back from the current hop to the sender.
    pub open spec fn reversed(self) -> HeaderView {
        HeaderView { hop_index: 1, hops: self.hops.take(self.hop_index + 1).reverse() }
    }

    /// The header with the next hop as the current one.
    pub open spec fn advanced(self) -> HeaderView {
        HeaderView { hop_index: self.hop_index + 1, hops: self.hops }
    }

    /// The current hop is one of the hops.
    pub open spec fn has_current(self) -> bool {
        0 <= self.hop_index < self.hops.len()
    }

    /// The current hop is one of the hops, and there is one before it.
    pub open spec fn has_previous(self) -> bool {
        1 <= self.hop_index < self.hops.len()
    }

    pub open spec fn current(self) -> NodeId {
        self.hops[self.hop_index]
    }

    pub open spec fn previous(self) -> NodeId {
        self.hops[self.hop_index - 1]
    }
}

impl PacketTypeView {
    /// Acks, nacks and flood responses must not get lost.
    pub open spec fn must_arrive(self) -> bool {
        self is Ack || self is Nack || self is FloodResponse
    }
}

impl PacketView {
    /// The packet, one hop further.
    pub open spec fn advanced(self) -> PacketView {
        PacketView { routing_header: self.routing_header.advanced(), ..self }
    }

    /// The packet as a response that carries the trace of a flood request.
    pub open spec fn with_response(self, request: FloodRequestView) -> PacketView {
        PacketView {
            pack_type: PacketTypeView::FloodResponse(
                FloodResponseView { flood_id: request.flood_id, path_trace: request.path_trace },
            ),
            ..self
        }
    }
}

/// The nack that answers a packet with the given header.
pub open spec fn nack_packet(
    header: HeaderView,
    nack_type: NackType,
    session_id: u64,
    fragment_index: u64,
) -> PacketView {
    PacketView {
        pack_type: PacketTypeView::Nack(Nack { fragment_index, nack_type }),
        routing_header: header.reversed(),
        session_id,
    }
}

/// The neighbour that a flood request came from: the last node of the trace with which it arrived.
/// A request that arrived with no trace counts as coming from the last node of its extended trace.
pub open spec fn flood_sender(packet: PacketView, extended: FloodRequestView) -> NodeId {
    match packet.pack_type {
        PacketTypeView::FloodRequest(request) if request.path_trace.len() > 0 => {
            request.path_trace.last().0
        },
        _ => extended.path_trace.last().0,
    }
}

/// The packet goes once to each of the nodes, in any order, and nothing else is done.
pub open spec fn is_broadcast(
    actions: Seq<ActionView>,
    dests: Set<NodeId>,
    packet: PacketView,
) -> bool {
    exists|order: Seq<NodeId>|
        {
            &&& #[trigger] order.no_duplicates()
            &&& order.to_set() == dests
            &&& actions == order.map_values(|dest: NodeId| ActionView::Send(dest, packet))
        }
}

impl<S> DroneState<S> {
    /// The state of a drone that has seen no flood.
    pub open spec fn initial(id: NodeId, packet_send: Map<NodeId, S>, pdr: u32) -> DroneState<S> {
        DroneState { id, packet_send, pdr, flood_ids: seq![] }
    }

    /// No flood is recorded twice.
    pub open spec fn wf(self) -> bool {
        self.flood_ids.no_duplicates()
    }

    pub open spec fn neighbours(self) -> Set<NodeId> {
        self.packet_send.dom()
    }

    /// Sending a packet: a neighbour gets it on its channel. For any other node it is
    /// lost, unless it must arrive: then the controller gets it.
    pub open spec fn sending(self, dest_id: NodeId, packet: PacketView) -> Seq<ActionView> {
        if self.neighbours().contains(dest_id) {
            seq![ActionView::Send(dest_id, packet)]
        } else if packet.pack_type.must_arrive() {
            seq![ActionView::Notify(EventView::ControllerShortcut(packet))]
        } else {
            seq![]
        }
    }

    /// Sending a packet and reporting it as sent.
    pub open spec fn sending_valid(self, dest_id: NodeId, packet: PacketView) -> Seq<ActionView> {
        self.sending(dest_id, packet).push(ActionView::Notify(EventView::PacketSent(packet)))
    }

    /// Sending a packet and reporting it as dropped.
    pub open spec fn dropping(self, dest_id: NodeId, packet: PacketView) -> Seq<ActionView> {
        self.sending(dest_id, packet).push(ActionView::Notify(EventView::PacketDropped(packet)))
    }

    /// Answering a packet with a nack, which goes to the hop before the current one.
    pub open spec fn nacking(
        self,
        header: HeaderView,
        nack_type: NackType,
        session_id: u64,
        fragment_index: u64,
    ) -> Seq<ActionView> {
        let nack = nack_packet(header, nack_type, session_id, fragment_index);
        if nack_type == NackType::Dropped {
            self.dropping(header.previous(), nack)
        } else {
            self.sending_valid(header.previous(), nack)
        }
    }

    /// Where a packet with the given header goes: it must be at this drone, have a next
    /// hop, and have a neighbour as its next hop.
    pub open spec fn route(self, header: HeaderView) -> Route {
        if header.current() != self.id {
            Route::Refused(NackType::UnexpectedRecipient(self.id))
        } else if header.hop_index + 1 == header.hops.len() {
            Route::Refused(NackType::DestinationIsDrone)
        } else if !self.neighbours().contains(header.advanced().current()) {
            Route::Refused(NackType::ErrorInRouting(header.advanced().current()))
        } else {
            Route::Onward(header.advanced().current())
        }
    }

    /// The drone can answer for a packet with the given header: the header has a current
    /// hop, and one before it where the packet is refused.
    pub open spec fn accepts(self, header: HeaderView) -> bool {
        &&& header.has_current()
        &&& self.route(header) is Refused ==> header.has_previous()
    }

    /// What follows from the arrival of a packet.
    pub open spec fn on_packet(self, packet: PacketView, fragment_index: u64) -> ReactionView {
        match self.route(packet.routing_header) {
            Route::Refused(nack_type) => ReactionView::Finished(
                self.nacking(packet.routing_header, nack_type, packet.session_id, fragment_index),
            ),
            Route::Onward(next_hop) => match packet.pack_type {
                PacketTypeView::MsgFragment(_) => ReactionView::DrawNumber,
                PacketTypeView::FloodRequest(request) => ReactionView::ExtendTrace {
                    request,
                    node_id: self.id,
                    node_type: NodeType::Drone,
                    session_id: FLOOD_RESPONSE_SESSION,
                },
                _ => ReactionView::Finished(self.sending_valid(next_hop, packet.advanced())),
            },
        }
    }

    /// What is done with a fragment that can be passed on, given the number drawn for it.
    pub open spec fn on_fragment(
        self,
        packet: PacketView,
        fragment_index: u64,
        draw: u32,
    ) -> Seq<ActionView> {
        if crate::rate::drops(draw, self.pdr) {
            self.nacking(
                packet.routing_header,
                NackType::Dropped,
                packet.session_id,
                fragment_index,
            )
        } else {
            self.sending_valid(packet.routing_header.advanced().current(), packet.advanced())
        }
    }

    /// The state after a flood request: a flood that is new is recorded.
    pub open spec fn after_flood(self, flood_id: u64) -> DroneState<S> {
        if self.flood_ids.contains(flood_id) {
            self
        } else {
            DroneState { flood_ids: self.flood_ids.push(flood_id), ..self }
        }
    }

    /// The actions that may follow a flood request: where the flood was seen before or there is
    /// but one neighbour, the response goes back to the neighbour that the request came from;
    /// otherwise the packet goes, as a response with the extended trace, to every neighbour but
    /// that one.
    pub open spec fn on_flood_request(
        self,
        packet: PacketView,
        extended: FloodRequestView,
        response: PacketView,
        actions: Seq<ActionView>,
    ) -> bool {
        let sender = flood_sender(packet, extended);
        if self.flood_ids.contains(extended.flood_id) || self.neighbours().len() == 1 {
            actions == self.sending(sender, response)
        } else {
            is_broadcast(actions, self.neighbours().remove(sender), packet.with_response(extended))
        }
    }

    /// The state after a command.
    pub open spec fn on_command(self, command: DroneCommand<S>) -> DroneState<S> {
        match command {
            DroneCommand::AddSender(id, sender) => DroneState {
                packet_send: self.packet_send.insert(id, sender),
                ..self
            },
            DroneCommand::RemoveSender(id) => DroneState {
                packet_send: self.packet_send.remove(id),
                ..self
            },
            DroneCommand::SetPacketDropRate(pdr) => DroneState { pdr, ..self },
            DroneCommand::Crash => self,
        }
    }

    /// What a crashing drone needs of a packet to work it off.
    pub open spec fn accepts_crashing(self, packet: PacketView) -> bool {
        match packet.pack_type {
            PacketTypeView::FloodRequest(_) => true,
            PacketTypeView::MsgFragment(_) => packet.routing_header.has_previous(),
            _ => packet.routing_header.has_current(),
        }
    }

    /// What a crashing drone does with a packet: a flood request is lost, a fragment is
    /// answered with a nack, and any other packet is still passed on where that is possible.
    pub open spec fn on_packet_crashing(
        self,
        packet: PacketView,
        fragment_index: u64,
    ) -> Seq<ActionView> {
        match packet.pack_type {
            PacketTypeView::FloodRequest(_) => seq![],
            PacketTypeView::MsgFragment(_) => self.nacking(
                packet.routing_header,
                NackType::ErrorInRouting(self.id),
                packet.session_id,
                fragment_index,
            ),
            _ => match self.route(packet.routing_header) {
                Route::Onward(next_hop) => self.sending_valid(next_hop, packet.advanced()),
                Route::Refused(_) => seq![],
            },
        }
    }

    /// What a crashing drone does with a sequence of packets, each with its fragment index: it
    /// works them off in the order in which they arrive.
    pub open spec fn on_packets_crashing(self, arrivals: Seq<(PacketView, u64)>) -> Seq<ActionView>
        decreases arrivals.len(),
    {
        if arrivals.len() == 0 {
            seq![]
        } else {
            self.on_packets_crashing(arrivals.drop_last()) + self.on_packet_crashing(
                arrivals.last().0,
                arrivals.last().1,
            )
        }
    }
}

} // verus!
