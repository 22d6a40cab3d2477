//! The drone.
use crate::action::{Action, AfterCommand, DroneCommand, DroneEvent, Reaction};
use crate::generator::{generator_from_seed, random_seed};
use crate::packet::{
    clone_trace, FloodRequest, FloodResponse, Nack, NackType, NodeId, NodeType, Packet, PacketType,
    SourceRoutingHeader,
};
use crate::protocol::{DroneState, Route, FLOOD_RESPONSE_SESSION};
use crate::rate::should_drop;
use rand::rngs::StdRng;
use std::collections::HashMap;
use vstd::prelude::*;

verus! {

broadcast use vstd::std_specs::hash::group_hash_axioms;

/// A drone of the network. `S` is the sending half of the channel to a neighbour.
pub struct TrustDrone<S> {
    id: NodeId,
    packet_send: HashMap<NodeId, S>,
    pdr: u32,
    rng: StdRng,
    flood_ids: Vec<u64>,
}

impl<S> View for TrustDrone<S> {
    type V = DroneState<S>;

    closed spec fn view(&self) -> DroneState<S> {
        DroneState {
            id: self.id,
            packet_send: self.packet_send@,
            pdr: self.pdr,
            flood_ids: self.flood_ids@,
        }
    }
}

impl<S> TrustDrone<S> {
    /// The random number generator of the drone.
    pub closed spec fn rng(self) -> StdRng {
        self.rng
    }

    /// Whether the flood is one that the drone has seen.
    fn has_seen(&self, flood_id: u64) -> (seen: bool)
        ensures
            seen == self@.flood_ids.contains(flood_id),
    {
        let mut i: usize = 0;
        while i < self.flood_ids.len()
            invariant
                i <= self.flood_ids.len(),
                forall|j: int| 0 <= j < i ==> self.flood_ids@[j] != flood_id,
            decreases self.flood_ids.len() - i,
        {
            if self.flood_ids[i] == flood_id {
                assert(self@.flood_ids[i as int] == flood_id);
                return true;
            }
            i = i + 1;
        }
        false
    }

    /// Whether the node is a neighbour, that is, one that the drone can send to.
    pub fn is_next_hop_neighbour(&self, next_hop: NodeId) -> (found: bool)
        ensures
            found == self@.neighbours().contains(next_hop),
    {
        self.packet_send.contains_key(&next_hop)
    }

    /// The header of a packet that travels back along the hops that led to the current one.
    pub fn reverse_headers(source_routing_header: &SourceRoutingHeader) -> (new_headers:
        SourceRoutingHeader)
        requires
            source_routing_header@.has_current(),
        ensures
            new_headers@ == source_routing_header@.reversed(),
    {
        let mut new_hops: Vec<NodeId> = Vec::new();
        assert(source_routing_header.hop_index < source_routing_header.hops.len());
        let n: usize = source_routing_header.hop_index + 1;
        let ghost back = source_routing_header@.reversed().hops;
        let mut i: usize = 0;
        while i < n
            invariant
                i <= n <= source_routing_header.hops.len(),
                n == source_routing_header.hop_index + 1,
                back == source_routing_header@.reversed().hops,
                back.len() == n,
                new_hops@ == back.take(i as int),
            decreases n - i,
        {
            let hop: NodeId = source_routing_header.hops[n - 1 - i];
            assert(hop == back[i as int]);
            new_hops.push(hop);
            i = i + 1;
        }
        assert(back.take(n as int) == back);
        SourceRoutingHeader { hop_index: 1, hops: new_hops }
    }

    /// The report that a packet was sent.
    pub fn send_packet_sent_event(&self, packet: Packet) -> (action: Action)
        ensures
            action == Action::Notify(DroneEvent::PacketSent(packet)),
    {
        Action::Notify(DroneEvent::PacketSent(packet))
    }

    /// The report that a packet was dropped.
    pub fn send_packet_dropped_event(&self, packet: Packet) -> (action: Action)
        ensures
            action == Action::Notify(DroneEvent::PacketDropped(packet)),
    {
        Action::Notify(DroneEvent::PacketDropped(packet))
    }

    /// The request that the controller delivers a packet.
    pub fn send_shortcut(&self, packet: Packet) -> (action: Action)
        ensures
            action == Action::Notify(DroneEvent::ControllerShortcut(packet)),
    {
        Action::Notify(DroneEvent::ControllerShortcut(packet))
    }

    /// Sends a packet to a neighbour. A packet that must arrive goes to the controller where
    /// there is no such neighbour; any other is lost.
    pub fn send_packet(&self, dest_id: NodeId, packet: Packet) -> (actions: Vec<Action>)
        ensures
            crate::action::trace(actions@) == self@.sending(dest_id, packet@),
    {
        let mut actions: Vec<Action> = Vec::new();
        if self.is_next_hop_neighbour(dest_id) {
            actions.push(Action::Send(dest_id, packet));
        } else {
            match packet.pack_type {
                PacketType::Ack(_) | PacketType::Nack(_) | PacketType::FloodResponse(_) => {
                    actions.push(self.send_shortcut(packet));
                },
                _ => {},
            }
        }
        actions
    }

    /// Sends a packet and reports it as sent.
    pub fn send_valid_packet(&self, dest_id: NodeId, packet: Packet) -> (actions: Vec<Action>)
        ensures
            crate::action::trace(actions@) == self@.sending_valid(dest_id, packet@),
    {
        let mut actions = self.send_packet(dest_id, packet.clone());
        actions.push(self.send_packet_sent_event(packet));
        actions
    }

    /// Sends a packet and reports it as dropped.
    pub fn drop_packet(&self, dest_id: NodeId, packet: Packet) -> (actions: Vec<Action>)
        ensures
            crate::action::trace(actions@) == self@.dropping(dest_id, packet@),
    {
        let mut actions = self.send_packet(dest_id, packet.clone());
        actions.push(self.send_packet_dropped_event(packet));
        actions
    }

    /// Answers a packet with a nack to the hop that it came from.
    pub fn send_nack(
        &self,
        routing_header: &SourceRoutingHeader,
        nack_type: NackType,
        session_id: u64,
        fragment_index: u64,
    ) -> (actions: Vec<Action>)
        requires
            routing_header@.has_previous(),
        ensures
            crate::action::trace(actions@) == self@.nacking(
                routing_header@,
                nack_type,
                session_id,
                fragment_index,
            ),
    {
        let new_headers = Self::reverse_headers(routing_header);
        let is_dropped = match nack_type {
            NackType::Dropped => true,
            _ => false,
        };
        let next_hop: NodeId = new_headers.hops[1];
        let nack = Packet {
            pack_type: PacketType::Nack(Nack { fragment_index, nack_type }),
            routing_header: new_headers,
            session_id,
        };
        if is_dropped {
            self.drop_packet(next_hop, nack)
        } else {
            self.send_valid_packet(next_hop, nack)
        }
    }

    /// Where a packet with the given header goes, or why it is refused.
    pub fn route(&self, header: &SourceRoutingHeader) -> (route: Route)
        requires
            header@.has_current(),
        ensures
            route == self@.route(header@),
    {
        if header.hops[header.hop_index] != self.id {
            return Route::Refused(NackType::UnexpectedRecipient(self.id));
        }
        assert(header.hop_index < header.hops.len());
        let next_index: usize = header.hop_index + 1;
        if next_index == header.hops.len() {
            return Route::Refused(NackType::DestinationIsDrone);
        }
        let next_hop: NodeId = header.hops[next_index];
        if !self.is_next_hop_neighbour(next_hop) {
            return Route::Refused(NackType::ErrorInRouting(next_hop));
        }
        Route::Onward(next_hop)
    }

    /// Whether the drone can answer for a packet with the given header.
    pub fn accepts(&self, header: &SourceRoutingHeader) -> (accepted: bool)
        ensures
            accepted == self@.accepts(header@),
    {
        if header.hop_index >= header.hops.len() {
            return false;
        }
        match self.route(header) {
            Route::Refused(_) => header.hop_index >= 1,
            Route::Onward(_) => true,
        }
    }

    /// Decides what follows from the arrival of a packet with the given fragment index.
    pub fn handle_packet(&self, packet: &Packet, fragment_index: u64) -> (reaction: Reaction)
        requires
            self@.accepts(packet@.routing_header),
        ensures
            reaction@ == self@.on_packet(packet@, fragment_index),
    {
        match self.route(&packet.routing_header) {
            Route::Refused(nack_type) => Reaction::Finished(
                self.send_nack(
                    &packet.routing_header,
                    nack_type,
                    packet.session_id,
                    fragment_index,
                ),
            ),
            Route::Onward(next_hop) => match &packet.pack_type {
                PacketType::MsgFragment(_) => Reaction::DrawNumber,
                PacketType::FloodRequest(request) => Reaction::ExtendTrace {
                    request: request.clone(),
                    node_id: self.id,
                    node_type: NodeType::Drone,
                    session_id: FLOOD_RESPONSE_SESSION,
                },
                _ => Reaction::Finished(self.forward(next_hop, packet)),
            },
        }
    }

    /// Passes a packet on to its next hop.
    fn forward(&self, next_hop: NodeId, packet: &Packet) -> (actions: Vec<Action>)
        requires
            packet@.routing_header.has_current(),
        ensures
            crate::action::trace(actions@) == self@.sending_valid(next_hop, packet@.advanced()),
    {
        assert(packet.routing_header.hop_index < packet.routing_header.hops.len());
        let mut onward = packet.clone();
        onward.routing_header.hop_index = packet.routing_header.hop_index + 1;
        self.send_valid_packet(next_hop, onward)
    }

    /// Passes a fragment on or drops it, given the number that was drawn for it.
    pub fn handle_fragment(&self, packet: &Packet, fragment_index: u64, draw: u32) -> (actions:
        Vec<Action>)
        requires
            packet@.pack_type is MsgFragment,
            packet@.routing_header.has_current(),
            self@.route(packet@.routing_header) is Onward,
            crate::rate::drops(draw, self@.pdr) ==> packet@.routing_header.has_previous(),
        ensures
            crate::action::trace(actions@) == self@.on_fragment(packet@, fragment_index, draw),
    {
        if should_drop(draw, self.pdr) {
            self.send_nack(
                &packet.routing_header,
                NackType::Dropped,
                packet.session_id,
                fragment_index,
            )
        } else {
            assert(packet.routing_header.hop_index < packet.routing_header.hops.len());
            let next_hop: NodeId = packet.routing_header.hops[packet.routing_header.hop_index + 1];
            self.forward(next_hop, packet)
        }
    }

    /// Answers a flood request or spreads it, given the request with its trace extended and
    /// the response that was generated from it.
    pub fn handle_flood_request(
        &mut self,
        packet: &Packet,
        extended: &FloodRequest,
        response: Packet,
    ) -> (actions: Vec<Action>)
        requires
            packet@.pack_type is FloodRequest,
            packet@.routing_header.has_current(),
            old(self)@.route(packet@.routing_header) is Onward,
            extended@.path_trace.len() > 0,
        ensures
            old(self)@.on_flood_request(
                packet@,
                extended@,
                response@,
                crate::action::trace(actions@),
            ),
            final(self)@ == old(self)@.after_flood(extended@.flood_id),
            final(self).rng() == old(self).rng(),
            old(self)@.wf() ==> final(self)@.wf(),
    {
        let previous_neighbour = Self::flood_sender(packet, extended);
        if self.has_seen(extended.flood_id) {
            self.send_packet(previous_neighbour, response)
        } else {
            self.flood_ids.push(extended.flood_id);
            if self.packet_send.len() == 1 {
                self.send_packet(previous_neighbour, response)
            } else {
                let answer = Packet {
                    pack_type: PacketType::FloodResponse(
                        FloodResponse {
                            flood_id: extended.flood_id,
                            path_trace: clone_trace(&extended.path_trace),
                        },
                    ),
                    routing_header: packet.routing_header.clone(),
                    session_id: packet.session_id,
                };
                self.send_to_all_but(previous_neighbour, &answer)
            }
        }
    }

    /// The neighbour that a flood request came from.
    fn flood_sender(packet: &Packet, extended: &FloodRequest) -> (sender: NodeId)
        requires
            extended@.path_trace.len() > 0,
        ensures
            sender == crate::protocol::flood_sender(packet@, extended@),
    {
        if let PacketType::FloodRequest(request) = &packet.pack_type {
            if request.path_trace.len() > 0 {
                return request.path_trace[request.path_trace.len() - 1].0;
            }
        }
        extended.path_trace[extended.path_trace.len() - 1].0
    }

    /// Sends a packet to every neighbour but one.
    fn send_to_all_but(&self, excluded: NodeId, packet: &Packet) -> (actions: Vec<Action>)
        ensures
            crate::protocol::is_broadcast(
                crate::action::trace(actions@),
                self@.neighbours().remove(excluded),
                packet@,
            ),
    {
        let mut actions: Vec<Action> = Vec::new();
        let ghost mut order: Seq<NodeId> = Seq::empty();
        let ghost ks = vstd::std_specs::iter::IteratorSpec::remaining(
            &self.packet_send.keys(),
        ).unref();
        for key in keys: self.packet_send.keys()
            invariant
                order.no_duplicates(),
                keys.seq().unref() == ks,
                ks.to_set() == self@.neighbours(),
                ks.no_duplicates(),
                forall|k: NodeId| #[trigger]
                    order.contains(k) <==> k != excluded && exists|j: int|
                        0 <= j < keys.index() && ks[j] == k,
                crate::action::trace(actions@) == order.map_values(
                    |dest: NodeId| crate::action::ActionView::Send(dest, packet@),
                ),
        {
            let ghost before = order;
            let ghost sent = actions@;
            let ghost i = keys.index();
            assert(ks[i as int] == *key);
            assert(!before.contains(*key));
            if *key != excluded {
                actions.push(Action::Send(*key, packet.clone()));
                proof {
                    order = order.push(*key);
                    let send = |dest: NodeId| crate::action::ActionView::Send(dest, packet@);
                    assert(actions@.last()@ == send(*key));
                    assert(crate::action::trace(actions@) =~= crate::action::trace(sent).push(
                        send(*key),
                    ));
                    assert(order.map_values(send) =~= before.map_values(send).push(send(*key)));
                }
            }
            assert forall|k: NodeId| #[trigger] order.contains(k) <==> k != excluded && exists|
                j: int,
            | 0 <= j < i + 1 && ks[j] == k by {
                if before.contains(k) {
                    let j = choose|j: int| 0 <= j < i && ks[j] == k;
                    let n = choose|n: int| 0 <= n < before.len() && before[n] == k;
                    assert(order[n] == k);
                }
                if k == *key && k != excluded {
                    assert(order.last() == k);
                }
            }
        }
        proof {
            assert(order.to_set() =~= self@.neighbours().remove(excluded)) by {
                assert forall|k: NodeId| self@.neighbours().contains(k) implies exists|j: int|
                    0 <= j < ks.len() && ks[j] == k by {
                    assert(ks.to_set().contains(k));
                }
            }
        }
        actions
    }

    /// What a crashing drone does with a packet that still arrives.
    pub fn crash_behavior(&self, packet: &Packet, fragment_index: u64) -> (actions: Vec<Action>)
        requires
            self@.accepts_crashing(packet@),
        ensures
            crate::action::trace(actions@) == self@.on_packet_crashing(packet@, fragment_index),
    {
        match &packet.pack_type {
            PacketType::FloodRequest(_) => Vec::new(),
            PacketType::Ack(_) | PacketType::Nack(_) | PacketType::FloodResponse(_) => {
                match self.route(&packet.routing_header) {
                    Route::Onward(next_hop) => self.forward(next_hop, packet),
                    Route::Refused(_) => Vec::new(),
                }
            },
            PacketType::MsgFragment(_) => self.send_nack(
                &packet.routing_header,
                NackType::ErrorInRouting(self.id),
                packet.session_id,
                fragment_index,
            ),
        }
    }

    /// Whether a crashing drone can work the packet off.
    pub fn accepts_crashing(&self, packet: &Packet) -> (accepted: bool)
        ensures
            accepted == self@.accepts_crashing(packet@),
    {
        let header = &packet.routing_header;
        match &packet.pack_type {
            PacketType::FloodRequest(_) => true,
            PacketType::MsgFragment(_) => 1 <= header.hop_index && header.hop_index
                < header.hops.len(),
            _ => header.hop_index < header.hops.len(),
        }
    }

    /// Makes a node a neighbour, or replaces the channel to it.
    pub fn add_sender(&mut self, id: NodeId, sender: S)
        ensures
            final(self)@ == (DroneState {
                packet_send: old(self)@.packet_send.insert(id, sender),
                ..old(self)@
            }),
            final(self).rng() == old(self).rng(),
            old(self)@.wf() ==> final(self)@.wf(),
    {
        self.packet_send.insert(id, sender);
    }

    /// Makes a node no neighbour any more.
    pub fn remove_sender(&mut self, neighbor_id: NodeId)
        ensures
            final(self)@ == (DroneState {
                packet_send: old(self)@.packet_send.remove(neighbor_id),
                ..old(self)@
            }),
            final(self).rng() == old(self).rng(),
            old(self)@.wf() ==> final(self)@.wf(),
    {
        self.packet_send.remove(&neighbor_id);
    }

    /// Sets the drop rate to the number that the bits encode.
    pub fn set_packet_drop_rate(&mut self, pdr: u32)
        ensures
            final(self)@ == (DroneState { pdr, ..old(self)@ }),
            final(self).rng() == old(self).rng(),
            old(self)@.wf() ==> final(self)@.wf(),
    {
        self.pdr = pdr;
    }

    /// Carries out a command of the simulation controller.
    pub fn handle_command(&mut self, command: DroneCommand<S>) -> (after: AfterCommand)
        ensures
            final(self)@ == old(self)@.on_command(command),
            after == (if command is Crash {
                AfterCommand::Crash
            } else {
                AfterCommand::Continue
            }),
            final(self).rng() == old(self).rng(),
            old(self)@.wf() ==> final(self)@.wf(),
    {
        match command {
            DroneCommand::AddSender(id, sender) => {
                self.add_sender(id, sender);
                AfterCommand::Continue
            },
            DroneCommand::SetPacketDropRate(pdr) => {
                self.set_packet_drop_rate(pdr);
                AfterCommand::Continue
            },
            DroneCommand::Crash => AfterCommand::Crash,
            DroneCommand::RemoveSender(neighbor_id) => {
                self.remove_sender(neighbor_id);
                AfterCommand::Continue
            },
        }
    }

    /// A drone that has seen no flood, with a generator seeded by chance. The drop rate is
    /// given by the bits that encode it.
    pub fn new(id: NodeId, packet_send: HashMap<NodeId, S>, pdr: u32) -> (drone: Self)
        ensures
            drone@ == DroneState::initial(id, packet_send@, pdr),
            drone@.wf(),
            exists|seed: u64| drone.rng() == #[trigger] crate::generator::seeded(seed),
    {
        let random_seed: u64 = random_seed();
        Self::with_seed(id, packet_send, pdr, random_seed)
    }

    /// A drone that has seen no flood, with a generator made from the given seed.
    pub fn with_seed(id: NodeId, packet_send: HashMap<NodeId, S>, pdr: u32, seed: u64) -> (drone:
        Self)
        ensures
            drone@ == DroneState::initial(id, packet_send@, pdr),
            drone@.wf(),
            drone.rng() == crate::generator::seeded(seed),
    {
        TrustDrone { id, packet_send, pdr, rng: generator_from_seed(seed), flood_ids: Vec::new() }
    }

    /// The generator, to draw numbers from.
    pub fn rng_mut(&mut self) -> (rng: &mut StdRng)
        ensures
            *rng == old(self).rng(),
            final(self)@ == old(self)@,
            final(self).rng() == *final(rng),
    {
        &mut self.rng
    }

    /// The identifier of the drone.
    pub fn id(&self) -> (id: NodeId)
        ensures
            id == self@.id,
    {
        self.id
    }

    /// The bits that encode the drop rate.
    pub fn pdr(&self) -> (pdr: u32)
        ensures
            pdr == self@.pdr,
    {
        self.pdr
    }

    /// The sending half of the channel to a node, if it is a neighbour.
    pub fn sender(&self, id: NodeId) -> (sender: Option<&S>)
        ensures
            sender == (if self@.neighbours().contains(id) {
                Some(&self@.packet_send[id])
            } else {
                None
            }),
    {
        self.packet_send.get(&id)
    }
}

} // verus!
