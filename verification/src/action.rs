//! What a drone is told to do, and what it asks the program around it to do.
use crate::packet::{FloodRequest, FloodRequestView, NodeId, NodeType, Packet, PacketView};
use vstd::prelude::*;

verus! {

/// A command of the simulation controller. `S` is the sending half of the channel to a
/// neighbour.
pub enum DroneCommand<S> {
    AddSender(NodeId, S),
    RemoveSender(NodeId),
    /// The new drop rate, as the bits that encode it.
    SetPacketDropRate(u32),
    Crash,
}

/// What the drone does after a command.
#[derive(Clone, Copy, Debug, PartialEq, Eq, Structural)]
pub enum AfterCommand {
    /// It goes on with the next command or packet.
    Continue,
    /// It works off the packets that are still to come, and ends.
    Crash,
}

/// An event that the drone reports to the simulation controller.
#[derive(Debug, PartialEq, Eq)]
pub enum DroneEvent {
    PacketSent(Packet),
    PacketDropped(Packet),
    ControllerShortcut(Packet),
}

#[verifier::ext_equal]
pub enum EventView {
    PacketSent(PacketView),
    PacketDropped(PacketView),
    ControllerShortcut(PacketView),
}

/// One thing that the program around the library does for the drone.
#[derive(Debug, PartialEq, Eq)]
pub enum Action {
    /// Send the packet on the channel to this neighbour.
    Send(NodeId, Packet),
    /// Report the event to the simulation controller.
    Notify(DroneEvent),
}

#[verifier::ext_equal]
pub enum ActionView {
    Send(NodeId, PacketView),
    Notify(EventView),
}

/// What follows from the arrival of a packet.
#[derive(Debug, PartialEq, Eq)]
pub enum Reaction {
    /// The packet is dealt with once these actions are performed in order.
    Finished(Vec<Action>),
    /// The packet is a fragment that can be passed on: a number is to be drawn, and
    /// handed to `TrustDrone::handle_fragment`.
    DrawNumber,
    /// The packet is a flood request: its trace is to be extended by this node, a
    /// response for this session is to be generated from the extended request, and both
    /// are to be handed to `TrustDrone::handle_flood_request`.
    ExtendTrace { request: FloodRequest, node_id: NodeId, node_type: NodeType, session_id: u64 },
}

#[verifier::ext_equal]
pub enum ReactionView {
    Finished(Seq<ActionView>),
    DrawNumber,
    ExtendTrace {
        request: FloodRequestView,
        node_id: NodeId,
        node_type: NodeType,
        session_id: u64,
    },
}

impl View for DroneEvent {
    type V = EventView;

    open spec fn view(&self) -> EventView {
        match *self {
            DroneEvent::PacketSent(packet) => EventView::PacketSent(packet@),
            DroneEvent::PacketDropped(packet) => EventView::PacketDropped(packet@),
            DroneEvent::ControllerShortcut(packet) => EventView::ControllerShortcut(packet@),
        }
    }
}

impl View for Action {
    type V = ActionView;

    open spec fn view(&self) -> ActionView {
        match *self {
            Action::Send(dest_id, packet) => ActionView::Send(dest_id, packet@),
            Action::Notify(event) => ActionView::Notify(event@),
        }
    }
}

/// The models of a list of actions.
pub open spec fn trace(actions: Seq<Action>) -> Seq<ActionView> {
    actions.map_values(|action: Action| action@)
}

impl View for Reaction {
    type V = ReactionView;

    open spec fn view(&self) -> ReactionView {
        match *self {
            Reaction::Finished(actions) => ReactionView::Finished(trace(actions@)),
            Reaction::DrawNumber => ReactionView::DrawNumber,
            Reaction::ExtendTrace { request, node_id, node_type, session_id } => {
                ReactionView::ExtendTrace { request: request@, node_id, node_type, session_id }
            },
        }
    }
}

} // verus!
