//! The packets that travel through the network, and their mathematical models.
use vstd::prelude::*;

verus! {

/// The identifier of a node of the network.
pub type NodeId = u8;

/// What a node of the network is.
#[derive(Clone, Copy, Debug, PartialEq, Eq, Structural)]
pub enum NodeType {
    Client,
    Drone,
    Server,
}

/// The route of a packet: the nodes from the sender to the destination, and the
/// position in that list of the node that the packet travels to.
#[derive(Debug, PartialEq, Eq)]
pub struct SourceRoutingHeader {
    pub hop_index: usize,
    pub hops: Vec<NodeId>,
}

#[verifier::ext_equal]
pub struct HeaderView {
    pub hop_index: int,
    pub hops: Seq<NodeId>,
}

/// A piece of a higher-level message.
#[derive(Clone, Copy, Debug, PartialEq, Eq)]
pub struct Fragment {
    pub fragment_index: u64,
    pub total_n_fragments: u64,
    pub length: u8,
    pub data: [u8; 128],
}

/// Confirms that a fragment was received.
#[derive(Clone, Copy, Debug, PartialEq, Eq, Structural)]
pub struct Ack {
    pub fragment_index: u64,
}

/// Why a packet was not passed on.
#[derive(Clone, Copy, Debug, PartialEq, Eq, Structural)]
pub enum NackType {
    ErrorInRouting(NodeId),
    DestinationIsDrone,
    Dropped,
    UnexpectedRecipient(NodeId),
}

/// Tells the sender of a packet that it was not passed on.
#[derive(Clone, Copy, Debug, PartialEq, Eq, Structural)]
pub struct Nack {
    pub fragment_index: u64,
    pub nack_type: NackType,
}

/// A query that floods the network to discover its topology.
#[derive(Debug, PartialEq, Eq)]
pub struct FloodRequest {
    pub flood_id: u64,
    pub initiator_id: NodeId,
    pub path_trace: Vec<(NodeId, NodeType)>,
}

#[verifier::ext_equal]
pub struct FloodRequestView {
    pub flood_id: u64,
    pub initiator_id: NodeId,
    pub path_trace: Seq<(NodeId, NodeType)>,
}

/// The answer to a flood request.
#[derive(Debug, PartialEq, Eq)]
pub struct FloodResponse {
    pub flood_id: u64,
    pub path_trace: Vec<(NodeId, NodeType)>,
}

#[verifier::ext_equal]
pub struct FloodResponseView {
    pub flood_id: u64,
    pub path_trace: Seq<(NodeId, NodeType)>,
}

/// The content of a packet.
#[derive(Debug, PartialEq, Eq)]
pub enum PacketType {
    MsgFragment(Fragment),
    Ack(Ack),
    Nack(Nack),
    FloodRequest(FloodRequest),
    FloodResponse(FloodResponse),
}

#[verifier::ext_equal]
pub enum PacketTypeView {
    MsgFragment(Fragment),
    Ack(Ack),
    Nack(Nack),
    FloodRequest(FloodRequestView),
    FloodResponse(FloodResponseView),
}

/// The unit of communication in the network.
#[derive(Debug, PartialEq, Eq)]
pub struct Packet {
    pub pack_type: PacketType,
    pub routing_header: SourceRoutingHeader,
    pub session_id: u64,
}

#[verifier::ext_equal]
pub struct PacketView {
    pub pack_type: PacketTypeView,
    pub routing_header: HeaderView,
    pub session_id: u64,
}

impl View for SourceRoutingHeader {
    type V = HeaderView;

    open spec fn view(&self) -> HeaderView {
        HeaderView { hop_index: self.hop_index as int, hops: self.hops@ }
    }
}

impl View for FloodRequest {
    type V = FloodRequestView;

    open spec fn view(&self) -> FloodRequestView {
        FloodRequestView {
            flood_id: self.flood_id,
            initiator_id: self.initiator_id,
            path_trace: self.path_trace@,
        }
    }
}

impl View for FloodResponse {
    type V = FloodResponseView;

    open spec fn view(&self) -> FloodResponseView {
        FloodResponseView { flood_id: self.flood_id, path_trace: self.path_trace@ }
    }
}

impl View for PacketType {
    type V = PacketTypeView;

    open spec fn view(&self) -> PacketTypeView {
        match *self {
            PacketType::MsgFragment(fragment) => PacketTypeView::MsgFragment(fragment),
            PacketType::Ack(ack) => PacketTypeView::Ack(ack),
            PacketType::Nack(nack) => PacketTypeView::Nack(nack),
            PacketType::FloodRequest(request) => PacketTypeView::FloodRequest(request@),
            PacketType::FloodResponse(response) => PacketTypeView::FloodResponse(response@),
        }
    }
}

impl View for Packet {
    type V = PacketView;

    open spec fn view(&self) -> PacketView {
        PacketView {
            pack_type: self.pack_type@,
            routing_header: self.routing_header@,
            session_id: self.session_id,
        }
    }
}

/// Copies a trace of nodes.
pub(crate) fn clone_trace(trace: &Vec<(NodeId, NodeType)>) -> (copy: Vec<(NodeId, NodeType)>)
    ensures
        copy@ == trace@,
{
    let mut copy: Vec<(NodeId, NodeType)> = Vec::new();
    let mut i: usize = 0;
    while i < trace.len()
        invariant
            i <= trace.len(),
            copy@ == trace@.take(i as int),
        decreases trace.len() - i,
    {
        copy.push(trace[i]);
        i = i + 1;
    }
    copy
}

impl Clone for SourceRoutingHeader {
    fn clone(&self) -> (copy: Self)
        ensures
            copy@ == self@,
    {
        SourceRoutingHeader { hop_index: self.hop_index, hops: self.hops.clone() }
    }
}

impl Clone for FloodRequest {
    fn clone(&self) -> (copy: Self)
        ensures
            copy@ == self@,
    {
        FloodRequest {
            flood_id: self.flood_id,
            initiator_id: self.initiator_id,
            path_trace: clone_trace(&self.path_trace),
        }
    }
}

impl Clone for FloodResponse {
    fn clone(&self) -> (copy: Self)
        ensures
            copy@ == self@,
    {
        FloodResponse { flood_id: self.flood_id, path_trace: clone_trace(&self.path_trace) }
    }
}

impl Clone for PacketType {
    fn clone(&self) -> (copy: Self)
        ensures
            copy@ == self@,
    {
        match self {
            PacketType::MsgFragment(fragment) => PacketType::MsgFragment(*fragment),
            PacketType::Ack(ack) => PacketType::Ack(*ack),
            PacketType::Nack(nack) => PacketType::Nack(*nack),
            PacketType::FloodRequest(request) => PacketType::FloodRequest(request.clone()),
            PacketType::FloodResponse(response) => PacketType::FloodResponse(response.clone()),
        }
    }
}

impl Clone for Packet {
    fn clone(&self) -> (copy: Self)
        ensures
            copy@ == self@,
    {
        Packet {
            pack_type: self.pack_type.clone(),
            routing_header: self.routing_header.clone(),
            session_id: self.session_id,
        }
    }
}

} // verus!
