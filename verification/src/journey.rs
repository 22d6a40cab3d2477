//! The journey of a packet through a network of drones.
use crate::action::{ActionView, EventView};
use crate::packet::{HeaderView, NackType, NodeId, PacketView};
use crate::protocol::DroneState;
use vstd::prelude::*;

verus! {

/// The hops from one position of a route up to another, without the latter, are drones of the
/// network, and each has the next hop as a neighbour.
pub open spec fn linked<S>(
    network: Map<NodeId, DroneState<S>>,
    hops: Seq<NodeId>,
    from: int,
    to: int,
) -> bool {
    forall|i: int|
        from <= i < to ==> {
            &&& network.contains_key(#[trigger] hops[i])
            &&& network[hops[i]].id == hops[i]
            &&& network[hops[i]].neighbours().contains(hops[i + 1])
        }
}

/// What comes of a packet that is on its way to its current hop after so many drones have dealt
/// with it. `draws` gives the number that is drawn at each position of the route. Nothing comes
/// of it where a drone does not send the packet on to the hop that its header names.
pub open spec fn journey<S>(
    network: Map<NodeId, DroneState<S>>,
    draws: spec_fn(int) -> u32,
    packet: PacketView,
    fragment_index: u64,
    steps: nat,
) -> Option<PacketView>
    decreases steps,
{
    let header = packet.routing_header;
    if steps == 0 {
        Some(packet)
    } else if !network.contains_key(header.current()) {
        None
    } else {
        let actions = crate::laws::outcome(
            network[header.current()],
            packet,
            fragment_index,
            draws(header.hop_index),
        );
        match actions.first() {
            ActionView::Send(dest_id, onward) => if dest_id == onward.routing_header.current() {
                journey(network, draws, onward, fragment_index, (steps - 1) as nat)
            } else {
                None
            },
            ActionView::Notify(_) => None,
        }
    }
}

/// The packet, so many hops further.
pub open spec fn hops_further(packet: PacketView, steps: nat) -> PacketView {
    PacketView {
        routing_header: HeaderView {
            hop_index: packet.routing_header.hop_index + steps,
            hops: packet.routing_header.hops,
        },
        ..packet
    }
}

/// A packet reaches every hop of its route that linked drones lead to, and arrives there as it
/// was sent, but for its hop index. A fragment does unless a drone on the way drops it.
pub proof fn law_packet_reaches_its_destination<S>(
    network: Map<NodeId, DroneState<S>>,
    draws: spec_fn(int) -> u32,
    packet: PacketView,
    fragment_index: u64,
    steps: nat,
)
    requires
        !(packet.pack_type is FloodRequest),
        packet.routing_header.has_current(),
        packet.routing_header.hop_index + steps < packet.routing_header.hops.len(),
        linked(
            network,
            packet.routing_header.hops,
            packet.routing_header.hop_index,
            packet.routing_header.hop_index + steps,
        ),
        packet.pack_type is MsgFragment ==> forall|i: int|
            packet.routing_header.hop_index <= i < packet.routing_header.hop_index + steps
                ==> !crate::rate::drops(
                draws(i),
                network[#[trigger] packet.routing_header.hops[i]].pdr,
            ),
    ensures
        journey(network, draws, packet, fragment_index, steps) == Some(hops_further(packet, steps)),
    decreases steps,
{
    if steps > 0 {
        let header = packet.routing_header;
        let state = network[header.hops[header.hop_index]];
        let onward = packet.advanced();
        crate::laws::law_passing_on_changes_only_the_hop(
            state,
            packet,
            fragment_index,
            draws(header.hop_index),
        );
        law_packet_reaches_its_destination(
            network,
            draws,
            onward,
            fragment_index,
            (steps - 1) as nat,
        );
    }
}

/// A nack reaches the sender of the packet that it answers: the drone at the current hop hands it
/// to the hop before, and from there linked drones pass it on until it arrives, unchanged but for
/// its hop index, at the first hop of the packet's route.
pub proof fn law_nack_reaches_the_sender<S>(
    network: Map<NodeId, DroneState<S>>,
    draws: spec_fn(int) -> u32,
    header: HeaderView,
    nack_type: NackType,
    session_id: u64,
    fragment_index: u64,
)
    requires
        header.has_previous(),
        linked(network, header.reversed().hops, 0, header.hop_index),
    ensures
        ({
            let nack = crate::protocol::nack_packet(header, nack_type, session_id, fragment_index);
            let arrived = hops_further(nack, (header.hop_index - 1) as nat);
            &&& network[header.current()].nacking(
                header,
                nack_type,
                session_id,
                fragment_index,
            ).first() == ActionView::Send(header.previous(), nack)
            &&& journey(network, draws, nack, fragment_index, (header.hop_index - 1) as nat) == Some(
                arrived,
            )
            &&& arrived.routing_header.current() == header.hops.first()
            &&& arrived.routing_header.hop_index == arrived.routing_header.hops.len() - 1
        }),
{
    let nack = crate::protocol::nack_packet(header, nack_type, session_id, fragment_index);
    let back = header.reversed();
    crate::laws::law_way_back_leads_to_sender(header);
    assert(network[back.hops[0]].neighbours().contains(back.hops[1]));
    crate::laws::law_nack_gets_out(
        network[header.current()],
        header,
        nack_type,
        session_id,
        fragment_index,
    );
    law_packet_reaches_its_destination(
        network,
        draws,
        nack,
        fragment_index,
        (header.hop_index - 1) as nat,
    );
}

/// A fragment that is dropped on its way is reported to its sender: it comes as far as the drone
/// that drops it, and the nack of that drone arrives at the first hop of its route.
pub proof fn law_drop_is_reported_to_the_sender<S>(
    network: Map<NodeId, DroneState<S>>,
    draws: spec_fn(int) -> u32,
    packet: PacketView,
    fragment_index: u64,
    steps: nat,
)
    requires
        packet.pack_type is MsgFragment,
        packet.routing_header.has_previous(),
        packet.routing_header.hop_index + steps + 1 < packet.routing_header.hops.len(),
        linked(
            network,
            packet.routing_header.hops,
            packet.routing_header.hop_index,
            packet.routing_header.hop_index + steps + 1,
        ),
        forall|i: int|
            packet.routing_header.hop_index <= i < packet.routing_header.hop_index + steps
                ==> !crate::rate::drops(
                draws(i),
                network[#[trigger] packet.routing_header.hops[i]].pdr,
            ),
        ({
            let dropped = hops_further(packet, steps).routing_header;
            &&& crate::rate::drops(draws(dropped.hop_index), network[dropped.current()].pdr)
            &&& linked(network, dropped.reversed().hops, 0, dropped.hop_index)
        }),
    ensures
        ({
            let dropped = hops_further(packet, steps);
            let header = dropped.routing_header;
            let nack = crate::protocol::nack_packet(
                header,
                NackType::Dropped,
                packet.session_id,
                fragment_index,
            );
            let way_back = (header.hop_index - 1) as nat;
            &&& journey(network, draws, packet, fragment_index, steps) == Some(dropped)
            &&& crate::laws::outcome(
                network[header.current()],
                dropped,
                fragment_index,
                draws(header.hop_index),
            ) == seq![
                ActionView::Send(header.previous(), nack),
                ActionView::Notify(EventView::PacketDropped(nack)),
            ]
            &&& journey(network, draws, nack, fragment_index, way_back) == Some(
                hops_further(nack, way_back),
            )
            &&& hops_further(nack, way_back).routing_header.current()
                == packet.routing_header.hops.first()
        }),
{
    let dropped = hops_further(packet, steps);
    let header = dropped.routing_header;
    law_packet_reaches_its_destination(network, draws, packet, fragment_index, steps);
    law_nack_reaches_the_sender(
        network,
        draws,
        header,
        NackType::Dropped,
        packet.session_id,
        fragment_index,
    );
    crate::laws::law_nack_gets_out(
        network[header.current()],
        header,
        NackType::Dropped,
        packet.session_id,
        fragment_index,
    );
    assert(network[header.hops[header.hop_index]].id == header.current());
}

} // verus!
