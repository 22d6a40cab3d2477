use crossbeam_channel::{unbounded, Receiver, Sender};
use rand::Rng;
use std::collections::HashMap;
use trust_drone::action::{Action, AfterCommand, DroneCommand, DroneEvent, Reaction};
use trust_drone::drone::TrustDrone;
use trust_drone::packet::{
    Ack, Fragment, Nack, NackType, NodeId, Packet, PacketType, SourceRoutingHeader,
};

/// Creates a sample packet. Clients have the identifiers 1 to 10, drones 11 to 20 and servers
/// 21 to 30.
fn create_sample_packet() -> Packet {
    Packet {
        pack_type: PacketType::MsgFragment(Fragment {
            fragment_index: 1,
            total_n_fragments: 1,
            length: 128,
            data: [1; 128],
        }),
        routing_header: SourceRoutingHeader {
            hop_index: 1,
            hops: vec![1, 11, 12, 21],
        },
        session_id: 1,
    }
}

fn fragment_index(packet: &Packet) -> u64 {
    match &packet.pack_type {
        PacketType::MsgFragment(fragment) => fragment.fragment_index,
        PacketType::Ack(ack) => ack.fragment_index,
        PacketType::Nack(nack) => nack.fragment_index,
        _ => 0,
    }
}

/// A drone with its channels.
struct Station {
    drone: TrustDrone<Sender<Packet>>,
    controller_send: Sender<DroneEvent>,
    packet_recv: Receiver<Packet>,
}

impl Station {
    fn new(
        id: NodeId,
        controller_send: Sender<DroneEvent>,
        packet_recv: Receiver<Packet>,
        neighbours: HashMap<NodeId, Sender<Packet>>,
        pdr: f32,
    ) -> Station {
        Station {
            drone: TrustDrone::new(id, neighbours, pdr.to_bits()),
            controller_send,
            packet_recv,
        }
    }

    /// Deals with every packet that has arrived, and returns how many there were.
    fn work(&mut self) -> usize {
        let mut n = 0;
        while let Ok(packet) = self.packet_recv.try_recv() {
            n += 1;
            let index = fragment_index(&packet);
            assert!(self.drone.accepts(&packet.routing_header));
            let actions = match self.drone.handle_packet(&packet, index) {
                Reaction::Finished(actions) => actions,
                Reaction::DrawNumber => {
                    let draw: f32 = self.drone.rng_mut().gen_range(0.0..1.0);
                    self.drone.handle_fragment(&packet, index, draw.to_bits())
                }
                Reaction::ExtendTrace { .. } => panic!("no flood request is sent here"),
            };
            for action in actions {
                match action {
                    Action::Send(dest_id, packet) => {
                        let sender = self.drone.sender(dest_id).expect("a neighbour");
                        sender.send(packet).expect("Sender should be valid");
                    }
                    Action::Notify(event) => {
                        let _ = self.controller_send.send(event);
                    }
                }
            }
        }
        n
    }
}

#[test]
fn test_add_sender() {
    let id: u8 = 123;
    let pdr: f32 = 0.5;
    let (packet_sender, _packet_recv) = unbounded::<Packet>();
    let packet_send = HashMap::<NodeId, Sender<Packet>>::new();
    let mut drone = TrustDrone::new(id, packet_send, pdr.to_bits());

    let id_test: u8 = 234;
    drone.add_sender(id_test, packet_sender);
    match drone.sender(id_test) {
        Some(_) => (),
        None => panic!("Error: packet_send not found/inserted correctly"),
    }
}

#[test]
fn test_set_packet_drop_rate() {
    let id: u8 = 123;
    let pdr: f32 = 0.5;
    let packet_send = HashMap::<NodeId, Sender<Packet>>::new();
    let mut drone = TrustDrone::new(id, packet_send, pdr.to_bits());
    assert_eq!(f32::from_bits(drone.pdr()), 0.5);

    drone.set_packet_drop_rate(0.7f32.to_bits());
    assert_eq!(f32::from_bits(drone.pdr()), 0.7);
}

#[test]
fn test_handle_command() {
    let id: u8 = 123;
    let pdr: f32 = 0.5;
    let (packet_sender, _packet_recv) = unbounded::<Packet>();
    let packet_send = HashMap::<NodeId, Sender<Packet>>::new();
    let mut drone = TrustDrone::new(id, packet_send, pdr.to_bits());

    let id_test = 234;
    let dc1 = DroneCommand::AddSender(id_test, packet_sender);
    let dc2 = DroneCommand::SetPacketDropRate(0.7f32.to_bits());
    let dc3 = DroneCommand::RemoveSender(id_test);
    let dc4 = DroneCommand::Crash;

    assert_eq!(drone.handle_command(dc1), AfterCommand::Continue);
    match drone.sender(id_test) {
        Some(_) => {
            assert_eq!(drone.handle_command(dc3), AfterCommand::Continue);
            match drone.sender(id_test) {
                Some(_) => panic!("Error: sender should have been eliminated"),
                None => (),
            }
        }
        None => panic!("Error: packet_send not found/inserted correctly"),
    }

    assert_eq!(drone.handle_command(dc2), AfterCommand::Continue);
    assert_eq!(f32::from_bits(drone.pdr()), 0.7);

    assert_eq!(drone.handle_command(dc4), AfterCommand::Crash);
    assert_eq!(drone.id(), 123);
}

/// The packet is passed on. The drone must have a drop rate of zero.
#[test]
fn generic_fragment_forward() {
    let (d_send, d_recv) = unbounded();
    let (d2_send, d2_recv) = unbounded::<Packet>();

    let neighbours = HashMap::from([(12, d2_send.clone())]);
    let mut drone = Station::new(11, unbounded().0, d_recv.clone(), neighbours, 0.0);

    let mut msg = create_sample_packet();
    d_send.send(msg.clone()).unwrap();
    drone.work();
    msg.routing_header.hop_index = 2;
    let t = d2_recv.try_recv().unwrap();
    assert_eq!(t, msg);
}

/// The packet is dropped. The drone must have a drop rate of one.
#[test]
fn generic_fragment_drop() {
    let (c_send, c_recv) = unbounded();
    let (d_send, d_recv) = unbounded();

    let neighbours = HashMap::from([(12, d_send.clone()), (1, c_send.clone())]);
    let mut drone = Station::new(11, unbounded().0, d_recv.clone(), neighbours, 1.0);

    let msg = create_sample_packet();
    d_send.send(msg.clone()).unwrap();
    drone.work();

    let dropped = Nack {
        fragment_index: 1,
        nack_type: NackType::Dropped,
    };
    let srh = SourceRoutingHeader {
        hop_index: 1,
        hops: vec![11, 1],
    };
    let nack_packet = Packet {
        pack_type: PacketType::Nack(dropped),
        routing_header: srh,
        session_id: 1,
    };
    let t = c_recv.try_recv().unwrap();
    assert_eq!(t, nack_packet);
}

/// The packet is dropped by the second drone. The first must have a drop rate of zero and the
/// second one of one.
#[test]
fn generic_chain_fragment_drop() {
    let (c_send, c_recv) = unbounded();
    let (s_send, _s_recv) = unbounded();
    let (d_send, d_recv) = unbounded();
    let (d12_send, d12_recv) = unbounded();
    let (event_send, event_recv) = unbounded();

    let neighbours11 = HashMap::from([(12, d12_send.clone()), (1, c_send.clone())]);
    let mut drone = Station::new(11, event_send.clone(), d_recv.clone(), neighbours11, 0.0);
    let neighbours12 = HashMap::from([(11, d_send.clone()), (21, s_send.clone())]);
    let mut drone2 = Station::new(12, event_send.clone(), d12_recv.clone(), neighbours12, 1.0);

    let msg = create_sample_packet();
    d_send.send(msg.clone()).unwrap();
    while drone.work() + drone2.work() > 0 {}

    let t3 = c_recv.try_recv().unwrap();
    let t4 = Packet {
        pack_type: PacketType::Nack(Nack {
            fragment_index: 1,
            nack_type: NackType::Dropped,
        }),
        routing_header: SourceRoutingHeader {
            hop_index: 2,
            hops: vec![12, 11, 1],
        },
        session_id: 1,
    };
    assert_eq!(t3, t4);

    // The first drone reports the fragment, the second the nack, the first the nack again.
    let mut nack = t4.clone();
    nack.routing_header.hop_index = 1;
    let mut passed = msg.clone();
    passed.routing_header.hop_index = 2;
    assert_eq!(event_recv.try_recv().unwrap(), DroneEvent::PacketSent(passed));
    assert_eq!(event_recv.try_recv().unwrap(), DroneEvent::PacketDropped(nack));
    assert_eq!(event_recv.try_recv().unwrap(), DroneEvent::PacketSent(t4));
    assert!(event_recv.try_recv().is_err());
}

/// The packet reaches its destination, and the ack comes back. Both drones must have a drop rate
/// of zero.
#[test]
fn generic_chain_fragment_ack() {
    let (c_send, c_recv) = unbounded();
    let (s_send, s_recv) = unbounded();
    let (d_send, d_recv) = unbounded();
    let (d12_send, d12_recv) = unbounded();
    let (event_send, _event_recv) = unbounded();

    let neighbours11 = HashMap::from([(12, d12_send.clone()), (1, c_send.clone())]);
    let mut drone = Station::new(11, event_send.clone(), d_recv.clone(), neighbours11, 0.0);
    let neighbours12 = HashMap::from([(11, d_send.clone()), (21, s_send.clone())]);
    let mut drone2 = Station::new(12, event_send.clone(), d12_recv.clone(), neighbours12, 0.0);

    let msg = Packet {
        pack_type: PacketType::MsgFragment(Fragment {
            fragment_index: 1,
            total_n_fragments: 1,
            length: 128,
            data: [1; 128],
        }),
        routing_header: SourceRoutingHeader {
            hop_index: 1,
            hops: vec![1, 11, 12, 21],
        },
        session_id: 1,
    };
    d_send.send(msg.clone()).unwrap();
    while drone.work() + drone2.work() > 0 {}

    let arrived = s_recv.try_recv().unwrap();
    assert_eq!(arrived.routing_header.hop_index, 3);
    assert_eq!(arrived.pack_type, msg.pack_type);

    let ack = Packet {
        pack_type: PacketType::Ack(Ack { fragment_index: 1 }),
        routing_header: SourceRoutingHeader {
            hop_index: 1,
            hops: vec![21, 12, 11, 1],
        },
        session_id: 1,
    };
    d12_send.send(ack.clone()).unwrap();
    while drone.work() + drone2.work() > 0 {}

    let t6 = c_recv.try_recv().unwrap();
    let ack2 = Packet {
        pack_type: PacketType::Ack(Ack { fragment_index: 1 }),
        routing_header: SourceRoutingHeader {
            hop_index: 3,
            hops: vec![21, 12, 11, 1],
        },
        session_id: 1,
    };
    assert_eq!(t6, ack2);
}
