use rand::rngs::StdRng;
use rand::SeedableRng;
use std::collections::HashMap;
use trust_drone::action::{Action, DroneEvent, Reaction};
use trust_drone::drone::TrustDrone;
use trust_drone::packet::{
    Ack, FloodRequest, FloodResponse, Fragment, Nack, NackType, NodeId, NodeType, Packet,
    PacketType, SourceRoutingHeader,
};
use trust_drone::protocol::{Route, FLOOD_RESPONSE_SESSION};
use trust_drone::rate::{should_drop, ONE};

fn drone(id: NodeId, neighbours: &[NodeId]) -> TrustDrone<()> {
    let mut packet_send = HashMap::new();
    for n in neighbours {
        packet_send.insert(*n, ());
    }
    TrustDrone::with_seed(id, packet_send, 0.5f32.to_bits(), 42)
}

fn header(hop_index: usize, hops: &[NodeId]) -> SourceRoutingHeader {
    SourceRoutingHeader {
        hop_index,
        hops: hops.to_vec(),
    }
}

fn packet(pack_type: PacketType, hop_index: usize, hops: &[NodeId]) -> Packet {
    Packet {
        pack_type,
        routing_header: header(hop_index, hops),
        session_id: 5,
    }
}

fn fragment() -> PacketType {
    PacketType::MsgFragment(Fragment {
        fragment_index: 3,
        total_n_fragments: 9,
        length: 2,
        data: [8; 128],
    })
}

fn ack() -> PacketType {
    PacketType::Ack(Ack { fragment_index: 3 })
}

fn nack(nack_type: NackType) -> PacketType {
    PacketType::Nack(Nack {
        fragment_index: 3,
        nack_type,
    })
}

fn flood(path_trace: Vec<(NodeId, NodeType)>) -> FloodRequest {
    FloodRequest {
        flood_id: 77,
        initiator_id: 1,
        path_trace,
    }
}

fn response() -> PacketType {
    PacketType::FloodResponse(FloodResponse {
        flood_id: 77,
        path_trace: vec![(1, NodeType::Client), (11, NodeType::Drone)],
    })
}

fn sent(dest_id: NodeId, p: &Packet) -> Vec<Action> {
    vec![
        Action::Send(dest_id, p.clone()),
        Action::Notify(DroneEvent::PacketSent(p.clone())),
    ]
}

#[test]
fn reversed_headers() {
    let back = TrustDrone::<()>::reverse_headers(&header(2, &[1, 11, 12, 21]));
    assert_eq!(back, header(1, &[12, 11, 1]));
    let alone = TrustDrone::<()>::reverse_headers(&header(0, &[11, 12]));
    assert_eq!(alone, header(1, &[11]));
}

#[test]
fn way_back_of_way_back() {
    let back = TrustDrone::<()>::reverse_headers(&header(2, &[1, 11, 12, 21]));
    let forth = TrustDrone::<()>::reverse_headers(&header(2, &back.hops));
    assert_eq!(forth.hops, vec![1, 11, 12]);
}

#[test]
fn unexpected_recipient() {
    let d = drone(11, &[1, 12]);
    let p = packet(fragment(), 1, &[1, 13, 12]);
    let answer = packet(nack(NackType::UnexpectedRecipient(11)), 1, &[13, 1]);
    assert_eq!(d.handle_packet(&p, 3), Reaction::Finished(sent(1, &answer)));
}

#[test]
fn destination_is_drone() {
    let d = drone(11, &[1, 12]);
    let p = packet(ack(), 2, &[12, 1, 11]);
    let answer = packet(nack(NackType::DestinationIsDrone), 1, &[11, 1, 12]);
    assert_eq!(d.handle_packet(&p, 3), Reaction::Finished(sent(1, &answer)));
}

#[test]
fn error_in_routing() {
    let d = drone(11, &[1, 12]);
    let p = packet(fragment(), 1, &[1, 11, 13, 21]);
    let answer = packet(nack(NackType::ErrorInRouting(13)), 1, &[11, 1]);
    assert_eq!(d.handle_packet(&p, 3), Reaction::Finished(sent(1, &answer)));
    match d.route(&p.routing_header) {
        Route::Refused(reason) => assert_eq!(reason, NackType::ErrorInRouting(13)),
        Route::Onward(_) => panic!("the packet is refused"),
    }
}

#[test]
fn nack_without_neighbour_takes_the_shortcut() {
    let d = drone(11, &[12]);
    let p = packet(fragment(), 1, &[1, 11, 13, 21]);
    let answer = packet(nack(NackType::ErrorInRouting(13)), 1, &[11, 1]);
    assert_eq!(
        d.handle_packet(&p, 3),
        Reaction::Finished(vec![
            Action::Notify(DroneEvent::ControllerShortcut(answer.clone())),
            Action::Notify(DroneEvent::PacketSent(answer)),
        ])
    );
}

#[test]
fn control_packets_are_passed_on() {
    let d = drone(11, &[12]);
    for content in [ack(), nack(NackType::Dropped), response()] {
        let p = packet(content, 1, &[1, 11, 12, 21]);
        let mut onward = p.clone();
        onward.routing_header.hop_index = 2;
        assert_eq!(d.handle_packet(&p, 3), Reaction::Finished(sent(12, &onward)));
    }
}

#[test]
fn packet_passes_on_from_the_first_hop() {
    let d = drone(11, &[12]);
    let p = packet(ack(), 0, &[11, 12]);
    assert!(d.accepts(&p.routing_header));
    let onward = packet(ack(), 1, &[11, 12]);
    assert_eq!(d.handle_packet(&p, 3), Reaction::Finished(sent(12, &onward)));
}

#[test]
fn accepted_headers() {
    let d = drone(11, &[12]);
    assert!(!d.accepts(&header(2, &[1, 11])));
    assert!(!d.accepts(&header(0, &[])));
    assert!(!d.accepts(&header(0, &[13, 12])));
    assert!(!d.accepts(&header(0, &[11])));
    assert!(!d.accepts(&header(0, &[11, 13])));
    assert!(d.accepts(&header(1, &[13, 12])));
    assert!(d.accepts(&header(0, &[11, 12])));
    assert!(!d.accepts(&header(usize::MAX, &[11, 12])));
}

#[test]
fn lost_without_neighbour() {
    let d = drone(11, &[12]);
    let p = packet(fragment(), 1, &[1, 11, 12]);
    assert_eq!(d.send_packet(13, p.clone()), vec![]);
    assert_eq!(d.send_packet(12, p.clone()), vec![Action::Send(12, p.clone())]);
    let request = packet(PacketType::FloodRequest(flood(vec![])), 1, &[1, 11, 12]);
    assert_eq!(d.send_packet(13, request), vec![]);
    for content in [ack(), nack(NackType::Dropped), response()] {
        let q = packet(content, 1, &[1, 11, 12]);
        assert_eq!(
            d.send_packet(13, q.clone()),
            vec![Action::Notify(DroneEvent::ControllerShortcut(q))]
        );
    }
}

#[test]
fn sending_and_dropping_are_reported() {
    let d = drone(11, &[12]);
    let p = packet(ack(), 1, &[1, 11, 12]);
    assert_eq!(d.send_valid_packet(12, p.clone()), sent(12, &p));
    assert_eq!(
        d.drop_packet(12, p.clone()),
        vec![
            Action::Send(12, p.clone()),
            Action::Notify(DroneEvent::PacketDropped(p.clone())),
        ]
    );
    assert_eq!(
        d.send_packet_sent_event(p.clone()),
        Action::Notify(DroneEvent::PacketSent(p.clone()))
    );
    assert_eq!(
        d.send_packet_dropped_event(p.clone()),
        Action::Notify(DroneEvent::PacketDropped(p.clone()))
    );
    assert_eq!(
        d.send_shortcut(p.clone()),
        Action::Notify(DroneEvent::ControllerShortcut(p))
    );
}

#[test]
fn fragment_is_decided_by_the_number_drawn() {
    let d = drone(11, &[1, 12]);
    let p = packet(fragment(), 1, &[1, 11, 12, 21]);
    assert_eq!(d.handle_packet(&p, 3), Reaction::DrawNumber);

    let onward = packet(fragment(), 2, &[1, 11, 12, 21]);
    assert_eq!(d.handle_fragment(&p, 3, 0.75f32.to_bits()), sent(12, &onward));

    let answer = packet(nack(NackType::Dropped), 1, &[11, 1]);
    assert_eq!(
        d.handle_fragment(&p, 3, 0.5f32.to_bits()),
        vec![
            Action::Send(1, answer.clone()),
            Action::Notify(DroneEvent::PacketDropped(answer)),
        ]
    );
}

#[test]
fn zero_rate_passes_fragments_on_whatever_is_drawn() {
    let mut d = drone(11, &[1, 12]);
    d.set_packet_drop_rate(0.0f32.to_bits());
    let p = packet(fragment(), 1, &[1, 11, 12, 21]);
    let onward = packet(fragment(), 2, &[1, 11, 12, 21]);
    for draw in [0.0f32, 0.25, 0.99999994] {
        assert_eq!(d.handle_fragment(&p, 3, draw.to_bits()), sent(12, &onward));
    }
}

#[test]
fn flood_request_asks_for_its_trace() {
    let d = drone(11, &[1, 12]);
    let request = flood(vec![(1, NodeType::Client)]);
    let p = packet(PacketType::FloodRequest(request.clone()), 1, &[1, 11, 12]);
    assert_eq!(
        d.handle_packet(&p, 0),
        Reaction::ExtendTrace {
            request,
            node_id: 11,
            node_type: NodeType::Drone,
            session_id: 7,
        }
    );
    assert_eq!(FLOOD_RESPONSE_SESSION, 7);
}

#[test]
fn flood_spreads_once() {
    let mut d = drone(11, &[1, 12, 13]);
    let p = packet(
        PacketType::FloodRequest(flood(vec![(1, NodeType::Client), (12, NodeType::Drone)])),
        1,
        &[1, 11, 13],
    );
    let trace = vec![
        (1, NodeType::Client),
        (12, NodeType::Drone),
        (11, NodeType::Drone),
    ];
    let extended = flood(trace.clone());
    let answer = Packet {
        session_id: 7,
        ..packet(response(), 1, &[11, 12, 1])
    };

    // The packet goes, as a response, to all neighbours but the one that it came from.
    let spread = Packet {
        pack_type: PacketType::FloodResponse(FloodResponse {
            flood_id: 77,
            path_trace: trace,
        }),
        routing_header: header(1, &[1, 11, 13]),
        session_id: 5,
    };
    let actions = d.handle_flood_request(&p, &extended, answer.clone());
    assert_eq!(actions.len(), 2);
    assert!(actions.contains(&Action::Send(1, spread.clone())));
    assert!(actions.contains(&Action::Send(13, spread)));

    // The same flood again is answered to the neighbour that it came from.
    assert_eq!(
        d.handle_flood_request(&p, &extended, answer.clone()),
        vec![Action::Send(12, answer)]
    );
}

#[test]
fn flood_from_a_stranger_is_answered_through_the_controller() {
    let mut d = drone(11, &[12]);
    let p = packet(
        PacketType::FloodRequest(flood(vec![(9, NodeType::Client)])),
        1,
        &[9, 11, 12],
    );
    let extended = flood(vec![(9, NodeType::Client), (11, NodeType::Drone)]);
    let answer = packet(response(), 1, &[11, 9]);
    assert_eq!(
        d.handle_flood_request(&p, &extended, answer.clone()),
        vec![Action::Notify(DroneEvent::ControllerShortcut(answer))]
    );
}

#[test]
fn flood_without_a_trace_spreads_to_all() {
    let mut d = drone(11, &[1, 12]);
    let p = packet(PacketType::FloodRequest(flood(vec![])), 1, &[1, 11, 12]);
    let extended = flood(vec![(11, NodeType::Drone)]);
    let answer = packet(response(), 1, &[11, 1]);
    assert_eq!(d.handle_flood_request(&p, &extended, answer.clone()).len(), 2);
    assert_eq!(
        d.handle_flood_request(&p, &extended, answer.clone()),
        vec![Action::Notify(DroneEvent::ControllerShortcut(answer))]
    );
}

#[test]
fn flood_is_sent_back_where_there_is_one_neighbour() {
    let mut d = drone(11, &[12]);
    let p = packet(
        PacketType::FloodRequest(flood(vec![(12, NodeType::Drone)])),
        1,
        &[1, 11, 12],
    );
    let extended = flood(vec![(12, NodeType::Drone), (11, NodeType::Drone)]);
    let answer = packet(response(), 1, &[11, 12]);
    assert_eq!(
        d.handle_flood_request(&p, &extended, answer.clone()),
        vec![Action::Send(12, answer)]
    );
}

#[test]
fn crash_works_packets_off() {
    let d = drone(11, &[1, 12]);
    let route: [NodeId; 4] = [1, 11, 12, 21];

    let request = packet(PacketType::FloodRequest(flood(vec![])), 1, &route);
    assert_eq!(d.crash_behavior(&request, 0), vec![]);

    for content in [ack(), nack(NackType::Dropped), response()] {
        let p = packet(content, 1, &route);
        let mut onward = p.clone();
        onward.routing_header.hop_index = 2;
        assert_eq!(d.crash_behavior(&p, 3), sent(12, &onward));
    }

    let answer = packet(nack(NackType::ErrorInRouting(11)), 1, &[11, 1]);
    assert_eq!(d.crash_behavior(&packet(fragment(), 1, &route), 3), sent(1, &answer));

    // Not at this drone, at the end of the route, or on to a stranger: nothing is done.
    assert_eq!(d.crash_behavior(&packet(ack(), 1, &[1, 13, 12]), 3), vec![]);
    assert_eq!(d.crash_behavior(&packet(ack(), 1, &[1, 11]), 3), vec![]);
    assert_eq!(d.crash_behavior(&packet(ack(), 1, &[1, 11, 14]), 3), vec![]);
}

#[test]
fn crash_works_packets_off_one_by_one() {
    let d = drone(11, &[1, 12]);
    let arrivals = [
        packet(ack(), 1, &[1, 11, 12]),
        packet(fragment(), 1, &[1, 11, 12]),
        packet(ack(), 1, &[1, 11]),
        packet(response(), 1, &[1, 11, 12]),
    ];
    let mut actions = Vec::new();
    for p in &arrivals {
        actions.extend(d.crash_behavior(p, 3));
    }
    let mut expected = sent(12, &packet(ack(), 2, &[1, 11, 12]));
    expected.extend(sent(1, &packet(nack(NackType::ErrorInRouting(11)), 1, &[11, 1])));
    expected.extend(sent(12, &packet(response(), 2, &[1, 11, 12])));
    assert_eq!(actions, expected);
}

#[test]
fn accepted_in_a_crash() {
    let d = drone(11, &[1, 12]);
    let request = PacketType::FloodRequest(flood(vec![]));
    assert!(d.accepts_crashing(&packet(request, 9, &[])));
    assert!(d.accepts_crashing(&packet(ack(), 0, &[11])));
    assert!(!d.accepts_crashing(&packet(ack(), 1, &[11])));
    assert!(d.accepts_crashing(&packet(fragment(), 1, &[1, 11])));
    assert!(!d.accepts_crashing(&packet(fragment(), 0, &[1, 11])));
    assert!(!d.accepts_crashing(&packet(fragment(), 2, &[1, 11])));
}

#[test]
fn neighbours_come_and_go() {
    let mut d = drone(11, &[12]);
    assert!(d.is_next_hop_neighbour(12));
    assert!(!d.is_next_hop_neighbour(13));
    d.add_sender(13, ());
    assert!(d.is_next_hop_neighbour(13));
    d.remove_sender(13);
    assert!(!d.is_next_hop_neighbour(13));
    assert!(d.is_next_hop_neighbour(12));
    d.remove_sender(14);
    assert!(d.is_next_hop_neighbour(12));
}

#[test]
fn adding_a_neighbour_again_replaces_its_channel() {
    let mut d = TrustDrone::with_seed(11, HashMap::from([(12, "a")]), 0, 1);
    d.add_sender(12, "b");
    assert_eq!(d.sender(12), Some(&"b"));
    assert_eq!(d.sender(13), None);
}

#[test]
fn drops_are_decided_by_the_numbers_encoded() {
    let numbers = [
        0.0f32,
        -0.0,
        1.0,
        -1.0,
        0.5,
        0.7,
        0.99999994,
        1.5,
        f32::MIN_POSITIVE,
        -f32::MIN_POSITIVE,
        f32::from_bits(1),
        f32::from_bits(0x8000_0001),
        f32::from_bits(0x007f_ffff),
        f32::MAX,
        f32::MIN,
        f32::INFINITY,
        f32::NEG_INFINITY,
        f32::NAN,
        -f32::NAN,
    ];
    for a in numbers {
        for b in numbers {
            assert_eq!(should_drop(a.to_bits(), b.to_bits()), 0.0 < b && a <= b);
        }
    }
    assert_eq!(ONE, 1.0f32.to_bits());
}

#[test]
fn full_rate_drops_all_and_zero_rate_drops_none() {
    for k in 0..1000u32 {
        let draw = (k as f32) / 1000.0;
        assert!(should_drop(draw.to_bits(), 1.0f32.to_bits()));
        assert!(!should_drop(draw.to_bits(), 0.0f32.to_bits()));
        assert!(!should_drop(draw.to_bits(), (-0.0f32).to_bits()));
        assert!(!should_drop(draw.to_bits(), (-0.5f32).to_bits()));
        assert_eq!(should_drop(draw.to_bits(), 0.25f32.to_bits()), k <= 250);
    }
}

#[test]
fn generator_is_made_from_the_seed() {
    let mut d = drone(11, &[12]);
    assert_eq!(*d.rng_mut(), StdRng::seed_from_u64(42));
    assert_ne!(*d.rng_mut(), StdRng::seed_from_u64(43));
}

#[test]
fn new_drones_have_generators_of_their_own() {
    let mut a = TrustDrone::<()>::new(11, HashMap::new(), 0);
    let mut b = TrustDrone::<()>::new(11, HashMap::new(), 0);
    assert_ne!(*a.rng_mut(), *b.rng_mut());
}
