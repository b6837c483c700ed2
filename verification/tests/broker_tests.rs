use samsunghvac::broker::{Broker, PeerLabel, SendOutcome, OUTBOUND_QUEUE};
use samsunghvac::packet::{
    Address, Data, DataType, Message, MessageNumber, Packet, PacketInfo, PacketType,
    SerializePacketError, Value,
};

fn packet(messages: &[Message]) -> Packet {
    Packet {
        source: Address { class: 0x80, channel: 0x10, address: 0x10 },
        destination: Address { class: 0x80, channel: 0x20, address: 0x10 },
        packet_info: PacketInfo::from_byte(0xc0),
        packet_type: PacketType::Normal,
        data_type: DataType::Response,
        packet_number: 7,
        data: Data::Messages(heapless::Vec::from_slice(messages).unwrap()),
    }
}

fn names(broker: &Broker<&'static str>) -> Vec<&'static str> {
    (0..broker.len()).map(|place| broker.peer(place).io).collect()
}

fn broker_of(clients: &[&'static str]) -> Broker<&'static str> {
    let mut broker = Broker::new("bus");
    for client in clients {
        broker.accept(*client);
    }
    broker
}

#[test]
fn the_bus_is_the_first_peer() {
    let broker = Broker::new("bus");
    assert_eq!(broker.len(), 1);
    assert_eq!(broker.peer(0).label, PeerLabel::Bus);
    assert_eq!(broker.peer(0).io, "bus");
    assert!(broker.has_bus());
    assert!(broker.targets(0).is_empty());
    assert_eq!(OUTBOUND_QUEUE, 8);
}

#[test]
fn clients_are_taken_in_behind() {
    let broker = broker_of(&["A", "B"]);
    assert_eq!(names(&broker), vec!["bus", "A", "B"]);
    assert_eq!(broker.peer(1).label, PeerLabel::Client);
    assert_eq!(broker.peer(2).label, PeerLabel::Client);
}

#[test]
fn broker_fan_out() {
    let mut broker = broker_of(&["A", "B", "C"]);
    // a packet arrives from A
    let forward = broker.forward(1, &packet(&[Message {
        number: MessageNumber(0x4000),
        value: Value::Enum(1),
    }]));
    let forward = forward.unwrap();
    assert_eq!(forward.targets, vec![0, 2, 3]);
    assert_eq!(
        &forward.frame[..],
        &[
            0xfd, 0xf8, 0xef, 0x7c, 0x32, 0x00, 0x11, 0x80, 0x10, 0x10, 0x80, 0x20, 0x10, 0xc0,
            0x15, 0x07, 0x01, 0x40, 0x00, 0x01, 0x9a, 0xcd, 0x34,
        ]
    );
    // the queue of C is full: B gets the packet all the same, and C stays
    let dead =
        broker.settle(1, &[SendOutcome::Sent, SendOutcome::Sent, SendOutcome::Full]);
    assert!(dead.is_empty());
    assert_eq!(names(&broker), vec!["bus", "A", "B", "C"]);
}

#[test]
fn never_back_to_the_sender() {
    let broker = broker_of(&["A", "B", "C", "D"]);
    for from in 0..broker.len() {
        let targets = broker.targets(from);
        assert!(!targets.contains(&from));
        let mut expected: Vec<usize> = (0..broker.len()).collect();
        expected.remove(from);
        assert_eq!(targets, expected);
    }
}

#[test]
fn a_packet_that_cannot_be_framed_goes_nowhere() {
    let broker = broker_of(&["A"]);
    let wrong = packet(&[Message { number: MessageNumber(0x4201), value: Value::Enum(1) }]);
    assert!(matches!(
        broker.forward(0, &wrong),
        Err(SerializePacketError::InvalidMessageValue)
    ));
    let many: Vec<Message> = (0..255)
        .map(|i| Message { number: MessageNumber(0x0411), value: Value::LongVariable(i) })
        .collect();
    assert!(matches!(
        broker.forward(0, &packet(&many)),
        Err(SerializePacketError::BufferTooShort)
    ));
}

#[test]
fn peers_with_a_closed_queue_are_removed() {
    let mut broker = broker_of(&["A", "B", "C", "D"]);
    // from B; the targets are bus, A, C, D
    let dead = broker.settle(
        2,
        &[SendOutcome::Sent, SendOutcome::Closed, SendOutcome::Closed, SendOutcome::Full],
    );
    let dead: Vec<&str> = dead.iter().map(|peer| peer.io).collect();
    assert_eq!(dead, vec!["C", "A"]);
    assert_eq!(names(&broker), vec!["bus", "D", "B"]);
    assert!(broker.has_bus());
}

#[test]
fn all_other_peers_can_go_at_once() {
    let mut broker = broker_of(&["A", "B", "C"]);
    let dead = broker.settle(3, &[SendOutcome::Closed; 3]);
    assert_eq!(dead.len(), 3);
    assert_eq!(names(&broker), vec!["C"]);
    assert!(!broker.has_bus());
}

#[test]
fn a_peer_whose_stream_ended_is_removed() {
    let mut broker = broker_of(&["A", "B", "C"]);
    let gone = broker.close(1);
    assert_eq!(gone.io, "A");
    assert_eq!(gone.label, PeerLabel::Client);
    assert_eq!(names(&broker), vec!["bus", "C", "B"]);
    assert!(broker.has_bus());
    let gone = broker.close(0);
    assert_eq!(gone.label, PeerLabel::Bus);
    assert_eq!(names(&broker), vec!["B", "C"]);
    assert!(!broker.has_bus());
}

#[test]
fn polling_goes_round() {
    let mut broker = broker_of(&["A", "B", "C"]);
    assert_eq!(broker.poll_order(), vec![0, 1, 2, 3]);
    broker.received(0);
    assert_eq!(broker.poll_order(), vec![1, 2, 3, 0]);
    broker.received(2);
    assert_eq!(broker.poll_order(), vec![3, 0, 1, 2]);
    broker.received(3);
    assert_eq!(broker.poll_order(), vec![0, 1, 2, 3]);
    broker.received(2);
    broker.close(3);
    assert_eq!(broker.poll_order(), vec![0, 1, 2]);
    broker.received(1);
    broker.settle(0, &[SendOutcome::Sent, SendOutcome::Closed]);
    assert_eq!(broker.poll_order(), vec![0, 1]);
}
