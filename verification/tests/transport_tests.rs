use samsunghvac::frame::FrameError;
use samsunghvac::packet::{
    Address, Data, DataType, Message, MessageNumber, Packet, PacketError, PacketInfo,
    PacketType, SerializePacketError, Value,
};
use samsunghvac::transport::{
    receive_frame, serialize_frame, PacketStream, ReadPacketError, Received,
};

const FRAME: [u8; 23] = [
    0xfd, 0xf8, 0xef, 0x7c, 0x32, 0x00, 0x11, 0x80, 0x10, 0x10, 0x80, 0x20, 0x10, 0xc0, 0x15,
    0x07, 0x01, 0x40, 0x00, 0x01, 0x9a, 0xcd, 0x34,
];

fn packet(count: usize) -> Packet {
    let list: Vec<Message> = (0..count)
        .map(|i| Message { number: MessageNumber(0x4201), value: Value::Variable(i as u16) })
        .collect();
    Packet {
        source: Address { class: 0x80, channel: 0x10, address: 0x10 },
        destination: Address { class: 0x80, channel: 0x20, address: 0x10 },
        packet_info: PacketInfo::new(),
        packet_type: PacketType::Normal,
        data_type: DataType::Response,
        packet_number: 7,
        data: Data::Messages(heapless::Vec::from_slice(&list).unwrap()),
    }
}

fn count_of(packet: &Packet) -> usize {
    match &packet.data {
        Data::Messages(list) => list.len(),
        Data::Structure(_) => panic!("structure where messages were expected"),
    }
}

#[test]
fn a_packet_becomes_the_bytes_of_one_frame() {
    let mut response = packet(0);
    response.data = Data::Messages(
        heapless::Vec::from_slice(&[Message {
            number: MessageNumber(0x4000),
            value: Value::Enum(1),
        }])
        .unwrap(),
    );
    let frame = serialize_frame(&response).unwrap();
    assert_eq!(&frame[..], &FRAME[..]);
}

#[test]
fn a_frame_takes_at_most_1024_bytes() {
    // 10 bytes of header and 251 messages of 4 bytes make a payload of 1014 bytes
    assert_eq!(serialize_frame(&packet(251)).unwrap().len(), 1024);
    assert!(matches!(
        serialize_frame(&packet(252)),
        Err(SerializePacketError::BufferTooShort)
    ));
}

#[test]
fn a_wrong_value_makes_no_frame() {
    let mut wrong = packet(0);
    wrong.data = Data::Messages(
        heapless::Vec::from_slice(&[Message {
            number: MessageNumber(0x4000),
            value: Value::Variable(1),
        }])
        .unwrap(),
    );
    assert!(matches!(serialize_frame(&wrong), Err(SerializePacketError::InvalidMessageValue)));
}

#[test]
fn what_a_payload_is_received_as() {
    match receive_frame(&FRAME[7..20]) {
        Received::Packet(packet) => {
            assert_eq!(packet.packet_number, 7);
            assert_eq!(count_of(&packet), 1);
        }
        other => panic!("{:?}", other),
    }
    assert!(matches!(
        receive_frame(&FRAME[7..19]),
        Received::Failed(ReadPacketError::Packet(PacketError::TooShort))
    ));
    let mut reserved = FRAME[7..20].to_vec();
    reserved[7] = 0x19;
    assert!(matches!(
        receive_frame(&reserved),
        Received::Failed(ReadPacketError::Packet(PacketError::UnknownDataType(9)))
    ));
}

#[test]
fn bytes_in_packets_out() {
    let mut stream = PacketStream::new();
    let mut bytes = FRAME.to_vec();
    bytes.extend_from_slice(&serialize_frame(&packet(3)).unwrap());
    let items = stream.feed(&bytes);
    assert_eq!(items.len(), 2);
    match (&items[0], &items[1]) {
        (Received::Packet(first), Received::Packet(second)) => {
            assert_eq!(count_of(first), 1);
            assert_eq!(count_of(second), 3);
        }
        other => panic!("{:?}", other),
    }
}

#[test]
fn a_frame_may_arrive_in_pieces() {
    let mut stream = PacketStream::new();
    for piece in FRAME[..22].chunks(5) {
        assert!(stream.feed(piece).is_empty());
    }
    assert!(stream.feed(&[]).is_empty());
    let items = stream.feed(&FRAME[22..]);
    assert!(matches!(&items[..], [Received::Packet(_)]));
}

#[test]
fn errors_do_not_end_the_stream() {
    let mut stream = PacketStream::new();
    let mut bytes = vec![0x32, 0x00, 0x02];
    // a frame with a broken CRC
    bytes.extend_from_slice(&FRAME);
    bytes[3 + 20] ^= 0x01;
    // a frame that holds no packet
    bytes.extend_from_slice(&[0x32, 0x00, 0x05, 0xaa, 0x14, 0xa0, 0x34]);
    bytes.extend_from_slice(&FRAME);
    let items = stream.feed(&bytes);
    assert_eq!(items.len(), 4);
    assert!(matches!(
        items[0],
        Received::Failed(ReadPacketError::Frame(FrameError::FrameTooShort { size: 2 }))
    ));
    assert!(matches!(
        items[1],
        Received::Failed(ReadPacketError::Frame(FrameError::BadCrc {
            received: 0x9bcd,
            expected: 0x9acd
        }))
    ));
    assert!(matches!(
        items[2],
        Received::Failed(ReadPacketError::Packet(PacketError::TooShort))
    ));
    assert!(matches!(items[3], Received::Packet(_)));
}
