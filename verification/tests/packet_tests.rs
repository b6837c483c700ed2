use samsunghvac::frame::{crc16, FrameParser};
use samsunghvac::packet::{
    Address, Data, DataType, InvalidAddress, Message, MessageKind, MessageNumber, Packet,
    PacketError, PacketInfo, PacketType, SerializePacketError, Structure, Value,
};
use samsunghvac::reader::PacketReader;
use samsunghvac::wire::{u16_from_be, u16_to_be, u32_from_be, u32_to_be};
use samsunghvac::writer::PacketWriter;

const NOTIFICATION: [u8; 13] = [
    0x80, 0x10, 0x10, 0x20, 0x00, 0x00, 0xa0, 0x14, 0x05, 0x01, 0x40, 0x00, 0x01,
];

fn address(class: u8, channel: u8, address: u8) -> Address {
    Address { class, channel, address }
}

fn message(number: u16, value: Value) -> Message {
    Message { number: MessageNumber(number), value }
}

fn packet_with(data: Data) -> Packet {
    Packet {
        source: address(0x80, 0x10, 0x10),
        destination: address(0x20, 0x00, 0x00),
        packet_info: PacketInfo::new(),
        packet_type: PacketType::Normal,
        data_type: DataType::Notification,
        packet_number: 5,
        data,
    }
}

fn messages(list: &[Message]) -> Data {
    Data::Messages(heapless::Vec::from_slice(list).unwrap())
}

fn messages_of(packet: &Packet) -> Vec<Message> {
    match &packet.data {
        Data::Messages(list) => list.as_slice().to_vec(),
        Data::Structure(_) => panic!("structure where messages were expected"),
    }
}

fn payload_of(packet: &Packet) -> Vec<u8> {
    let mut buffer = [0u8; 2048];
    let mut writer = PacketWriter::new(&mut buffer);
    let len = packet.serialize(&mut writer).unwrap();
    buffer[..len].to_vec()
}

#[test]
fn big_endian_values() {
    assert_eq!(u16_from_be([0x12, 0x34]), 0x1234);
    assert_eq!(u16_to_be(0x1234), [0x12, 0x34]);
    assert_eq!(u32_from_be([0x12, 0x34, 0x56, 0x78]), 0x1234_5678);
    assert_eq!(u32_to_be(0x1234_5678), [0x12, 0x34, 0x56, 0x78]);
    assert_eq!(u32_to_be(u32::MAX), [0xff; 4]);
    assert_eq!(u16_from_be(u16_to_be(0xfffe)), 0xfffe);
}

#[test]
fn address_bytes() {
    let a = Address::from_bytes([0x80, 0x20, 0x10]);
    assert_eq!(a, address(0x80, 0x20, 0x10));
    assert_eq!(a.to_bytes(), [0x80, 0x20, 0x10]);
}

#[test]
fn address_text() {
    assert_eq!(address(0x80, 0x10, 0x10).to_string(), "80.10.10");
    assert_eq!(address(0x0a, 0xff, 0x00).to_string(), "0a.ff.00");
    assert_eq!(Address::from_str("80.10.10"), Ok(address(0x80, 0x10, 0x10)));
    assert_eq!(Address::from_str("0A.fF.00"), Ok(address(0x0a, 0xff, 0x00)));
    assert_eq!("20.00.01".parse::<Address>(), Ok(address(0x20, 0x00, 0x01)));
}

#[test]
fn address_text_with_a_sign_is_none() {
    assert_eq!(Address::from_str("+f.+f.+f"), Err(InvalidAddress));
    assert_eq!(Address::from_str("+f.10.10"), Err(InvalidAddress));
    assert_eq!(Address::from_str("80.10.+0"), Err(InvalidAddress));
    assert_eq!(Address::from_str("-f.10.10"), Err(InvalidAddress));
    assert_eq!(Address::from_str("f+.10.10"), Err(InvalidAddress));
}

#[test]
fn address_reads_back_from_its_text() {
    for value in 0..=255u8 {
        let a = address(value, value.wrapping_mul(7), 255 - value);
        assert_eq!(Address::from_str(&a.to_string()), Ok(a));
    }
}

#[test]
fn address_text_that_is_none() {
    let none =
        ["", "80.10.1", "80.10.100", "80-10-10", "80.10:10", "8g.10.10", "80.10.1 ", "é0.10.1"];
    for text in none {
        assert_eq!(Address::from_str(text), Err(InvalidAddress), "{:?}", text);
    }
}

#[test]
fn packet_info_bits() {
    let info = PacketInfo::from_byte(0xa0);
    assert_eq!(
        (info.info(), info.protocol_version(), info.retry_count(), info.reserved()),
        (1, 1, 0, 0)
    );
    let info = PacketInfo::from_byte(0xc0);
    assert_eq!(
        (info.info(), info.protocol_version(), info.retry_count(), info.reserved()),
        (1, 2, 0, 0)
    );
    let info = PacketInfo::from_byte(0x5d);
    assert_eq!(
        (info.info(), info.protocol_version(), info.retry_count(), info.reserved()),
        (0, 2, 3, 5)
    );
    // each field is written in its bits, and the reserved bits as clear
    assert_eq!(info.to_byte(), 0x58);
    assert_eq!(PacketInfo::from_byte(0x40).to_byte(), 0x40);
    assert_eq!(PacketInfo::from_byte(0xff).to_byte(), 0xf8);
}

#[test]
fn packet_info_of_a_first_send() {
    for info in [PacketInfo::new(), PacketInfo::default(), PacketInfo::with_retry_count(0)] {
        assert_eq!(
            (info.info(), info.protocol_version(), info.retry_count(), info.reserved()),
            (1, 2, 0, 0)
        );
        assert_eq!(info.to_byte(), 0xc0);
    }
    assert_eq!(PacketInfo::with_retry_count(3).to_byte(), 0xd8);
    let mut info = PacketInfo::from_byte(0xa7);
    info.set_retry_count(2);
    assert_eq!(
        (info.info(), info.protocol_version(), info.retry_count(), info.reserved()),
        (1, 1, 2, 7)
    );
}

#[test]
fn packet_info_round_trip_of_every_written_byte() {
    for info in 0..2u8 {
        for version in 0..4u8 {
            for retry in 0..4u8 {
                let byte = (info << 7) | (version << 5) | (retry << 3);
                assert_eq!(PacketInfo::from_byte(byte).to_byte(), byte);
            }
        }
    }
}

#[test]
fn packet_info_of_every_byte() {
    for byte in 0..=255u8 {
        let info = PacketInfo::from_byte(byte);
        assert_eq!(info.info(), byte >> 7);
        assert_eq!(info.protocol_version(), (byte >> 5) & 3);
        assert_eq!(info.retry_count(), (byte >> 3) & 3);
        assert_eq!(info.reserved(), byte & 7);
        assert_eq!(info.to_byte(), byte & 0xf8);
    }
}

#[test]
fn packet_types() {
    let all = [
        PacketType::StandBy,
        PacketType::Normal,
        PacketType::Gathering,
        PacketType::Install,
        PacketType::Download,
    ];
    for (code, packet_type) in all.iter().enumerate() {
        assert_eq!(PacketType::from_u4(code as u8), Ok(*packet_type));
        assert_eq!(packet_type.to_u4(), code as u8);
    }
    for code in 5..16u8 {
        assert_eq!(PacketType::from_u4(code), Err(PacketError::UnknownPacketType(code)));
    }
}

#[test]
fn data_types() {
    let all = [
        DataType::Undefined,
        DataType::Read,
        DataType::Write,
        DataType::Request,
        DataType::Notification,
        DataType::Response,
        DataType::Ack,
        DataType::Nack,
    ];
    for (code, data_type) in all.iter().enumerate() {
        assert_eq!(DataType::from_u4(code as u8), Ok(*data_type));
        assert_eq!(data_type.to_u4(), code as u8);
    }
    for code in 8..16u8 {
        assert_eq!(DataType::from_u4(code), Err(PacketError::UnknownDataType(code)));
    }
}

#[test]
fn message_kinds() {
    assert_eq!(MessageNumber(0x4000).kind(), MessageKind::Enum);
    assert_eq!(MessageNumber(0x4201).kind(), MessageKind::Variable);
    assert_eq!(MessageNumber(0x0411).kind(), MessageKind::LongVariable);
    assert_eq!(MessageNumber(0x0600).kind(), MessageKind::Structure);
    assert_eq!(MessageNumber(0xf9ff).kind(), MessageKind::Enum);
    assert_eq!(MessageNumber(0xffff).kind(), MessageKind::Structure);
    assert_eq!(Value::Enum(1).kind(), MessageKind::Enum);
    assert_eq!(Value::Variable(1).kind(), MessageKind::Variable);
    assert_eq!(Value::LongVariable(1).kind(), MessageKind::LongVariable);
    assert_eq!(MessageNumber(0x4203).to_string(), "4203");
    assert_eq!(MessageNumber(0x000a).to_string(), "000a");
}

#[test]
fn values_of_the_expected_kind() {
    assert_eq!(Value::Enum(7).expect_u8(), Ok(7));
    assert!(Value::Enum(7).expect_u16().is_err());
    assert!(Value::Enum(7).expect_u32().is_err());
    assert_eq!(Value::Variable(700).expect_u16(), Ok(700));
    assert!(Value::Variable(700).expect_u8().is_err());
    assert_eq!(Value::LongVariable(70000).expect_u32(), Ok(70000));
    assert!(Value::LongVariable(70000).expect_u16().is_err());
}

#[test]
fn reader_reads_front_to_back() {
    let data = [1u8, 2, 3, 4, 5, 6, 7, 8, 9];
    let mut reader = PacketReader::new(&data);
    assert_eq!(reader.read_u8(), Ok(1));
    assert_eq!(reader.read_u16(), Ok(0x0203));
    assert_eq!(reader.read_u32(), Ok(0x0405_0607));
    assert_eq!(reader.read_array::<3>(), Err(PacketError::TooShort));
    // a read that fails takes nothing
    assert_eq!(reader.read_array::<2>(), Ok([8, 9]));
    assert_eq!(reader.read_array::<0>(), Ok([]));
    assert_eq!(reader.read_u8(), Err(PacketError::TooShort));
    assert_eq!(reader.read_u16(), Err(PacketError::TooShort));
    assert_eq!(reader.read_u32(), Err(PacketError::TooShort));
}

#[test]
fn writer_writes_front_to_back() {
    let mut buffer = [0xeeu8; 9];
    let mut writer = PacketWriter::new(&mut buffer);
    assert_eq!(writer.write_u8(1), Ok(()));
    assert_eq!(writer.write_u16(0x0203), Ok(()));
    assert_eq!(writer.write_u32(0x0405_0607), Ok(()));
    assert_eq!(writer.pos, 7);
    // a write that does not fit writes nothing
    assert_eq!(writer.write_array([8, 9, 10]), Err(SerializePacketError::BufferTooShort));
    assert_eq!(writer.write_u32(0), Err(SerializePacketError::BufferTooShort));
    assert_eq!(writer.pos, 7);
    assert_eq!(writer.remaining_mut().len(), 2);
    assert_eq!(writer.write_bytes(&[8]), Ok(()));
    assert_eq!(writer.write_bytes(&[]), Ok(()));
    assert_eq!(writer.write_u16(0), Err(SerializePacketError::BufferTooShort));
    assert_eq!(writer.write_u8(9), Ok(()));
    assert_eq!(writer.write_u8(10), Err(SerializePacketError::BufferTooShort));
    assert_eq!(writer.pos, 9);
    assert_eq!(buffer, [1, 2, 3, 4, 5, 6, 7, 8, 9]);
}

#[test]
fn writer_hands_out_what_is_left() {
    let mut buffer = [0u8; 4];
    let mut writer = PacketWriter::new(&mut buffer);
    writer.write_u8(1).unwrap();
    writer.remaining_mut()[0] = 7;
    assert_eq!(buffer, [1, 7, 0, 0]);
}

#[test]
fn packet_parse() {
    let packet = Packet::parse(&NOTIFICATION).unwrap();
    assert_eq!(packet.source, address(0x80, 0x10, 0x10));
    assert_eq!(packet.destination, address(0x20, 0x00, 0x00));
    assert_eq!(packet.packet_info.info(), 1);
    assert_eq!(packet.packet_info.protocol_version(), 1);
    assert_eq!(packet.packet_info.retry_count(), 0);
    assert_eq!(packet.packet_type, PacketType::Normal);
    assert_eq!(packet.data_type, DataType::Notification);
    assert_eq!(packet.packet_number, 5);
    assert_eq!(messages_of(&packet), vec![message(0x4000, Value::Enum(1))]);
}

#[test]
fn message_count_zero_is_an_empty_list() {
    let mut payload = NOTIFICATION[..10].to_vec();
    payload[9] = 0;
    let packet = Packet::parse(&payload).unwrap();
    assert!(messages_of(&packet).is_empty());
    // what follows the messages that were announced is not read
    payload.extend_from_slice(&[0x06, 0x00, 0xff]);
    let packet = Packet::parse(&payload).unwrap();
    assert!(messages_of(&packet).is_empty());
}

#[test]
fn messages_of_every_kind() {
    let mut payload = NOTIFICATION[..9].to_vec();
    payload.push(3);
    payload.extend_from_slice(&[0x40, 0x00, 0x02]);
    payload.extend_from_slice(&[0x42, 0x01, 0x00, 0xeb]);
    payload.extend_from_slice(&[0x04, 0x11, 0x01, 0x2c, 0x00, 0x00]);
    let packet = Packet::parse(&payload).unwrap();
    assert_eq!(
        messages_of(&packet),
        vec![
            message(0x4000, Value::Enum(2)),
            message(0x4201, Value::Variable(235)),
            message(0x0411, Value::LongVariable(0x012c_0000)),
        ]
    );
}

#[test]
fn payload_that_ends_early_is_too_short() {
    for len in 0..NOTIFICATION.len() {
        assert!(
            matches!(Packet::parse(&NOTIFICATION[..len]), Err(PacketError::TooShort)),
            "length {}",
            len
        );
    }
    let mut payload = NOTIFICATION.to_vec();
    payload[9] = 2;
    assert!(matches!(Packet::parse(&payload), Err(PacketError::TooShort)));
}

#[test]
fn unknown_packet_type() {
    let mut payload = NOTIFICATION.to_vec();
    payload[7] = 0x54;
    assert!(matches!(Packet::parse(&payload), Err(PacketError::UnknownPacketType(5))));
    // the packet type is looked at before the packet number is read
    assert!(matches!(Packet::parse(&payload[..8]), Err(PacketError::UnknownPacketType(5))));
    payload[7] = 0xff;
    assert!(matches!(Packet::parse(&payload), Err(PacketError::UnknownPacketType(15))));
}

#[test]
fn reserved_data_type_is_an_error() {
    let mut payload = NOTIFICATION.to_vec();
    payload[7] = 0x18;
    assert!(matches!(Packet::parse(&payload), Err(PacketError::UnknownDataType(8))));
    // the data type is looked at before the packet number is read
    assert!(matches!(Packet::parse(&payload[..8]), Err(PacketError::UnknownDataType(8))));
    payload[7] = 0x1f;
    assert!(matches!(Packet::parse(&payload), Err(PacketError::UnknownDataType(15))));
    // an unknown packet type is found first
    payload[7] = 0x58;
    assert!(matches!(Packet::parse(&payload), Err(PacketError::UnknownPacketType(5))));
    assert!(matches!(Packet::parse(&payload[..7]), Err(PacketError::TooShort)));
    payload[7] = 0x17;
    assert!(Packet::parse(&payload).is_ok());
}

#[test]
fn parse_takes_every_byte_slice() {
    for len in 0..16usize {
        for fill in [0x00u8, 0x18, 0x46, 0x7f, 0xff] {
            let payload = vec![fill; len];
            let _ = Packet::parse(&payload);
        }
    }
}

#[test]
fn the_info_bit_is_written_as_it_is_held() {
    let mut payload = NOTIFICATION.to_vec();
    payload[6] = 0x40;
    let packet = Packet::parse(&payload).unwrap();
    assert_eq!(packet.packet_info.info(), 0);
    assert_eq!(payload_of(&packet), payload);
}

fn structure_payload(count: u8, data_len: usize) -> Vec<u8> {
    let mut payload = NOTIFICATION[..9].to_vec();
    payload.push(count);
    payload.extend_from_slice(&[0x46, 0x00]);
    payload.extend((0..data_len).map(|i| i as u8));
    payload
}

#[test]
fn structure_of_256_bytes() {
    let packet = Packet::parse(&structure_payload(1, 256)).unwrap();
    match &packet.data {
        Data::Structure(structure) => {
            assert_eq!(structure.number, MessageNumber(0x4600));
            let expected: Vec<u8> = (0..256).map(|i| i as u8).collect();
            assert_eq!(structure.data.as_slice(), &expected[..]);
        }
        Data::Messages(_) => panic!("messages where a structure was expected"),
    }
}

#[test]
fn structure_of_no_bytes() {
    let packet = Packet::parse(&structure_payload(1, 0)).unwrap();
    match &packet.data {
        Data::Structure(structure) => assert!(structure.data.is_empty()),
        Data::Messages(_) => panic!("messages where a structure was expected"),
    }
}

#[test]
fn structure_of_257_bytes_is_too_long() {
    assert!(matches!(
        Packet::parse(&structure_payload(1, 257)),
        Err(PacketError::StructureTooLong { size: 257 })
    ));
}

#[test]
fn structure_among_messages_is_unexpected() {
    assert!(matches!(
        Packet::parse(&structure_payload(2, 4)),
        Err(PacketError::UnexpectedStructure)
    ));
    let mut payload = NOTIFICATION.to_vec();
    payload[9] = 2;
    payload.extend_from_slice(&[0x46, 0x00, 0x01]);
    assert!(matches!(Packet::parse(&payload), Err(PacketError::UnexpectedStructure)));
}

#[test]
fn serialize_writes_the_payload() {
    let packet = packet_with(messages(&[message(0x4000, Value::Enum(1))]));
    let mut expected = NOTIFICATION.to_vec();
    // protocol version 2 is written for a packet that is made here
    expected[6] = 0xc0;
    assert_eq!(payload_of(&packet), expected);
}

#[test]
fn serialize_then_parse_gives_the_packet() {
    let list = [
        message(0x4000, Value::Enum(0xff)),
        message(0x4201, Value::Variable(0xfffe)),
        message(0x0411, Value::LongVariable(0xdead_beef)),
        message(0x4000, Value::Enum(0)),
    ];
    let mut packet = packet_with(messages(&list));
    packet.packet_info = PacketInfo::with_retry_count(3);
    packet.packet_type = PacketType::Download;
    packet.data_type = DataType::Nack;
    packet.packet_number = 255;
    let parsed = Packet::parse(&payload_of(&packet)).unwrap();
    assert_eq!(parsed.source, packet.source);
    assert_eq!(parsed.destination, packet.destination);
    assert_eq!(parsed.packet_info, packet.packet_info);
    assert_eq!(parsed.packet_type, PacketType::Download);
    assert_eq!(parsed.data_type, DataType::Nack);
    assert_eq!(parsed.packet_number, 255);
    assert_eq!(messages_of(&parsed), list.to_vec());
    // and the bytes are the same again
    assert_eq!(payload_of(&parsed), payload_of(&packet));
}

#[test]
fn serialize_then_parse_gives_the_structure() {
    let data: Vec<u8> = (0..256).map(|i| (255 - i) as u8).collect();
    let packet = packet_with(Data::Structure(Structure {
        number: MessageNumber(0x0600),
        data: heapless::Vec::from_slice(&data).unwrap(),
    }));
    let payload = payload_of(&packet);
    assert_eq!(payload.len(), 10 + 2 + 256);
    assert_eq!(payload[9], 1);
    match Packet::parse(&payload).unwrap().data {
        Data::Structure(structure) => {
            assert_eq!(structure.number, MessageNumber(0x0600));
            assert_eq!(structure.data.as_slice(), &data[..]);
        }
        Data::Messages(_) => panic!("messages where a structure was expected"),
    }
}

#[test]
fn serialize_full_message_list() {
    let list: Vec<Message> = (0..255).map(|i| message(0x0411, Value::LongVariable(i))).collect();
    let packet = packet_with(messages(&list));
    let payload = payload_of(&packet);
    assert_eq!(payload.len(), 10 + 255 * 6);
    assert_eq!(payload[9], 255);
    assert_eq!(messages_of(&Packet::parse(&payload).unwrap()), list);
}

#[test]
fn value_of_the_wrong_kind_is_invalid() {
    let packet = packet_with(messages(&[
        message(0x4000, Value::Enum(1)),
        message(0x4201, Value::Enum(1)),
    ]));
    let mut buffer = [0u8; 64];
    let mut writer = PacketWriter::new(&mut buffer);
    assert_eq!(packet.serialize(&mut writer), Err(SerializePacketError::InvalidMessageValue));
    assert_eq!(
        packet.serialize_frame(&mut buffer),
        Err(SerializePacketError::InvalidMessageValue)
    );
}

#[test]
fn structure_under_another_id_is_invalid() {
    let packet = packet_with(Data::Structure(Structure {
        number: MessageNumber(0x4000),
        data: heapless::Vec::new(),
    }));
    let mut buffer = [0u8; 64];
    assert_eq!(
        packet.serialize_frame(&mut buffer),
        Err(SerializePacketError::InvalidMessageValue)
    );
}

#[test]
fn the_error_is_the_one_that_is_met_first() {
    // the second message is invalid; its id is written before that is found
    let packet = packet_with(messages(&[
        message(0x4000, Value::Enum(1)),
        message(0x4201, Value::Enum(1)),
    ]));
    for room in 0..15 {
        let mut buffer = vec![0u8; room];
        let mut writer = PacketWriter::new(&mut buffer);
        assert_eq!(
            packet.serialize(&mut writer),
            Err(SerializePacketError::BufferTooShort),
            "room {}",
            room
        );
    }
    let mut buffer = vec![0u8; 15];
    let mut writer = PacketWriter::new(&mut buffer);
    assert_eq!(packet.serialize(&mut writer), Err(SerializePacketError::InvalidMessageValue));
}

#[test]
fn serialize_frame_writes_the_frame() {
    let packet = Packet::parse(&[
        0x80, 0x10, 0x10, 0x80, 0x20, 0x10, 0xc0, 0x15, 0x07, 0x01, 0x40, 0x00, 0x01,
    ])
    .unwrap();
    let mut buffer = [0x55u8; 32];
    let len = packet.serialize_frame(&mut buffer).unwrap();
    assert_eq!(len, 23);
    assert_eq!(
        &buffer[..len],
        &[
            0xfd, 0xf8, 0xef, 0x7c, 0x32, 0x00, 0x11, 0x80, 0x10, 0x10, 0x80, 0x20, 0x10, 0xc0,
            0x15, 0x07, 0x01, 0x40, 0x00, 0x01, 0x9a, 0xcd, 0x34,
        ]
    );
    // what stands behind the frame is left alone
    assert_eq!(&buffer[len..], &[0x55u8; 9]);
}

#[test]
fn serialize_frame_needs_room_for_the_whole_frame() {
    let packet = packet_with(messages(&[message(0x4000, Value::Enum(1))]));
    for room in 0..23 {
        let mut buffer = vec![0u8; room];
        assert_eq!(
            packet.serialize_frame(&mut buffer),
            Err(SerializePacketError::BufferTooShort),
            "room {}",
            room
        );
    }
    let mut buffer = vec![0u8; 23];
    assert_eq!(packet.serialize_frame(&mut buffer), Ok(23));
}

#[test]
fn the_crc_is_that_of_the_payload_alone() {
    let packet = packet_with(messages(&[message(0x4201, Value::Variable(240))]));
    // what the buffer held before must not find its way into the CRC
    let mut buffer = [0xa5u8; 64];
    let len = packet.serialize_frame(&mut buffer).unwrap();
    let payload = payload_of(&packet);
    assert_eq!(&buffer[7..len - 3], &payload[..]);
    assert_eq!(&buffer[len - 3..len - 1], &crc16(&payload).to_be_bytes());
}

#[test]
fn frame_of_a_packet_goes_through_the_parser() {
    let list: Vec<Message> = (0..100).map(|i| message(0x4201, Value::Variable(i))).collect();
    let packet = packet_with(messages(&list));
    let mut buffer = [0u8; 1024];
    let len = packet.serialize_frame(&mut buffer).unwrap();
    let mut parser = FrameParser::new();
    let mut seen = None;
    for (at, byte) in buffer[..len].iter().enumerate() {
        match parser.feed(*byte).unwrap() {
            Some(frame) => {
                assert_eq!(at, len - 1);
                seen = Some(Packet::parse(frame.as_slice()).unwrap());
            }
            None => assert!(at < len - 1),
        }
    }
    assert_eq!(messages_of(&seen.unwrap()), list);
}
