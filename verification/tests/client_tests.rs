use samsunghvac::client::message::MessageSet;
use samsunghvac::client::watch::{typed_update, WatchRegistry};
use samsunghvac::client::{
    after_attempt, classify, expect_reply, local_address, null_value, queries, query,
    read_reply, request_packet, request_reply, Attempt, Delivery, Error, Incoming, Requests,
    Retry, MAX_RETRY_COUNT, RETRY_DELAY_SECS,
};
use samsunghvac::message::types::{Celsius, OperationMode, PowerSetting};
use samsunghvac::message::{CurrentTemp, Mode, Power, SetTemp};
use samsunghvac::packet::{
    Address, Data, DataType, Message, MessageNumber, Packet, PacketInfo, PacketType, Structure,
    Value,
};

const UNIT: Address = Address { class: 0x80, channel: 0x20, address: 0x10 };
const INDOOR: Address = Address { class: 0x80, channel: 0x20, address: 0x00 };

fn message(number: u16, value: Value) -> Message {
    Message { number: MessageNumber(number), value }
}

fn reply(data_type: DataType, destination: Address, packet_number: u8) -> Box<Packet> {
    Box::new(Packet {
        source: UNIT,
        destination,
        packet_info: PacketInfo::new(),
        packet_type: PacketType::Normal,
        data_type,
        packet_number,
        data: Data::Messages(
            heapless::Vec::from_slice(&[message(0x4203, Value::Variable(235))]).unwrap(),
        ),
    })
}

fn messages_of(packet: &Packet) -> Vec<Message> {
    match &packet.data {
        Data::Messages(list) => list.as_slice().to_vec(),
        Data::Structure(_) => panic!("structure where messages were expected"),
    }
}

#[test]
fn the_client_sends_from_its_own_address() {
    assert_eq!(local_address(), Address { class: 0x80, channel: 0x10, address: 0x10 });
    assert_eq!(local_address().to_string(), "80.10.10");
    assert_eq!(RETRY_DELAY_SECS, 1);
    assert_eq!(MAX_RETRY_COUNT, 3);
}

#[test]
fn a_read_asks_with_values_of_all_ones() {
    assert_eq!(null_value(MessageNumber(0x4000)), Some(Value::Enum(0xff)));
    assert_eq!(null_value(MessageNumber(0x4201)), Some(Value::Variable(0xffff)));
    assert_eq!(null_value(MessageNumber(0x0411)), Some(Value::LongVariable(0xffff_ffff)));
    assert_eq!(null_value(MessageNumber(0x0600)), None);
    assert_eq!(query(MessageNumber(0x4201)), Some(message(0x4201, Value::Variable(0xffff))));
    assert_eq!(query(MessageNumber(0x0601)), None);
}

#[test]
fn a_read_passes_over_structure_ids() {
    let attrs = [
        MessageNumber(0x4000),
        MessageNumber(0x0600),
        MessageNumber(0x4201),
        MessageNumber(0x4600),
        MessageNumber(0x0411),
        MessageNumber(0x4000),
    ];
    assert_eq!(
        queries(&attrs),
        vec![
            message(0x4000, Value::Enum(0xff)),
            message(0x4201, Value::Variable(0xffff)),
            message(0x0411, Value::LongVariable(0xffff_ffff)),
            message(0x4000, Value::Enum(0xff)),
        ]
    );
    assert!(queries(&[]).is_empty());
    assert!(queries(&[MessageNumber(0x0600)]).is_empty());
}

#[test]
fn a_request_packet_is_a_first_send() {
    let list = [message(0x4000, Value::Enum(1)), message(0x4001, Value::Enum(4))];
    let packet = request_packet(local_address(), UNIT, DataType::Request, 42, &list);
    assert_eq!(packet.source, local_address());
    assert_eq!(packet.destination, UNIT);
    assert_eq!(packet.packet_info.to_byte(), 0xc0);
    assert_eq!(packet.packet_info.retry_count(), 0);
    assert_eq!(packet.packet_type, PacketType::Normal);
    assert_eq!(packet.data_type, DataType::Request);
    assert_eq!(packet.packet_number, 42);
    assert_eq!(messages_of(&packet), list.to_vec());
}

#[test]
fn a_request_packet_takes_255_messages() {
    let list: Vec<Message> = (0..255).map(|i| message(0x4000, Value::Enum(i as u8))).collect();
    let packet = request_packet(local_address(), UNIT, DataType::Read, 0, &list);
    assert_eq!(messages_of(&packet), list);
}

#[test]
fn the_reply_that_is_called_for() {
    let ok = expect_reply(reply(DataType::Response, local_address(), 1), DataType::Response);
    assert_eq!(ok.unwrap().packet_number, 1);
    let ok = expect_reply(reply(DataType::Ack, local_address(), 2), DataType::Ack);
    assert_eq!(ok.unwrap().packet_number, 2);
}

#[test]
fn a_negative_acknowledgement_carries_the_reply() {
    match expect_reply(reply(DataType::Nack, local_address(), 9), DataType::Ack) {
        Err(Error::Nack(packet)) => assert_eq!(packet.packet_number, 9),
        other => panic!("{:?}", other),
    }
    // also where a negative acknowledgement is what was called for
    assert!(matches!(
        expect_reply(reply(DataType::Nack, local_address(), 9), DataType::Nack),
        Err(Error::Nack(_))
    ));
}

#[test]
fn any_other_reply_is_unexpected() {
    match expect_reply(reply(DataType::Ack, local_address(), 9), DataType::Response) {
        Err(Error::UnexpectedReply { actual, expected }) => {
            assert_eq!(actual, DataType::Ack);
            assert_eq!(expected, DataType::Response);
        }
        other => panic!("{:?}", other),
    }
}

#[test]
fn a_read_gets_the_messages_of_the_response() {
    let set = read_reply(reply(DataType::Response, local_address(), 1)).unwrap();
    assert_eq!(set.messages(), &[message(0x4203, Value::Variable(235))]);
    assert!(matches!(
        read_reply(reply(DataType::Ack, local_address(), 1)),
        Err(Error::UnexpectedReply { actual: DataType::Ack, expected: DataType::Response })
    ));
    assert!(matches!(
        read_reply(reply(DataType::Nack, local_address(), 1)),
        Err(Error::Nack(_))
    ));
}

#[test]
fn a_read_gets_nothing_from_a_structure() {
    let mut response = reply(DataType::Response, local_address(), 1);
    response.data = Data::Structure(Structure {
        number: MessageNumber(0x0600),
        data: heapless::Vec::from_slice(&[1, 2, 3]).unwrap(),
    });
    assert!(read_reply(response).unwrap().messages().is_empty());
}

#[test]
fn a_request_gets_an_acknowledgement() {
    assert!(request_reply(reply(DataType::Ack, local_address(), 1)).is_ok());
    assert!(matches!(
        request_reply(reply(DataType::Response, local_address(), 1)),
        Err(Error::UnexpectedReply { actual: DataType::Response, expected: DataType::Ack })
    ));
    assert!(matches!(
        request_reply(reply(DataType::Nack, local_address(), 1)),
        Err(Error::Nack(_))
    ));
}

#[test]
fn client_retry() {
    let mut packet = request_packet(local_address(), UNIT, DataType::Request, 42, &[]);
    assert_eq!(packet.packet_info.retry_count(), 0);
    for retry in 1..=3 {
        assert!(matches!(after_attempt(&mut packet, Attempt::Timeout), Retry::Resend));
        assert_eq!(packet.packet_number, 42);
        assert_eq!(packet.packet_info.retry_count(), retry);
        assert_eq!(packet.packet_info.to_byte(), 0xc0 | (retry << 3));
    }
    // the fourth send went unanswered too
    assert!(matches!(
        after_attempt(&mut packet, Attempt::Timeout),
        Retry::Done(Err(Error::MaxRetriesExceeded))
    ));
    assert_eq!(packet.packet_info.retry_count(), 3);
    assert_eq!(packet.packet_number, 42);
}

#[test]
fn a_reply_ends_the_exchange() {
    let mut packet = request_packet(local_address(), UNIT, DataType::Request, 42, &[]);
    assert!(matches!(after_attempt(&mut packet, Attempt::Timeout), Retry::Resend));
    match after_attempt(&mut packet, Attempt::Reply(reply(DataType::Ack, local_address(), 42))) {
        Retry::Done(Ok(reply)) => assert_eq!(reply.data_type, DataType::Ack),
        other => panic!("{:?}", other),
    }
    assert_eq!(packet.packet_info.retry_count(), 1);
}

#[test]
fn a_lost_transport_ends_the_exchange() {
    let mut packet = request_packet(local_address(), UNIT, DataType::Request, 42, &[]);
    assert!(matches!(
        after_attempt(&mut packet, Attempt::Lost),
        Retry::Done(Err(Error::LostTransport))
    ));
    assert_eq!(packet.packet_info.retry_count(), 0);
}

#[test]
fn what_the_receiving_side_does_with_a_packet() {
    let local = local_address();
    assert_eq!(classify(&reply(DataType::Notification, INDOOR, 0), local), Incoming::Notification);
    assert_eq!(classify(&reply(DataType::Ack, local, 0), local), Incoming::Reply);
    assert_eq!(classify(&reply(DataType::Nack, local, 0), local), Incoming::Reply);
    assert_eq!(classify(&reply(DataType::Response, local, 0), local), Incoming::Reply);
    assert_eq!(classify(&reply(DataType::Response, INDOOR, 0), local), Incoming::Ignore);
    for data_type in [DataType::Undefined, DataType::Read, DataType::Write, DataType::Request] {
        assert_eq!(classify(&reply(data_type, local, 0), local), Incoming::Ignore);
    }
    let mut other_type = reply(DataType::Notification, local, 0);
    other_type.packet_type = PacketType::Gathering;
    assert_eq!(classify(&other_type, local), Incoming::Ignore);
    let mut structure = reply(DataType::Ack, local, 0);
    structure.data =
        Data::Structure(Structure { number: MessageNumber(0x0600), data: heapless::Vec::new() });
    assert_eq!(classify(&structure, local), Incoming::Ignore);
}

#[test]
fn packet_numbers_count_up_and_wrap() {
    let mut requests: Requests<u32> = Requests::new(local_address());
    for expected in 0..=255u8 {
        assert_eq!(requests.next_packet_number(), expected);
    }
    assert_eq!(requests.next_packet_number(), 0);
    assert_eq!(requests.next_packet_number(), 1);
}

#[test]
fn reply_routing() {
    let mut requests: Requests<&str> = Requests::new(local_address());
    for _ in 0..7 {
        requests.next_packet_number();
    }
    let list = [message(0x4000, Value::Enum(1))];
    let (packet, before) = requests.begin(UNIT, DataType::Request, &list, "slot seven");
    assert!(before.is_none());
    assert_eq!(packet.packet_number, 7);
    assert_eq!(packet.source, local_address());
    assert_eq!(packet.destination, UNIT);
    assert_eq!(packet.data_type, DataType::Request);
    assert_eq!(messages_of(&packet), list.to_vec());

    // an acknowledgement for someone else is none of ours
    assert!(matches!(requests.on_packet(reply(DataType::Ack, INDOOR, 7)), Delivery::Dropped));
    // nor is one under another number
    assert!(matches!(
        requests.on_packet(reply(DataType::Ack, local_address(), 8)),
        Delivery::Dropped
    ));

    match requests.on_packet(reply(DataType::Ack, local_address(), 7)) {
        Delivery::Reply { slot, reply } => {
            assert_eq!(slot, "slot seven");
            assert_eq!(reply.packet_number, 7);
            assert_eq!(reply.data_type, DataType::Ack);
        }
        other => panic!("{:?}", other),
    }
    // a late duplicate is dropped
    assert!(matches!(
        requests.on_packet(reply(DataType::Ack, local_address(), 7)),
        Delivery::Dropped
    ));
}

#[test]
fn notifications_are_handed_on() {
    let mut requests: Requests<u8> = Requests::new(local_address());
    match requests.on_packet(reply(DataType::Notification, INDOOR, 3)) {
        Delivery::Notification(packet) => assert_eq!(packet.source, UNIT),
        other => panic!("{:?}", other),
    }
}

#[test]
fn one_slot_for_each_packet_number() {
    let mut requests: Requests<u32> = Requests::new(local_address());
    let mut replaced = Vec::new();
    for slot in 0..300u32 {
        let (packet, before) = requests.begin(UNIT, DataType::Read, &[], slot);
        assert_eq!(packet.packet_number, slot as u8);
        replaced.push(before);
    }
    // the numbers wrapped after 256 requests: the later slots took the place of the earlier
    assert!(replaced[..256].iter().all(|before| before.is_none()));
    assert_eq!(replaced[256], Some(0));
    assert_eq!(replaced[299], Some(43));
    match requests.on_packet(reply(DataType::Response, local_address(), 0)) {
        Delivery::Reply { slot, .. } => assert_eq!(slot, 256),
        other => panic!("{:?}", other),
    }
    assert!(matches!(
        requests.on_packet(reply(DataType::Response, local_address(), 0)),
        Delivery::Dropped
    ));
    assert_eq!(requests.finish(44), Some(44));
    assert_eq!(requests.finish(44), None);
    assert!(matches!(
        requests.on_packet(reply(DataType::Response, local_address(), 44)),
        Delivery::Dropped
    ));
}

#[test]
fn message_set_finds_the_first_that_decodes() {
    let set = MessageSet::new(&[
        message(0x4001, Value::Enum(99)),
        message(0x4203, Value::Enum(1)),
        message(0x4001, Value::Enum(4)),
        message(0x4203, Value::Variable(235)),
        message(0x4203, Value::Variable(240)),
    ]);
    assert_eq!(set.get::<CurrentTemp>(), Some(Celsius(235)));
    assert_eq!(set.get::<Mode>(), Some(OperationMode::Heat));
    assert_eq!(set.get::<Power>(), None);
    assert_eq!(set.get::<SetTemp>(), None);
    assert_eq!(set.try_get::<CurrentTemp>().unwrap(), Celsius(235));
    match set.try_get::<Power>() {
        Err(Error::MissingMessage(number)) => assert_eq!(number, MessageNumber(0x4000)),
        other => panic!("{:?}", other.map(|_| ())),
    }
    assert_eq!(set.messages().len(), 5);
}

#[test]
fn message_set_from_a_vec() {
    let set = MessageSet::from_vec(vec![message(0x4000, Value::Enum(1))]);
    assert_eq!(set.get::<Power>(), Some(PowerSetting::On));
    assert_eq!(set.messages(), &[message(0x4000, Value::Enum(1))]);
    assert!(MessageSet::default().messages().is_empty());
    assert_eq!(MessageSet::default().get::<Power>(), None);
}

const CURRENT_TEMP: MessageNumber = MessageNumber(0x4203);
const SET_TEMP: MessageNumber = MessageNumber(0x4201);

#[test]
fn watch_fan_out() {
    let mut registry = WatchRegistry::new();
    // X and Y both watch the current temperature of the indoor unit
    assert_eq!(registry.subscribe(INDOOR, CURRENT_TEMP), None);
    assert_eq!(registry.subscribe(INDOOR, CURRENT_TEMP), None);

    let update = [message(0x4203, Value::Variable(235))];
    let sent = registry.notify(INDOOR, &update);
    assert_eq!(sent, update.to_vec());
    assert_eq!(typed_update::<CurrentTemp>(sent[0].value), Some(Celsius(235)));

    let update = [message(0x4203, Value::Variable(240))];
    assert_eq!(registry.notify(INDOOR, &update), update.to_vec());

    // Z comes later and sees the last value at once
    let current = registry.subscribe(INDOOR, CURRENT_TEMP).unwrap();
    assert_eq!(typed_update::<CurrentTemp>(current), Some(Celsius(240)));
    assert_eq!(registry.all_watches(), vec![(INDOOR, vec![CURRENT_TEMP])]);
}

#[test]
fn only_what_is_watched_is_kept() {
    let mut registry = WatchRegistry::new();
    registry.subscribe(INDOOR, CURRENT_TEMP);
    let list = [
        message(0x4201, Value::Variable(220)),
        message(0x4203, Value::Variable(235)),
        message(0x4000, Value::Enum(1)),
        message(0x4203, Value::Variable(236)),
    ];
    // another station notifies the same id
    assert!(registry.notify(UNIT, &list).is_empty());
    assert_eq!(registry.subscribe(INDOOR, CURRENT_TEMP), None);

    assert_eq!(
        registry.notify(INDOOR, &list),
        vec![message(0x4203, Value::Variable(235)), message(0x4203, Value::Variable(236))]
    );
    assert_eq!(registry.subscribe(INDOOR, CURRENT_TEMP), Some(Value::Variable(236)));
    assert_eq!(registry.subscribe(INDOOR, SET_TEMP), None);
    assert_eq!(registry.subscribe(UNIT, CURRENT_TEMP), None);
}

#[test]
fn an_update_that_does_not_decode_is_passed_over() {
    let mut registry = WatchRegistry::new();
    registry.subscribe(INDOOR, CURRENT_TEMP);
    let sent = registry.notify(INDOOR, &[message(0x4203, Value::Enum(1))]);
    assert_eq!(typed_update::<CurrentTemp>(sent[0].value), None);
    // the subscription stays, and the next update that decodes gets through
    let sent = registry.notify(INDOOR, &[message(0x4203, Value::Variable(250))]);
    assert_eq!(typed_update::<CurrentTemp>(sent[0].value), Some(Celsius(250)));
}

#[test]
fn all_watches_by_address() {
    let mut registry = WatchRegistry::default();
    assert!(registry.all_watches().is_empty());
    registry.subscribe(INDOOR, CURRENT_TEMP);
    registry.subscribe(UNIT, MessageNumber(0x8204));
    registry.subscribe(INDOOR, SET_TEMP);
    registry.subscribe(INDOOR, CURRENT_TEMP);
    registry.subscribe(UNIT, MessageNumber(0x4000));
    // the order in which the addresses and the ids come is open
    assert_eq!(
        sorted(registry.all_watches()),
        vec![
            (INDOOR, vec![SET_TEMP, CURRENT_TEMP]),
            (UNIT, vec![MessageNumber(0x4000), MessageNumber(0x8204)]),
        ]
    );
}

fn sorted(mut list: Vec<(Address, Vec<MessageNumber>)>) -> Vec<(Address, Vec<MessageNumber>)> {
    list.sort_by_key(|(address, _)| address.to_bytes());
    for (_, ids) in list.iter_mut() {
        ids.sort_by_key(|id| id.0);
    }
    list
}

#[test]
fn a_notification_registers_nothing() {
    let mut registry = WatchRegistry::new();
    let update = [message(0x4203, Value::Variable(235))];
    assert!(registry.notify(INDOOR, &update).is_empty());
    assert!(registry.all_watches().is_empty());
    // the value of a pair that nobody watched is not kept for later
    assert_eq!(registry.subscribe(INDOOR, CURRENT_TEMP), None);
    // an id that is watched at one address is not watched at the others
    assert!(registry.notify(UNIT, &update).is_empty());
    assert_eq!(sorted(registry.all_watches()), vec![(INDOOR, vec![CURRENT_TEMP])]);
}

#[test]
fn addresses_that_differ_in_one_byte_are_apart() {
    let mut registry = WatchRegistry::new();
    let stations = [
        Address { class: 0x20, channel: 0x00, address: 0x00 },
        Address { class: 0x00, channel: 0x20, address: 0x00 },
        Address { class: 0x00, channel: 0x00, address: 0x20 },
        Address { class: 0xff, channel: 0xff, address: 0xff },
        Address { class: 0x00, channel: 0x00, address: 0x00 },
    ];
    for (n, station) in stations.iter().enumerate() {
        assert_eq!(registry.subscribe(*station, CURRENT_TEMP), None);
        let update = [message(0x4203, Value::Variable(n as u16))];
        assert_eq!(registry.notify(*station, &update), update.to_vec());
    }
    for (n, station) in stations.iter().enumerate() {
        assert_eq!(registry.subscribe(*station, CURRENT_TEMP), Some(Value::Variable(n as u16)));
    }
    let mut expected: Vec<(Address, Vec<MessageNumber>)> =
        stations.iter().map(|station| (*station, vec![CURRENT_TEMP])).collect();
    expected.sort_by_key(|(address, _)| address.to_bytes());
    assert_eq!(sorted(registry.all_watches()), expected);
}
