//! What is written for a packet reads back as that packet.

use vstd::prelude::*;
use crate::packet::{
    DataType, DataView, Message, MessageKind, PacketType, PacketView, SerializePacketError, Value,
    lemma_info_round_trip,
};
use crate::parse::{
    holds_structure, number_at, parse_messages, parse_packet, parse_payload, value_at,
};
use crate::serialize::{
    data_bytes, header_bytes, lemma_messages_bytes_bound, lemma_messages_bytes_concat,
    lemma_messages_bytes_single, message_bytes, messages_bytes, payload_bytes,
    serialize_frame_spec, type_byte,
};
use crate::wire::{be16_bytes, be32_bytes, lemma_be16_round_trip, lemma_be32_round_trip};

verus! {

/// The type byte gives back the two types it was made of.
pub proof fn lemma_type_byte_round_trip(packet_type: PacketType, data_type: DataType)
    ensures
        PacketType::of_code(type_byte(packet_type, data_type) >> 4) == Some(packet_type),
        DataType::of_code(type_byte(packet_type, data_type) & 0x0f) == Some(data_type),
{
    let t = packet_type.code();
    let d = data_type.code();
    assert(t <= 4 && d <= 7 ==> ((t << 4) | d) >> 4 == t && ((t << 4) | d) & 0x0f == d)
        by (bit_vector);
}

/// A message whose value goes with its id reads back from its bytes,
/// whatever follows them.
pub proof fn lemma_message_reads_back(message: Message, rest: Seq<u8>)
    requires
        message.wf(),
    ensures
        message_bytes(message).len() == 2 + message.number.kind().width(),
        message.number.kind() != MessageKind::Structure,
        number_at(message_bytes(message) + rest) == message.number,
        value_at(message.number.kind(), (message_bytes(message) + rest).skip(2)) == message.value,
{
    let s = message_bytes(message) + rest;
    lemma_be16_round_trip(message.number.0);
    assert(s[0] == be16_bytes(message.number.0)[0]);
    assert(s[1] == be16_bytes(message.number.0)[1]);
    let v = s.skip(2);
    match message.value {
        Value::Enum(x) => {
            assert(v[0] == x);
        },
        Value::Variable(x) => {
            lemma_be16_round_trip(x);
            assert(v[0] == be16_bytes(x)[0]);
            assert(v[1] == be16_bytes(x)[1]);
        },
        Value::LongVariable(x) => {
            lemma_be32_round_trip(x);
            assert(v[0] == be32_bytes(x)[0]);
            assert(v[1] == be32_bytes(x)[1]);
            assert(v[2] == be32_bytes(x)[2]);
            assert(v[3] == be32_bytes(x)[3]);
        },
    }
}

/// Messages whose values go with their ids read back from their bytes: what
/// is read after them is read as if they had been read before.
pub proof fn lemma_messages_read_back(
    messages: Seq<Message>,
    rest: Seq<u8>,
    more: nat,
    before: Seq<Message>,
)
    requires
        forall|i: int| 0 <= i < messages.len() ==> (#[trigger] messages[i]).wf(),
    ensures
        parse_messages(messages_bytes(messages) + rest, messages.len() + more, before)
            == parse_messages(rest, more, before + messages),
    decreases messages.len(),
{
    if messages.len() == 0 {
        assert(messages_bytes(messages) + rest =~= rest);
        assert(before + messages =~= before);
    } else {
        let first = messages[0];
        let tail = messages.skip(1);
        assert(messages =~= seq![first] + tail);
        lemma_messages_bytes_concat(seq![first], tail);
        lemma_messages_bytes_single(first);
        let s = messages_bytes(messages) + rest;
        let after = messages_bytes(tail) + rest;
        assert(s =~= message_bytes(first) + after);
        lemma_message_reads_back(first, after);
        let width = first.number.kind().width() as int;
        assert(s.skip(2 + width) =~= after);
        assert forall|i: int| 0 <= i < tail.len() implies (#[trigger] tail[i]).wf() by {
            assert(tail[i] == messages[i + 1]);
        }
        lemma_messages_read_back(tail, rest, more, before.push(first));
        assert(before.push(first) + tail =~= before + messages);
    }
}

/// What is written behind the header for contents that a packet can hold,
/// with every value going with its id, reads back as those contents.
pub proof fn lemma_data_round_trip(data: DataView)
    requires
        data.fits(),
        data.kinds_match(),
    ensures
        data_bytes(data).len() >= 1,
        parse_payload(data_bytes(data).skip(1), data_bytes(data)[0]) == Ok::<
            DataView,
            crate::packet::PacketError,
        >(data),
{
    let s = data_bytes(data).skip(1);
    match data {
        DataView::Messages(messages) => {
            let count = messages.len() as u8;
            assert(s =~= messages_bytes(messages));
            if messages.len() > 0 {
                assert(messages[0].wf());
                let tail = messages.skip(1);
                assert(messages =~= seq![messages[0]] + tail);
                lemma_messages_bytes_concat(seq![messages[0]], tail);
                lemma_messages_bytes_single(messages[0]);
                lemma_message_reads_back(messages[0], messages_bytes(tail));
                assert(s =~= message_bytes(messages[0]) + messages_bytes(tail));
            }
            assert(!holds_structure(s, count));
            lemma_messages_read_back(messages, Seq::empty(), 0, Seq::empty());
            assert(messages_bytes(messages) + Seq::<u8>::empty() =~= messages_bytes(messages));
            assert(Seq::<Message>::empty() + messages =~= messages);
        },
        DataView::Structure { number, data: bytes } => {
            lemma_be16_round_trip(number.0);
            assert(s =~= be16_bytes(number.0) + bytes);
            assert(s[0] == be16_bytes(number.0)[0]);
            assert(s[1] == be16_bytes(number.0)[1]);
            assert(s.skip(2) =~= bytes);
        },
    }
}

/// Packet round trip: the payload written for a packet whose reserved bits
/// are clear and whose values go with their ids parses to that packet.
pub proof fn lemma_packet_round_trip(packet: PacketView)
    requires
        packet.wf(),
        packet.data.kinds_match(),
        packet.packet_info.reserved == 0,
    ensures
        parse_packet(payload_bytes(packet)) == Ok::<PacketView, crate::packet::PacketError>(packet),
{
    let s = payload_bytes(packet);
    let header = header_bytes(packet);
    let data = data_bytes(packet.data);
    lemma_data_round_trip(packet.data);
    lemma_type_byte_round_trip(packet.packet_type, packet.data_type);
    lemma_info_round_trip(packet.packet_info);
    assert(header.len() == 9);
    assert(s[6] == packet.packet_info.byte());
    assert(s[7] == type_byte(packet.packet_type, packet.data_type));
    assert(s[8] == packet.packet_number);
    assert(s[9] == data[0]);
    assert(s.skip(10) =~= data.skip(1));
    assert(s.subrange(0, 3) =~= packet.source.bytes());
    assert(s.subrange(3, 6) =~= packet.destination.bytes());
}

/// The payload of a packet is at most 1540 bytes long, so its frame size
/// always fits the size field: serializing never gives `PacketTooLong`.
pub proof fn lemma_never_too_long(packet: PacketView, capacity: nat)
    requires
        packet.wf(),
    ensures
        payload_bytes(packet).len() <= 1540,
        serialize_frame_spec(packet, capacity) != Err::<Seq<u8>, SerializePacketError>(
            SerializePacketError::PacketTooLong,
        ),
{
    match packet.data {
        DataView::Messages(messages) => {
            lemma_messages_bytes_bound(messages);
        },
        _ => {},
    }
}

} // verus!
