//! From a frame payload to a packet.
//!
//! A payload is: source (3 bytes), destination (3), packet info (1), the type
//! byte with the packet type in its high half and the data type in its low
//! half (1), packet number (1), message count (1), then the messages. Each
//! message is its id (2 bytes) and a value whose width the id announces. A
//! structure id is followed by raw data up to the end of the payload, and may
//! only stand alone.

use vstd::prelude::*;
use crate::bounded::{message_seq, messages_new, messages_push, structure_from_slice};
use crate::packet::{
    Address, Data, DataType, DataView, MAX_STRUCTURE_SIZE, Message, MessageKind, MessageNumber,
    Packet, PacketError, PacketInfo, PacketInfoView, PacketType, PacketView, Structure, Value,
};
use crate::reader::PacketReader;
use crate::wire::{be16, be32};

verus! {

/// The value of kind `kind` at the front of `s`.
pub open spec fn value_at(kind: MessageKind, s: Seq<u8>) -> Value {
    match kind {
        MessageKind::Enum => Value::Enum(s[0]),
        MessageKind::Variable => Value::Variable(be16(s[0], s[1])),
        _ => Value::LongVariable(be32(s[0], s[1], s[2], s[3])),
    }
}

/// The id at the front of `s`.
pub open spec fn number_at(s: Seq<u8>) -> MessageNumber {
    MessageNumber(be16(s[0], s[1]))
}

/// `count` messages read off the front of `s`, after the messages `before`.
/// Reading stops with an error at the first message that is cut short or
/// has a structure id.
pub open spec fn parse_messages(s: Seq<u8>, count: nat, before: Seq<Message>) -> Result<
    Seq<Message>,
    PacketError,
>
    decreases count,
{
    if count == 0 {
        Ok(before)
    } else if s.len() < 2 {
        Err(PacketError::TooShort)
    } else {
        let number = number_at(s);
        let kind = number.kind();
        if kind == MessageKind::Structure {
            Err(PacketError::UnexpectedStructure)
        } else if s.len() < 2 + kind.width() {
            Err(PacketError::TooShort)
        } else {
            parse_messages(
                s.skip(2 + kind.width() as int),
                (count - 1) as nat,
                before.push(Message { number, value: value_at(kind, s.skip(2)) }),
            )
        }
    }
}

/// Whether `s`, the payload after its header, holds a structure: it announces
/// one message and that message has a structure id.
pub open spec fn holds_structure(s: Seq<u8>, count: u8) -> bool {
    count == 1 && s.len() >= 2 && number_at(s).kind() == MessageKind::Structure
}

/// What a payload carries after its header `s`, which announces `count`
/// messages.
pub open spec fn parse_payload(s: Seq<u8>, count: u8) -> Result<DataView, PacketError> {
    if holds_structure(s, count) {
        if s.len() - 2 > MAX_STRUCTURE_SIZE {
            Err(PacketError::StructureTooLong { size: (s.len() - 2) as usize })
        } else {
            Ok(DataView::Structure { number: number_at(s), data: s.skip(2) })
        }
    } else {
        match parse_messages(s, count as nat, Seq::empty()) {
            Ok(messages) => Ok(DataView::Messages(messages)),
            Err(err) => Err(err),
        }
    }
}

/// The packet that the payload `s` holds. The two halves of the type byte
/// are looked at, the packet type first, before what follows it is read.
pub open spec fn parse_packet(s: Seq<u8>) -> Result<PacketView, PacketError> {
    if s.len() < 8 {
        Err(PacketError::TooShort)
    } else if PacketType::of_code(s[7] >> 4) is None {
        Err(PacketError::UnknownPacketType(s[7] >> 4))
    } else if DataType::of_code(s[7] & 0x0f) is None {
        Err(PacketError::UnknownDataType(s[7] & 0x0f))
    } else if s.len() < 10 {
        Err(PacketError::TooShort)
    } else {
        match parse_payload(s.skip(10), s[9]) {
            Ok(data) => Ok(
                PacketView {
                    source: Address::of_bytes(s.subrange(0, 3)),
                    destination: Address::of_bytes(s.subrange(3, 6)),
                    packet_info: PacketInfoView::of_byte(s[6]),
                    packet_type: PacketType::of_code(s[7] >> 4).unwrap(),
                    data_type: DataType::of_code(s[7] & 0x0f).unwrap(),
                    packet_number: s[8],
                    data,
                },
            ),
            Err(err) => Err(err),
        }
    }
}

/// What parsing gave, held against what the payload holds.
pub open spec fn parsed_as(r: Result<Packet, PacketError>, expected: Result<
    PacketView,
    PacketError,
>) -> bool {
    match r {
        Ok(packet) => expected == Ok::<PacketView, PacketError>(packet@),
        Err(err) => expected == Err::<PacketView, PacketError>(err),
    }
}

/// What reading the messages gave, held against what the payload holds.
pub open spec fn payload_read_as(r: Result<Data, PacketError>, expected: Result<
    DataView,
    PacketError,
>) -> bool {
    match r {
        Ok(data) => expected == Ok::<DataView, PacketError>(data@),
        Err(err) => expected == Err::<DataView, PacketError>(err),
    }
}

/// Reads the `message_count` messages that the reader stands before.
fn read_payload(message_count: u8, reader: &mut PacketReader) -> (r: Result<Data, PacketError>)
    ensures
        payload_read_as(r, parse_payload(old(reader).data@, message_count)),
{
    let ghost all = reader.data@;
    let mut messages = messages_new();
    let mut i: u8 = 0;
    while i < message_count
        invariant
            i <= message_count,
            all == old(reader).data@,
            message_seq(messages).len() == i,
            i == 0 ==> reader.data@ == all,
            i > 0 ==> !holds_structure(all, message_count),
            parse_messages(all, message_count as nat, Seq::empty()) == parse_messages(
                reader.data@,
                (message_count - i) as nat,
                message_seq(messages),
            ),
        decreases message_count - i,
    {
        let ghost rest = reader.data@;
        let number = MessageNumber(reader.read_u16()?);
        let value = match number.kind() {
            MessageKind::Enum => Value::Enum(reader.read_u8()?),
            MessageKind::Variable => Value::Variable(reader.read_u16()?),
            MessageKind::LongVariable => Value::LongVariable(reader.read_u32()?),
            MessageKind::Structure => {
                if i != 0 || message_count != 1 {
                    return Err(PacketError::UnexpectedStructure);
                }
                return match structure_from_slice(reader.data) {
                    Some(data) => Ok(Data::Structure(Structure { number, data })),
                    None => Err(PacketError::StructureTooLong { size: reader.data.len() }),
                };
            },
        };
        proof {
            let width = number.kind().width() as int;
            assert(rest.skip(2).skip(width) =~= rest.skip(2 + width));
            assert(value == value_at(number.kind(), rest.skip(2)));
        }
        let pushed = messages_push(&mut messages, Message { number, value });
        assert(pushed);
        i = i + 1;
    }
    Ok(Data::Messages(messages))
}

impl Packet {
    /// Parses a frame payload.
    pub fn parse(data: &[u8]) -> (r: Result<Self, PacketError>)
        ensures
            parsed_as(r, parse_packet(data@)),
    {
        let mut reader = PacketReader::new(data);

        let source = Address::from_bytes(reader.read_array::<3>()?);
        let destination = Address::from_bytes(reader.read_array::<3>()?);

        let packet_info = PacketInfo::from_byte(reader.read_u8()?);

        let byte = reader.read_u8()?;
        proof {
            assert(data@.skip(3).skip(3) =~= data@.skip(6));
            assert(data@.skip(6).skip(1) =~= data@.skip(7));
            assert(data@.skip(7).skip(1) =~= data@.skip(8));
            assert(data@.take(3) =~= data@.subrange(0, 3));
            assert(data@.skip(3).take(3) =~= data@.subrange(3, 6));
            assert(byte == data@[7]);
        }
        let packet_type = PacketType::from_u4(byte >> 4)?;
        let data_type = DataType::from_u4(byte & 0x0f)?;

        let packet_number = reader.read_u8()?;
        let message_count = reader.read_u8()?;
        proof {
            assert(data@.skip(8).skip(1) =~= data@.skip(9));
            assert(data@.skip(9).skip(1) =~= data@.skip(10));
        }

        let data = read_payload(message_count, &mut reader)?;

        Ok(Packet { source, destination, packet_info, packet_type, data_type, packet_number, data })
    }
}

} // verus!
