//! From a packet to a frame payload, and to a whole frame.

use vstd::prelude::*;
use vstd::slice::slice_subrange;
use crate::bounded::{messages_slice, structure_slice};
use crate::frame::{FRAME_END, FRAME_START, crc16};
use crate::framing::{frame_head, frame_of, preamble};
use crate::packet::{
    Data, DataType, DataView, Message, MessageKind, Packet, PacketType, PacketView,
    SerializePacketError, Value,
};
use crate::wire::{be16_bytes, be32_bytes, u16_to_be};
use crate::writer::{PacketWriter, lemma_wrote_then, wrote_bytes};

verus! {

/// The bytes of a value on the wire.
pub open spec fn value_bytes(value: Value) -> Seq<u8> {
    match value {
        Value::Enum(v) => seq![v],
        Value::Variable(v) => be16_bytes(v),
        Value::LongVariable(v) => be32_bytes(v),
    }
}

/// The bytes of a message on the wire: its id, then its value.
pub open spec fn message_bytes(message: Message) -> Seq<u8> {
    be16_bytes(message.number.0) + value_bytes(message.value)
}

/// The bytes of a list of messages on the wire, one after the other.
pub open spec fn messages_bytes(messages: Seq<Message>) -> Seq<u8>
    decreases messages.len(),
{
    if messages.len() == 0 {
        Seq::empty()
    } else {
        messages_bytes(messages.drop_last()) + message_bytes(messages.last())
    }
}

/// How many messages at the front of the list hold a value of the kind that
/// their id announces.
pub open spec fn valid_prefix(messages: Seq<Message>) -> nat
    decreases messages.len(),
{
    if messages.len() == 0 || !messages[0].wf() {
        0
    } else {
        1 + valid_prefix(messages.skip(1))
    }
}

/// The type byte: packet type in the high half, data type in the low half.
pub open spec fn type_byte(packet_type: PacketType, data_type: DataType) -> u8 {
    (packet_type.code() << 4) | data_type.code()
}

/// The nine bytes before the message count.
pub open spec fn header_bytes(packet: PacketView) -> Seq<u8> {
    packet.source.bytes() + packet.destination.bytes() + seq![
        packet.packet_info.byte(),
        type_byte(packet.packet_type, packet.data_type),
        packet.packet_number,
    ]
}

/// The message count and what follows it.
pub open spec fn data_bytes(data: DataView) -> Seq<u8> {
    match data {
        DataView::Messages(messages) => seq![messages.len() as u8] + messages_bytes(messages),
        DataView::Structure { number, data } => seq![1u8] + be16_bytes(number.0) + data,
    }
}

/// The payload that is written for a packet.
pub open spec fn payload_bytes(packet: PacketView) -> Seq<u8> {
    header_bytes(packet) + data_bytes(packet.data)
}

/// How many bytes have been written when the serializer meets a value that
/// does not go with its id: for a message, the header, the messages before it
/// and its own id; for data under an id that is no structure id, the header.
/// `None` where every value goes with its id.
pub open spec fn mismatch_after(data: DataView) -> Option<nat> {
    match data {
        DataView::Messages(messages) => {
            let valid = valid_prefix(messages);
            if valid < messages.len() {
                Some(10 + messages_bytes(messages.take(valid as int)).len() + 2)
            } else {
                None
            }
        },
        DataView::Structure { number, data } => if number.kind() != MessageKind::Structure {
            Some(10)
        } else {
            None
        },
    }
}

/// What serializing a packet into `room` bytes gives: the payload, where
/// every value goes with its id and the payload fits; `InvalidMessageValue`
/// where a value does not go with its id and what is written before that is
/// found fits; `BufferTooShort` otherwise.
pub open spec fn serialize_packet(packet: PacketView, room: nat) -> Result<
    Seq<u8>,
    SerializePacketError,
> {
    match mismatch_after(packet.data) {
        Some(written) => if written <= room {
            Err(SerializePacketError::InvalidMessageValue)
        } else {
            Err(SerializePacketError::BufferTooShort)
        },
        None => if payload_bytes(packet).len() <= room {
            Ok(payload_bytes(packet))
        } else {
            Err(SerializePacketError::BufferTooShort)
        },
    }
}

/// What serializing a packet as a frame into a buffer of `capacity` bytes
/// gives. The preamble, start byte and size field are written first, then
/// the payload, then the CRC; the size is checked before the end byte is
/// written.
pub open spec fn serialize_frame_spec(packet: PacketView, capacity: nat) -> Result<
    Seq<u8>,
    SerializePacketError,
> {
    if capacity < 7 {
        Err(SerializePacketError::BufferTooShort)
    } else {
        match serialize_packet(packet, (capacity - 7) as nat) {
            Err(err) => Err(err),
            Ok(payload) => if payload.len() + 9 > capacity {
                Err(SerializePacketError::BufferTooShort)
            } else if payload.len() + 4 > 0xffff {
                Err(SerializePacketError::PacketTooLong)
            } else if payload.len() + 10 > capacity {
                Err(SerializePacketError::BufferTooShort)
            } else {
                Ok(frame_of(payload))
            },
        }
    }
}

/// The bytes of two lists of messages, one after the other, are the bytes of
/// the joined list.
pub proof fn lemma_messages_bytes_concat(a: Seq<Message>, b: Seq<Message>)
    ensures
        messages_bytes(a + b) =~= messages_bytes(a) + messages_bytes(b),
    decreases b.len(),
{
    if b.len() == 0 {
        assert(a + b =~= a);
    } else {
        assert((a + b).drop_last() =~= a + b.drop_last());
        assert((a + b).last() == b.last());
        lemma_messages_bytes_concat(a, b.drop_last());
    }
}

/// The bytes of a list of one message are the bytes of that message.
pub proof fn lemma_messages_bytes_single(message: Message)
    ensures
        messages_bytes(seq![message]) =~= message_bytes(message),
{
    reveal_with_fuel(messages_bytes, 2);
    assert(seq![message].drop_last().len() == 0);
}

/// The bytes of the first `i + 1` messages are those of the first `i`, then
/// those of message `i`.
pub proof fn lemma_messages_bytes_next(messages: Seq<Message>, i: int)
    requires
        0 <= i < messages.len(),
    ensures
        messages_bytes(messages.take(i + 1)) =~= messages_bytes(messages.take(i)) + message_bytes(
            messages[i],
        ),
{
    assert(messages.take(i + 1).drop_last() =~= messages.take(i));
}

/// A longer part of the list takes at least as many bytes.
pub proof fn lemma_messages_bytes_grow(messages: Seq<Message>, i: int, k: int)
    requires
        0 <= i <= k <= messages.len(),
    ensures
        messages_bytes(messages.take(i)).len() <= messages_bytes(messages.take(k)).len(),
{
    assert(messages.take(k) =~= messages.take(i) + messages.subrange(i, k));
    lemma_messages_bytes_concat(messages.take(i), messages.subrange(i, k));
}

/// Each message takes at most six bytes.
pub proof fn lemma_messages_bytes_bound(messages: Seq<Message>)
    ensures
        messages_bytes(messages).len() <= 6 * messages.len(),
    decreases messages.len(),
{
    if messages.len() > 0 {
        lemma_messages_bytes_bound(messages.drop_last());
    }
}

/// Where the first `i` messages go with their ids, the valid prefix is at
/// least `i` long, and exactly `i` where message `i` does not.
pub proof fn lemma_valid_prefix(messages: Seq<Message>, i: int)
    requires
        0 <= i <= messages.len(),
        forall|j: int| 0 <= j < i ==> (#[trigger] messages[j]).wf(),
    ensures
        valid_prefix(messages) >= i,
        i < messages.len() && !messages[i].wf() ==> valid_prefix(messages) == i,
        valid_prefix(messages) <= messages.len(),
    decreases messages.len(),
{
    if messages.len() > 0 && messages[0].wf() {
        let rest = messages.skip(1);
        if i > 0 {
            assert forall|j: int| 0 <= j < i - 1 implies (#[trigger] rest[j]).wf() by {
                assert(rest[j] == messages[j + 1]);
            }
            lemma_valid_prefix(rest, i - 1);
        } else {
            lemma_valid_prefix(rest, 0);
        }
    }
}

/// The valid prefix is the whole list exactly where every message goes with
/// its id.
pub proof fn lemma_valid_prefix_all(messages: Seq<Message>)
    ensures
        valid_prefix(messages) <= messages.len(),
        valid_prefix(messages) == messages.len() <==> (forall|j: int|
            0 <= j < messages.len() ==> (#[trigger] messages[j]).wf()),
        valid_prefix(messages) < messages.len() ==> !messages[valid_prefix(messages) as int].wf(),
        forall|j: int| 0 <= j < valid_prefix(messages) ==> (#[trigger] messages[j]).wf(),
    decreases messages.len(),
{
    if messages.len() > 0 && messages[0].wf() {
        let rest = messages.skip(1);
        lemma_valid_prefix_all(rest);
        assert forall|j: int| 0 <= j < valid_prefix(messages) implies (
        #[trigger] messages[j]).wf() by {
            if j > 0 {
                assert(messages[j] == rest[j - 1]);
            }
        }
        if valid_prefix(rest) == rest.len() {
            assert forall|j: int| 0 <= j < messages.len() implies (#[trigger] messages[j]).wf() by {
                if j > 0 {
                    assert(messages[j] == rest[j - 1]);
                }
            }
        } else {
            assert(messages[valid_prefix(messages) as int] == rest[valid_prefix(rest) as int]);
        }
    }
}

/// How the writer stands after a failed attempt: inside its buffer, which
/// has kept its length.
pub open spec fn gave_up(after: &PacketWriter, before: &PacketWriter) -> bool {
    after.wf() && after.buff@.len() == before.buff@.len()
}

/// What writing a list of messages into `room` bytes gives: their bytes,
/// where every value goes with its id and the bytes fit;
/// `InvalidMessageValue` where a value does not go with its id and the
/// messages before it and its own id fit; `BufferTooShort` otherwise.
pub open spec fn write_messages_spec(messages: Seq<Message>, room: nat) -> Result<
    Seq<u8>,
    SerializePacketError,
> {
    let valid = valid_prefix(messages);
    if valid < messages.len() {
        if messages_bytes(messages.take(valid as int)).len() + 2 <= room {
            Err(SerializePacketError::InvalidMessageValue)
        } else {
            Err(SerializePacketError::BufferTooShort)
        }
    } else if messages_bytes(messages).len() <= room {
        Ok(messages_bytes(messages))
    } else {
        Err(SerializePacketError::BufferTooShort)
    }
}

/// What a write gave, held against what it should give.
pub open spec fn written_as(
    r: Result<(), SerializePacketError>,
    after: &PacketWriter,
    before: &PacketWriter,
    expected: Result<Seq<u8>, SerializePacketError>,
) -> bool {
    match r {
        Ok(()) => expected is Ok && after.wrote(before, expected->Ok_0),
        Err(err) => expected == Err::<Seq<u8>, SerializePacketError>(err) && gave_up(after, before),
    }
}

/// Writes the nine bytes before the message count.
fn write_header(packet: &Packet, writer: &mut PacketWriter) -> (r: Result<
    (),
    SerializePacketError,
>)
    requires
        old(writer).wf(),
    ensures
        final(final(writer).buff)@ == final(old(writer).buff)@,
        header_bytes(packet@).len() == 9,
        written_as(
            r,
            final(writer),
            old(writer),
            if old(writer).room() >= 9 {
                Ok(header_bytes(packet@))
            } else {
                Err(SerializePacketError::BufferTooShort)
            },
        ),
{
    let ghost buf0 = writer.buff@;
    let ghost pos0 = writer.pos as int;
    writer.write_array(packet.source.to_bytes())?;
    let ghost acc = packet.source.bytes();
    let ghost b = writer.buff@;
    let ghost p = writer.pos as int;
    writer.write_array(packet.destination.to_bytes())?;
    proof {
        lemma_wrote_then(
            buf0, pos0, b, p, writer.buff@, writer.pos as int, acc,
            packet.destination.bytes(),
        );
        acc = acc + packet.destination.bytes();
        b = writer.buff@;
        p = writer.pos as int;
    }
    let info = packet.packet_info.to_byte();
    writer.write_u8(info)?;
    proof {
        lemma_wrote_then(buf0, pos0, b, p, writer.buff@, writer.pos as int, acc, seq![info]);
        acc = acc + seq![info];
        b = writer.buff@;
        p = writer.pos as int;
    }

    let mut byte: u8 = 0;
    byte = byte | (packet.packet_type.to_u4() << 4);
    byte = byte | packet.data_type.to_u4();
    proof {
        let t = packet.packet_type.code();
        let d = packet.data_type.code();
        assert((0u8 | (t << 4)) | d == (t << 4) | d) by (bit_vector);
    }
    writer.write_u8(byte)?;
    proof {
        lemma_wrote_then(buf0, pos0, b, p, writer.buff@, writer.pos as int, acc, seq![byte]);
        acc = acc + seq![byte];
        b = writer.buff@;
        p = writer.pos as int;
    }

    writer.write_u8(packet.packet_number)?;
    proof {
        lemma_wrote_then(
            buf0, pos0, b, p, writer.buff@, writer.pos as int, acc,
            seq![packet.packet_number],
        );
        acc = acc + seq![packet.packet_number];
        assert(acc =~= header_bytes(packet@));
    }
    Ok(())
}

/// Writes the messages, each as its id and its value.
fn write_messages(messages: &[Message], writer: &mut PacketWriter) -> (r: Result<
    (),
    SerializePacketError,
>)
    requires
        old(writer).wf(),
    ensures
        final(final(writer).buff)@ == final(old(writer).buff)@,
        written_as(
            r,
            final(writer),
            old(writer),
            write_messages_spec(messages@, old(writer).room()),
        ),
{
    let ghost buf0 = writer.buff@;
    let ghost pos0 = writer.pos as int;
    let ghost room = writer.room();
    let ghost acc = Seq::<u8>::empty();
    let count = messages.len();
    proof {
        assert(messages@.take(0) =~= Seq::<Message>::empty());
        assert(writer.buff@ =~= buf0.take(pos0) + acc + buf0.skip(pos0));
    }
    let mut i: usize = 0;
    while i < count
        invariant
            i <= count,
            count == messages@.len(),
            buf0 == old(writer).buff@,
            pos0 == old(writer).pos,
            old(writer).wf(),
            room == old(writer).room(),
            final(writer.buff)@ == final(old(writer).buff)@,
            wrote_bytes(buf0, pos0, writer.buff@, writer.pos as int, acc),
            acc == messages_bytes(messages@.take(i as int)),
            forall|j: int| 0 <= j < i ==> (#[trigger] messages@[j]).wf(),
        decreases count - i,
    {
        let message = &messages[i];
        let ghost b = writer.buff@;
        let ghost p = writer.pos as int;
        proof {
            lemma_valid_prefix(messages@, i as int);
            lemma_valid_prefix_all(messages@);
            lemma_messages_bytes_next(messages@, i as int);
            let valid = valid_prefix(messages@) as int;
            lemma_messages_bytes_grow(messages@, i as int, valid);
            if message.wf() {
                lemma_valid_prefix(messages@, i as int + 1);
                lemma_messages_bytes_grow(messages@, i as int + 1, valid);
            }
            lemma_messages_bytes_grow(messages@, i as int + 1, count as int);
            assert(messages@.take(count as int) =~= messages@);
            assert(be16_bytes(message.number.0).len() == 2);
        }
        writer.write_u16(message.number.0)?;
        proof {
            lemma_wrote_then(
                buf0, pos0, b, p, writer.buff@, writer.pos as int, acc,
                be16_bytes(message.number.0),
            );
            acc = acc + be16_bytes(message.number.0);
            b = writer.buff@;
            p = writer.pos as int;
        }
        match (message.number.kind(), message.value) {
            (MessageKind::Enum, Value::Enum(value)) => {
                writer.write_u8(value)?;
            },
            (MessageKind::Variable, Value::Variable(value)) => {
                writer.write_u16(value)?;
            },
            (MessageKind::LongVariable, Value::LongVariable(value)) => {
                writer.write_u32(value)?;
            },
            _ => {
                return Err(SerializePacketError::InvalidMessageValue);
            },
        }
        proof {
            lemma_wrote_then(
                buf0, pos0, b, p, writer.buff@, writer.pos as int, acc,
                value_bytes(message.value),
            );
            acc = acc + value_bytes(message.value);
            assert(acc =~= messages_bytes(messages@.take(i as int + 1)));
        }
        i = i + 1;
    }
    proof {
        assert(messages@.take(count as int) =~= messages@);
        lemma_valid_prefix(messages@, count as int);
        lemma_valid_prefix_all(messages@);
    }
    Ok(())
}

/// Writes the preamble, the start byte and two bytes in place of the size.
fn write_frame_start(writer: &mut PacketWriter) -> (r: Result<(), SerializePacketError>)
    requires
        old(writer).wf(),
    ensures
        final(final(writer).buff)@ == final(old(writer).buff)@,
        written_as(
            r,
            final(writer),
            old(writer),
            if old(writer).room() >= 7 {
                Ok(preamble() + seq![FRAME_START, 0u8, 0u8])
            } else {
                Err(SerializePacketError::BufferTooShort)
            },
        ),
{
    let ghost buf0 = writer.buff@;
    let ghost pos0 = writer.pos as int;
    writer.write_u8(0xfd)?;
    let ghost acc = seq![0xfdu8];
    let ghost b = writer.buff@;
    let ghost p = writer.pos as int;
    writer.write_u8(0xf8)?;
    proof {
        lemma_wrote_then(buf0, pos0, b, p, writer.buff@, writer.pos as int, acc, seq![0xf8u8]);
        acc = acc + seq![0xf8u8];
        b = writer.buff@;
        p = writer.pos as int;
    }
    writer.write_u8(0xef)?;
    proof {
        lemma_wrote_then(buf0, pos0, b, p, writer.buff@, writer.pos as int, acc, seq![0xefu8]);
        acc = acc + seq![0xefu8];
        b = writer.buff@;
        p = writer.pos as int;
    }
    writer.write_u8(0x7c)?;
    proof {
        lemma_wrote_then(buf0, pos0, b, p, writer.buff@, writer.pos as int, acc, seq![0x7cu8]);
        acc = acc + seq![0x7cu8];
        b = writer.buff@;
        p = writer.pos as int;
    }

    writer.write_u8(FRAME_START)?;
    proof {
        lemma_wrote_then(buf0, pos0, b, p, writer.buff@, writer.pos as int, acc, seq![FRAME_START]);
        acc = acc + seq![FRAME_START];
        b = writer.buff@;
        p = writer.pos as int;
    }

    // write zero for length, it is filled in later
    writer.write_u16(0)?;
    proof {
        lemma_wrote_then(buf0, pos0, b, p, writer.buff@, writer.pos as int, acc, be16_bytes(0));
        acc = acc + be16_bytes(0);
        assert(acc =~= preamble() + seq![FRAME_START, 0u8, 0u8]);
    }
    Ok(())
}

impl Packet {
    /// Writes the payload of the packet and returns its length.
    pub fn serialize(&self, writer: &mut PacketWriter) -> (r: Result<usize, SerializePacketError>)
        requires
            old(writer).wf(),
        ensures
            final(final(writer).buff)@ == final(old(writer).buff)@,
            match r {
                Ok(len) => len == payload_bytes(self@).len() && written_as(
                    Ok(()),
                    final(writer),
                    old(writer),
                    serialize_packet(self@, old(writer).room()),
                ) && serialize_packet(self@, old(writer).room()) == Ok::<
                    Seq<u8>,
                    SerializePacketError,
                >(payload_bytes(self@)),
                Err(err) => written_as(
                    Err(err),
                    final(writer),
                    old(writer),
                    serialize_packet(self@, old(writer).room()),
                ),
            },
    {
        let ghost buf0 = writer.buff@;
        let ghost pos0 = writer.pos as int;
        let start = writer.pos;
        proof {
            match self@.data {
                DataView::Messages(messages) => {
                    lemma_valid_prefix_all(messages);
                    lemma_messages_bytes_grow(
                        messages,
                        valid_prefix(messages) as int,
                        messages.len() as int,
                    );
                    assert(messages.take(messages.len() as int) =~= messages);
                },
                _ => {},
            }
        }
        write_header(self, writer)?;
        let ghost header = header_bytes(self@);
        let ghost acc = header;
        let ghost b = writer.buff@;
        let ghost p = writer.pos as int;

        match &self.data {
            Data::Messages(list) => {
                let messages = messages_slice(list);
                let count = messages.len();
                writer.write_u8(count as u8)?;
                proof {
                    lemma_wrote_then(
                        buf0, pos0, b, p, writer.buff@, writer.pos as int, acc,
                        seq![count as u8],
                    );
                    acc = acc + seq![count as u8];
                    b = writer.buff@;
                    p = writer.pos as int;
                }
                write_messages(messages, writer)?;
                proof {
                    lemma_wrote_then(
                        buf0, pos0, b, p, writer.buff@, writer.pos as int, acc,
                        messages_bytes(messages@),
                    );
                    acc = acc + messages_bytes(messages@);
                    assert(acc =~= payload_bytes(self@));
                }
            },
            Data::Structure(structure) => {
                // message count:
                writer.write_u8(1)?;
                proof {
                    lemma_wrote_then(buf0, pos0, b, p, writer.buff@, writer.pos as int, acc, seq![1u8]);
                    acc = acc + seq![1u8];
                    b = writer.buff@;
                    p = writer.pos as int;
                }

                if structure.number.kind() != MessageKind::Structure {
                    return Err(SerializePacketError::InvalidMessageValue);
                }
                writer.write_u16(structure.number.0)?;
                proof {
                    lemma_wrote_then(
                        buf0, pos0, b, p, writer.buff@, writer.pos as int, acc,
                        be16_bytes(structure.number.0),
                    );
                    acc = acc + be16_bytes(structure.number.0);
                    b = writer.buff@;
                    p = writer.pos as int;
                }
                let bytes = structure_slice(&structure.data);
                writer.write_bytes(bytes)?;
                proof {
                    lemma_wrote_then(buf0, pos0, b, p, writer.buff@, writer.pos as int, acc, bytes@);
                    acc = acc + bytes@;
                    assert(acc =~= payload_bytes(self@));
                }
            },
        }

        Ok(writer.pos - start)
    }

    /// Writes the packet as a whole frame at the front of `out` and returns
    /// the length of the frame. What stands in `out` behind the frame is left
    /// as it was.
    #[verifier::rlimit(80)]
    pub fn serialize_frame(&self, out: &mut [u8]) -> (r: Result<usize, SerializePacketError>)
        ensures
            final(out)@.len() == old(out)@.len(),
            match r {
                Ok(len) => serialize_frame_spec(self@, old(out)@.len()) == Ok::<
                    Seq<u8>,
                    SerializePacketError,
                >(final(out)@.take(len as int)) && len == payload_bytes(self@).len() + 10
                    && final(out)@.skip(len as int) == old(out)@.skip(len as int),
                Err(err) => serialize_frame_spec(self@, old(out)@.len()) == Err::<
                    Seq<u8>,
                    SerializePacketError,
                >(err),
            },
    {
        let ghost buf0 = out@;
        // start frame
        let mut writer = PacketWriter::new(out);

        match write_frame_start(&mut writer) {
            Ok(()) => {},
            Err(err) => {
                return Err(err);
            },
        }
        let ghost start = preamble() + seq![FRAME_START, 0u8, 0u8];

        // the size is not known yet: it is filled in below
        let len_pos: usize = 5;

        // serialize frame data
        let data_pos = writer.pos;
        let ghost b = writer.buff@;
        let data_len = match self.serialize(&mut writer) {
            Ok(len) => len,
            Err(err) => {
                return Err(err);
            },
        };
        let ghost payload = payload_bytes(self@);
        proof {
            lemma_wrote_then(buf0, 0, b, 7, writer.buff@, writer.pos as int, start, payload);
        }
        let ghost b = writer.buff@;
        let ghost p = writer.pos as int;

        // calculate and write crc16
        let crc = crc16(slice_subrange(writer.buff, data_pos, data_pos + data_len));
        proof {
            assert(writer.buff@.subrange(7, 7 + payload.len() as int) =~= payload);
        }
        match writer.write_u16(crc) {
            Ok(()) => {},
            Err(err) => {
                return Err(err);
            },
        }
        proof {
            lemma_wrote_then(
                buf0, 0, b, p, writer.buff@, writer.pos as int, start + payload,
                be16_bytes(crc),
            );
        }

        // frame length on the wire includes length field and crc
        if writer.pos - len_pos > 0xffff {
            return Err(SerializePacketError::PacketTooLong);
        }
        let wire_len = (writer.pos - len_pos) as u16;

        // fix up frame length
        let size = u16_to_be(wire_len);
        let ghost unsized_frame = writer.buff@;
        writer.buff[len_pos] = size[0];
        writer.buff[len_pos + 1] = size[1];
        let ghost sized = preamble() + frame_head(payload.len()) + payload + be16_bytes(crc);
        proof {
            assert(writer.buff@ =~= buf0.take(0) + sized + buf0.skip(writer.pos as int));
        }
        let ghost b = writer.buff@;
        let ghost p = writer.pos as int;

        // finish frame
        match writer.write_u8(FRAME_END) {
            Ok(()) => {},
            Err(err) => {
                return Err(err);
            },
        }
        proof {
            lemma_wrote_then(buf0, 0, b, p, writer.buff@, writer.pos as int, sized, seq![FRAME_END]);
            assert(sized + seq![FRAME_END] =~= frame_of(payload));
            assert(writer.buff@.take(writer.pos as int) =~= frame_of(payload));
            assert(writer.buff@.skip(writer.pos as int) =~= buf0.skip(writer.pos as int));
        }

        Ok(writer.pos)
    }
}

} // verus!
