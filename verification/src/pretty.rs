//! A packet as text for people to read.

use vstd::prelude::*;
use vstd::string::StringExecFns;
use crate::bounded::{messages_slice, structure_slice};
use crate::packet::{
    Data, DataType, DataView, Message, Packet, PacketInfoView, PacketType, PacketView, Value,
};
use crate::text::{bytes_text, decimal_text, hex_text, push_bytes, push_decimal, push_hex};

verus! {

/// `s` where colour is wanted, and nothing where it is not.
pub open spec fn spec_color(use_color: bool, s: Seq<char>) -> Seq<char> {
    if use_color {
        s
    } else {
        Seq::empty()
    }
}

pub fn color<'a>(use_color: bool, s: &'a str) -> (r: &'a str)
    ensures
        r@ == spec_color(use_color, s@),
{
    if use_color {
        s
    } else {
        proof {
            reveal_strlit("");
        }
        assert(""@ =~= Seq::<char>::empty());
        ""
    }
}

/// The escape sequence that sets the colour for a data type.
pub open spec fn type_color(data_type: DataType) -> Seq<char> {
    match data_type {
        DataType::Undefined => ""@,
        DataType::Read => "\x1b[1;32m"@,
        DataType::Write => "\x1b[1;33m"@,
        DataType::Request => "\x1b[1;95m"@,
        DataType::Notification => "\x1b[2m"@,
        DataType::Response => "\x1b[1;36m"@,
        DataType::Ack => "\x1b[1;34m"@,
        DataType::Nack => "\x1b[1;31m"@,
    }
}

/// The first line: data type, packet number, source and destination.
pub open spec fn head_text(packet: PacketView, use_color: bool) -> Seq<char> {
    spec_color(use_color, type_color(packet.data_type)) + packet.data_type.spec_name()
        + spec_color(use_color, "\x1b[0m"@) + " "@ + spec_color(use_color, "\x1b[90m"@) + "#"@
        + decimal_text(packet.packet_number as nat) + spec_color(use_color, "\x1b[0m"@) + ": "@
        + packet.source.text() + " => "@ + packet.destination.text() + "\n"@
}

/// A line where the `info` bit is not set.
pub open spec fn info_note(info: PacketInfoView) -> Seq<char> {
    if info.info != 1 {
        "  * packet_info: INFO BIT NOT SET\n"@
    } else {
        Seq::empty()
    }
}

/// A line where the reserved bits are not clear.
pub open spec fn reserved_note(info: PacketInfoView) -> Seq<char> {
    if info.reserved != 0 {
        "  * packet_info: RESERVED BITS NOT CLEAR\n"@
    } else {
        Seq::empty()
    }
}

/// A line where the protocol version is not 2.
pub open spec fn version_note(info: PacketInfoView) -> Seq<char> {
    if info.protocol_version != 2 {
        "  * protocol_version: NOT 2, is: "@ + decimal_text(info.protocol_version as nat) + "\n"@
    } else {
        Seq::empty()
    }
}

/// A line where the packet is sent again.
pub open spec fn retry_note(info: PacketInfoView) -> Seq<char> {
    if info.retry_count != 0 {
        "  * retry_count: "@ + decimal_text(info.retry_count as nat) + "\n"@
    } else {
        Seq::empty()
    }
}

/// A line where the packet type is not `Normal`.
pub open spec fn type_note(packet_type: PacketType) -> Seq<char> {
    if packet_type != PacketType::Normal {
        "  * packet_type: "@ + packet_type.spec_name() + "\n"@
    } else {
        Seq::empty()
    }
}

/// One line for each field of the header that holds another value than is
/// usual.
pub open spec fn notes_text(packet: PacketView) -> Seq<char> {
    info_note(packet.packet_info) + reserved_note(packet.packet_info) + version_note(
        packet.packet_info,
    ) + retry_note(packet.packet_info) + type_note(packet.packet_type)
}

/// A value in base 16, with as many digits as its kind has, and in base 10.
pub open spec fn value_text(value: Value) -> Seq<char> {
    match value {
        Value::Enum(v) => "0x"@ + hex_text(v as nat, 2) + " ("@ + decimal_text(v as nat) + ")\n"@,
        Value::Variable(v) => "0x"@ + hex_text(v as nat, 4) + " ("@ + decimal_text(v as nat)
            + ")\n"@,
        Value::LongVariable(v) => "0x"@ + hex_text(v as nat, 8) + " ("@ + decimal_text(v as nat)
            + ")\n"@,
    }
}

/// The line of a message: its id and its value.
pub open spec fn message_text(message: Message) -> Seq<char> {
    "  "@ + message.number.text() + " => "@ + value_text(message.value)
}

/// The lines of a list of messages.
pub open spec fn messages_text(messages: Seq<Message>) -> Seq<char>
    decreases messages.len(),
{
    if messages.len() == 0 {
        Seq::empty()
    } else {
        messages_text(messages.drop_last()) + message_text(messages.last())
    }
}

/// The lines for what the packet carries.
pub open spec fn data_text(data: DataView) -> Seq<char> {
    match data {
        DataView::Messages(messages) => if messages.len() == 0 {
            "  (empty)\n"@
        } else {
            messages_text(messages)
        },
        DataView::Structure { number, data } => "  "@ + number.text() + " => "@ + bytes_text(data)
            + "\n"@,
    }
}

/// The packet as text: the first line, the notes, what it carries, and an
/// empty line.
pub open spec fn pretty_text(packet: PacketView, use_color: bool) -> Seq<char> {
    head_text(packet, use_color) + notes_text(packet) + data_text(packet.data) + "\n"@
}

fn push_head(out: &mut String, packet: &Packet, use_color: bool)
    ensures
        final(out)@ == old(out)@ + head_text(packet@, use_color),
{
    let typ_color = color(
        use_color,
        match packet.data_type {
            DataType::Undefined => "",
            DataType::Read => "\x1b[1;32m",
            DataType::Write => "\x1b[1;33m",
            DataType::Request => "\x1b[1;95m",
            DataType::Notification => "\x1b[2m",
            DataType::Response => "\x1b[1;36m",
            DataType::Ack => "\x1b[1;34m",
            DataType::Nack => "\x1b[1;31m",
        },
    );
    let typ_reset = color(use_color, "\x1b[0m");

    let num_color = color(use_color, "\x1b[90m");
    let num_reset = color(use_color, "\x1b[0m");

    out.append(typ_color);
    out.append(packet.data_type.name());
    out.append(typ_reset);
    out.append(" ");
    out.append(num_color);
    out.append("#");
    push_decimal(out, packet.packet_number as u32);
    out.append(num_reset);
    out.append(": ");
    out.append(packet.source.to_string().as_str());
    out.append(" => ");
    out.append(packet.destination.to_string().as_str());
    out.append("\n");
    assert(out@ =~= old(out)@ + head_text(packet@, use_color));
}

fn push_info_notes(out: &mut String, packet: &Packet)
    ensures
        final(out)@ == old(out)@ + info_note(packet@.packet_info) + reserved_note(
            packet@.packet_info,
        ),
{
    if packet.packet_info.info() != 1 {
        out.append("  * packet_info: INFO BIT NOT SET\n");
    }
    assert(out@ =~= old(out)@ + info_note(packet@.packet_info));
    if packet.packet_info.reserved() != 0 {
        out.append("  * packet_info: RESERVED BITS NOT CLEAR\n");
    }
    assert(out@ =~= old(out)@ + info_note(packet@.packet_info) + reserved_note(
        packet@.packet_info,
    ));
}

fn push_version_note(out: &mut String, packet: &Packet)
    ensures
        final(out)@ == old(out)@ + version_note(packet@.packet_info),
{
    if packet.packet_info.protocol_version() != 2 {
        out.append("  * protocol_version: NOT 2, is: ");
        push_decimal(out, packet.packet_info.protocol_version() as u32);
        out.append("\n");
    }
    assert(out@ =~= old(out)@ + version_note(packet@.packet_info));
}

fn push_retry_note(out: &mut String, packet: &Packet)
    ensures
        final(out)@ == old(out)@ + retry_note(packet@.packet_info),
{
    if packet.packet_info.retry_count() != 0 {
        out.append("  * retry_count: ");
        push_decimal(out, packet.packet_info.retry_count() as u32);
        out.append("\n");
    }
    assert(out@ =~= old(out)@ + retry_note(packet@.packet_info));
}

fn push_type_note(out: &mut String, packet: &Packet)
    ensures
        final(out)@ == old(out)@ + type_note(packet.packet_type),
{
    if packet.packet_type != PacketType::Normal {
        out.append("  * packet_type: ");
        out.append(packet.packet_type.name());
        out.append("\n");
    }
    assert(out@ =~= old(out)@ + type_note(packet.packet_type));
}

fn push_notes(out: &mut String, packet: &Packet)
    ensures
        final(out)@ == old(out)@ + notes_text(packet@),
{
    push_info_notes(out, packet);
    push_version_note(out, packet);
    push_retry_note(out, packet);
    push_type_note(out, packet);
    assert(out@ =~= old(out)@ + notes_text(packet@));
}

fn push_value(out: &mut String, value: Value)
    ensures
        final(out)@ == old(out)@ + value_text(value),
{
    out.append("0x");
    match value {
        Value::Enum(v) => {
            push_hex(out, v as u32, 2);
            out.append(" (");
            push_decimal(out, v as u32);
        },
        Value::Variable(v) => {
            push_hex(out, v as u32, 4);
            out.append(" (");
            push_decimal(out, v as u32);
        },
        Value::LongVariable(v) => {
            push_hex(out, v, 8);
            out.append(" (");
            push_decimal(out, v);
        },
    }
    out.append(")\n");
    assert(out@ =~= old(out)@ + value_text(value));
}

fn push_message(out: &mut String, message: &Message)
    ensures
        final(out)@ == old(out)@ + message_text(*message),
{
    out.append("  ");
    out.append(message.number.to_string().as_str());
    out.append(" => ");
    push_value(out, message.value);
    assert(out@ =~= old(out)@ + message_text(*message));
}

fn push_data(out: &mut String, data: &Data)
    ensures
        final(out)@ == old(out)@ + data_text(data@),
{
    match data {
        Data::Messages(list) => {
            let msgs = messages_slice(list);
            if msgs.len() == 0 {
                out.append("  (empty)\n");
            } else {
                let mut i: usize = 0;
                proof {
                    assert(msgs@.take(0) =~= Seq::<Message>::empty());
                    assert(out@ =~= old(out)@ + messages_text(msgs@.take(0)));
                }
                while i < msgs.len()
                    invariant
                        i <= msgs.len(),
                        out@ == old(out)@ + messages_text(msgs@.take(i as int)),
                    decreases msgs.len() - i,
                {
                    proof {
                        let taken = msgs@.take(i as int + 1);
                        assert(taken.drop_last() =~= msgs@.take(i as int));
                        assert(taken.last() == msgs@[i as int]);
                    }
                    push_message(out, &msgs[i]);
                    assert(out@ =~= old(out)@ + messages_text(msgs@.take(i as int + 1)));
                    i = i + 1;
                }
                proof {
                    assert(msgs@.take(i as int) =~= msgs@);
                }
            }
        },
        Data::Structure(structure) => {
            out.append("  ");
            out.append(structure.number.to_string().as_str());
            out.append(" => ");
            push_bytes(out, structure_slice(&structure.data));
            out.append("\n");
            assert(out@ =~= old(out)@ + data_text(data@));
        },
    }
}

/// Appends the packet as text, with escape sequences for colour where
/// `use_color` is set.
pub fn pretty_print(out: &mut String, packet: &Packet, use_color: bool)
    ensures
        final(out)@ == old(out)@ + pretty_text(packet@, use_color),
{
    push_head(out, packet, use_color);
    push_notes(out, packet);
    push_data(out, &packet.data);
    out.append("\n");
    assert(out@ =~= old(out)@ + pretty_text(packet@, use_color));
}

} // verus!
