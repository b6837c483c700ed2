//! The packet: the datagram that a frame carries, and the values it is made of.

use vstd::prelude::*;
use crate::bounded::{MessagesVec, StructureData, message_seq, structure_bytes};

verus! {

/// The most messages that one packet can carry.
pub const MAX_MESSAGE_COUNT: usize = 255;

/// The most bytes that a structure can hold.
pub const MAX_STRUCTURE_SIZE: usize = 256;

/// A station on the bus.
#[derive(Debug, Clone, Copy, PartialEq, Eq, Structural, Hash)]
pub struct Address {
    pub class: u8,
    pub channel: u8,
    pub address: u8,
}

impl Address {
    pub fn to_bytes(&self) -> (bytes: [u8; 3])
        ensures
            bytes@ == self.bytes(),
    {
        let bytes = [self.class, self.channel, self.address];
        assert(bytes@ =~= self.bytes());
        bytes
    }

    pub fn from_bytes(bytes: [u8; 3]) -> (address: Self)
        ensures
            address == Address::of_bytes(bytes@),
    {
        Address { class: bytes[0], channel: bytes[1], address: bytes[2] }
    }

    /// The three bytes of the address on the wire.
    pub open spec fn bytes(&self) -> Seq<u8> {
        seq![self.class, self.channel, self.address]
    }

    /// The address that the first three bytes of `bytes` spell.
    pub open spec fn of_bytes(bytes: Seq<u8>) -> Address {
        Address { class: bytes[0], channel: bytes[1], address: bytes[2] }
    }
}

/// The fields of the packet-info byte: bit 7 is `info`, bits 6 and 5 the
/// protocol version, bits 4 and 3 the retry count, bits 2 to 0 are reserved.
pub struct PacketInfoView {
    pub info: u8,
    pub protocol_version: u8,
    pub retry_count: u8,
    pub reserved: u8,
}

impl PacketInfoView {
    /// Each field fits the bits that the byte has for it.
    pub open spec fn wf(self) -> bool {
        &&& self.info <= 1
        &&& self.protocol_version <= 3
        &&& self.retry_count <= 3
        &&& self.reserved <= 7
    }

    /// The fields that `byte` holds.
    pub open spec fn of_byte(byte: u8) -> PacketInfoView {
        PacketInfoView {
            info: byte >> 7,
            protocol_version: (byte & 0x60) >> 5,
            retry_count: (byte & 0x18) >> 3,
            reserved: byte & 0x07,
        }
    }

    /// The byte that is written for these fields: each field in its bits,
    /// and the reserved bits clear, whatever `reserved` holds.
    pub open spec fn byte(self) -> u8 {
        (self.info << 7) | (self.protocol_version << 5) | (self.retry_count << 3)
    }

    /// The fields of a packet that is sent for the first time.
    pub open spec fn initial() -> PacketInfoView {
        PacketInfoView { info: 1, protocol_version: 2, retry_count: 0, reserved: 0 }
    }
}

/// Reading a byte gives fields that fit their bits.
pub proof fn lemma_info_of_byte_wf(byte: u8)
    ensures
        PacketInfoView::of_byte(byte).wf(),
{
    assert(byte >> 7 <= 1 && (byte & 0x60) >> 5 <= 3 && (byte & 0x18) >> 3 <= 3 && byte & 0x07 <= 7)
        by (bit_vector);
}

/// Reading back the byte written for some fields gives those fields, with
/// the reserved bits clear.
pub proof fn lemma_info_round_trip(info: PacketInfoView)
    requires
        info.wf(),
    ensures
        PacketInfoView::of_byte(info.byte()) == (PacketInfoView { reserved: 0, ..info }),
{
    let i = info.info;
    let v = info.protocol_version;
    let r = info.retry_count;
    assert(i <= 1 && v <= 3 && r <= 3 ==> {
        let b = (i << 7) | (v << 5) | (r << 3);
        b >> 7 == i && (b & 0x60) >> 5 == v && (b & 0x18) >> 3 == r && b & 0x07 == 0
    }) by (bit_vector);
}

/// The packet-info byte, taken apart.
#[derive(Debug, Clone, Copy, PartialEq, Eq, Structural)]
pub struct PacketInfo {
    info: u8,
    protocol_version: u8,
    retry_count: u8,
    reserved: u8,
}

impl PacketInfo {
    #[verifier::type_invariant]
    spec fn fits(self) -> bool {
        self.view().wf()
    }

    pub closed spec fn view(&self) -> PacketInfoView {
        PacketInfoView {
            info: self.info,
            protocol_version: self.protocol_version,
            retry_count: self.retry_count,
            reserved: self.reserved,
        }
    }

    pub fn new() -> (info: Self)
        ensures
            info@ == PacketInfoView::initial(),
    {
        Self::with_retry_count(0)
    }

    pub fn with_retry_count(retry_count: u8) -> (info: Self)
        requires
            retry_count <= 3,
        ensures
            info@ == (PacketInfoView { retry_count, ..PacketInfoView::initial() }),
    {
        PacketInfo { info: 1, protocol_version: 2, retry_count, reserved: 0 }
    }

    pub fn from_byte(byte: u8) -> (info: Self)
        ensures
            info@ == PacketInfoView::of_byte(byte),
    {
        proof {
            lemma_info_of_byte_wf(byte);
        }
        PacketInfo {
            info: byte >> 7,
            protocol_version: (byte & 0x60) >> 5,
            retry_count: (byte & 0x18) >> 3,
            reserved: byte & 0x07,
        }
    }

    pub fn to_byte(&self) -> (byte: u8)
        ensures
            byte == self@.byte(),
    {
        proof {
            use_type_invariant(self);
        }
        let mut byte: u8 = 0;
        byte = byte | (self.info << 7);
        byte = byte | (self.protocol_version << 5);
        byte = byte | (self.retry_count << 3);
        proof {
            let i = self.info;
            let v = self.protocol_version;
            let r = self.retry_count;
            assert(((0u8 | (i << 7)) | (v << 5)) | (r << 3) == (i << 7) | (v << 5) | (r << 3))
                by (bit_vector);
        }
        byte
    }

    /// Puts `retry_count` in place of the retry count.
    pub fn set_retry_count(&mut self, retry_count: u8)
        requires
            retry_count <= 3,
        ensures
            final(self)@ == (PacketInfoView { retry_count, ..old(self)@ }),
    {
        proof {
            use_type_invariant(&*self);
        }
        self.retry_count = retry_count;
    }

    pub fn info(&self) -> (bit: u8)
        ensures
            bit == self@.info,
            bit <= 1,
    {
        proof {
            use_type_invariant(self);
        }
        self.info
    }

    pub fn protocol_version(&self) -> (version: u8)
        ensures
            version == self@.protocol_version,
            version <= 3,
    {
        proof {
            use_type_invariant(self);
        }
        self.protocol_version
    }

    pub fn retry_count(&self) -> (count: u8)
        ensures
            count == self@.retry_count,
            count <= 3,
    {
        proof {
            use_type_invariant(self);
        }
        self.retry_count
    }

    pub fn reserved(&self) -> (bits: u8)
        ensures
            bits == self@.reserved,
            bits <= 7,
    {
        proof {
            use_type_invariant(self);
        }
        self.reserved
    }
}

impl Default for PacketInfo {
    fn default() -> (info: Self)
        ensures
            info@ == PacketInfoView::initial(),
    {
        Self::new()
    }
}

#[derive(Debug, Clone, Copy, PartialEq, Eq, Structural)]
pub enum PacketType {
    StandBy,
    Normal,
    Gathering,
    Install,
    Download,
}

impl PacketType {
    /// The number that stands for the type in the high half of the type byte.
    pub open spec fn code(self) -> u8 {
        match self {
            PacketType::StandBy => 0,
            PacketType::Normal => 1,
            PacketType::Gathering => 2,
            PacketType::Install => 3,
            PacketType::Download => 4,
        }
    }

    /// The type that `u` stands for, if it stands for one.
    pub open spec fn of_code(u: u8) -> Option<PacketType> {
        if u == 0 {
            Some(PacketType::StandBy)
        } else if u == 1 {
            Some(PacketType::Normal)
        } else if u == 2 {
            Some(PacketType::Gathering)
        } else if u == 3 {
            Some(PacketType::Install)
        } else if u == 4 {
            Some(PacketType::Download)
        } else {
            None
        }
    }

    pub fn from_u4(u: u8) -> (r: Result<Self, PacketError>)
        ensures
            r == match PacketType::of_code(u) {
                Some(packet_type) => Ok::<PacketType, PacketError>(packet_type),
                None => Err::<PacketType, PacketError>(PacketError::UnknownPacketType(u)),
            },
    {
        match u {
            0 => Ok(PacketType::StandBy),
            1 => Ok(PacketType::Normal),
            2 => Ok(PacketType::Gathering),
            3 => Ok(PacketType::Install),
            4 => Ok(PacketType::Download),
            _ => Err(PacketError::UnknownPacketType(u)),
        }
    }

    pub fn to_u4(self) -> (u: u8)
        ensures
            u == self.code(),
            u <= 4,
    {
        match self {
            PacketType::StandBy => 0,
            PacketType::Normal => 1,
            PacketType::Gathering => 2,
            PacketType::Install => 3,
            PacketType::Download => 4,
        }
    }
}

#[derive(Debug, Clone, Copy, PartialEq, Eq, Structural)]
pub enum DataType {
    Undefined,
    Read,
    Write,
    Request,
    Notification,
    Response,
    Ack,
    Nack,
}

impl DataType {
    /// The number that stands for the type in the low half of the type byte.
    pub open spec fn code(self) -> u8 {
        match self {
            DataType::Undefined => 0,
            DataType::Read => 1,
            DataType::Write => 2,
            DataType::Request => 3,
            DataType::Notification => 4,
            DataType::Response => 5,
            DataType::Ack => 6,
            DataType::Nack => 7,
        }
    }

    /// The type that `u` stands for; the numbers 8 to 15 are reserved and
    /// stand for none.
    pub open spec fn of_code(u: u8) -> Option<DataType> {
        if u == 0 {
            Some(DataType::Undefined)
        } else if u == 1 {
            Some(DataType::Read)
        } else if u == 2 {
            Some(DataType::Write)
        } else if u == 3 {
            Some(DataType::Request)
        } else if u == 4 {
            Some(DataType::Notification)
        } else if u == 5 {
            Some(DataType::Response)
        } else if u == 6 {
            Some(DataType::Ack)
        } else if u == 7 {
            Some(DataType::Nack)
        } else {
            None
        }
    }

    pub fn from_u4(u: u8) -> (r: Result<Self, PacketError>)
        ensures
            r == match DataType::of_code(u) {
                Some(data_type) => Ok::<DataType, PacketError>(data_type),
                None => Err::<DataType, PacketError>(PacketError::UnknownDataType(u)),
            },
    {
        match u {
            0 => Ok(DataType::Undefined),
            1 => Ok(DataType::Read),
            2 => Ok(DataType::Write),
            3 => Ok(DataType::Request),
            4 => Ok(DataType::Notification),
            5 => Ok(DataType::Response),
            6 => Ok(DataType::Ack),
            7 => Ok(DataType::Nack),
            _ => Err(PacketError::UnknownDataType(u)),
        }
    }

    pub fn to_u4(self) -> (u: u8)
        ensures
            u == self.code(),
            u <= 7,
    {
        match self {
            DataType::Undefined => 0,
            DataType::Read => 1,
            DataType::Write => 2,
            DataType::Request => 3,
            DataType::Notification => 4,
            DataType::Response => 5,
            DataType::Ack => 6,
            DataType::Nack => 7,
        }
    }
}

/// What kind of value a message id announces.
#[derive(Debug, Clone, Copy, PartialEq, Eq, Structural)]
pub enum MessageKind {
    Enum,
    Variable,
    LongVariable,
    Structure,
}

impl MessageKind {
    /// How many bytes a value of this kind takes on the wire. A structure
    /// takes what is left of the packet, which is not counted here.
    pub open spec fn width(self) -> nat {
        match self {
            MessageKind::Enum => 1,
            MessageKind::Variable => 2,
            MessageKind::LongVariable => 4,
            MessageKind::Structure => 0,
        }
    }
}

/// A message id. Bits 10 and 9 say what kind of value goes with it.
#[derive(Debug, Clone, Copy, PartialEq, Eq, Structural, Hash)]
pub struct MessageNumber(pub u16);

pub type MessageId = MessageNumber;

impl MessageNumber {
    /// Bits 10 and 9 of the id.
    pub open spec fn kind_bits(self) -> u16 {
        (self.0 & 0x0600) >> 9
    }

    pub open spec fn spec_kind(&self) -> MessageKind {
        let bits = self.kind_bits();
        if bits == 0 {
            MessageKind::Enum
        } else if bits == 1 {
            MessageKind::Variable
        } else if bits == 2 {
            MessageKind::LongVariable
        } else {
            MessageKind::Structure
        }
    }

    #[verifier::when_used_as_spec(spec_kind)]
    pub fn kind(&self) -> (kind: MessageKind)
        ensures
            kind == self.spec_kind(),
    {
        let bits = (self.0 & 0x0600) >> 9;
        if bits == 0 {
            MessageKind::Enum
        } else if bits == 1 {
            MessageKind::Variable
        } else if bits == 2 {
            MessageKind::LongVariable
        } else {
            MessageKind::Structure
        }
    }
}

#[derive(Debug, Clone, Copy, PartialEq, Eq, Structural)]
pub enum Value {
    Enum(u8),
    Variable(u16),
    LongVariable(u32),
}

/// A value was asked for as another kind than it has.
#[derive(Debug, Clone, Copy, PartialEq, Eq, Structural)]
pub struct WrongValueKind;

impl Value {
    /// The kind of id that this value goes with.
    pub open spec fn spec_kind(&self) -> MessageKind {
        match self {
            Value::Enum(_) => MessageKind::Enum,
            Value::Variable(_) => MessageKind::Variable,
            Value::LongVariable(_) => MessageKind::LongVariable,
        }
    }

    #[verifier::when_used_as_spec(spec_kind)]
    pub fn kind(&self) -> (kind: MessageKind)
        ensures
            kind == self.spec_kind(),
    {
        match self {
            Value::Enum(_) => MessageKind::Enum,
            Value::Variable(_) => MessageKind::Variable,
            Value::LongVariable(_) => MessageKind::LongVariable,
        }
    }

    pub fn expect_u8(self) -> (r: Result<u8, WrongValueKind>)
        ensures
            r == match self {
                Value::Enum(value) => Ok::<u8, WrongValueKind>(value),
                _ => Err::<u8, WrongValueKind>(WrongValueKind),
            },
    {
        match self {
            Value::Enum(value) => Ok(value),
            _ => Err(WrongValueKind),
        }
    }

    pub fn expect_u16(self) -> (r: Result<u16, WrongValueKind>)
        ensures
            r == match self {
                Value::Variable(value) => Ok::<u16, WrongValueKind>(value),
                _ => Err::<u16, WrongValueKind>(WrongValueKind),
            },
    {
        match self {
            Value::Variable(value) => Ok(value),
            _ => Err(WrongValueKind),
        }
    }

    pub fn expect_u32(self) -> (r: Result<u32, WrongValueKind>)
        ensures
            r == match self {
                Value::LongVariable(value) => Ok::<u32, WrongValueKind>(value),
                _ => Err::<u32, WrongValueKind>(WrongValueKind),
            },
    {
        match self {
            Value::LongVariable(value) => Ok(value),
            _ => Err(WrongValueKind),
        }
    }
}

#[derive(Debug, Clone, Copy, PartialEq, Eq, Structural)]
pub struct Message {
    pub number: MessageNumber,
    pub value: Value,
}

impl Message {
    /// The value is of the kind that the id announces.
    pub open spec fn wf(self) -> bool {
        self.number.kind() == self.value.kind()
    }
}

/// A raw payload under a structure id; the only content of its packet.
#[derive(Debug)]
pub struct Structure {
    pub number: MessageNumber,
    pub data: StructureData,
}

#[derive(Debug)]
pub enum Data {
    Messages(MessagesVec),
    Structure(Structure),
}

/// What a packet carries, as a value.
pub enum DataView {
    Messages(Seq<Message>),
    Structure { number: MessageNumber, data: Seq<u8> },
}

impl Data {
    pub open spec fn view(&self) -> DataView {
        match self {
            Data::Messages(messages) => DataView::Messages(message_seq(*messages)),
            Data::Structure(structure) => DataView::Structure {
                number: structure.number,
                data: structure_bytes(structure.data),
            },
        }
    }
}

#[derive(Debug)]
pub struct Packet {
    pub source: Address,
    pub destination: Address,
    pub packet_info: PacketInfo,
    pub packet_type: PacketType,
    pub data_type: DataType,
    pub packet_number: u8,
    pub data: Data,
}

/// A packet as a value.
pub struct PacketView {
    pub source: Address,
    pub destination: Address,
    pub packet_info: PacketInfoView,
    pub packet_type: PacketType,
    pub data_type: DataType,
    pub packet_number: u8,
    pub data: DataView,
}

impl Packet {
    pub open spec fn view(&self) -> PacketView {
        PacketView {
            source: self.source,
            destination: self.destination,
            packet_info: self.packet_info@,
            packet_type: self.packet_type,
            data_type: self.data_type,
            packet_number: self.packet_number,
            data: self.data@,
        }
    }
}

impl DataView {
    /// The contents fit the collections that a packet has for them.
    pub open spec fn fits(self) -> bool {
        match self {
            DataView::Messages(messages) => messages.len() <= MAX_MESSAGE_COUNT,
            DataView::Structure { number, data } => data.len() <= MAX_STRUCTURE_SIZE,
        }
    }

    /// Every id goes with a value of its kind.
    pub open spec fn kinds_match(self) -> bool {
        match self {
            DataView::Messages(messages) => forall|i: int|
                0 <= i < messages.len() ==> (#[trigger] messages[i]).wf(),
            DataView::Structure { number, data } => number.kind() == MessageKind::Structure,
        }
    }
}

impl PacketView {
    /// Every field is one that a packet can hold.
    pub open spec fn wf(self) -> bool {
        self.packet_info.wf() && self.data.fits()
    }
}

#[derive(Debug, Clone, Copy, PartialEq, Eq, Structural)]
pub enum PacketError {
    /// The payload ended before the packet did.
    TooShort,
    /// The high half of the type byte stands for no packet type.
    UnknownPacketType(u8),
    /// The low half of the type byte is one of the reserved numbers, which
    /// stand for no data type.
    UnknownDataType(u8),
    /// A structure id where the packet holds other messages too.
    UnexpectedStructure,
    /// More structure data than a structure can hold.
    StructureTooLong { size: usize },
}

#[derive(Debug, Clone, Copy, PartialEq, Eq, Structural)]
pub enum SerializePacketError {
    /// The buffer ended before the packet did.
    BufferTooShort,
    /// A message holds a value of another kind than its id announces.
    InvalidMessageValue,
    /// The frame size would not fit its 16-bit field.
    PacketTooLong,
}

#[derive(Debug, Clone, Copy, PartialEq, Eq, Structural)]
pub struct InvalidAddress;

#[derive(Debug, Clone, Copy, PartialEq, Eq, Structural)]
pub struct BufferTooSmall;

} // verus!
