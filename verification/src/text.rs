//! Numbers, addresses and ids as text, and addresses from text.

use vstd::prelude::*;
use vstd::string::{StringExecFns, StringSliceAdditionalSpecFns};
use vstd::utf8::{
    encode_utf8, encode_utf8_decode_utf8, is_ascii_chars, is_ascii_chars_encode_utf8,
};
use crate::message::types::{Celsius, CelsiusLvar};
use crate::packet::{Address, DataType, InvalidAddress, MessageNumber, PacketType};

verus! {

/// The digit for `n`, in lower case from ten on.
pub open spec fn digit_char(n: int) -> char {
    if n == 0 {
        '0'
    } else if n == 1 {
        '1'
    } else if n == 2 {
        '2'
    } else if n == 3 {
        '3'
    } else if n == 4 {
        '4'
    } else if n == 5 {
        '5'
    } else if n == 6 {
        '6'
    } else if n == 7 {
        '7'
    } else if n == 8 {
        '8'
    } else if n == 9 {
        '9'
    } else if n == 10 {
        'a'
    } else if n == 11 {
        'b'
    } else if n == 12 {
        'c'
    } else if n == 13 {
        'd'
    } else if n == 14 {
        'e'
    } else {
        'f'
    }
}

/// `value` in base 16 with `digits` digits, the most significant first.
pub open spec fn hex_text(value: nat, digits: nat) -> Seq<char>
    decreases digits,
{
    if digits == 0 {
        Seq::empty()
    } else {
        hex_text(value / 16, (digits - 1) as nat).push(digit_char((value % 16) as int))
    }
}

/// `value` in base 10, without leading zeros.
pub open spec fn decimal_text(value: nat) -> Seq<char>
    decreases value,
{
    if value < 10 {
        seq![digit_char(value as int)]
    } else {
        decimal_text(value / 10).push(digit_char((value % 10) as int))
    }
}

/// A byte in base 16 with as many digits as it takes.
pub open spec fn short_hex_text(byte: u8) -> Seq<char> {
    if byte < 16 {
        hex_text(byte as nat, 1)
    } else {
        hex_text(byte as nat, 2)
    }
}

/// A list of bytes in base 16, in square brackets, with a comma and a space
/// between the bytes.
pub open spec fn bytes_text(bytes: Seq<u8>) -> Seq<char> {
    seq!['['] + bytes_inner_text(bytes) + seq![']']
}

/// What stands between the brackets of a list of bytes.
pub open spec fn bytes_inner_text(bytes: Seq<u8>) -> Seq<char>
    decreases bytes.len(),
{
    if bytes.len() == 0 {
        Seq::empty()
    } else if bytes.len() == 1 {
        short_hex_text(bytes[0])
    } else {
        bytes_inner_text(bytes.drop_last()) + seq![',', ' '] + short_hex_text(bytes.last())
    }
}

/// The digit for `n` as a string of its own.
pub fn digit(n: u8) -> (s: &'static str)
    requires
        n < 16,
    ensures
        s@ == seq![digit_char(n as int)],
{
    proof {
        reveal_strlit("0");
        reveal_strlit("1");
        reveal_strlit("2");
        reveal_strlit("3");
        reveal_strlit("4");
        reveal_strlit("5");
        reveal_strlit("6");
        reveal_strlit("7");
        reveal_strlit("8");
        reveal_strlit("9");
        reveal_strlit("a");
        reveal_strlit("b");
        reveal_strlit("c");
        reveal_strlit("d");
        reveal_strlit("e");
        reveal_strlit("f");
    }
    let s = match n {
        0 => "0",
        1 => "1",
        2 => "2",
        3 => "3",
        4 => "4",
        5 => "5",
        6 => "6",
        7 => "7",
        8 => "8",
        9 => "9",
        10 => "a",
        11 => "b",
        12 => "c",
        13 => "d",
        14 => "e",
        _ => "f",
    };
    assert(s@ =~= seq![digit_char(n as int)]);
    s
}

/// Appends `value` in base 16 with `digits` digits.
pub fn push_hex(out: &mut String, value: u32, digits: u8)
    ensures
        final(out)@ == old(out)@ + hex_text(value as nat, digits as nat),
    decreases digits,
{
    if digits == 0 {
        assert(out@ =~= out@ + hex_text(value as nat, 0));
    } else {
        push_hex(out, value / 16, digits - 1);
        out.append(digit((value % 16) as u8));
        assert(out@ =~= old(out)@ + hex_text(value as nat, digits as nat));
    }
}

/// Appends `value` in base 10.
pub fn push_decimal(out: &mut String, value: u32)
    ensures
        final(out)@ == old(out)@ + decimal_text(value as nat),
    decreases value,
{
    if value < 10 {
        out.append(digit(value as u8));
    } else {
        push_decimal(out, value / 10);
        out.append(digit((value % 10) as u8));
        assert(out@ =~= old(out)@ + decimal_text(value as nat));
    }
}

/// Appends a list of bytes in base 16.
pub fn push_bytes(out: &mut String, bytes: &[u8])
    ensures
        final(out)@ == old(out)@ + bytes_text(bytes@),
{
    let ghost start = out@;
    proof {
        reveal_strlit("[");
        reveal_strlit("]");
        reveal_strlit(", ");
    }
    out.append("[");
    let mut i: usize = 0;
    proof {
        assert(bytes@.take(0) =~= Seq::<u8>::empty());
        assert(out@ =~= start + seq!['['] + bytes_inner_text(bytes@.take(0)));
    }
    while i < bytes.len()
        invariant
            i <= bytes.len(),
            ", "@ == seq![',', ' '],
            out@ == start + seq!['['] + bytes_inner_text(bytes@.take(i as int)),
        decreases bytes.len() - i,
    {
        let ghost before = out@;
        proof {
            let taken = bytes@.take(i as int + 1);
            assert(taken.drop_last() =~= bytes@.take(i as int));
            assert(taken.last() == bytes@[i as int]);
            assert(taken[0] == bytes@[0]);
        }
        if i > 0 {
            out.append(", ");
        }
        let ghost middle = out@;
        let byte = bytes[i];
        if byte < 16 {
            push_hex(out, byte as u32, 1);
        } else {
            push_hex(out, byte as u32, 2);
        }
        proof {
            assert(out@ == middle + short_hex_text(byte));
            assert(out@ =~= start + seq!['['] + bytes_inner_text(bytes@.take(i as int + 1)));
        }
        i = i + 1;
    }
    proof {
        assert(bytes@.take(i as int) =~= bytes@);
    }
    out.append("]");
    assert(out@ =~= start + bytes_text(bytes@));
}

impl Address {
    /// The address as text: class, channel and address, each as two digits
    /// in base 16, with dots between them.
    pub open spec fn text(self) -> Seq<char> {
        hex_text(self.class as nat, 2) + seq!['.'] + hex_text(self.channel as nat, 2) + seq!['.']
            + hex_text(self.address as nat, 2)
    }

    pub fn to_string(&self) -> (s: String)
        ensures
            s@ == self.text(),
    {
        proof {
            reveal_strlit(".");
        }
        let mut out = String::new();
        push_hex(&mut out, self.class as u32, 2);
        out.append(".");
        push_hex(&mut out, self.channel as u32, 2);
        out.append(".");
        push_hex(&mut out, self.address as u32, 2);
        assert(out@ =~= self.text());
        out
    }

    /// The address that the eight bytes `bytes` spell, if they spell one:
    /// three groups of two, with a dot after the first and after the second.
    pub open spec fn of_text(bytes: Seq<u8>) -> Option<Address> {
        if bytes.len() != 8 || bytes[2] != 0x2e || bytes[5] != 0x2e {
            None
        } else {
            match (
                hex_group(bytes[0], bytes[1]),
                hex_group(bytes[3], bytes[4]),
                hex_group(bytes[6], bytes[7]),
            ) {
                (Some(class), Some(channel), Some(address)) => Some(
                    Address { class, channel, address },
                ),
                _ => None,
            }
        }
    }

    /// Reads an address from its text.
    pub fn from_str(s: &str) -> (r: Result<Address, InvalidAddress>)
        ensures
            r == match Address::of_text(s.spec_bytes()) {
                Some(address) => Ok::<Address, InvalidAddress>(address),
                None => Err::<Address, InvalidAddress>(InvalidAddress),
            },
    {
        let bytes = s.as_bytes();
        if bytes.len() != 8 {
            return Err(InvalidAddress);
        }
        if bytes[2] != 0x2e || bytes[5] != 0x2e {
            return Err(InvalidAddress);
        }
        let class = match parse_hex(bytes[0], bytes[1]) {
            Some(value) => value,
            None => {
                return Err(InvalidAddress);
            },
        };
        let channel = match parse_hex(bytes[3], bytes[4]) {
            Some(value) => value,
            None => {
                return Err(InvalidAddress);
            },
        };
        let address = match parse_hex(bytes[6], bytes[7]) {
            Some(value) => value,
            None => {
                return Err(InvalidAddress);
            },
        };
        Ok(Address { class, channel, address })
    }
}

/// The value of a digit in base 16, in either case.
pub open spec fn hex_value(byte: u8) -> Option<u8> {
    if 0x30 <= byte <= 0x39 {
        Some((byte - 0x30) as u8)
    } else if 0x61 <= byte <= 0x66 {
        Some((byte - 0x61 + 10) as u8)
    } else if 0x41 <= byte <= 0x46 {
        Some((byte - 0x41 + 10) as u8)
    } else {
        None
    }
}

/// The value of a group of two characters, which are two digits in base 16.
pub open spec fn hex_group(first: u8, second: u8) -> Option<u8> {
    match (hex_value(first), hex_value(second)) {
        (Some(high), Some(low)) => Some((high * 16 + low) as u8),
        _ => None,
    }
}

fn hex_digit_value(byte: u8) -> (value: Option<u8>)
    ensures
        value == hex_value(byte),
        value matches Some(v) ==> v < 16,
{
    if 0x30 <= byte && byte <= 0x39 {
        Some(byte - 0x30)
    } else if 0x61 <= byte && byte <= 0x66 {
        Some(byte - 0x61 + 10)
    } else if 0x41 <= byte && byte <= 0x46 {
        Some(byte - 0x41 + 10)
    } else {
        None
    }
}

fn parse_hex(first: u8, second: u8) -> (value: Option<u8>)
    ensures
        value == hex_group(first, second),
{
    let low = match hex_digit_value(second) {
        Some(low) => low,
        None => {
            return None;
        },
    };
    match hex_digit_value(first) {
        Some(high) => Some(high * 16 + low),
        None => None,
    }
}

/// The digit for a number below 16 is a character of one byte, and that
/// byte reads back as the number.
pub proof fn lemma_digit_reads_back(n: int)
    requires
        0 <= n < 16,
    ensures
        '\0' <= digit_char(n) <= '\u{7f}',
        hex_value(digit_char(n) as u8) == Some(n as u8),
{
}

/// Two digits in base 16 read back as the byte that they were written for.
pub proof fn lemma_hex_group_reads_back(byte: u8)
    ensures
        hex_text(byte as nat, 2) =~= seq![
            digit_char(byte as int / 16),
            digit_char(byte as int % 16),
        ],
        hex_group(digit_char(byte as int / 16) as u8, digit_char(byte as int % 16) as u8) == Some(
            byte,
        ),
{
    reveal_with_fuel(hex_text, 3);
    lemma_digit_reads_back(byte as int / 16);
    lemma_digit_reads_back(byte as int % 16);
}

/// The text of an address reads back as the address.
pub proof fn lemma_address_text_round_trip(address: Address)
    ensures
        Address::of_text(encode_utf8(address.text())) == Some(address),
{
    let text = address.text();
    lemma_hex_group_reads_back(address.class);
    lemma_hex_group_reads_back(address.channel);
    lemma_hex_group_reads_back(address.address);
    assert(text =~= seq![
        digit_char(address.class as int / 16),
        digit_char(address.class as int % 16),
        '.',
        digit_char(address.channel as int / 16),
        digit_char(address.channel as int % 16),
        '.',
        digit_char(address.address as int / 16),
        digit_char(address.address as int % 16),
    ]);
    assert(is_ascii_chars(text));
    is_ascii_chars_encode_utf8(text);
    let bytes = encode_utf8(text);
    assert(bytes.len() == 8);
    assert(bytes[0] == text[0] as u8);
    assert(bytes[1] == text[1] as u8);
    assert(bytes[2] == text[2] as u8);
    assert(bytes[3] == text[3] as u8);
    assert(bytes[4] == text[4] as u8);
    assert(bytes[5] == text[5] as u8);
    assert(bytes[6] == text[6] as u8);
    assert(bytes[7] == text[7] as u8);
}

impl MessageNumber {
    /// The id as text: four digits in base 16.
    pub open spec fn text(self) -> Seq<char> {
        hex_text(self.0 as nat, 4)
    }

    pub fn to_string(&self) -> (s: String)
        ensures
            s@ == self.text(),
    {
        let mut out = String::new();
        push_hex(&mut out, self.0 as u32, 4);
        assert(out@ =~= self.text());
        out
    }
}

impl DataType {
    /// The name of the data type.
    pub open spec fn spec_name(&self) -> Seq<char> {
        match self {
            DataType::Undefined => "Undefined"@,
            DataType::Read => "Read"@,
            DataType::Write => "Write"@,
            DataType::Request => "Request"@,
            DataType::Notification => "Notification"@,
            DataType::Response => "Response"@,
            DataType::Ack => "Ack"@,
            DataType::Nack => "Nack"@,
        }
    }

    pub fn name(&self) -> (name: &'static str)
        ensures
            name@ == self.spec_name(),
    {
        match self {
            DataType::Undefined => "Undefined",
            DataType::Read => "Read",
            DataType::Write => "Write",
            DataType::Request => "Request",
            DataType::Notification => "Notification",
            DataType::Response => "Response",
            DataType::Ack => "Ack",
            DataType::Nack => "Nack",
        }
    }
}

impl PacketType {
    /// The name of the packet type.
    pub open spec fn spec_name(&self) -> Seq<char> {
        match self {
            PacketType::StandBy => "StandBy"@,
            PacketType::Normal => "Normal"@,
            PacketType::Gathering => "Gathering"@,
            PacketType::Install => "Install"@,
            PacketType::Download => "Download"@,
        }
    }

    pub fn name(&self) -> (name: &'static str)
        ensures
            name@ == self.spec_name(),
    {
        match self {
            PacketType::StandBy => "StandBy",
            PacketType::Normal => "Normal",
            PacketType::Gathering => "Gathering",
            PacketType::Install => "Install",
            PacketType::Download => "Download",
        }
    }
}

/// Whether two strings hold the same text.
pub fn str_eq(a: &str, b: &str) -> (same: bool)
    ensures
        same == (a@ == b@),
{
    let x = a.as_bytes();
    let y = b.as_bytes();
    proof {
        encode_utf8_decode_utf8(a@);
        encode_utf8_decode_utf8(b@);
    }
    if x.len() != y.len() {
        return false;
    }
    let mut i: usize = 0;
    while i < x.len()
        invariant
            i <= x.len(),
            x@.len() == y@.len(),
            x@ == a.spec_bytes(),
            y@ == b.spec_bytes(),
            forall|j: int| 0 <= j < i ==> x@[j] == y@[j],
        decreases x.len() - i,
    {
        if x[i] != y[i] {
            return false;
        }
        i = i + 1;
    }
    assert(x@ =~= y@);
    true
}

/// A temperature of `decis` tenths of a degree as text: the degrees, a
/// point, the tenths, and the unit.
pub open spec fn celsius_text(decis: u16) -> Seq<char> {
    decimal_text((decis / 10) as nat) + "."@ + decimal_text((decis % 10) as nat) + " °C"@
}

fn celsius_string(decis: u16) -> (s: String)
    ensures
        s@ == celsius_text(decis),
{
    let mut out = String::new();
    push_decimal(&mut out, (decis / 10) as u32);
    out.append(".");
    push_decimal(&mut out, (decis % 10) as u32);
    out.append(" °C");
    assert(out@ =~= celsius_text(decis));
    out
}

impl Celsius {
    pub fn to_string(&self) -> (s: String)
        ensures
            s@ == celsius_text(self.0),
    {
        celsius_string(self.0)
    }
}

impl CelsiusLvar {
    pub fn to_string(&self) -> (s: String)
        ensures
            s@ == celsius_text(self.0),
    {
        celsius_string(self.0)
    }
}

impl core::str::FromStr for Address {
    type Err = InvalidAddress;

    /// Reads an address from its text, as [`Address::from_str`] does.
    fn from_str(s: &str) -> (r: Result<Self, Self::Err>)
        ensures
            r == match Address::of_text(s.spec_bytes()) {
                Some(address) => Ok::<Address, InvalidAddress>(address),
                None => Err::<Address, InvalidAddress>(InvalidAddress),
            },
    {
        Address::from_str(s)
    }
}

} // verus!
