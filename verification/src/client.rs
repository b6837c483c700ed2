//! The decisions of a request/reply client: which packet to send, which
//! reply belongs to which request, when to send again and when to give up.
//!
//! The client numbers its requests with a counter that wraps at 256. A reply
//! carries the number of its request, and nothing else ties the two together.

use std::collections::HashMap;
use vstd::prelude::*;
use vstd::pervasive::unreached;
use vstd::std_specs::hash::group_hash_axioms;
use crate::bounded::{messages_from_slice, messages_slice};

use crate::client::message::MessageSet;
use crate::packet::{
    Address, Data, DataType, DataView, Message, MessageId, MessageKind, Packet, PacketInfo,
    PacketInfoView, PacketType, PacketView, Value,
};

pub mod message;
pub mod watch;

verus! {

broadcast use group_hash_axioms;

/// How many seconds the client waits for a reply before it sends again.
pub const RETRY_DELAY_SECS: u64 = 1;

/// The highest retry count that a packet can carry.
pub const MAX_RETRY_COUNT: u8 = 3;

/// The address that a client sends from.
pub open spec fn spec_local_address() -> Address {
    Address { class: 0x80, channel: 0x10, address: 0x10 }
}

#[verifier::when_used_as_spec(spec_local_address)]
pub fn local_address() -> (address: Address)
    ensures
        address == spec_local_address(),
{
    Address { class: 0x80, channel: 0x10, address: 0x10 }
}

#[derive(Debug)]
pub enum Error {
    /// The last send that the retry count allows went unanswered too.
    MaxRetriesExceeded,
    /// The receiving side of the transport is gone.
    LostTransport,
    /// The peer answered with a negative acknowledgement.
    Nack(Box<Packet>),
    /// The peer answered with another kind of packet than the request calls
    /// for.
    UnexpectedReply { actual: DataType, expected: DataType },
    /// A reply holds no message of the id that was asked for.
    MissingMessage(MessageId),
}

/// The value that stands in a read request in place of the value asked for.
pub open spec fn spec_null_value(number: MessageId) -> Option<Value> {
    match number.kind() {
        MessageKind::Enum => Some(Value::Enum(0xff)),
        MessageKind::Variable => Some(Value::Variable(0xffff)),
        MessageKind::LongVariable => Some(Value::LongVariable(0xffff_ffff)),
        MessageKind::Structure => None,
    }
}

/// The message that asks for the value of `number`; none for a structure id.
pub open spec fn spec_query(number: MessageId) -> Option<Message> {
    match spec_null_value(number) {
        Some(value) => Some(Message { number, value }),
        None => None,
    }
}

/// The messages of a read request for `attrs`: one for each id that is no
/// structure id, in the order of `attrs`.
pub open spec fn spec_queries(attrs: Seq<MessageId>) -> Seq<Message>
    decreases attrs.len(),
{
    if attrs.len() == 0 {
        Seq::empty()
    } else {
        match spec_query(attrs.last()) {
            Some(message) => spec_queries(attrs.drop_last()).push(message),
            None => spec_queries(attrs.drop_last()),
        }
    }
}

#[verifier::when_used_as_spec(spec_null_value)]
pub fn null_value(number: MessageId) -> (value: Option<Value>)
    ensures
        value == spec_null_value(number),
{
    match number.kind() {
        MessageKind::Enum => Some(Value::Enum(u8::MAX)),
        MessageKind::Variable => Some(Value::Variable(u16::MAX)),
        MessageKind::LongVariable => Some(Value::LongVariable(u32::MAX)),
        MessageKind::Structure => None,
    }
}

#[verifier::when_used_as_spec(spec_query)]
pub fn query(number: MessageId) -> (message: Option<Message>)
    ensures
        message == spec_query(number),
{
    match null_value(number) {
        Some(value) => Some(Message { number, value }),
        None => None,
    }
}

/// The messages of a read request for `attrs`.
pub fn queries(attrs: &[MessageId]) -> (messages: Vec<Message>)
    ensures
        messages@ == spec_queries(attrs@),
{
    let mut messages: Vec<Message> = Vec::new();
    let mut i: usize = 0;
    proof {
        assert(attrs@.take(0) =~= Seq::<MessageId>::empty());
    }
    while i < attrs.len()
        invariant
            i <= attrs.len(),
            messages@ == spec_queries(attrs@.take(i as int)),
        decreases attrs.len() - i,
    {
        proof {
            let taken = attrs@.take(i as int + 1);
            assert(taken.drop_last() =~= attrs@.take(i as int));
            assert(taken.last() == attrs@[i as int]);
        }
        match query(attrs[i]) {
            Some(message) => {
                messages.push(message);
            },
            None => {},
        }
        i = i + 1;
    }
    proof {
        assert(attrs@.take(i as int) =~= attrs@);
    }
    messages
}

/// The packet that a client at `source` sends first for a request.
pub open spec fn request_view(
    source: Address,
    destination: Address,
    data_type: DataType,
    packet_number: u8,
    messages: Seq<Message>,
) -> PacketView {
    PacketView {
        source,
        destination,
        packet_info: PacketInfoView::initial(),
        packet_type: PacketType::Normal,
        data_type,
        packet_number,
        data: DataView::Messages(messages),
    }
}

/// Builds the packet for a request. A packet holds at most 255 messages.
pub fn request_packet(
    source: Address,
    destination: Address,
    data_type: DataType,
    packet_number: u8,
    messages: &[Message],
) -> (packet: Packet)
    requires
        messages@.len() <= 255,
    ensures
        packet@ == request_view(source, destination, data_type, packet_number, messages@),
{
    let messages = match messages_from_slice(messages) {
        Some(messages) => messages,
        None => unreached(),
    };
    Packet {
        source,
        destination,
        packet_info: PacketInfo::default(),
        packet_type: PacketType::Normal,
        packet_number,
        data_type,
        data: Data::Messages(messages),
    }
}

/// What is made of a reply to a request that calls for a reply of type
/// `expected`: a negative acknowledgement is an error of its own, and so is
/// any other type than the one called for.
pub fn expect_reply(reply: Box<Packet>, data_type: DataType) -> (r: Result<Box<Packet>, Error>)
    ensures
        match r {
            Ok(packet) => reply.data_type == data_type && data_type != DataType::Nack && packet
                == reply,
            Err(Error::Nack(packet)) => reply.data_type == DataType::Nack && packet == reply,
            Err(Error::UnexpectedReply { actual, expected }) => reply.data_type != DataType::Nack
                && reply.data_type != data_type && actual == reply.data_type && expected
                == data_type,
            Err(_) => false,
        },
{
    if reply.data_type == DataType::Nack {
        return Err(Error::Nack(reply));
    }
    if reply.data_type != data_type {
        return Err(Error::UnexpectedReply { actual: reply.data_type, expected: data_type });
    }
    return Ok(reply);
}

/// The messages that a packet holds; none where it holds a structure.
pub open spec fn messages_of(data: DataView) -> Seq<Message> {
    match data {
        DataView::Messages(messages) => messages,
        DataView::Structure { .. } => Seq::empty(),
    }
}

/// What a read request gets from its reply: the messages of a response, and
/// an error for any other reply.
pub fn read_reply(reply: Box<Packet>) -> (r: Result<MessageSet, Error>)
    ensures
        match r {
            Ok(messages) => reply.data_type == DataType::Response && messages@ == messages_of(
                reply@.data,
            ),
            Err(Error::Nack(packet)) => reply.data_type == DataType::Nack && packet == reply,
            Err(Error::UnexpectedReply { actual, expected }) => reply.data_type != DataType::Nack
                && reply.data_type != DataType::Response && actual == reply.data_type && expected
                == DataType::Response,
            Err(_) => false,
        },
{
    let reply = expect_reply(reply, DataType::Response)?;
    let messages = match &reply.data {
        Data::Messages(msgs) => MessageSet::new(messages_slice(msgs)),
        Data::Structure(_) => MessageSet::from_vec(Vec::new()),
    };
    Ok(messages)
}

/// What a request gets from its reply: nothing for an acknowledgement, and
/// an error for any other reply.
pub fn request_reply(reply: Box<Packet>) -> (r: Result<(), Error>)
    ensures
        match r {
            Ok(()) => reply.data_type == DataType::Ack,
            Err(Error::Nack(packet)) => reply.data_type == DataType::Nack && packet == reply,
            Err(Error::UnexpectedReply { actual, expected }) => reply.data_type != DataType::Nack
                && reply.data_type != DataType::Ack && actual == reply.data_type && expected
                == DataType::Ack,
            Err(_) => false,
        },
{
    expect_reply(reply, DataType::Ack)?;
    Ok(())
}

/// How one attempt to send a request ended.
#[derive(Debug)]
pub enum Attempt {
    /// The reply arrived in time.
    Reply(Box<Packet>),
    /// No reply arrived within the retry delay.
    Timeout,
    /// The reply can no longer arrive: the receiving side is gone.
    Lost,
}

/// What the sender does after an attempt.
#[derive(Debug)]
pub enum Retry {
    /// The exchange is over, with this result.
    Done(Result<Box<Packet>, Error>),
    /// The packet, which now carries the next retry count, is sent again.
    Resend,
}

/// The packet info after a timeout: the next retry count, or nothing where
/// the retry count has reached its maximum.
pub open spec fn after_timeout(info: PacketInfoView) -> Option<PacketInfoView> {
    if info.retry_count >= MAX_RETRY_COUNT {
        None
    } else {
        Some(PacketInfoView { retry_count: (info.retry_count + 1) as u8, ..info })
    }
}

/// The packet info after `n` timeouts in a row, or nothing where the sender
/// has given up by then.
pub open spec fn after_timeouts(info: PacketInfoView, n: nat) -> Option<PacketInfoView>
    decreases n,
{
    if n == 0 {
        Some(info)
    } else {
        match after_timeouts(info, (n - 1) as nat) {
            Some(before) => after_timeout(before),
            None => None,
        }
    }
}

/// A packet is sent again after a timeout as long as its retry count can
/// still grow: after `n` timeouts it carries a retry count that is `n`
/// higher, and the timeout that would take the count past 3 ends the
/// exchange.
pub proof fn lemma_retry_budget(info: PacketInfoView, n: nat)
    requires
        info.retry_count <= MAX_RETRY_COUNT,
    ensures
        after_timeouts(info, n) is Some <==> info.retry_count + n <= MAX_RETRY_COUNT,
        after_timeouts(info, n) matches Some(then) ==> then == (PacketInfoView {
            retry_count: (info.retry_count + n) as u8,
            ..info
        }),
    decreases n,
{
    if n > 0 {
        lemma_retry_budget(info, (n - 1) as nat);
    }
}

/// A packet that is first sent with retry count 0 is sent four times: the
/// fourth timeout in a row ends the exchange.
pub proof fn lemma_fourth_timeout_fails(info: PacketInfoView)
    requires
        info.retry_count == 0,
    ensures
        after_timeouts(info, 1) is Some,
        after_timeouts(info, 2) is Some,
        after_timeouts(info, 3) is Some,
        after_timeouts(info, 4) is None,
{
    lemma_retry_budget(info, 1);
    lemma_retry_budget(info, 2);
    lemma_retry_budget(info, 3);
    lemma_retry_budget(info, 4);
}

/// Decides what follows an attempt to send `packet`. After a timeout the
/// packet is sent again with the next retry count and the same packet number,
/// unless its retry count is 3 already.
pub fn after_attempt(packet: &mut Packet, attempt: Attempt) -> (retry: Retry)
    ensures
        match attempt {
            Attempt::Reply(reply) => final(packet)@ == old(packet)@ && (retry matches Retry::Done(
                Ok(packet),
            ) && packet == reply),
            Attempt::Lost => final(packet)@ == old(packet)@ && retry matches Retry::Done(
                Err(Error::LostTransport),
            ),
            Attempt::Timeout => match after_timeout(old(packet)@.packet_info) {
                Some(info) => retry is Resend && final(packet)@ == (PacketView {
                    packet_info: info,
                    ..old(packet)@
                }),
                None => final(packet)@ == old(packet)@ && retry matches Retry::Done(
                    Err(Error::MaxRetriesExceeded),
                ),
            },
        },
{
    match attempt {
        Attempt::Reply(reply) => Retry::Done(Ok(reply)),
        Attempt::Lost => Retry::Done(Err(Error::LostTransport)),
        Attempt::Timeout => {
            // check if we've already exhausted max retries:
            let retry_count = packet.packet_info.retry_count();
            if retry_count == MAX_RETRY_COUNT {
                return Retry::Done(Err(Error::MaxRetriesExceeded));
            }
            // otherwise go around and try sending it again
            let mut info = packet.packet_info;
            info.set_retry_count(retry_count + 1);
            packet.packet_info = info;
            Retry::Resend
        },
    }
}

/// What the receiving side does with a packet.
#[derive(Debug, Clone, Copy, PartialEq, Eq, Structural)]
pub enum Incoming {
    /// The packet is none of the client's business.
    Ignore,
    /// The packet is a notification: its messages go to those who watch its
    /// source.
    Notification,
    /// The packet may be the reply to a request of this client.
    Reply,
}

/// What the receiving side of a client at `local` does with `packet`. Only
/// packets of type `Normal` that hold messages count. Of these, a
/// notification is delivered whatever its destination, and an
/// acknowledgement, negative acknowledgement or response is a reply where it
/// is addressed to the client.
pub open spec fn incoming(packet: PacketView, local: Address) -> Incoming {
    if packet.packet_type != PacketType::Normal || !(packet.data is Messages) {
        Incoming::Ignore
    } else if packet.data_type == DataType::Notification {
        Incoming::Notification
    } else if (packet.data_type == DataType::Ack || packet.data_type == DataType::Nack
        || packet.data_type == DataType::Response) && packet.destination == local {
        Incoming::Reply
    } else {
        Incoming::Ignore
    }
}

pub fn classify(packet: &Packet, local: Address) -> (kind: Incoming)
    ensures
        kind == incoming(packet@, local),
{
    if packet.packet_type != PacketType::Normal {
        return Incoming::Ignore;
    }
    match &packet.data {
        Data::Messages(_) => {},
        Data::Structure(_) => {
            return Incoming::Ignore;
        },
    }
    match packet.data_type {
        DataType::Notification => Incoming::Notification,
        DataType::Ack | DataType::Nack | DataType::Response => {
            // ignore reply-type packets if not addressed directly to us
            if packet.destination != local {
                Incoming::Ignore
            } else {
                Incoming::Reply
            }
        },
        _ => Incoming::Ignore,
    }
}

/// What became of a packet that was received.
#[derive(Debug)]
pub enum Delivery<S> {
    /// Nothing is done with the packet: it is none of the client's business,
    /// or it is a reply that nobody waits for any more.
    Dropped,
    /// The packet is a notification for those who watch its source.
    Notification(Box<Packet>),
    /// The packet is the reply that the holder of `slot` waits for.
    Reply { slot: S, reply: Box<Packet> },
}

/// The requests of a client that are under way. Each waits under its packet
/// number with a slot, through which its reply is handed over.
pub struct Requests<S> {
    address: Address,
    packet_number: u8,
    waiting: HashMap<u8, S>,
}

impl<S> Requests<S> {
    /// The address that the client sends from.
    pub closed spec fn address(&self) -> Address {
        self.address
    }

    /// The number that the next request gets.
    pub closed spec fn next_number(&self) -> u8 {
        self.packet_number
    }

    /// The waiting table: for each packet number under which a request
    /// waits, its slot.
    pub closed spec fn waiting(&self) -> Map<u8, S> {
        self.waiting@
    }

    pub fn new(address: Address) -> (requests: Self)
        ensures
            requests.address() == address,
            requests.next_number() == 0,
            requests.waiting() == Map::<u8, S>::empty(),
    {
        Requests { address, packet_number: 0, waiting: HashMap::new() }
    }

    /// Hands out the number for the next request. The numbers count up and
    /// wrap around after 255.
    pub fn next_packet_number(&mut self) -> (number: u8)
        ensures
            number == old(self).next_number(),
            final(self).next_number() == if number == 255 {
                0u8
            } else {
                (number + 1) as u8
            },
            final(self).address() == old(self).address(),
            final(self).waiting() == old(self).waiting(),
    {
        let number = self.packet_number;
        self.packet_number = if number == 255 {
            0
        } else {
            number + 1
        };
        number
    }

    /// Starts a request: it gets the next packet number, and `slot` waits
    /// under that number from now on. Returns the packet to send, and the
    /// slot that waited under the number before, if there was one.
    pub fn begin(
        &mut self,
        destination: Address,
        data_type: DataType,
        messages: &[Message],
        slot: S,
    ) -> (r: (Packet, Option<S>))
        requires
            messages@.len() <= 255,
        ensures
            r.0@ == request_view(
                old(self).address(),
                destination,
                data_type,
                old(self).next_number(),
                messages@,
            ),
            final(self).waiting() == old(self).waiting().insert(old(self).next_number(), slot),
            r.1 == if old(self).waiting().contains_key(old(self).next_number()) {
                Some(old(self).waiting()[old(self).next_number()])
            } else {
                None
            },
            final(self).address() == old(self).address(),
            final(self).next_number() == if old(self).next_number() == 255 {
                0u8
            } else {
                (old(self).next_number() + 1) as u8
            },
    {
        // acquire packet number
        let packet_number = self.next_packet_number();
        // build packet
        let packet = request_packet(self.address, destination, data_type, packet_number, messages);
        let before = self.waiting.insert(packet_number, slot);
        (packet, before)
    }

    /// Ends the wait under `packet_number`, whatever came of the request.
    /// Returns the slot that waited there, if one did.
    pub fn finish(&mut self, packet_number: u8) -> (slot: Option<S>)
        ensures
            final(self).waiting() == old(self).waiting().remove(packet_number),
            slot == if old(self).waiting().contains_key(packet_number) {
                Some(old(self).waiting()[packet_number])
            } else {
                None
            },
            final(self).address() == old(self).address(),
            final(self).next_number() == old(self).next_number(),
    {
        self.waiting.remove(&packet_number)
    }

    /// Takes in a packet that was received. A reply goes to the slot that
    /// waits under its packet number, and that wait is over; a reply under a
    /// number that nobody waits under is dropped.
    pub fn on_packet(&mut self, packet: Box<Packet>) -> (delivery: Delivery<S>)
        ensures
            final(self).address() == old(self).address(),
            final(self).next_number() == old(self).next_number(),
            match incoming(packet@, old(self).address()) {
                Incoming::Ignore => delivery is Dropped
                    && final(self).waiting() == old(self).waiting(),
                Incoming::Notification => final(self).waiting() == old(self).waiting() && (
                delivery matches Delivery::Notification(notification) && notification == packet),
                Incoming::Reply => final(self).waiting() == old(self).waiting().remove(
                    packet.packet_number,
                ) && if old(self).waiting().contains_key(packet.packet_number) {
                    delivery matches Delivery::Reply { slot, reply } && reply == packet && slot
                        == old(self).waiting()[packet.packet_number]
                } else {
                    delivery is Dropped
                },
            },
    {
        match classify(&packet, self.address) {
            Incoming::Ignore => Delivery::Dropped,
            Incoming::Notification => Delivery::Notification(packet),
            Incoming::Reply => {
                // look up waiting task (if any) by packet number
                match self.waiting.remove(&packet.packet_number) {
                    Some(slot) => Delivery::Reply { slot, reply: packet },
                    None => Delivery::Dropped,
                }
            },
        }
    }
}

/// The waiting table holds at most one slot for each packet number: a slot
/// that is put under a number takes the place of the slot that waited there,
/// and once the wait under a number has ended no slot is left under it.
pub proof fn lemma_one_slot_per_number<S>(waiting: Map<u8, S>, number: u8, first: S, second: S)
    ensures
        waiting.insert(number, first).insert(number, second) == waiting.insert(number, second),
        !waiting.insert(number, first).insert(number, second).remove(number).contains_key(number),
{
    assert(waiting.insert(number, first).insert(number, second) =~= waiting.insert(number, second));
}

} // verus!
