//! The fixed-capacity vectors of `heapless` that the codec stores its data in.
//!
//! Verus does not look inside `heapless::Vec`. Each instantiation the codec
//! uses gets a name for the sequence it holds, and each method the codec calls
//! gets a small wrapper whose contract is stated over that name. The contracts
//! in this file are taken on trust from the source of `heapless`.

use vstd::prelude::*;
use crate::packet::Message;

verus! {

/// `heapless::Vec`, as a type whose values the verifier cannot look into.
#[verifier::external_type_specification]
#[verifier::external_body]
#[verifier::reject_recursive_types(T)]
pub struct ExHeaplessVec<T, const N: usize>(heapless::Vec<T, N>);

/// The payload buffer of the frame parser.
pub type FrameData = heapless::Vec<u8, 1024>;

/// The bytes that a frame buffer holds, in order.
pub uninterp spec fn frame_bytes(data: FrameData) -> Seq<u8>;

/// `heapless::Vec::new`: an empty buffer.
#[verifier::external_body]
pub(crate) fn frame_data_new() -> (data: FrameData)
    ensures
        frame_bytes(data) == Seq::<u8>::empty(),
{
    heapless::Vec::new()
}

/// `heapless::Vec::clear`: the buffer is empty afterwards.
#[verifier::external_body]
pub(crate) fn frame_data_clear(data: &mut FrameData)
    ensures
        frame_bytes(*final(data)) == Seq::<u8>::empty(),
{
    data.clear()
}

/// `heapless::Vec::push`: appends `byte` where the buffer holds fewer than
/// 1024 bytes, and otherwise leaves it as it is. Returns whether it appended.
#[verifier::external_body]
pub(crate) fn frame_data_push(data: &mut FrameData, byte: u8) -> (pushed: bool)
    ensures
        pushed <==> frame_bytes(*old(data)).len() < 1024,
        pushed ==> frame_bytes(*final(data)) == frame_bytes(*old(data)).push(byte),
        !pushed ==> frame_bytes(*final(data)) == frame_bytes(*old(data)),
{
    data.push(byte).is_ok()
}

/// `heapless::Vec::as_slice`: the bytes held, never more than the capacity.
#[verifier::external_body]
pub(crate) fn frame_data_slice(data: &FrameData) -> (bytes: &[u8])
    ensures
        bytes@ == frame_bytes(*data),
        bytes@.len() <= 1024,
{
    data.as_slice()
}

/// The messages of a packet.
pub type MessagesVec = heapless::Vec<Message, 255>;

/// The messages that a message list holds, in order.
pub uninterp spec fn message_seq(messages: MessagesVec) -> Seq<Message>;

/// `heapless::Vec::new`: an empty list.
#[verifier::external_body]
pub(crate) fn messages_new() -> (messages: MessagesVec)
    ensures
        message_seq(messages) == Seq::<Message>::empty(),
{
    heapless::Vec::new()
}

/// `heapless::Vec::push`: appends `message` where the list holds fewer than
/// 255 messages, and otherwise leaves it as it is. Returns whether it appended.
#[verifier::external_body]
pub(crate) fn messages_push(messages: &mut MessagesVec, message: Message) -> (pushed: bool)
    ensures
        pushed <==> message_seq(*old(messages)).len() < 255,
        pushed ==> message_seq(*final(messages)) == message_seq(*old(messages)).push(message),
        !pushed ==> message_seq(*final(messages)) == message_seq(*old(messages)),
{
    messages.push(message).is_ok()
}

/// `heapless::Vec::from_slice`: a list of the messages of `slice`, in order,
/// where there are at most 255 of them, and otherwise nothing. It clones
/// each message, and the clone of a message is a copy.
#[verifier::external_body]
pub(crate) fn messages_from_slice(slice: &[Message]) -> (r: Option<MessagesVec>)
    ensures
        r is Some <==> slice@.len() <= 255,
        r matches Some(messages) ==> message_seq(messages) == slice@,
{
    heapless::Vec::from_slice(slice).ok()
}

/// `heapless::Vec::as_slice`: the messages held, never more than the capacity.
#[verifier::external_body]
pub(crate) fn messages_slice(messages: &MessagesVec) -> (slice: &[Message])
    ensures
        slice@ == message_seq(*messages),
        slice@.len() <= 255,
{
    messages.as_slice()
}

/// The bytes of a structure.
pub type StructureData = heapless::Vec<u8, 256>;

/// The bytes that a structure buffer holds, in order.
pub uninterp spec fn structure_bytes(data: StructureData) -> Seq<u8>;

/// `heapless::Vec::from_slice`: a buffer of the bytes of `slice`, in order,
/// where there are at most 256 of them, and otherwise nothing.
#[verifier::external_body]
pub(crate) fn structure_from_slice(slice: &[u8]) -> (r: Option<StructureData>)
    ensures
        r is Some <==> slice@.len() <= 256,
        r matches Some(data) ==> structure_bytes(data) == slice@,
{
    heapless::Vec::from_slice(slice).ok()
}

/// `heapless::Vec::as_slice`: the bytes held, never more than the capacity.
#[verifier::external_body]
pub(crate) fn structure_slice(data: &StructureData) -> (bytes: &[u8])
    ensures
        bytes@ == structure_bytes(*data),
        bytes@.len() <= 256,
{
    data.as_slice()
}

} // verus!
