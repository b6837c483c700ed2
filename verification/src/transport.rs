//! Packets on a byte stream: frames in one direction are cut out of the
//! bytes as they arrive, and in the other a packet becomes the bytes of one
//! frame.

use vstd::prelude::*;
use crate::bounded::frame_data_slice;
use crate::frame::{
    FeedResult, FrameError, FrameParser, MAX_FRAME_SIZE, ParserModel, State, run, run_results,
    step_result,
};
use crate::framing::{frame_of, lemma_frame_round_trip, quiet};
use crate::packet::{Packet, PacketError, PacketView, SerializePacketError};
use crate::parse::parse_packet;
use crate::round_trip::lemma_packet_round_trip;
use crate::serialize::{payload_bytes, serialize_frame_spec};

verus! {

/// `bytes::BytesMut`, as a type whose values the verifier cannot look into.
#[verifier::external_type_specification]
#[verifier::external_body]
pub struct ExBytesMut(bytes::BytesMut);

/// `bytes::Bytes`, as a type whose values the verifier cannot look into.
#[verifier::external_type_specification]
#[verifier::external_body]
pub struct ExBytes(bytes::Bytes);

/// The bytes that a buffer under construction holds, in order.
pub uninterp spec fn buffer_bytes(buffer: bytes::BytesMut) -> Seq<u8>;

/// The bytes that a finished buffer holds, in order.
pub uninterp spec fn shared_bytes(buffer: bytes::Bytes) -> Seq<u8>;

/// `BytesMut::zeroed`: a buffer of `len` zero bytes.
#[verifier::external_body]
fn buffer_zeroed(len: usize) -> (buffer: bytes::BytesMut)
    ensures
        buffer_bytes(buffer) == Seq::new(len as nat, |i: int| 0u8),
{
    bytes::BytesMut::zeroed(len)
}

/// `BytesMut::as_mut` for `[u8]`: the bytes of the buffer, to be written in
/// place. The buffer keeps its length.
#[verifier::external_body]
fn buffer_slice(buffer: &mut bytes::BytesMut) -> (slice: &mut [u8])
    ensures
        slice@ == buffer_bytes(*old(buffer)),
        buffer_bytes(*final(buffer)) == final(slice)@,
{
    buffer.as_mut()
}

/// `BytesMut::truncate`: keeps the first `len` bytes; where the buffer holds
/// no more than `len` bytes it is left as it is.
#[verifier::external_body]
fn buffer_truncate(buffer: &mut bytes::BytesMut, len: usize)
    ensures
        buffer_bytes(*final(buffer)) == if len <= buffer_bytes(*old(buffer)).len() {
            buffer_bytes(*old(buffer)).take(len as int)
        } else {
            buffer_bytes(*old(buffer))
        },
{
    buffer.truncate(len)
}

/// `BytesMut::freeze`: the same bytes, no longer to be written.
#[verifier::external_body]
fn buffer_freeze(buffer: bytes::BytesMut) -> (shared: bytes::Bytes)
    ensures
        shared_bytes(shared) == buffer_bytes(buffer),
{
    buffer.freeze()
}

/// What serializing a frame gave, held against what it should give.
pub open spec fn framed_as(
    r: Result<bytes::Bytes, SerializePacketError>,
    expected: Result<Seq<u8>, SerializePacketError>,
) -> bool {
    match r {
        Ok(frame) => expected == Ok::<Seq<u8>, SerializePacketError>(shared_bytes(frame)),
        Err(err) => expected == Err::<Seq<u8>, SerializePacketError>(err),
    }
}

/// The frame of `packet`, where it takes no more than `MAX_FRAME_SIZE` bytes.
pub fn serialize_frame(packet: &Packet) -> (r: Result<bytes::Bytes, SerializePacketError>)
    ensures
        framed_as(r, serialize_frame_spec(packet@, MAX_FRAME_SIZE as nat)),
{
    let mut bytes = buffer_zeroed(MAX_FRAME_SIZE);
    let n = match packet.serialize_frame(buffer_slice(&mut bytes)) {
        Ok(n) => n,
        Err(err) => {
            return Err(err);
        },
    };
    buffer_truncate(&mut bytes, n);
    Ok(buffer_freeze(bytes))
}

/// Why no packet could be made of what was received.
#[derive(Debug, Clone, Copy, PartialEq, Eq, Structural)]
pub enum ReadPacketError {
    Frame(FrameError),
    Packet(PacketError),
}

/// What a byte stream gave at one place.
#[derive(Debug)]
pub enum Received {
    /// A frame arrived whole and holds this packet.
    Packet(Packet),
    /// A frame was broken, or what it holds is no packet. The stream goes on.
    Failed(ReadPacketError),
}

/// What a byte stream gave at one place, as a value.
pub enum ReceivedView {
    Packet(PacketView),
    Failed(ReadPacketError),
}

impl Received {
    pub open spec fn view(&self) -> ReceivedView {
        match self {
            Received::Packet(packet) => ReceivedView::Packet(packet@),
            Received::Failed(err) => ReceivedView::Failed(*err),
        }
    }
}

/// What a whole frame payload is received as.
pub open spec fn receive_payload(payload: Seq<u8>) -> ReceivedView {
    match parse_packet(payload) {
        Ok(packet) => ReceivedView::Packet(packet),
        Err(err) => ReceivedView::Failed(ReadPacketError::Packet(err)),
    }
}

/// What is received when the frame parser reports `result`: nothing while a
/// frame is under way, and else what the frame or its error gives.
pub open spec fn receive_result(result: FeedResult) -> Seq<ReceivedView> {
    match result {
        Ok(None) => Seq::empty(),
        Ok(Some(payload)) => seq![receive_payload(payload)],
        Err(err) => seq![ReceivedView::Failed(ReadPacketError::Frame(err))],
    }
}

/// All that is received when a parser that stands at `m` is fed `bytes`,
/// in the order of arrival.
pub open spec fn receive_all(m: ParserModel, bytes: Seq<u8>) -> Seq<ReceivedView>
    decreases bytes.len(),
{
    if bytes.len() == 0 {
        Seq::empty()
    } else {
        receive_all(m, bytes.drop_last()) + receive_result(
            step_result(run(m, bytes.drop_last()), bytes.last()),
        )
    }
}

/// Bytes on which the frame parser reports nothing give nothing.
pub proof fn lemma_quiet_receives_nothing(m: ParserModel, bytes: Seq<u8>)
    requires
        run_results(m, bytes) =~= quiet(bytes.len()),
    ensures
        receive_all(m, bytes) =~= Seq::<ReceivedView>::empty(),
    decreases bytes.len(),
{
    if bytes.len() > 0 {
        let before = bytes.drop_last();
        assert(run_results(m, before) =~= run_results(m, bytes).drop_last());
        assert(run_results(m, bytes).last() == quiet(bytes.len())[bytes.len() - 1]);
        lemma_quiet_receives_nothing(m, before);
    }
}

/// What one side sends, the other receives: the frame written for a packet
/// whose reserved bits are clear, whose values go with their ids and whose
/// payload fits a frame, is received as that packet and nothing else.
pub proof fn lemma_sent_is_received(m: ParserModel, packet: PacketView)
    requires
        m.state == State::Start,
        packet.wf(),
        packet.data.kinds_match(),
        packet.packet_info.reserved == 0,
        payload_bytes(packet).len() <= MAX_FRAME_SIZE,
    ensures
        receive_all(m, frame_of(payload_bytes(packet))) =~= seq![ReceivedView::Packet(packet)],
        run(m, frame_of(payload_bytes(packet))).state == State::Start,
{
    let payload = payload_bytes(packet);
    let frame = frame_of(payload);
    lemma_frame_round_trip(m, payload);
    lemma_packet_round_trip(packet);
    let before = frame.drop_last();
    assert(run_results(m, before) =~= run_results(m, frame).drop_last());
    assert(run_results(m, before) =~= quiet(before.len()));
    lemma_quiet_receives_nothing(m, before);
    assert(run_results(m, frame).last() == step_result(run(m, before), frame.last()));
}

/// The values of a list of received items.
pub open spec fn received_views(items: Seq<Received>) -> Seq<ReceivedView> {
    items.map_values(|item: Received| item@)
}

/// Makes what is received of a frame payload.
pub fn receive_frame(payload: &[u8]) -> (item: Received)
    ensures
        item@ == receive_payload(payload@),
{
    match Packet::parse(payload) {
        Ok(packet) => Received::Packet(packet),
        Err(err) => Received::Failed(ReadPacketError::Packet(err)),
    }
}

/// The receiving end of a byte stream: bytes go in as they arrive, packets
/// and errors come out.
pub struct PacketStream {
    parser: FrameParser,
}

impl PacketStream {
    /// Where the frame parser stands.
    pub closed spec fn view(&self) -> ParserModel {
        self.parser@
    }

    pub closed spec fn wf(&self) -> bool {
        self.parser.wf()
    }

    pub fn new() -> (stream: Self)
        ensures
            stream.wf(),
            stream@ == ParserModel::fresh(),
    {
        PacketStream { parser: FrameParser::new() }
    }

    /// Takes in the bytes that arrived and returns what they completed, in
    /// the order of arrival. A frame that is not complete yet is kept for the
    /// next call.
    pub fn feed(&mut self, data: &[u8]) -> (items: Vec<Received>)
        requires
            old(self).wf(),
        ensures
            final(self).wf(),
            final(self)@ == run(old(self)@, data@),
            received_views(items@) == receive_all(old(self)@, data@),
    {
        let mut items: Vec<Received> = Vec::new();
        let mut i: usize = 0;
        proof {
            assert(data@.take(0) =~= Seq::<u8>::empty());
            assert(received_views(items@) =~= Seq::<ReceivedView>::empty());
        }
        while i < data.len()
            invariant
                i <= data.len(),
                self.wf(),
                self@ == run(old(self)@, data@.take(i as int)),
                received_views(items@) == receive_all(old(self)@, data@.take(i as int)),
            decreases data.len() - i,
        {
            let ghost before = items@;
            proof {
                let taken = data@.take(i as int + 1);
                assert(taken.drop_last() =~= data@.take(i as int));
                assert(taken.last() == data@[i as int]);
            }
            match self.parser.feed(data[i]) {
                Ok(None) => {
                    let ghost nothing = Seq::<ReceivedView>::empty();
                    assert(received_views(items@) + nothing =~= received_views(items@));
                },
                Ok(Some(frame)) => {
                    let item = receive_frame(frame_data_slice(frame));
                    items.push(item);
                    assert(received_views(items@) =~= received_views(before) + seq![item@]);
                },
                Err(err) => {
                    let item = Received::Failed(ReadPacketError::Frame(err));
                    items.push(item);
                    assert(received_views(items@) =~= received_views(before) + seq![item@]);
                },
            }
            i = i + 1;
        }
        proof {
            assert(data@.take(i as int) =~= data@);
        }
        items
    }
}

} // verus!
