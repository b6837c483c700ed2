//! The layout of a whole frame, and what the frame parser makes of one.

use vstd::prelude::*;
use crate::frame::{
    FRAME_END, FRAME_START, MAX_FRAME_SIZE, FeedResult, FrameError, ParserModel, State, crc16_spec,
    data_state, run, run_results,
};
use crate::wire::{be16, be16_bytes};

verus! {

/// The bytes that a sender puts before the start byte.
pub open spec fn preamble() -> Seq<u8> {
    seq![0xfdu8, 0xf8u8, 0xefu8, 0x7cu8]
}

/// Start byte and size field of a frame with `len` bytes of payload.
pub open spec fn frame_head(len: nat) -> Seq<u8> {
    seq![FRAME_START] + be16_bytes((len + 4) as u16)
}

/// CRC field and end byte of a frame that declares the CRC `crc`.
pub open spec fn frame_tail(crc: u16) -> Seq<u8> {
    be16_bytes(crc) + seq![FRAME_END]
}

/// A frame from its start byte to its end byte, with `crc` in its CRC field.
pub open spec fn frame_body(payload: Seq<u8>, crc: u16) -> Seq<u8> {
    frame_head(payload.len()) + payload + frame_tail(crc)
}

/// The frame that carries `payload`, as it is written: preamble, start byte,
/// size, payload, CRC of the payload, end byte.
pub open spec fn frame_of(payload: Seq<u8>) -> Seq<u8> {
    preamble() + frame_body(payload, crc16_spec(payload))
}

/// `n` bytes on which the parser reported nothing.
pub open spec fn quiet(n: nat) -> Seq<FeedResult> {
    Seq::new(n, |i: int| Ok(None))
}

/// Feeding `a` and then `b` is feeding `a + b`.
pub proof fn lemma_run_concat(m: ParserModel, a: Seq<u8>, b: Seq<u8>)
    ensures
        run(m, a + b) == run(run(m, a), b),
        run_results(m, a + b) =~= run_results(m, a) + run_results(run(m, a), b),
    decreases b.len(),
{
    if b.len() == 0 {
        assert(a + b =~= a);
    } else {
        assert((a + b).drop_last() =~= a + b.drop_last());
        assert((a + b).last() == b.last());
        lemma_run_concat(m, a, b.drop_last());
    }
}

/// A parser that waits for a start byte passes over bytes that are not one.
pub proof fn lemma_run_hunt(m: ParserModel, bytes: Seq<u8>)
    requires
        m.state == State::Start,
        forall|i: int| 0 <= i < bytes.len() ==> bytes[i] != FRAME_START,
    ensures
        run(m, bytes) == m,
        run_results(m, bytes) =~= quiet(bytes.len()),
    decreases bytes.len(),
{
    if bytes.len() > 0 {
        lemma_run_hunt(m, bytes.drop_last());
    }
}

/// The start byte and a size field within bounds take a waiting parser to the
/// payload, with an empty buffer.
proof fn lemma_run_head(m: ParserModel, len: nat)
    requires
        m.state == State::Start,
        len <= MAX_FRAME_SIZE,
    ensures
        run(m, frame_head(len)) == (ParserModel {
            state: data_state(len as int),
            buffer: Seq::empty(),
        }),
        run_results(m, frame_head(len)) =~= quiet(3),
{
    let head = frame_head(len);
    let size = (len + 4) as u16;
    assert(head =~= seq![FRAME_START, (size / 256) as u8, (size % 256) as u8]);
    let h1 = head.drop_last();
    let h0 = h1.drop_last();
    assert(h1 =~= seq![FRAME_START, (size / 256) as u8]);
    assert(h0 =~= seq![FRAME_START]);
    assert(h0.drop_last() =~= Seq::<u8>::empty());
    assert(run(m, h0.drop_last()) == m);
    assert(run(m, h0) == ParserModel { state: State::SizeHi, buffer: m.buffer });
    assert(run(m, h1) == ParserModel {
        state: State::SizeLo { size_hi: (size / 256) as u8 },
        buffer: m.buffer,
    });
    assert(be16((size / 256) as u8, (size % 256) as u8) == size);
    let none: FeedResult = Ok(None);
    assert(run_results(m, h0.drop_last()) =~= Seq::<FeedResult>::empty());
    assert(run_results(m, h0) =~= seq![none]);
    assert(run_results(m, h1) =~= seq![none, none]);
    assert(run_results(m, head) =~= seq![none, none, none]);
}

/// The payload bytes that are owed all go to the buffer.
proof fn lemma_run_payload(buffer: Seq<u8>, payload: Seq<u8>)
    requires
        buffer.len() + payload.len() <= MAX_FRAME_SIZE,
    ensures
        run(ParserModel { state: data_state(payload.len() as int), buffer }, payload) == (
        ParserModel { state: State::CrcHi, buffer: buffer + payload }),
        run_results(ParserModel { state: data_state(payload.len() as int), buffer }, payload)
            =~= quiet(payload.len()),
    decreases payload.len(),
{
    let m = ParserModel { state: data_state(payload.len() as int), buffer };
    if payload.len() == 0 {
        assert(buffer + payload =~= buffer);
    } else {
        lemma_run_payload_partial(buffer, payload, payload.len() - 1);
        let before = payload.drop_last();
        assert(payload.subrange(0, payload.len() - 1) =~= before);
        assert(buffer + before.push(payload.last()) =~= (buffer + before).push(payload.last()));
        assert(before.push(payload.last()) =~= payload);
    }
}

/// After the first `k` of the payload bytes, the rest is still owed.
proof fn lemma_run_payload_partial(buffer: Seq<u8>, payload: Seq<u8>, k: int)
    requires
        buffer.len() + payload.len() <= MAX_FRAME_SIZE,
        0 <= k < payload.len(),
    ensures
        run(
            ParserModel { state: data_state(payload.len() as int), buffer },
            payload.subrange(0, k),
        ) == (ParserModel {
            state: State::Data { remain: (payload.len() - k) as usize },
            buffer: buffer + payload.subrange(0, k),
        }),
        run_results(
            ParserModel { state: data_state(payload.len() as int), buffer },
            payload.subrange(0, k),
        ) =~= quiet(k as nat),
    decreases k,
{
    let m = ParserModel { state: data_state(payload.len() as int), buffer };
    let taken = payload.subrange(0, k);
    if k == 0 {
        assert(buffer + taken =~= buffer);
    } else {
        lemma_run_payload_partial(buffer, payload, k - 1);
        assert(taken.drop_last() =~= payload.subrange(0, k - 1));
        assert(taken.last() == payload[k - 1]);
        assert((buffer + payload.subrange(0, k - 1)).push(payload[k - 1]) =~= buffer + taken);
    }
}

/// After the payload, a CRC field that matches and the end byte complete the
/// frame.
proof fn lemma_run_tail(payload: Seq<u8>)
    ensures
        run(
            ParserModel { state: State::CrcHi, buffer: payload },
            frame_tail(crc16_spec(payload)),
        ) == (ParserModel { state: State::Start, buffer: payload }),
        run_results(
            ParserModel { state: State::CrcHi, buffer: payload },
            frame_tail(crc16_spec(payload)),
        ) =~= quiet(2).push(Ok(Some(payload))),
{
    let m = ParserModel { state: State::CrcHi, buffer: payload };
    let crc = crc16_spec(payload);
    let tail = frame_tail(crc);
    assert(tail =~= seq![(crc / 256) as u8, (crc % 256) as u8, FRAME_END]);
    let t1 = tail.drop_last();
    let t0 = t1.drop_last();
    assert(t1 =~= seq![(crc / 256) as u8, (crc % 256) as u8]);
    assert(t0 =~= seq![(crc / 256) as u8]);
    assert(t0.drop_last() =~= Seq::<u8>::empty());
    assert(run(m, t0.drop_last()) == m);
    assert(run(m, t0) == ParserModel {
        state: State::CrcLo { crc_hi: (crc / 256) as u8 },
        buffer: payload,
    });
    assert(be16((crc / 256) as u8, (crc % 256) as u8) == crc);
    assert(run(m, t1) == ParserModel { state: State::End, buffer: payload });
    let none: FeedResult = Ok(None);
    let done: FeedResult = Ok(Some(payload));
    assert(run_results(m, t0.drop_last()) =~= Seq::<FeedResult>::empty());
    assert(run_results(m, t0) =~= seq![none]);
    assert(run_results(m, t1) =~= seq![none, none]);
    assert(run_results(m, tail) =~= seq![none, none, done]);
}

/// After the payload, a CRC field that differs from the CRC of the payload
/// is reported when its second byte arrives; the end byte is then passed over.
proof fn lemma_run_bad_tail(payload: Seq<u8>, crc: u16)
    requires
        crc != crc16_spec(payload),
    ensures
        run(ParserModel { state: State::CrcHi, buffer: payload }, frame_tail(crc)) == (
        ParserModel { state: State::Start, buffer: payload }),
        run_results(ParserModel { state: State::CrcHi, buffer: payload }, frame_tail(crc))
            =~= quiet(1).push(
            Err(FrameError::BadCrc { received: crc, expected: crc16_spec(payload) }),
        ).push(Ok(None)),
{
    let m = ParserModel { state: State::CrcHi, buffer: payload };
    let tail = frame_tail(crc);
    assert(tail =~= seq![(crc / 256) as u8, (crc % 256) as u8, FRAME_END]);
    let t1 = tail.drop_last();
    let t0 = t1.drop_last();
    assert(t1 =~= seq![(crc / 256) as u8, (crc % 256) as u8]);
    assert(t0 =~= seq![(crc / 256) as u8]);
    assert(t0.drop_last() =~= Seq::<u8>::empty());
    assert(run(m, t0.drop_last()) == m);
    assert(run(m, t0) == ParserModel {
        state: State::CrcLo { crc_hi: (crc / 256) as u8 },
        buffer: payload,
    });
    assert(be16((crc / 256) as u8, (crc % 256) as u8) == crc);
    assert(run(m, t1) == ParserModel { state: State::Start, buffer: payload });
    let none: FeedResult = Ok(None);
    let bad: FeedResult = Err(
        FrameError::BadCrc { received: crc, expected: crc16_spec(payload) },
    );
    assert(run_results(m, t0.drop_last()) =~= Seq::<FeedResult>::empty());
    assert(run_results(m, t0) =~= seq![none]);
    assert(run_results(m, t1) =~= seq![none, bad]);
    assert(run_results(m, tail) =~= seq![none, bad, none]);
}

/// A parser that waits for a start byte and is fed a frame from its start
/// byte on reports nothing until the end byte, and there the payload.
pub proof fn lemma_run_frame_body(m: ParserModel, payload: Seq<u8>)
    requires
        m.state == State::Start,
        payload.len() <= MAX_FRAME_SIZE,
    ensures
        run(m, frame_body(payload, crc16_spec(payload))) == (ParserModel {
            state: State::Start,
            buffer: payload,
        }),
        run_results(m, frame_body(payload, crc16_spec(payload))) =~= quiet(payload.len() + 5).push(
            Ok(Some(payload)),
        ),
{
    let head = frame_head(payload.len());
    let tail = frame_tail(crc16_spec(payload));
    let empty = Seq::<u8>::empty();
    lemma_run_head(m, payload.len());
    lemma_run_payload(empty, payload);
    lemma_run_tail(payload);
    assert(empty + payload =~= payload);
    lemma_run_concat(m, head, payload);
    lemma_run_concat(m, head + payload, tail);
}

/// Frame round trip: the frame written for a payload of at most
/// `MAX_FRAME_SIZE` bytes, fed to a parser that waits for a start byte, is
/// reported as exactly that payload at its last byte, and as nothing before.
pub proof fn lemma_frame_round_trip(m: ParserModel, payload: Seq<u8>)
    requires
        m.state == State::Start,
        payload.len() <= MAX_FRAME_SIZE,
    ensures
        frame_of(payload).len() == payload.len() + 10,
        run(m, frame_of(payload)) == (ParserModel { state: State::Start, buffer: payload }),
        run_results(m, frame_of(payload)) =~= quiet(payload.len() + 9).push(Ok(Some(payload))),
{
    let body = frame_body(payload, crc16_spec(payload));
    lemma_run_hunt(m, preamble());
    lemma_run_frame_body(m, payload);
    lemma_run_concat(m, preamble(), body);
}

/// The hunt recovers: whatever was fed before a frame, if the parser waits
/// for a start byte when the frame's start byte arrives, the payload is
/// reported at the frame's last byte.
pub proof fn lemma_hunt_recovers(m: ParserModel, injected: Seq<u8>, payload: Seq<u8>)
    requires
        payload.len() <= MAX_FRAME_SIZE,
        run(m, injected + preamble()).state == State::Start,
    ensures
        run_results(m, injected + frame_of(payload)).last() == Ok::<Option<Seq<u8>>, FrameError>(
            Some(payload),
        ),
        run(m, injected + frame_of(payload)).state == State::Start,
{
    let body = frame_body(payload, crc16_spec(payload));
    let before = injected + preamble();
    assert(injected + frame_of(payload) =~= before + body);
    lemma_run_concat(m, before, body);
    lemma_run_frame_body(run(m, before), payload);
}

/// Bytes that hold no start byte, injected while the parser waits for one,
/// do not keep it from the frame that follows.
pub proof fn lemma_hunt_skips_noise(m: ParserModel, injected: Seq<u8>, payload: Seq<u8>)
    requires
        m.state == State::Start,
        payload.len() <= MAX_FRAME_SIZE,
        forall|i: int| 0 <= i < injected.len() ==> injected[i] != FRAME_START,
    ensures
        run_results(m, injected + frame_of(payload)) =~= quiet(
            injected.len() + payload.len() + 9,
        ).push(Ok(Some(payload))),
{
    lemma_run_hunt(m, injected);
    lemma_frame_round_trip(m, payload);
    lemma_run_concat(m, injected, frame_of(payload));
}

/// A frame whose CRC field differs from the CRC of its payload fails with
/// `BadCrc` at the second byte of that field, and reports no payload.
pub proof fn lemma_corrupt_crc_fails(m: ParserModel, payload: Seq<u8>, crc: u16)
    requires
        m.state == State::Start,
        payload.len() <= MAX_FRAME_SIZE,
        crc != crc16_spec(payload),
    ensures
        run_results(m, preamble() + frame_body(payload, crc)) =~= quiet(payload.len() + 8).push(
            Err(FrameError::BadCrc { received: crc, expected: crc16_spec(payload) }),
        ).push(Ok(None)),
{
    let head = frame_head(payload.len());
    let tail = frame_tail(crc);
    let empty = Seq::<u8>::empty();
    let body = frame_body(payload, crc);
    lemma_run_hunt(m, preamble());
    lemma_run_head(m, payload.len());
    lemma_run_payload(empty, payload);
    lemma_run_bad_tail(payload, crc);
    assert(empty + payload =~= payload);
    lemma_run_concat(m, head, payload);
    lemma_run_concat(m, head + payload, tail);
    lemma_run_concat(m, preamble(), body);
}

/// Flipping one bit of a 16-bit value changes the value.
pub proof fn lemma_bit_flip_differs(crc: u16, bit: u16)
    requires
        bit < 16,
    ensures
        crc ^ (1u16 << bit) != crc,
{
    assert(bit < 16 ==> crc ^ (1u16 << bit) != crc) by (bit_vector);
}

/// A frame whose CRC field has one bit flipped fails with `BadCrc`.
pub proof fn lemma_flipped_crc_bit_fails(m: ParserModel, payload: Seq<u8>, bit: u16)
    requires
        m.state == State::Start,
        payload.len() <= MAX_FRAME_SIZE,
        bit < 16,
    ensures
        run_results(
            m,
            preamble() + frame_body(payload, crc16_spec(payload) ^ (1u16 << bit)),
        ) =~= quiet(payload.len() + 8).push(
            Err(
                FrameError::BadCrc {
                    received: crc16_spec(payload) ^ (1u16 << bit),
                    expected: crc16_spec(payload),
                },
            ),
        ).push(Ok(None)),
{
    lemma_bit_flip_differs(crc16_spec(payload), bit);
    lemma_corrupt_crc_fails(m, payload, crc16_spec(payload) ^ (1u16 << bit));
}

} // verus!
