//! Writing the fields of a packet into a buffer, front to back.

use vstd::prelude::*;
use crate::packet::SerializePacketError;
use crate::wire::{be16_bytes, be32_bytes, u16_to_be, u32_to_be};

verus! {

/// The buffer `after`, written up to `end`, is the buffer `before`, written
/// up to `start`, with `bytes` written behind that.
pub open spec fn wrote_bytes(
    before: Seq<u8>,
    start: int,
    after: Seq<u8>,
    end: int,
    bytes: Seq<u8>,
) -> bool {
    &&& 0 <= start
    &&& end == start + bytes.len()
    &&& end <= after.len()
    &&& after.len() == before.len()
    &&& after == before.take(start) + bytes + before.skip(end)
}

/// Writing `first` and then `second` is writing `first + second`.
pub proof fn lemma_wrote_then(
    buf0: Seq<u8>,
    pos0: int,
    buf1: Seq<u8>,
    pos1: int,
    buf2: Seq<u8>,
    pos2: int,
    first: Seq<u8>,
    second: Seq<u8>,
)
    requires
        wrote_bytes(buf0, pos0, buf1, pos1, first),
        wrote_bytes(buf1, pos1, buf2, pos2, second),
    ensures
        wrote_bytes(buf0, pos0, buf2, pos2, first + second),
{
    assert(buf2 =~= buf0.take(pos0) + (first + second) + buf0.skip(pos2));
}

/// A buffer and how much of it has been written.
pub struct PacketWriter<'a> {
    pub buff: &'a mut [u8],
    pub pos: usize,
}

impl<'a> PacketWriter<'a> {
    /// The position lies inside the buffer.
    pub open spec fn wf(&self) -> bool {
        self.pos <= self.buff@.len()
    }

    /// The bytes written so far.
    pub open spec fn written(&self) -> Seq<u8> {
        self.buff@.take(self.pos as int)
    }

    /// How many bytes can still be written.
    pub open spec fn room(&self) -> nat {
        (self.buff@.len() - self.pos) as nat
    }

    /// `self` is `before` after `bytes` were written: they stand at the old
    /// position, the position has moved behind them, and the rest of the
    /// buffer is as it was.
    pub open spec fn wrote(&self, before: &Self, bytes: Seq<u8>) -> bool {
        wrote_bytes(before.buff@, before.pos as int, self.buff@, self.pos as int, bytes)
    }

    /// `self` is `before`, with nothing written.
    pub open spec fn same_as(&self, before: &Self) -> bool {
        self.pos == before.pos && self.buff@ == before.buff@
    }

    pub fn new(buff: &'a mut [u8]) -> (writer: Self)
        ensures
            writer.pos == 0,
            writer.buff@ == old(buff)@,
            final(writer.buff)@ == final(buff)@,
    {
        PacketWriter { buff, pos: 0 }
    }

    /// The part of the buffer that is not written yet.
    pub fn remaining_mut(&mut self) -> (rest: &mut [u8])
        requires
            old(self).wf(),
        ensures
            rest@ == old(self).buff@.skip(old(self).pos as int),
            final(self).pos == old(self).pos,
            final(self).buff@ == old(self).written() + final(rest)@,
            final(final(self).buff)@ == final(old(self).buff)@,
    {
        let (_, rest) = self.buff.split_at_mut(self.pos);
        rest
    }

    /// Writes `slice` at the position and moves the position behind it.
    /// Where the buffer has no room for all of `slice`, nothing is written.
    pub fn write_bytes(&mut self, slice: &[u8]) -> (r: Result<(), SerializePacketError>)
        requires
            old(self).wf(),
        ensures
            final(final(self).buff)@ == final(old(self).buff)@,
            r is Ok <==> slice@.len() <= old(self).room(),
            r is Ok ==> final(self).wrote(old(self), slice@),
            r matches Err(err) ==> err == SerializePacketError::BufferTooShort
                && final(self).same_as(old(self)),
    {
        let n = slice.len();
        let len = self.buff.len();
        if n > len - self.pos {
            return Err(SerializePacketError::BufferTooShort);
        }
        let ghost before = self.buff@;
        let start = self.pos;
        let mut i: usize = 0;
        while i < n
            invariant
                i <= n,
                n == slice@.len(),
                start == self.pos,
                start + n <= self.buff@.len(),
                self.buff@.len() == before.len(),
                before.len() == len,
                final(self.buff)@ == final(old(self).buff)@,
                forall|j: int| 0 <= j < start ==> self.buff@[j] == before[j],
                forall|j: int| start <= j < start + i ==> self.buff@[j] == slice@[j - start],
                forall|j: int| start + i <= j < before.len() ==> self.buff@[j] == before[j],
            decreases n - i,
        {
            self.buff[start + i] = slice[i];
            i = i + 1;
        }
        self.pos = start + n;
        assert(self.buff@ =~= before.take(start as int) + slice@ + before.skip(start + n));
        Ok(())
    }

    pub fn write_array<const N: usize>(&mut self, array: [u8; N]) -> (r: Result<
        (),
        SerializePacketError,
    >)
        requires
            old(self).wf(),
        ensures
            final(final(self).buff)@ == final(old(self).buff)@,
            r is Ok <==> N <= old(self).room(),
            r is Ok ==> final(self).wrote(old(self), array@),
            r matches Err(err) ==> err == SerializePacketError::BufferTooShort
                && final(self).same_as(old(self)),
    {
        self.write_bytes(array.as_slice())
    }

    pub fn write_u8(&mut self, u: u8) -> (r: Result<(), SerializePacketError>)
        requires
            old(self).wf(),
        ensures
            final(final(self).buff)@ == final(old(self).buff)@,
            r is Ok <==> 1 <= old(self).room(),
            r is Ok ==> final(self).wrote(old(self), seq![u]),
            r matches Err(err) ==> err == SerializePacketError::BufferTooShort
                && final(self).same_as(old(self)),
    {
        let array = [u];
        assert(array@ =~= seq![u]);
        self.write_array(array)
    }

    pub fn write_u16(&mut self, u: u16) -> (r: Result<(), SerializePacketError>)
        requires
            old(self).wf(),
        ensures
            final(final(self).buff)@ == final(old(self).buff)@,
            r is Ok <==> 2 <= old(self).room(),
            r is Ok ==> final(self).wrote(old(self), be16_bytes(u)),
            r matches Err(err) ==> err == SerializePacketError::BufferTooShort
                && final(self).same_as(old(self)),
    {
        self.write_array(u16_to_be(u))
    }

    pub fn write_u32(&mut self, u: u32) -> (r: Result<(), SerializePacketError>)
        requires
            old(self).wf(),
        ensures
            final(final(self).buff)@ == final(old(self).buff)@,
            r is Ok <==> 4 <= old(self).room(),
            r is Ok ==> final(self).wrote(old(self), be32_bytes(u)),
            r matches Err(err) ==> err == SerializePacketError::BufferTooShort
                && final(self).same_as(old(self)),
    {
        self.write_array(u32_to_be(u))
    }
}

} // verus!
