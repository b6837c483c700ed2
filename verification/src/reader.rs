//! Reading the fields of a packet off the front of a payload.

use vstd::prelude::*;
use crate::packet::PacketError;
use crate::wire::{be16, be32, u16_from_be, u32_from_be};

verus! {

/// The payload bytes that have not been read yet.
pub struct PacketReader<'a> {
    pub data: &'a [u8],
}

impl<'a> PacketReader<'a> {
    pub fn new(data: &'a [u8]) -> (reader: Self)
        ensures
            reader.data@ == data@,
    {
        PacketReader { data }
    }

    /// Takes the next `N` bytes. Where fewer are left, nothing is taken.
    pub fn read_array<const N: usize>(&mut self) -> (r: Result<[u8; N], PacketError>)
        ensures
            r is Ok <==> old(self).data@.len() >= N,
            r matches Ok(bytes) ==> bytes@ == old(self).data@.take(N as int) && final(self).data@
                == old(self).data@.skip(N as int),
            r matches Err(err) ==> err == PacketError::TooShort
                && final(self).data@ == old(self).data@,
    {
        if self.data.len() < N {
            return Err(PacketError::TooShort);
        }
        let (head, tail) = self.data.split_at(N);
        let mut bytes = [0u8; N];
        let mut i: usize = 0;
        while i < N
            invariant
                i <= N,
                head@.len() == N,
                forall|j: int| 0 <= j < i ==> bytes@[j] == head@[j],
            decreases N - i,
        {
            bytes[i] = head[i];
            i = i + 1;
        }
        assert(bytes@ =~= old(self).data@.take(N as int));
        self.data = tail;
        Ok(bytes)
    }

    pub fn read_u8(&mut self) -> (r: Result<u8, PacketError>)
        ensures
            r is Ok <==> old(self).data@.len() >= 1,
            r matches Ok(byte) ==> byte == old(self).data@[0]
                && final(self).data@ == old(self).data@.skip(1),
            r matches Err(err) ==> err == PacketError::TooShort
                && final(self).data@ == old(self).data@,
    {
        let bytes = self.read_array::<1>()?;
        Ok(bytes[0])
    }

    pub fn read_u16(&mut self) -> (r: Result<u16, PacketError>)
        ensures
            r is Ok <==> old(self).data@.len() >= 2,
            r matches Ok(value) ==> value == be16(old(self).data@[0], old(self).data@[1])
                && final(self).data@ == old(self).data@.skip(2),
            r matches Err(err) ==> err == PacketError::TooShort
                && final(self).data@ == old(self).data@,
    {
        let bytes = self.read_array::<2>()?;
        Ok(u16_from_be(bytes))
    }

    pub fn read_u32(&mut self) -> (r: Result<u32, PacketError>)
        ensures
            r is Ok <==> old(self).data@.len() >= 4,
            r matches Ok(value) ==> value == be32(
                old(self).data@[0],
                old(self).data@[1],
                old(self).data@[2],
                old(self).data@[3],
            ) && final(self).data@ == old(self).data@.skip(4),
            r matches Err(err) ==> err == PacketError::TooShort
                && final(self).data@ == old(self).data@,
    {
        let bytes = self.read_array::<4>()?;
        Ok(u32_from_be(bytes))
    }
}

} // verus!
