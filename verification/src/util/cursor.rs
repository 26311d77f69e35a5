//! A cursor that reads values from the front of a byte slice.
use vstd::prelude::*;

verus! {

/// Returned when a read asks for more bytes than the cursor holds.
#[derive(Copy, Clone, Debug, PartialEq, Eq, Structural)]
pub struct ReadError;

/// A little-endian `u16` from its two bytes.
pub open spec fn spec_u16_le(lo: u8, hi: u8) -> u16 {
    (lo as int + 256 * (hi as int)) as u16
}

/// A read-only view of the bytes that remain to be read.
pub struct ReadCursor<'a> {
    src: &'a [u8],
}

impl<'a> View for ReadCursor<'a> {
    type V = Seq<u8>;

    /// The bytes not yet read.
    closed spec fn view(&self) -> Seq<u8> {
        self.src@
    }
}

impl<'a> ReadCursor<'a> {
    pub fn new(src: &'a [u8]) -> (c: Self)
        ensures
            c@ == src@,
    {
        ReadCursor { src }
    }

    /// The number of bytes that remain.
    pub fn len(&self) -> (n: usize)
        ensures
            n == self@.len(),
    {
        self.src.len()
    }

    pub fn is_empty(&self) -> (b: bool)
        ensures
            b == (self@.len() == 0),
    {
        self.src.len() == 0
    }

    /// Reads one byte; fails, and reads nothing, when no byte remains.
    pub fn read_u8(&mut self) -> (r: Result<u8, ReadError>)
        ensures
            old(self)@.len() == 0 ==> r is Err && final(self)@ == old(self)@,
            old(self)@.len() > 0 ==> r == Ok::<u8, ReadError>(old(self)@[0]) && final(self)@
                == old(self)@.skip(1),
    {
        if self.src.len() == 0 {
            return Err(ReadError);
        }
        let b = self.src[0];
        self.src = vstd::slice::slice_subrange(self.src, 1, self.src.len());
        assert(self.src@ =~= old(self)@.skip(1));
        Ok(b)
    }

    /// Reads a little-endian `u16`; fails, and reads nothing, when fewer
    /// than two bytes remain.
    pub fn read_u16_le(&mut self) -> (r: Result<u16, ReadError>)
        ensures
            old(self)@.len() < 2 ==> r is Err && final(self)@ == old(self)@,
            old(self)@.len() >= 2 ==> r == Ok::<u16, ReadError>(
                spec_u16_le(old(self)@[0], old(self)@[1]),
            ) && final(self)@ == old(self)@.skip(2),
    {
        if self.src.len() < 2 {
            return Err(ReadError);
        }
        let lo = self.src[0];
        let hi = self.src[1];
        let v: u16 = (lo as u16) + (hi as u16) * 256;
        self.src = vstd::slice::slice_subrange(self.src, 2, self.src.len());
        assert(self.src@ =~= old(self)@.skip(2));
        Ok(v)
    }

    /// Reads the next `count` bytes; fails, and reads nothing, when fewer
    /// than `count` remain.
    pub fn read_bytes(&mut self, count: usize) -> (r: Result<&'a [u8], ReadError>)
        ensures
            old(self)@.len() < count ==> r is Err && final(self)@ == old(self)@,
            old(self)@.len() >= count ==> (r matches Ok(s) && s@ == old(self)@.take(count as int)
                && final(self)@ == old(self)@.skip(count as int)),
    {
        if self.src.len() < count {
            return Err(ReadError);
        }
        let first = vstd::slice::slice_subrange(self.src, 0, count);
        self.src = vstd::slice::slice_subrange(self.src, count, self.src.len());
        assert(first@ =~= old(self)@.take(count as int));
        assert(self.src@ =~= old(self)@.skip(count as int));
        Ok(first)
    }
}

} // verus!
