//! An incremental parser of DNP3 link frames.
//!
//! A frame is the start bytes 0x05 0x64, a header of eight bytes (length,
//! control, destination, source, then the CRC of the start bytes and those
//! six bytes), and a body of blocks: up to 16 data bytes each, followed by
//! their CRC, least significant byte first.
use vstd::prelude::*;

use crate::error::{FrameError, LogicError, ParseError};
use crate::link::crc::{calc_crc, calc_crc_with_0564, spec_crc, start_bytes};
use crate::link::header::{spec_ctrl, Ctrl, Header};
use crate::util::cursor::{spec_u16_le, ReadCursor};

verus! {

/// The largest payload a frame can carry, and the size of the parser's buffer.
pub const MAX_PAYLOAD: usize = 250;

/// The largest body block: 16 data bytes and a CRC.
pub const MAX_BLOCK: usize = 18;

/// Where the parser is within a frame.
#[derive(Copy, Clone, Debug, PartialEq, Eq, Structural)]
pub enum ParseState {
    FindSync1,
    FindSync2,
    ReadHeader,
    /// The header, and the length of the body that follows it.
    ReadBody(Header, usize),
}

/// A parsed frame: its header and its payload, with the CRCs removed.
#[derive(Debug, PartialEq)]
pub struct Frame<'a> {
    header: Header,
    payload: &'a [u8],
}

impl<'a> Frame<'a> {
    pub closed spec fn spec_header(&self) -> Header {
        self.header
    }

    pub closed spec fn spec_payload(&self) -> Seq<u8> {
        self.payload@
    }

    pub fn new(header: Header, payload: &'a [u8]) -> (f: Self)
        ensures
            f.spec_header() == header,
            f.spec_payload() == payload@,
    {
        Frame { header, payload }
    }
}

/// Reads frames from a stream of bytes that arrive in pieces.
pub struct Parser {
    state: ParseState,
    buffer: [u8; 250],
}

/// The length of a body that carries `data_length` bytes: the data plus two
/// CRC bytes for each started block of 16.
pub open spec fn spec_trailer_length(data_length: nat) -> nat {
    data_length + 2 * ((data_length + 15) / 16)
}

/// `acc` in front of the bytes of an `Ok`; an `Err` unchanged.
pub open spec fn prepend_ok(acc: Seq<u8>, r: Result<Seq<u8>, ParseError>) -> Result<
    Seq<u8>,
    ParseError,
> {
    match r {
        Ok(rest) => Ok(acc + rest),
        Err(e) => Err(e),
    }
}

/// The payload of a body whose blocks go into the buffer from position `pos`:
/// the blocks are checked in order, and the first failure is the result. A
/// block shorter than three bytes has no room for data and CRC; a block
/// whose data would pass the end of the buffer does not fit.
pub open spec fn spec_extract(trailer: Seq<u8>, pos: nat) -> Result<Seq<u8>, ParseError>
    decreases trailer.len(),
{
    if trailer.len() == 0 {
        Ok(Seq::empty())
    } else {
        let n: int = if trailer.len() < MAX_BLOCK { trailer.len() as int } else { MAX_BLOCK as int };
        let block = trailer.take(n);
        if n < 3 {
            Err(ParseError::BadLogic(LogicError::BadSize))
        } else {
            let data = block.take(n - 2);
            if spec_u16_le(block[n - 2], block[n - 1]) != spec_crc(data) {
                Err(ParseError::BadFrame(FrameError::BadBodyCRC))
            } else if pos + (n - 2) > MAX_PAYLOAD {
                Err(ParseError::BadLogic(LogicError::BadSize))
            } else {
                prepend_ok(data, spec_extract(trailer.skip(n), (pos + n - 2) as nat))
            }
        }
    }
}

/// What one call of `parse_one` does: the state after it, how many bytes it
/// takes from the input, and what it returns (a header and payload for a frame).
pub struct ParseStep {
    pub state: ParseState,
    pub consumed: nat,
    pub result: Result<Option<(Header, Seq<u8>)>, ParseError>,
}

pub open spec fn step(
    state: ParseState,
    consumed: nat,
    result: Result<Option<(Header, Seq<u8>)>, ParseError>,
) -> ParseStep {
    ParseStep { state, consumed, result }
}

/// The header that the six bytes after the start bytes describe.
pub open spec fn spec_header(b: Seq<u8>) -> Header {
    Header { ctrl: spec_ctrl(b[1]), dest: spec_u16_le(b[2], b[3]), src: spec_u16_le(b[4], b[5]) }
}

/// Reading a header: it waits for all eight bytes, then takes them; a length
/// below 5 or a wrong CRC is an error.
pub open spec fn spec_parse_header(input: Seq<u8>) -> ParseStep {
    if input.len() < 8 {
        step(ParseState::ReadHeader, 0, Ok(None))
    } else {
        let len = input[0];
        if len < 5 {
            step(ParseState::ReadHeader, 8, Err(ParseError::BadFrame(FrameError::BadLength(len))))
        } else if spec_u16_le(input[6], input[7]) != spec_crc(start_bytes() + input.take(6)) {
            step(ParseState::ReadHeader, 8, Err(ParseError::BadFrame(FrameError::BadHeaderCRC)))
        } else {
            step(
                ParseState::ReadBody(
                    spec_header(input),
                    spec_trailer_length((len - 5) as nat) as usize,
                ),
                8,
                Ok(None),
            )
        }
    }
}

/// One call of `parse_one` in state `state` on the bytes `input`.
pub open spec fn spec_parse_one(state: ParseState, input: Seq<u8>) -> ParseStep {
    match state {
        ParseState::FindSync1 => {
            if input.len() == 0 {
                step(state, 0, Ok(None))
            } else if input[0] != 0x05 {
                step(state, 1, Ok(None))
            } else {
                step(ParseState::FindSync2, 1, Ok(None))
            }
        },
        ParseState::FindSync2 => {
            if input.len() == 0 {
                step(state, 0, Ok(None))
            } else if input[0] != 0x64 {
                step(ParseState::FindSync1, 1, Ok(None))
            } else {
                step(ParseState::ReadHeader, 1, Ok(None))
            }
        },
        ParseState::ReadHeader => spec_parse_header(input),
        ParseState::ReadBody(header, trailer_length) => {
            if input.len() < trailer_length {
                step(state, 0, Ok(None))
            } else {
                match spec_extract(input.take(trailer_length as int), 0) {
                    Ok(payload) => step(state, trailer_length as nat, Ok(Some((header, payload)))),
                    Err(e) => step(state, trailer_length as nat, Err(e)),
                }
            }
        },
    }
}

/// A returned value agrees with the result of a step.
pub open spec fn result_matches<'a>(
    r: Result<Option<Frame<'a>>, ParseError>,
    expected: Result<Option<(Header, Seq<u8>)>, ParseError>,
) -> bool {
    match (r, expected) {
        (Ok(None), Ok(None)) => true,
        (Ok(Some(f)), Ok(Some((h, p)))) => f.spec_header() == h && f.spec_payload() == p,
        (Err(e1), Err(e2)) => e1 == e2,
        _ => false,
    }
}

proof fn lemma_prepend_twice(a: Seq<u8>, b: Seq<u8>, r: Result<Seq<u8>, ParseError>)
    ensures
        prepend_ok(a, prepend_ok(b, r)) == prepend_ok(a + b, r),
{
    if let Ok(x) = r {
        assert(a + (b + x) =~= (a + b) + x);
    }
}

impl Parser {
    /// The parser's position within a frame.
    pub closed spec fn state(&self) -> ParseState {
        self.state
    }

    /// The buffer the payload of a frame is copied into.
    pub closed spec fn spec_buffer(&self) -> Seq<u8> {
        self.buffer@
    }

    pub fn new() -> (p: Parser)
        ensures
            p.state() == ParseState::FindSync1,
            p.spec_buffer() == Seq::new(MAX_PAYLOAD as nat, |i: int| 0u8),
    {
        let p = Parser { state: ParseState::FindSync1, buffer: [0;250] };
        proof {
            broadcast use vstd::array::group_array_axioms;

            assert(p.buffer@ =~= Seq::new(MAX_PAYLOAD as nat, |i: int| 0u8));
        }
        p
    }

    fn calc_trailer_length(data_length: u8) -> (r: usize)
        ensures
            r == spec_trailer_length(data_length as nat),
    {
        let div16: u8 = data_length / 16;
        let mod16: u8 = data_length % 16;

        if mod16 == 0 {
            div16 as usize * 18
        } else {
            (div16 as usize * 18) + mod16 as usize + 2
        }
    }

    fn extract_payload_and_verify_crc(&mut self, trailer: &[u8]) -> (r: Result<&[u8], ParseError>)
        ensures
            final(self).state() == old(self).state(),
            match (r, spec_extract(trailer@, 0)) {
                (Ok(s), Ok(p)) => s@ == p,
                (Err(e1), Err(e2)) => e1 == e2,
                _ => false,
            },
    {
        // position within the destination buffer
        let mut pos: usize = 0;
        // position within the trailer
        let mut start: usize = 0;
        assert(trailer@.skip(0) =~= trailer@);
        assert(self.buffer@.take(0) + trailer@ =~= trailer@);
        proof {
            if let Ok(x) = spec_extract(trailer@, 0) {
                assert(self.buffer@.take(0) + x =~= x);
            }
        }

        while start < trailer.len()
            invariant
                start <= trailer.len(),
                pos <= MAX_PAYLOAD,
                self.state == old(self).state,
                self.buffer@.len() == MAX_PAYLOAD,
                spec_extract(trailer@, 0) == prepend_ok(
                    self.buffer@.take(pos as int),
                    spec_extract(trailer@.skip(start as int), pos as nat),
                ),
            decreases trailer.len() - start,
        {
            let ghost rest = trailer@.skip(start as int);
            let remaining = trailer.len() - start;
            let block_len = if remaining < MAX_BLOCK {
                remaining
            } else {
                MAX_BLOCK
            };
            let block = vstd::slice::slice_subrange(trailer, start, start + block_len);
            assert(block@ =~= rest.take(block_len as int));

            if block_len < 3 {
                // can't be a valid block
                return Err(ParseError::BadLogic(LogicError::BadSize));
            }
            let data_len = block_len - 2;
            let data = vstd::slice::slice_subrange(block, 0, data_len);
            let crc = vstd::slice::slice_subrange(block, data_len, block_len);
            assert(data@ =~= block@.take(data_len as int));
            let mut crc_cursor = ReadCursor::new(crc);
            let crc_value = match crc_cursor.read_u16_le() {
                Ok(v) => v,
                Err(e) => return Err(ParseError::from(e)),
            };
            let calc = calc_crc(data);

            if crc_value != calc {
                return Err(ParseError::BadFrame(FrameError::BadBodyCRC));
            }
            if pos + data_len > MAX_PAYLOAD {
                return Err(ParseError::BadLogic(LogicError::BadSize));
            }
            // copy the data and advance the position

            let ghost before = self.buffer@;
            let mut j: usize = 0;
            while j < data_len
                invariant
                    j <= data_len,
                    data_len == data@.len(),
                    pos + data_len <= MAX_PAYLOAD,
                    self.state == old(self).state,
                    self.buffer@.len() == MAX_PAYLOAD,
                    before.len() == MAX_PAYLOAD,
                    forall|k: int| 0 <= k < pos ==> self.buffer@[k] == before[k],
                    forall|k: int| 0 <= k < j ==> self.buffer@[pos + k] == data@[k],
                decreases data_len - j,
            {
                self.buffer[pos + j] = data[j];
                j = j + 1;
            }
            proof {
                assert(self.buffer@.take(pos + data_len) =~= before.take(pos as int) + data@);
                assert(rest.skip(block_len as int) =~= trailer@.skip(start + block_len));
                lemma_prepend_twice(
                    before.take(pos as int),
                    data@,
                    spec_extract(rest.skip(block_len as int), (pos + data_len) as nat),
                );
            }
            pos = pos + data_len;
            start = start + block_len;
        }
        proof {
            assert(trailer@.skip(start as int) =~= Seq::<u8>::empty());
            assert(self.buffer@.take(pos as int) + Seq::<u8>::empty() =~= self.buffer@.take(
                pos as int,
            ));
        }
        let out = vstd::slice::slice_subrange(self.buffer.as_slice(), 0, pos);
        assert(out@ =~= self.buffer@.take(pos as int));
        Ok(out)
    }

    /// Advances through the input by one step of the frame format: finding a
    /// start byte, reading a header, or reading a body. A frame comes back
    /// once its whole body has arrived.
    pub fn parse_one<'a>(&'a mut self, cursor: &mut ReadCursor) -> (r: Result<
        Option<Frame<'a>>,
        ParseError,
    >)
        ensures
            ({
                let s = spec_parse_one(old(self).state(), old(cursor)@);
                &&& final(self).state() == s.state
                &&& final(cursor)@ == old(cursor)@.skip(s.consumed as int)
                &&& result_matches(r, s.result)
            }),
    {
        match self.state {
            ParseState::FindSync1 => self.parse_sync1(cursor),
            ParseState::FindSync2 => self.parse_sync2(cursor),
            ParseState::ReadHeader => self.parse_header(cursor),
            ParseState::ReadBody(header, trailer_len) => {
                self.parse_body(header, trailer_len, cursor)
            },
        }
    }

    fn parse_sync1<'a>(&'a mut self, cursor: &mut ReadCursor) -> (r: Result<
        Option<Frame<'a>>,
        ParseError,
    >)
        requires
            old(self).state() == ParseState::FindSync1,
        ensures
            ({
                let s = spec_parse_one(old(self).state(), old(cursor)@);
                &&& final(self).state() == s.state
                &&& final(cursor)@ == old(cursor)@.skip(s.consumed as int)
                &&& result_matches(r, s.result)
            }),
    {
        if cursor.is_empty() {
            assert(old(cursor)@.skip(0) =~= old(cursor)@);
            return Ok(None);
        }
        if cursor.read_u8()? != 0x05 {
            return Ok(None);
        }
        self.state = ParseState::FindSync2;
        Ok(None)
    }

    fn parse_sync2<'a>(&'a mut self, cursor: &mut ReadCursor) -> (r: Result<
        Option<Frame<'a>>,
        ParseError,
    >)
        requires
            old(self).state() == ParseState::FindSync2,
        ensures
            ({
                let s = spec_parse_one(old(self).state(), old(cursor)@);
                &&& final(self).state() == s.state
                &&& final(cursor)@ == old(cursor)@.skip(s.consumed as int)
                &&& result_matches(r, s.result)
            }),
    {
        if cursor.is_empty() {
            assert(old(cursor)@.skip(0) =~= old(cursor)@);
            return Ok(None);
        }
        if cursor.read_u8()? != 0x64 {
            self.state = ParseState::FindSync1;
            return Ok(None);
        }
        self.state = ParseState::ReadHeader;
        Ok(None)
    }

    fn parse_header<'a>(&'a mut self, cursor: &mut ReadCursor) -> (r: Result<
        Option<Frame<'a>>,
        ParseError,
    >)
        requires
            old(self).state() == ParseState::ReadHeader,
        ensures
            ({
                let s = spec_parse_one(old(self).state(), old(cursor)@);
                &&& final(self).state() == s.state
                &&& final(cursor)@ == old(cursor)@.skip(s.consumed as int)
                &&& result_matches(r, s.result)
            }),
    {
        if cursor.len() < 8 {
            assert(old(cursor)@.skip(0) =~= old(cursor)@);
            return Ok(None);
        }
        let ghost input = old(cursor)@;

        let crc_bytes = cursor.read_bytes(6)?;
        let crc_value = cursor.read_u16_le()?;
        assert(cursor@ =~= input.skip(8));
        assert(crc_bytes@ =~= input.take(6));

        let mut cursor = ReadCursor::new(crc_bytes);
        let len = cursor.read_u8()?;
        let ctrl = Ctrl::from(cursor.read_u8()?);
        let dest = cursor.read_u16_le()?;
        let src = cursor.read_u16_le()?;
        let header = Header::new(ctrl, dest, src);
        assert(header == spec_header(input));

        if len < 5 {
            return Err(ParseError::BadFrame(FrameError::BadLength(len)));
        }
        let expected_crc = calc_crc_with_0564(crc_bytes);
        if crc_value != expected_crc {
            return Err(ParseError::BadFrame(FrameError::BadHeaderCRC));
        }

        self.state = ParseState::ReadBody(
            header,
            Self::calc_trailer_length(len - 5),  // ok b/c len >= 5 above
        );

        Ok(None)
    }

    fn parse_body<'a>(
        &'a mut self,
        header: Header,
        trailer_length: usize,
        cursor: &mut ReadCursor,
    ) -> (r: Result<Option<Frame<'a>>, ParseError>)
        requires
            old(self).state() == ParseState::ReadBody(header, trailer_length),
        ensures
            ({
                let s = spec_parse_one(old(self).state(), old(cursor)@);
                &&& final(self).state() == s.state
                &&& final(cursor)@ == old(cursor)@.skip(s.consumed as int)
                &&& result_matches(r, s.result)
            }),
    {
        if cursor.len() < trailer_length {
            assert(old(cursor)@.skip(0) =~= old(cursor)@);
            return Ok(None);
        }
        let frame_trailer = cursor.read_bytes(trailer_length)?;
        match self.extract_payload_and_verify_crc(frame_trailer) {
            Ok(payload) => Ok(Some(Frame::new(header, payload))),
            Err(e) => Err(e),
        }
    }
}

} // verus!
