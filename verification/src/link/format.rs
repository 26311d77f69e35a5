//! The byte layout of a well-formed link frame, and what the parser does with
//! frames and with the bytes around them.
use vstd::prelude::*;

use crate::error::{FrameError, ParseError};
use crate::link::crc::{spec_crc, start_bytes};
use crate::link::header::{spec_ctrl, Header};
use crate::link::parser::{
    spec_extract, spec_header, spec_parse_one, spec_trailer_length, ParseState, ParseStep,
    MAX_PAYLOAD,
};
use crate::util::cursor::spec_u16_le;

verus! {

/// A `u16`, least significant byte first.
pub open spec fn spec_u16_le_bytes(v: u16) -> Seq<u8> {
    seq![(v % 256) as u8, (v / 256) as u8]
}

/// The body that carries `payload`: blocks of 16 bytes (the last one may be
/// shorter), each followed by its CRC.
pub open spec fn spec_body(payload: Seq<u8>) -> Seq<u8>
    decreases payload.len(),
{
    if payload.len() == 0 {
        Seq::empty()
    } else {
        let n: int = if payload.len() < 16 { payload.len() as int } else { 16 };
        let data = payload.take(n);
        data + spec_u16_le_bytes(spec_crc(data)) + spec_body(payload.skip(n))
    }
}

/// The six header bytes that follow the start bytes, without their CRC.
pub open spec fn spec_header_bytes(ctrl: u8, dest: u16, src: u16, payload_len: nat) -> Seq<u8> {
    seq![(payload_len + 5) as u8, ctrl] + spec_u16_le_bytes(dest) + spec_u16_le_bytes(src)
}

/// The whole frame that carries `payload` with the given control byte and
/// addresses.
pub open spec fn spec_frame(ctrl: u8, dest: u16, src: u16, payload: Seq<u8>) -> Seq<u8> {
    let h = spec_header_bytes(ctrl, dest, src, payload.len());
    start_bytes() + h + spec_u16_le_bytes(spec_crc(start_bytes() + h)) + spec_body(payload)
}

/// The state and the remaining input after `n` calls of `parse_one`.
pub open spec fn spec_parse_n(state: ParseState, input: Seq<u8>, n: nat) -> (ParseState, Seq<u8>)
    decreases n,
{
    if n == 0 {
        (state, input)
    } else {
        let s = spec_parse_one(state, input);
        spec_parse_n(s.state, input.skip(s.consumed as int), (n - 1) as nat)
    }
}

/// Reading the two bytes of `spec_u16_le_bytes(v)` gives back `v`.
pub proof fn lemma_u16_le_round_trip(v: u16)
    ensures
        spec_u16_le((v % 256) as u8, (v / 256) as u8) == v,
{
}

/// The body of any payload that fits the buffer has the length that the
/// header's length byte announces, and extracting it gives the payload back.
pub proof fn lemma_body_is_extracted(payload: Seq<u8>, pos: nat)
    requires
        pos + payload.len() <= MAX_PAYLOAD,
    ensures
        spec_body(payload).len() == spec_trailer_length(payload.len()),
        spec_extract(spec_body(payload), pos) == Ok::<Seq<u8>, ParseError>(payload),
    decreases payload.len(),
{
    let len = payload.len();
    if len == 0 {
        assert(spec_body(payload) =~= Seq::<u8>::empty());
        assert(payload =~= Seq::<u8>::empty());
    } else {
        let n: int = if len < 16 { len as int } else { 16 };
        let data = payload.take(n);
        let c = spec_u16_le_bytes(spec_crc(data));
        let tail = spec_body(payload.skip(n));
        let body = spec_body(payload);
        assert(body == data + c + tail);
        lemma_body_is_extracted(payload.skip(n), (pos + n) as nat);
        assert(tail.len() == spec_trailer_length((len - n) as nat));
        if len < 16 {
            assert(payload.skip(n).len() == 0);
            assert((len + 15) / 16 == 1);
        } else {
            assert((len + 15) / 16 == (len - 16 + 15) / 16 + 1);
        }
        assert(body.len() == spec_trailer_length(len));
        assert(body.take(n + 2) =~= data + c);
        assert((data + c).take(n) =~= data);
        assert(body.take(n + 2).take(n) =~= data);
        assert(body.skip(n + 2) =~= tail);
        lemma_u16_le_round_trip(spec_crc(data));
        let block = body.take(n + 2);
        assert(block[n] == c[0] && block[n + 1] == c[1]);
        assert(spec_u16_le(block[n], block[n + 1]) == spec_crc(data));
        let bl: int = if body.len() < 18 { body.len() as int } else { 18 };
        assert(bl == n + 2);
        assert(spec_extract(tail, (pos + n) as nat) == Ok::<Seq<u8>, ParseError>(payload.skip(n)));
        assert(data + payload.skip(n) =~= payload);
        assert(spec_extract(body, pos) == crate::link::parser::prepend_ok(
            data,
            spec_extract(tail, (pos + n) as nat),
        ));
    }
}

/// Reading the header of a well-formed frame.
proof fn lemma_header_step(ctrl: u8, dest: u16, src: u16, payload_len: nat, tail: Seq<u8>)
    requires
        payload_len <= MAX_PAYLOAD,
    ensures
        ({
            let h = spec_header_bytes(ctrl, dest, src, payload_len);
            let input = h + spec_u16_le_bytes(spec_crc(start_bytes() + h)) + tail;
            spec_parse_one(ParseState::ReadHeader, input) == ParseStep {
                state: ParseState::ReadBody(
                    Header { ctrl: spec_ctrl(ctrl), dest, src },
                    spec_trailer_length(payload_len) as usize,
                ),
                consumed: 8,
                result: Ok(None),
            }
        }),
{
    let h = spec_header_bytes(ctrl, dest, src, payload_len);
    let c = spec_u16_le_bytes(spec_crc(start_bytes() + h));
    let input = h + c + tail;
    assert(input.take(6) =~= h);
    assert(input[0] == (payload_len + 5) as u8);
    assert(input[6] == c[0] && input[7] == c[1]);
    lemma_u16_le_round_trip(spec_crc(start_bytes() + h));
    lemma_u16_le_round_trip(dest);
    lemma_u16_le_round_trip(src);
    assert(input[2] == h[2] && input[3] == h[3] && input[4] == h[4] && input[5] == h[5]);
    assert(spec_header(input) == Header { ctrl: spec_ctrl(ctrl), dest, src });
}

/// Reading the body of a well-formed frame.
proof fn lemma_body_step(header: Header, payload: Seq<u8>, rest: Seq<u8>)
    requires
        payload.len() <= MAX_PAYLOAD,
    ensures
        ({
            let state = ParseState::ReadBody(header, spec_trailer_length(payload.len()) as usize);
            spec_parse_one(state, spec_body(payload) + rest) == ParseStep {
                state,
                consumed: spec_body(payload).len(),
                result: Ok(Some((header, payload))),
            }
        }),
{
    let body = spec_body(payload);
    lemma_body_is_extracted(payload, 0);
    assert((body + rest).take(body.len() as int) =~= body);
}

/// A well-formed frame, whatever follows it, is read by four calls from the
/// start state: three that return nothing (two start bytes, then the
/// header) and one that returns the frame's header and payload. The bytes
/// after the frame remain.
#[verifier::rlimit(60)]
pub proof fn lemma_frame_is_parsed(
    ctrl: u8,
    dest: u16,
    src: u16,
    payload: Seq<u8>,
    rest: Seq<u8>,
)
    requires
        payload.len() <= MAX_PAYLOAD,
    ensures
        ({
            let input = spec_frame(ctrl, dest, src, payload) + rest;
            let s1 = spec_parse_one(ParseState::FindSync1, input);
            let i1 = input.skip(s1.consumed as int);
            let s2 = spec_parse_one(s1.state, i1);
            let i2 = i1.skip(s2.consumed as int);
            let s3 = spec_parse_one(s2.state, i2);
            let i3 = i2.skip(s3.consumed as int);
            let s4 = spec_parse_one(s3.state, i3);
            &&& s1.result == Ok::<Option<(Header, Seq<u8>)>, ParseError>(None)
            &&& s2.result == Ok::<Option<(Header, Seq<u8>)>, ParseError>(None)
            &&& s3.result == Ok::<Option<(Header, Seq<u8>)>, ParseError>(None)
            &&& s4.result == Ok::<Option<(Header, Seq<u8>)>, ParseError>(
                Some((Header { ctrl: spec_ctrl(ctrl), dest, src }, payload)),
            )
            &&& i3.skip(s4.consumed as int) == rest
        }),
{
    let h = spec_header_bytes(ctrl, dest, src, payload.len());
    let c = spec_u16_le_bytes(spec_crc(start_bytes() + h));
    let body = spec_body(payload);
    let header = Header { ctrl: spec_ctrl(ctrl), dest, src };
    let input = spec_frame(ctrl, dest, src, payload) + rest;
    assert(input =~= start_bytes() + (h + c + (body + rest)));
    assert(input[0] == 0x05u8);
    let s1 = spec_parse_one(ParseState::FindSync1, input);
    assert(s1 == ParseStep { state: ParseState::FindSync2, consumed: 1, result: Ok(None) });
    let i1 = input.skip(1);
    assert(i1[0] == 0x64u8);
    let s2 = spec_parse_one(ParseState::FindSync2, i1);
    assert(s2 == ParseStep { state: ParseState::ReadHeader, consumed: 1, result: Ok(None) });
    let i2 = i1.skip(1);
    assert(i2 =~= h + c + (body + rest));
    lemma_header_step(ctrl, dest, src, payload.len(), body + rest);
    let i3 = i2.skip(8);
    assert(i3 =~= body + rest);
    lemma_body_step(header, payload, rest);
    assert(i3.skip(body.len() as int) =~= rest);
}

/// A step takes no more bytes than there are; a step that takes none leaves
/// the state as it was; and a step that takes bytes or returns something
/// depends on the bytes it takes alone, so that bytes arriving later do not
/// change it. (A step that takes nothing and returns nothing is waiting for
/// more input.)
pub proof fn lemma_step_depends_on_consumed_bytes(
    state: ParseState,
    input: Seq<u8>,
    extra: Seq<u8>,
)
    ensures
        ({
            let s = spec_parse_one(state, input);
            &&& s.consumed <= input.len()
            &&& s.consumed == 0 ==> s.state == state
            &&& (s.consumed > 0 || s.result != Ok::<Option<(Header, Seq<u8>)>, ParseError>(None))
                ==> spec_parse_one(state, input + extra) == s
        }),
{
    let s = spec_parse_one(state, input);
    let longer = input + extra;
    if s.consumed > 0 || s.result != Ok::<Option<(Header, Seq<u8>)>, ParseError>(None) {
        match state {
            ParseState::ReadHeader => {
                assert(input.len() >= 8);
                assert(longer.take(6) =~= input.take(6));
                assert(longer[0] == input[0] && longer[1] == input[1] && longer[2] == input[2]);
                assert(longer[3] == input[3] && longer[4] == input[4] && longer[5] == input[5]);
                assert(longer[6] == input[6] && longer[7] == input[7]);
                assert(spec_header(longer) == spec_header(input));
                assert(spec_parse_one(state, longer) == s);
            },
            ParseState::ReadBody(header, t) => {
                assert(longer.take(t as int) =~= input.take(t as int));
                assert(spec_parse_one(state, longer) == s);
            },
            _ => {
                assert(longer[0] == input[0]);
                assert(spec_parse_one(state, longer) == s);
            },
        }
    }
}

/// In the start state, bytes other than 0x05 are skipped one per call: after
/// as many calls as there are such bytes, the parser still looks for a
/// frame, at the first byte after them.
pub proof fn lemma_noise_is_skipped(noise: Seq<u8>, rest: Seq<u8>)
    requires
        forall|i: int| 0 <= i < noise.len() ==> noise[i] != 0x05u8,
    ensures
        spec_parse_n(ParseState::FindSync1, noise + rest, noise.len()) == (
            ParseState::FindSync1,
            rest,
        ),
    decreases noise.len(),
{
    if noise.len() == 0 {
        assert(noise + rest =~= rest);
    } else {
        let input = noise + rest;
        assert(input[0] == noise[0]);
        assert(input.skip(1) =~= noise.skip(1) + rest);
        lemma_noise_is_skipped(noise.skip(1), rest);
    }
}


/// A body for a longer payload is longer.
pub proof fn lemma_trailer_length_increases(n1: nat, n2: nat)
    requires
        n1 < n2,
    ensures
        spec_trailer_length(n1) < spec_trailer_length(n2),
{
    assert((n1 + 15) / 16 <= (n2 + 15) / 16);
}

/// The states a parser can reach from `Parser::new`: a body length is always
/// that of a payload that fits the buffer.
pub open spec fn reachable_state(state: ParseState) -> bool {
    match state {
        ParseState::ReadBody(_, t) => exists|n: nat|
            n <= MAX_PAYLOAD && t == spec_trailer_length(n),
        _ => true,
    }
}

/// A body whose length is that of a payload that fits never fails for want of
/// room or a short block: only a CRC can be wrong.
proof fn lemma_extract_no_logic_error(trailer: Seq<u8>, n: nat, pos: nat)
    requires
        trailer.len() == spec_trailer_length(n),
        pos + n <= MAX_PAYLOAD,
    ensures
        !(spec_extract(trailer, pos) matches Err(ParseError::BadLogic(_))),
    decreases n,
{
    if n == 0 {
    } else if n < 16 {
        assert((n + 15) / 16 == 1);
        assert(trailer.skip(n + 2int).len() == 0);
        assert(spec_extract(trailer.skip(n + 2int), pos + n) == Ok::<Seq<u8>, ParseError>(
            Seq::empty(),
        ));
    } else {
        assert((n + 15) / 16 == (n - 16 + 15) / 16 + 1);
        lemma_extract_no_logic_error(trailer.skip(18), (n - 16) as nat, pos + 16);
    }
}

/// From a reachable state, a step leads to a reachable state and never
/// reports `BadLogic`: the errors a parser made by `Parser::new` reports are
/// a bad length, a bad header CRC and a bad body CRC.
pub proof fn lemma_reachable_step(state: ParseState, input: Seq<u8>)
    requires
        reachable_state(state),
    ensures
        reachable_state(spec_parse_one(state, input).state),
        !(spec_parse_one(state, input).result matches Err(ParseError::BadLogic(_))),
{
    match state {
        ParseState::ReadHeader => {
            if input.len() >= 8 && input[0] >= 5 {
                let n = (input[0] - 5) as nat;
                assert(spec_trailer_length(n) <= 300);
                let s = spec_parse_one(state, input);
                if s.state is ReadBody {
                    assert(s.state->1 == spec_trailer_length(n));
                }
            }
        },
        ParseState::ReadBody(_, t) => {
            let n = choose|n: nat| n <= MAX_PAYLOAD && t == spec_trailer_length(n);
            if input.len() >= t {
                lemma_extract_no_logic_error(input.take(t as int), n, 0);
            }
        },
        _ => {},
    }
}

/// Block `k` of a body: its bytes from `18 * k` on, at most 18 of them.
pub open spec fn body_block(trailer: Seq<u8>, k: int) -> Seq<u8> {
    let end: int = if trailer.len() < 18 * k + 18 { trailer.len() as int } else { 18 * k + 18 };
    trailer.subrange(18 * k, end)
}

/// A block holds data, and its last two bytes are the CRC of that data,
/// least significant byte first.
pub open spec fn block_crc_ok(block: Seq<u8>) -> bool {
    &&& block.len() >= 3
    &&& spec_u16_le(block[block.len() - 2], block[block.len() - 1]) == spec_crc(
        block.take(block.len() - 2),
    )
}

/// A body that gives a payload has the right CRC in every one of its blocks,
/// the first as well as any later one.
pub proof fn lemma_extract_checks_every_block(trailer: Seq<u8>, pos: nat, k: int)
    requires
        spec_extract(trailer, pos) is Ok,
        0 <= k,
        18 * k < trailer.len(),
    ensures
        block_crc_ok(body_block(trailer, k)),
    decreases k,
{
    let n: int = if trailer.len() < 18 { trailer.len() as int } else { 18 };
    if k == 0 {
        assert(body_block(trailer, 0) =~= trailer.take(n));
    } else {
        assert(n == 18);
        let rest = trailer.skip(18);
        assert(spec_extract(rest, (pos + 16) as nat) is Ok);
        lemma_extract_checks_every_block(rest, (pos + 16) as nat, k - 1);
        assert(body_block(rest, k - 1) =~= body_block(trailer, k));
    }
}

/// Extracting a body fails only on a short block, a block that does not fit
/// the buffer, or a bad block CRC.
proof fn lemma_extract_errors(trailer: Seq<u8>, pos: nat)
    ensures
        spec_extract(trailer, pos) matches Err(e) ==> (e == ParseError::BadLogic(
            crate::error::LogicError::BadSize,
        ) || e == ParseError::BadFrame(FrameError::BadBodyCRC)),
    decreases trailer.len(),
{
    if trailer.len() > 0 {
        let n: int = if trailer.len() < 18 { trailer.len() as int } else { 18 };
        if n >= 3 {
            lemma_extract_errors(trailer.skip(n), (pos + n - 2) as nat);
        }
    }
}

/// A body of the length that a header announces, one of whose blocks carries
/// a CRC that is not the CRC of its data, is refused with `BadBodyCRC`,
/// wherever that block stands.
pub proof fn lemma_bad_block_is_refused(trailer: Seq<u8>, n: nat, pos: nat, k: int)
    requires
        trailer.len() == spec_trailer_length(n),
        pos + n <= MAX_PAYLOAD,
        0 <= k,
        18 * k < trailer.len(),
        !block_crc_ok(body_block(trailer, k)),
    ensures
        spec_extract(trailer, pos) == Err::<Seq<u8>, ParseError>(
            ParseError::BadFrame(FrameError::BadBodyCRC),
        ),
{
    if spec_extract(trailer, pos) is Ok {
        lemma_extract_checks_every_block(trailer, pos, k);
    }
    lemma_extract_no_logic_error(trailer, n, pos);
    lemma_extract_errors(trailer, pos);
}

/// Reading a body: a frame comes back only when every block of its body has
/// the right CRC; when the body has arrived and any of its blocks has a wrong
/// one, the step reports `BadBodyCRC` and takes the body from the input.
pub proof fn lemma_body_step_checks_every_block(
    header: Header,
    n: nat,
    input: Seq<u8>,
    k: int,
)
    requires
        n <= MAX_PAYLOAD,
        input.len() >= spec_trailer_length(n),
        0 <= k,
        18 * k < spec_trailer_length(n),
    ensures
        ({
            let s = spec_parse_one(
                ParseState::ReadBody(header, spec_trailer_length(n) as usize),
                input,
            );
            let body = input.take(spec_trailer_length(n) as int);
            &&& s.result is Ok ==> block_crc_ok(body_block(body, k))
            &&& !block_crc_ok(body_block(body, k)) ==> s.result == Err::<
                Option<(Header, Seq<u8>)>,
                ParseError,
            >(ParseError::BadFrame(FrameError::BadBodyCRC))
            &&& s.consumed == spec_trailer_length(n)
        }),
{
    let t = spec_trailer_length(n);
    assert(t <= 300) by {
        assert((n + 15) / 16 <= 16);
    }
    let body = input.take(t as int);
    if spec_extract(body, 0) is Ok {
        lemma_extract_checks_every_block(body, 0, k);
    }
    if !block_crc_ok(body_block(body, k)) {
        lemma_bad_block_is_refused(body, n, 0, k);
    }
}

/// Reading a header takes its eight bytes, and goes on to the body exactly
/// when the length byte is at least 5 and the last two bytes are the CRC of
/// the start bytes and the six bytes before them. The body then has the
/// length that the length byte announces for its payload, and the header's
/// fields are those of the bytes read. A length below 5 is refused as
/// `BadLength`, a wrong CRC as `BadHeaderCRC`.
pub proof fn lemma_header_is_checked(input: Seq<u8>)
    requires
        input.len() >= 8,
    ensures
        ({
            let s = spec_parse_one(ParseState::ReadHeader, input);
            let crc_ok = spec_u16_le(input[6], input[7]) == spec_crc(
                start_bytes() + input.take(6),
            );
            &&& s.consumed == 8
            &&& s.state is ReadBody <==> (input[0] >= 5 && crc_ok)
            &&& (input[0] >= 5 && crc_ok) ==> s.state == ParseState::ReadBody(
                Header {
                    ctrl: spec_ctrl(input[1]),
                    dest: spec_u16_le(input[2], input[3]),
                    src: spec_u16_le(input[4], input[5]),
                },
                spec_trailer_length((input[0] - 5) as nat) as usize,
            ) && s.result == Ok::<Option<(Header, Seq<u8>)>, ParseError>(None)
            &&& input[0] < 5 ==> s.result == Err::<Option<(Header, Seq<u8>)>, ParseError>(
                ParseError::BadFrame(FrameError::BadLength(input[0])),
            )
            &&& (input[0] >= 5 && !crc_ok) ==> s.result == Err::<
                Option<(Header, Seq<u8>)>,
                ParseError,
            >(ParseError::BadFrame(FrameError::BadHeaderCRC))
        }),
{
}

} // verus!
