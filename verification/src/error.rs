//! Errors of the link-layer parser.
use vstd::prelude::*;

use crate::util::cursor::ReadError;

verus! {

/// A frame that breaks the link-layer format.
#[derive(Copy, Clone, Debug, PartialEq, Eq, Structural)]
pub enum FrameError {
    /// The header's length byte is below the minimum of 5.
    BadLength(u8),
    /// The header's CRC does not match its bytes.
    BadHeaderCRC,
    /// A body block's CRC does not match its bytes.
    BadBodyCRC,
}

/// An internal inconsistency: a read or a block size that cannot occur in a
/// well-formed frame.
#[derive(Copy, Clone, Debug, PartialEq, Eq, Structural)]
pub enum LogicError {
    BadRead,
    BadSize,
}

/// Why the parser rejected its input.
#[derive(Copy, Clone, Debug, PartialEq, Eq, Structural)]
pub enum ParseError {
    BadFrame(FrameError),
    BadLogic(LogicError),
}

impl From<ReadError> for ParseError {
    fn from(_err: ReadError) -> (e: ParseError) {
        ParseError::BadLogic(LogicError::BadRead)
    }
}

impl vstd::std_specs::convert::FromSpecImpl<ReadError> for ParseError {
    open spec fn obeys_from_spec() -> bool {
        true
    }

    open spec fn from_spec(_err: ReadError) -> ParseError {
        ParseError::BadLogic(LogicError::BadRead)
    }
}

impl From<FrameError> for ParseError {
    fn from(err: FrameError) -> (e: ParseError) {
        ParseError::BadFrame(err)
    }
}

impl vstd::std_specs::convert::FromSpecImpl<FrameError> for ParseError {
    open spec fn obeys_from_spec() -> bool {
        true
    }

    open spec fn from_spec(err: FrameError) -> ParseError {
        ParseError::BadFrame(err)
    }
}

impl From<LogicError> for ParseError {
    fn from(err: LogicError) -> (e: ParseError) {
        ParseError::BadLogic(err)
    }
}

impl vstd::std_specs::convert::FromSpecImpl<LogicError> for ParseError {
    open spec fn obeys_from_spec() -> bool {
        true
    }

    open spec fn from_spec(err: LogicError) -> ParseError {
        ParseError::BadLogic(err)
    }
}

} // verus!
