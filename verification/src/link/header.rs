//! The fields of a link frame header.
use vstd::prelude::*;

verus! {

/// Link-layer function codes. The primary (`Pri`) codes carry the PRM bit 0x40.
#[derive(Copy, Clone, Debug, PartialEq, Eq, Structural)]
pub enum Function {
    PriResetLinkStates,
    PriTestLinkStates,
    PriConfirmedUserData,
    PriUnconfirmedUserData,
    PriRequestLinkStatus,
    SecAck,
    SecNack,
    SecLinkStatus,
    SecNotSupported,
    Unknown(u8),
}

/// The function that a code (PRM bit and four function bits) names.
pub open spec fn spec_function(code: u8) -> Function {
    if code == 0x40 {
        Function::PriResetLinkStates
    } else if code == 0x42 {
        Function::PriTestLinkStates
    } else if code == 0x43 {
        Function::PriConfirmedUserData
    } else if code == 0x44 {
        Function::PriUnconfirmedUserData
    } else if code == 0x49 {
        Function::PriRequestLinkStatus
    } else if code == 0x00 {
        Function::SecAck
    } else if code == 0x01 {
        Function::SecNack
    } else if code == 0x0B {
        Function::SecLinkStatus
    } else if code == 0x0F {
        Function::SecNotSupported
    } else {
        Function::Unknown(code)
    }
}

impl Function {
    pub fn from_code(code: u8) -> (f: Function)
        ensures
            f == spec_function(code),
    {
        match code {
            0x40 => Function::PriResetLinkStates,
            0x42 => Function::PriTestLinkStates,
            0x43 => Function::PriConfirmedUserData,
            0x44 => Function::PriUnconfirmedUserData,
            0x49 => Function::PriRequestLinkStatus,
            0x00 => Function::SecAck,
            0x01 => Function::SecNack,
            0x0B => Function::SecLinkStatus,
            0x0F => Function::SecNotSupported,
            _ => Function::Unknown(code),
        }
    }
}

/// The control byte of a frame header.
#[derive(Copy, Clone, Debug, PartialEq, Eq, Structural)]
pub struct Ctrl {
    pub func: Function,
    /// The DIR bit: the frame was sent by a master.
    pub master: bool,
    /// The frame count bit.
    pub fcb: bool,
    /// The frame count valid bit.
    pub fcv: bool,
}

/// The control field that a control byte holds: DIR is bit 7, PRM bit 6,
/// FCB bit 5, FCV bit 4 and the function bits 3..0.
pub open spec fn spec_ctrl(byte: u8) -> Ctrl {
    Ctrl {
        func: spec_function((((byte / 64) % 2) * 64 + byte % 16) as u8),
        master: byte >= 128,
        fcb: (byte / 32) % 2 == 1,
        fcv: (byte / 16) % 2 == 1,
    }
}

impl From<u8> for Ctrl {
    fn from(byte: u8) -> (c: Ctrl) {
        assert(byte & 0x4F == ((byte / 64) % 2) * 64 + byte % 16) by (bit_vector);
        assert((byte & 0x80 != 0) == (byte >= 128)) by (bit_vector);
        assert((byte & 0x20 != 0) == ((byte / 32) % 2 == 1)) by (bit_vector);
        assert((byte & 0x10 != 0) == ((byte / 16) % 2 == 1)) by (bit_vector);
        Ctrl {
            func: Function::from_code(byte & 0x4F),
            master: byte & 0x80 != 0,
            fcb: byte & 0x20 != 0,
            fcv: byte & 0x10 != 0,
        }
    }
}

impl vstd::std_specs::convert::FromSpecImpl<u8> for Ctrl {
    open spec fn obeys_from_spec() -> bool {
        true
    }

    open spec fn from_spec(byte: u8) -> Ctrl {
        spec_ctrl(byte)
    }
}

/// A frame header: control field, destination and source addresses.
#[derive(Copy, Clone, Debug, PartialEq, Eq, Structural)]
pub struct Header {
    pub ctrl: Ctrl,
    pub dest: u16,
    pub src: u16,
}

impl Header {
    pub fn new(ctrl: Ctrl, dest: u16, src: u16) -> (h: Header)
        ensures
            h == (Header { ctrl, dest, src }),
    {
        Header { ctrl, dest, src }
    }
}

} // verus!
