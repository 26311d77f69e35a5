//! Application-layer values that the master's task decisions read.
use vstd::prelude::*;

verus! {

/// Request function codes of the command tasks, with their DNP3 codes.
#[derive(Copy, Clone, Debug, PartialEq, Eq, Structural)]
pub enum FunctionCode {
    /// Code 3.
    Select,
    /// Code 4.
    Operate,
    /// Code 5.
    DirectOperate,
}

/// The function of a response fragment.
#[derive(Copy, Clone, Debug, PartialEq, Eq, Structural)]
pub enum ResponseFunction {
    /// A solicited response (code 129).
    Response,
    /// An unsolicited response (code 130).
    UnsolicitedResponse,
}

impl ResponseFunction {
    pub fn is_unsolicited(&self) -> (b: bool)
        ensures
            b == (*self == ResponseFunction::UnsolicitedResponse),
    {
        match self {
            ResponseFunction::UnsolicitedResponse => true,
            ResponseFunction::Response => false,
        }
    }
}

/// An application sequence number, which counts modulo 16.
#[derive(Copy, Clone, Debug, PartialEq, Eq, Structural)]
pub struct Sequence {
    value: u8,
}

impl Sequence {
    pub closed spec fn spec_value(&self) -> u8 {
        self.value
    }

    /// The sequence number of the four low bits of `x`.
    pub fn new(x: u8) -> (s: Sequence)
        ensures
            s.spec_value() == x % 16,
    {
        Sequence { value: x % 16 }
    }

    pub fn value(&self) -> (v: u8)
        ensures
            v == self.spec_value(),
            v < 16,
    {
        proof {
            use_type_invariant(self);
        }
        self.value
    }

    /// The sequence number that follows this one, modulo 16.
    pub closed spec fn spec_next(&self) -> Sequence {
        Sequence { value: ((self.value + 1) % 16) as u8 }
    }

    pub fn next(&self) -> (s: Sequence)
        ensures
            s == self.spec_next(),
            s.spec_value() == (self.spec_value() + 1) % 16,
    {
        proof {
            use_type_invariant(self);
        }
        Sequence { value: (self.value + 1) % 16 }
    }

    #[verifier::type_invariant]
    spec fn below_sixteen(&self) -> bool {
        self.value < 16
    }
}

/// The control field of an application header.
#[derive(Copy, Clone, Debug, PartialEq, Eq, Structural)]
pub struct ControlField {
    /// First fragment of a message.
    pub fir: bool,
    /// Final fragment of a message.
    pub fin: bool,
    /// The sender asks for a confirmation.
    pub con: bool,
    /// Unsolicited.
    pub uns: bool,
    pub seq: Sequence,
}

impl ControlField {
    pub fn is_fir_and_fin(&self) -> (b: bool)
        ensures
            b == (self.fir && self.fin),
    {
        self.fir && self.fin
    }
}

/// The parts of a response header that the master's decisions read.
#[derive(Copy, Clone, Debug, PartialEq, Eq, Structural)]
pub struct ResponseHeader {
    pub control: ControlField,
    pub function: ResponseFunction,
}

/// Why a buffer size was refused.
#[derive(Copy, Clone, Debug, PartialEq, Eq, Structural)]
pub enum BufferSizeError {
    /// Below the minimum.
    TooSmall(usize),
    /// Above the maximum.
    TooLarge(usize),
}

/// A buffer size of at least `MIN` and at most `MAX` bytes.
#[derive(Copy, Clone, Debug, PartialEq, Eq)]
pub struct BufferSize<const MIN: usize, const MAX: usize> {
    size: usize,
}

impl<const MIN: usize, const MAX: usize> BufferSize<MIN, MAX> {
    pub closed spec fn spec_value(&self) -> usize {
        self.size
    }

    #[verifier::type_invariant]
    spec fn in_range(&self) -> bool {
        MIN <= self.size <= MAX
    }

    /// The size, when it lies in the range.
    pub fn new(size: usize) -> (r: Result<Self, BufferSizeError>)
        ensures
            size < MIN ==> r == Err::<Self, BufferSizeError>(BufferSizeError::TooSmall(size)),
            MIN <= size && size > MAX ==> r == Err::<Self, BufferSizeError>(
                BufferSizeError::TooLarge(size),
            ),
            MIN <= size <= MAX ==> (r matches Ok(b) && b.spec_value() == size),
    {
        if size < MIN {
            Err(BufferSizeError::TooSmall(size))
        } else if size > MAX {
            Err(BufferSizeError::TooLarge(size))
        } else {
            Ok(BufferSize { size })
        }
    }

    pub fn value(&self) -> (v: usize)
        ensures
            v == self.spec_value(),
            MIN <= v <= MAX,
    {
        proof {
            use_type_invariant(self);
        }
        self.size
    }

    /// A buffer of this many zero bytes.
    pub fn create_buffer(&self) -> (b: Vec<u8>)
        ensures
            b@ == Seq::new(self.spec_value() as nat, |i: int| 0u8),
    {
        let mut b: Vec<u8> = Vec::new();
        let mut i: usize = 0;
        while i < self.size
            invariant
                i <= self.size,
                b@ == Seq::new(i as nat, |k: int| 0u8),
            decreases self.size - i,
        {
            b.push(0);
            i = i + 1;
            assert(b@ =~= Seq::new(i as nat, |k: int| 0u8));
        }
        b
    }
}

/// The session was asked to shut down.
#[derive(Copy, Clone, Debug, PartialEq, Eq, Structural)]
pub struct Shutdown;

/// The object headers of a response could not be parsed.
#[derive(Copy, Clone, Debug, PartialEq, Eq, Structural)]
pub struct ObjectParseError;

} // verus!
