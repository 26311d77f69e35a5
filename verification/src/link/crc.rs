//! The CRC-16 used by DNP3 link frames (polynomial 0x3D65, reflected,
//! initial value 0, final complement).
use vstd::prelude::*;

verus! {

/// The reflected form of the DNP3 polynomial 0x3D65.
pub const REFLECTED_POLY: u16 = 0xA6BC;

/// One step of the reflected shift register: shift right, and fold in the
/// polynomial when a one bit leaves the register.
pub open spec fn crc_bit_step(reg: u16) -> u16 {
    if reg & 1 == 1 {
        (reg >> 1) ^ REFLECTED_POLY
    } else {
        reg >> 1
    }
}

/// `n` shift-register steps.
pub open spec fn crc_bit_steps(reg: u16, n: nat) -> u16
    decreases n,
{
    if n == 0 {
        reg
    } else {
        crc_bit_step(crc_bit_steps(reg, (n - 1) as nat))
    }
}

/// The register after one input byte.
pub open spec fn crc_byte_step(reg: u16, byte: u8) -> u16 {
    crc_bit_steps(reg ^ (byte as u16), 8)
}

/// The register after feeding `data`, byte by byte, starting from `start`.
pub open spec fn crc_fold(start: u16, data: Seq<u8>) -> u16
    decreases data.len(),
{
    if data.len() == 0 {
        start
    } else {
        crc_byte_step(crc_fold(start, data.drop_last()), data.last())
    }
}

/// The DNP3 CRC of `data`.
pub open spec fn spec_crc(data: Seq<u8>) -> u16 {
    !crc_fold(0, data)
}

/// The two start bytes of every link frame.
pub open spec fn start_bytes() -> Seq<u8> {
    seq![0x05u8, 0x64u8]
}

/// Feeding two pieces one after the other is feeding their concatenation.
pub proof fn lemma_crc_fold_append(start: u16, a: Seq<u8>, b: Seq<u8>)
    ensures
        crc_fold(start, a + b) == crc_fold(crc_fold(start, a), b),
    decreases b.len(),
{
    if b.len() == 0 {
        assert(a + b =~= a);
    } else {
        assert((a + b).drop_last() =~= a + b.drop_last());
        assert((a + b).last() == b.last());
        lemma_crc_fold_append(start, a, b.drop_last());
    }
}

fn bit_step(reg: u16) -> (r: u16)
    ensures
        r == crc_bit_step(reg),
{
    if reg & 1 == 1 {
        (reg >> 1) ^ REFLECTED_POLY
    } else {
        reg >> 1
    }
}

fn byte_step(reg: u16, byte: u8) -> (r: u16)
    ensures
        r == crc_byte_step(reg, byte),
{
    let start: u16 = reg ^ (byte as u16);
    let mut r: u16 = start;
    let mut i: u32 = 0;
    while i < 8
        invariant
            i <= 8,
            r == crc_bit_steps(start, i as nat),
        decreases 8 - i,
    {
        r = bit_step(r);
        i = i + 1;
    }
    r
}

/// Feeds `data` into a register that holds `start`.
fn crc_update(start: u16, data: &[u8]) -> (r: u16)
    ensures
        r == crc_fold(start, data@),
{
    let mut reg: u16 = start;
    let mut i: usize = 0;
    while i < data.len()
        invariant
            i <= data.len(),
            reg == crc_fold(start, data@.take(i as int)),
        decreases data.len() - i,
    {
        assert(data@.take(i + 1).drop_last() =~= data@.take(i as int));
        reg = byte_step(reg, data[i]);
        i = i + 1;
    }
    assert(data@.take(data.len() as int) =~= data@);
    reg
}

/// The DNP3 CRC of `data`.
pub fn calc_crc(data: &[u8]) -> (r: u16)
    ensures
        r == spec_crc(data@),
{
    !crc_update(0, data)
}

/// The CRC of a frame header: the two start bytes 0x05 0x64 followed by `data`.
pub fn calc_crc_with_0564(data: &[u8]) -> (r: u16)
    ensures
        r == spec_crc(start_bytes() + data@),
{
    let reg0 = byte_step(0, 0x05);
    let reg1 = byte_step(reg0, 0x64);
    proof {
        let s = start_bytes();
        assert(s.drop_last() =~= seq![0x05u8]);
        assert(seq![0x05u8].drop_last() =~= Seq::<u8>::empty());
        assert(crc_fold(0, Seq::<u8>::empty()) == 0);
        assert(seq![0x05u8].last() == 0x05u8);
        assert(crc_fold(0, seq![0x05u8]) == reg0);
        assert(s.last() == 0x64u8);
        assert(crc_fold(0, s) == reg1);
        lemma_crc_fold_append(0, s, data@);
    }
    !crc_update(reg1, data)
}

} // verus!
