//! Byte order of 32-bit fields in SensorBridge frames, read and written with
//! the `byteorder` crate.
use byteorder::{BigEndian, ByteOrder, LittleEndian};
use vstd::prelude::*;

verus! {

/// The four bytes of `n`, most significant first.
pub open spec fn spec_be_u32_bytes(n: u32) -> Seq<u8> {
    seq![
        (n / 0x100_0000) as u8,
        ((n / 0x1_0000) % 0x100) as u8,
        ((n / 0x100) % 0x100) as u8,
        (n % 0x100) as u8,
    ]
}

/// The number that the first four bytes of `s` stand for, most significant
/// byte first.
pub open spec fn spec_be_u32_value(s: Seq<u8>) -> int {
    s[0] * 0x100_0000 + s[1] * 0x1_0000 + s[2] * 0x100 + s[3]
}

/// The number that the first four bytes of `s` stand for, least
/// significant byte first.
pub open spec fn spec_le_u32_value(s: Seq<u8>) -> int {
    s[3] * 0x100_0000 + s[2] * 0x1_0000 + s[1] * 0x100 + s[0]
}

/// `BigEndian::read_u32` of byteorder: the first four bytes of `buf` read
/// as a big-endian number (the call panics on fewer than four bytes).
#[verifier::external_body]
fn read_be_u32(buf: &[u8]) -> (r: u32)
    requires
        buf@.len() >= 4,
    ensures
        r == spec_be_u32_value(buf@),
{
    BigEndian::read_u32(buf)
}

/// `LittleEndian::read_u32` of byteorder: the first four bytes of `buf`
/// read as a little-endian number (the call panics on fewer than four
/// bytes).
#[verifier::external_body]
fn read_le_u32(buf: &[u8]) -> (r: u32)
    requires
        buf@.len() >= 4,
    ensures
        r == spec_le_u32_value(buf@),
{
    LittleEndian::read_u32(buf)
}

/// `BigEndian::write_u32` of byteorder: writes `n` most significant byte
/// first into the first four bytes of `buf` and leaves the rest (the call
/// panics on fewer than four bytes).
#[verifier::external_body]
fn write_be_u32(buf: &mut [u8], n: u32)
    requires
        old(buf)@.len() >= 4,
    ensures
        final(buf)@ == spec_be_u32_bytes(n) + old(buf)@.skip(4),
{
    BigEndian::write_u32(buf, n)
}

/// Reads a big-endian 32-bit field at `start`.
pub fn be_u32_at(data: &[u8], start: usize) -> (r: u32)
    requires
        start + 4 <= data@.len(),
    ensures
        r == spec_be_u32_value(data@.subrange(start as int, start + 4)),
{
    let len = data.len();
    assert(start + 4 <= len);
    read_be_u32(&data[start..start + 4])
}

/// Reads a little-endian 32-bit field at the start of `data`.
pub fn le_u32_first(data: &[u8]) -> (r: u32)
    requires
        4 <= data@.len(),
    ensures
        r == spec_le_u32_value(data@),
{
    read_le_u32(data)
}

/// Appends `n` to `d` as four bytes, most significant first.
pub fn push_be_u32(d: &mut Vec<u8>, n: u32)
    ensures
        final(d)@ == old(d)@ + spec_be_u32_bytes(n),
{
    let mut buf: Vec<u8> = vec![0u8, 0u8, 0u8, 0u8];
    write_be_u32(buf.as_mut_slice(), n);
    assert(buf@ =~= spec_be_u32_bytes(n));
    d.append(&mut buf);
}

/// Reading back the four bytes that `spec_be_u32_bytes` writes gives the
/// number that was written.
pub proof fn lemma_be_u32_roundtrip(n: u32)
    ensures
        spec_be_u32_value(spec_be_u32_bytes(n)) == n,
{
    let b = spec_be_u32_bytes(n);
    let n0 = n / 0x100_0000;
    let n1 = (n / 0x1_0000) % 0x100;
    let n2 = (n / 0x100) % 0x100;
    let n3 = n % 0x100;
    assert(n0 < 0x100);
    assert(b[0] == n0 && b[1] == n1 && b[2] == n2 && b[3] == n3);
    assert(n0 * 0x100_0000 + n1 * 0x1_0000 + n2 * 0x100 + n3 == n) by (nonlinear_arith)
        requires
            n0 == n / 0x100_0000,
            n1 == (n / 0x1_0000) % 0x100,
            n2 == (n / 0x100) % 0x100,
            n3 == n % 0x100,
    ;
}

/// The first byte written is the most significant one and the last byte the
/// least significant one.
pub proof fn lemma_be_u32_most_significant_first(n: u32)
    ensures
        spec_be_u32_bytes(n)[0] * 0x100_0000 <= n < (spec_be_u32_bytes(n)[0] + 1) * 0x100_0000,
        spec_be_u32_bytes(n)[3] == n % 0x100,
        spec_be_u32_bytes(n).len() == 4,
{
    let b0 = n / 0x100_0000;
    assert(b0 < 0x100);
    assert(b0 * 0x100_0000 <= n < (b0 + 1) * 0x100_0000) by (nonlinear_arith)
        requires
            b0 == n / 0x100_0000,
    ;
}

} // verus!
