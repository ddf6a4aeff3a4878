//! Big-endian integers in a byte sequence.

use vstd::prelude::*;

verus! {

/// The 16-bit big-endian integer at `at`.
pub open spec fn be16(b: Seq<u8>, at: int) -> u16 {
    (b[at] * 0x100 + b[at + 1]) as u16
}

/// The 32-bit big-endian integer at `at`.
pub open spec fn be32(b: Seq<u8>, at: int) -> u32 {
    (b[at] * 0x100_0000 + b[at + 1] * 0x1_0000 + b[at + 2] * 0x100 + b[at + 3]) as u32
}

/// The two bytes of a 16-bit integer, most significant first.
pub open spec fn be16_bytes(v: u16) -> Seq<u8> {
    seq![(v / 0x100) as u8, (v % 0x100) as u8]
}

/// The four bytes of a 32-bit integer, most significant first.
pub open spec fn be32_bytes(v: u32) -> Seq<u8> {
    seq![
        (v / 0x100_0000) as u8,
        (v / 0x1_0000 % 0x100) as u8,
        (v / 0x100 % 0x100) as u8,
        (v % 0x100) as u8,
    ]
}

/// Reads the 16-bit big-endian integer at `at`.
pub fn read_be16(data: &[u8], at: usize) -> (r: u16)
    requires
        at + 2 <= data@.len(),
    ensures
        r == be16(data@, at as int),
{
    let hi: u16 = data[at] as u16;
    let lo: u16 = data[at + 1] as u16;
    hi * 0x100 + lo
}

/// Reads the 32-bit big-endian integer at `at`.
pub fn read_be32(data: &[u8], at: usize) -> (r: u32)
    requires
        at + 4 <= data@.len(),
    ensures
        r == be32(data@, at as int),
{
    let b0: u32 = data[at] as u32;
    let b1: u32 = data[at + 1] as u32;
    let b2: u32 = data[at + 2] as u32;
    let b3: u32 = data[at + 3] as u32;
    b0 * 0x100_0000 + b1 * 0x1_0000 + b2 * 0x100 + b3
}

/// Appends the two bytes of a 16-bit integer, most significant first.
pub fn push_be16(out: &mut Vec<u8>, v: u16)
    ensures
        final(out)@ == old(out)@ + be16_bytes(v),
{
    out.push((v / 0x100) as u8);
    out.push((v % 0x100) as u8);
    assert(out@ =~= old(out)@ + be16_bytes(v));
}

/// Appends the four bytes of a 32-bit integer, most significant first.
pub fn push_be32(out: &mut Vec<u8>, v: u32)
    ensures
        final(out)@ == old(out)@ + be32_bytes(v),
{
    out.push((v / 0x100_0000) as u8);
    out.push((v / 0x1_0000 % 0x100) as u8);
    out.push((v / 0x100 % 0x100) as u8);
    out.push((v % 0x100) as u8);
    assert(out@ =~= old(out)@ + be32_bytes(v));
}

/// Appends a run of bytes.
pub fn push_all(out: &mut Vec<u8>, bytes: &[u8])
    ensures
        final(out)@ == old(out)@ + bytes@,
{
    let mut i: usize = 0;
    while i < bytes.len()
        invariant
            i <= bytes@.len(),
            out@ == old(out)@ + bytes@.subrange(0, i as int),
        decreases bytes@.len() - i,
    {
        out.push(bytes[i]);
        i += 1;
        assert(out@ =~= old(out)@ + bytes@.subrange(0, i as int));
    }
    assert(bytes@.subrange(0, i as int) =~= bytes@);
}

/// Copies `len` bytes that start at `at`.
pub fn copy_range(data: &[u8], at: usize, len: usize) -> (r: Vec<u8>)
    requires
        at + len <= data@.len(),
    ensures
        r@ == data@.subrange(at as int, at + len),
{
    let total: usize = data.len();
    let mut r: Vec<u8> = Vec::new();
    let mut i: usize = 0;
    while i < len
        invariant
            i <= len,
            total == data@.len(),
            at + len <= total,
            r@ == data@.subrange(at as int, at + i),
        decreases len - i,
    {
        r.push(data[at + i]);
        i += 1;
        assert(r@ =~= data@.subrange(at as int, at + i));
    }
    r
}

/// The four bytes of a 32-bit integer, weighted by their place, sum to it.
pub proof fn lemma_be32_bytes_value(v: u32)
    ensures
        be32_bytes(v).len() == 4,
        be32_bytes(v)[0] * 0x100_0000 + be32_bytes(v)[1] * 0x1_0000 + be32_bytes(v)[2] * 0x100
            + be32_bytes(v)[3] == v,
{
    assert(((v / 0x100_0000) as u8) * 0x100_0000 + ((v / 0x1_0000 % 0x100) as u8) * 0x1_0000 + ((v
        / 0x100 % 0x100) as u8) * 0x100 + ((v % 0x100) as u8) == v) by (bit_vector);
}

/// Reading the bytes of a 16-bit integer gives the integer.
pub proof fn lemma_be16_of_bytes(b: Seq<u8>, at: int, v: u16)
    requires
        0 <= at,
        at + 2 <= b.len(),
        b.subrange(at, at + 2) == be16_bytes(v),
    ensures
        be16(b, at) == v,
{
    let s = b.subrange(at, at + 2);
    assert(s[0] == b[at] && s[1] == b[at + 1]);
}

/// Reading the bytes of a 32-bit integer gives the integer.
pub proof fn lemma_be32_of_bytes(b: Seq<u8>, at: int, v: u32)
    requires
        0 <= at,
        at + 4 <= b.len(),
        b.subrange(at, at + 4) == be32_bytes(v),
    ensures
        be32(b, at) == v,
{
    let s = b.subrange(at, at + 4);
    assert(s[0] == b[at] && s[1] == b[at + 1] && s[2] == b[at + 2] && s[3] == b[at + 3]);
}

/// Writing the 16-bit integer read at `at` gives the two bytes there.
pub proof fn lemma_bytes_of_be16(b: Seq<u8>, at: int)
    requires
        0 <= at,
        at + 2 <= b.len(),
    ensures
        be16_bytes(be16(b, at)) == b.subrange(at, at + 2),
{
    assert(be16_bytes(be16(b, at)) =~= b.subrange(at, at + 2));
}

/// Writing the 32-bit integer read at `at` gives the four bytes there.
pub proof fn lemma_bytes_of_be32(b: Seq<u8>, at: int)
    requires
        0 <= at,
        at + 4 <= b.len(),
    ensures
        be32_bytes(be32(b, at)) == b.subrange(at, at + 4),
{
    assert(be32_bytes(be32(b, at)) =~= b.subrange(at, at + 4));
}

} // verus!
