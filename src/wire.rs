//! Fixed-width integers as they appear on the wire.
use vstd::prelude::*;

verus! {

/// Little-endian value of the four bytes of `s` starting at `i`.
pub open spec fn le_u32(s: Seq<u8>, i: int) -> u32 {
    (s[i] as int + s[i + 1] as int * 0x100 + s[i + 2] as int * 0x1_0000 + s[i + 3] as int
        * 0x100_0000) as u32
}

/// Little-endian value of the two bytes of `s` starting at `i`.
pub open spec fn le_u16(s: Seq<u8>, i: int) -> u16 {
    (s[i] as int + s[i + 1] as int * 0x100) as u16
}

/// Little-endian signed value of the four bytes of `s` starting at `i`.
pub open spec fn le_i32(s: Seq<u8>, i: int) -> i32 {
    le_u32(s, i) as i32
}

/// Big-endian value of the four bytes of `s` starting at `i`.
pub open spec fn be_u32(s: Seq<u8>, i: int) -> u32 {
    (s[i + 3] as int + s[i + 2] as int * 0x100 + s[i + 1] as int * 0x1_0000 + s[i] as int
        * 0x100_0000) as u32
}

/// The four little-endian bytes of `x`.
pub open spec fn u32_le_bytes(x: u32) -> Seq<u8> {
    seq![
        (x % 0x100) as u8,
        (x / 0x100 % 0x100) as u8,
        (x / 0x1_0000 % 0x100) as u8,
        (x / 0x100_0000) as u8,
    ]
}

/// The four big-endian bytes of `x`.
pub open spec fn u32_be_bytes(x: u32) -> Seq<u8> {
    seq![
        (x / 0x100_0000) as u8,
        (x / 0x1_0000 % 0x100) as u8,
        (x / 0x100 % 0x100) as u8,
        (x % 0x100) as u8,
    ]
}

/// The two little-endian bytes of `x`.
pub open spec fn u16_le_bytes(x: u16) -> Seq<u8> {
    seq![(x % 0x100) as u8, (x / 0x100) as u8]
}

/// The four little-endian bytes of the two's complement of `x`.
pub open spec fn i32_le_bytes(x: i32) -> Seq<u8> {
    u32_le_bytes(x as u32)
}

/// Reads a little-endian `u32` at `at`.
pub fn read_u32_le(b: &[u8], at: usize) -> (r: u32)
    requires
        at + 4 <= b@.len(),
    ensures
        r == le_u32(b@, at as int),
{
    let (b0, b1, b2, b3) = (b[at] as u32, b[at + 1] as u32, b[at + 2] as u32, b[at + 3] as u32);
    assert(b0 + b1 * 0x100 + b2 * 0x1_0000 + b3 * 0x100_0000 <= 0xFFFF_FFFF) by (nonlinear_arith)
        requires
            b0 <= 0xFF,
            b1 <= 0xFF,
            b2 <= 0xFF,
            b3 <= 0xFF,
    ;
    b0 + b1 * 0x100 + b2 * 0x1_0000 + b3 * 0x100_0000
}


/// Reads a little-endian `u16` at `at`.
pub fn read_u16_le(b: &[u8], at: usize) -> (r: u16)
    requires
        at + 2 <= b@.len(),
    ensures
        r == le_u16(b@, at as int),
{
    let (b0, b1) = (b[at] as u16, b[at + 1] as u16);
    b0 + b1 * 0x100
}

/// Reads a little-endian `i32` at `at`.
pub fn read_i32_le(b: &[u8], at: usize) -> (r: i32)
    requires
        at + 4 <= b@.len(),
    ensures
        r == le_i32(b@, at as int),
{
    read_u32_le(b, at) as i32
}

/// Reads a big-endian `u32` at `at`.
pub fn read_u32_be(b: &[u8], at: usize) -> (r: u32)
    requires
        at + 4 <= b@.len(),
    ensures
        r == be_u32(b@, at as int),
{
    let (b3, b2, b1, b0) = (b[at] as u32, b[at + 1] as u32, b[at + 2] as u32, b[at + 3] as u32);
    assert(b0 + b1 * 0x100 + b2 * 0x1_0000 + b3 * 0x100_0000 <= 0xFFFF_FFFF) by (nonlinear_arith)
        requires
            b0 <= 0xFF,
            b1 <= 0xFF,
            b2 <= 0xFF,
            b3 <= 0xFF,
    ;
    b0 + b1 * 0x100 + b2 * 0x1_0000 + b3 * 0x100_0000
}

/// Appends the little-endian bytes of `x`.
pub fn push_u32_le(out: &mut Vec<u8>, x: u32)
    ensures
        final(out)@ == old(out)@ + u32_le_bytes(x),
{
    out.push((x % 0x100) as u8);
    out.push((x / 0x100 % 0x100) as u8);
    out.push((x / 0x1_0000 % 0x100) as u8);
    out.push((x / 0x100_0000) as u8);
    assert(final(out)@ =~= old(out)@ + u32_le_bytes(x));
}

/// Appends the big-endian bytes of `x`.
pub fn push_u32_be(out: &mut Vec<u8>, x: u32)
    ensures
        final(out)@ == old(out)@ + u32_be_bytes(x),
{
    out.push((x / 0x100_0000) as u8);
    out.push((x / 0x1_0000 % 0x100) as u8);
    out.push((x / 0x100 % 0x100) as u8);
    out.push((x % 0x100) as u8);
    assert(final(out)@ =~= old(out)@ + u32_be_bytes(x));
}

/// Appends the little-endian bytes of `x`.
pub fn push_u16_le(out: &mut Vec<u8>, x: u16)
    ensures
        final(out)@ == old(out)@ + u16_le_bytes(x),
{
    out.push((x % 0x100) as u8);
    out.push((x / 0x100) as u8);
    assert(final(out)@ =~= old(out)@ + u16_le_bytes(x));
}

/// Appends the little-endian bytes of `x`.
pub fn push_i32_le(out: &mut Vec<u8>, x: i32)
    ensures
        final(out)@ == old(out)@ + i32_le_bytes(x),
{
    push_u32_le(out, x as u32);
}

/// Reading back the bytes written for a `u32` gives the value.
pub proof fn lemma_u32_le_round_trip(x: u32)
    ensures
        le_u32(u32_le_bytes(x), 0) == x,
{
    let s = u32_le_bytes(x);
    assert(x % 0x100 + x / 0x100 % 0x100 * 0x100 + x / 0x1_0000 % 0x100 * 0x1_0000 + x
        / 0x100_0000 * 0x100_0000 == x) by (bit_vector);
    assert(s[0] == x % 0x100 && s[1] == x / 0x100 % 0x100 && s[2] == x / 0x1_0000 % 0x100 && s[3]
        == x / 0x100_0000);
}

/// Reading back the bytes written for a `u32` gives the value.
pub proof fn lemma_u32_be_round_trip(x: u32)
    ensures
        be_u32(u32_be_bytes(x), 0) == x,
{
    let s = u32_be_bytes(x);
    assert(x % 0x100 + x / 0x100 % 0x100 * 0x100 + x / 0x1_0000 % 0x100 * 0x1_0000 + x
        / 0x100_0000 * 0x100_0000 == x) by (bit_vector);
    assert(s[3] == x % 0x100 && s[2] == x / 0x100 % 0x100 && s[1] == x / 0x1_0000 % 0x100 && s[0]
        == x / 0x100_0000);
}

/// Reading back the bytes written for a `u16` gives the value.
pub proof fn lemma_u16_le_round_trip(x: u16)
    ensures
        le_u16(u16_le_bytes(x), 0) == x,
{
    let s = u16_le_bytes(x);
    assert((x % 0x100) + (x / 0x100) * 0x100 == x) by (bit_vector);
    assert(s[0] == x % 0x100 && s[1] == x / 0x100);
}

/// Reading back the bytes written for an `i32` gives the value.
pub proof fn lemma_i32_le_round_trip(x: i32)
    ensures
        le_i32(i32_le_bytes(x), 0) == x,
{
    lemma_u32_le_round_trip(x as u32);
    assert((x as u32) as i32 == x) by (bit_vector);
}


/// Copies the `len` bytes of `b` starting at `at`.
pub fn copy_range(b: &[u8], at: usize, len: usize) -> (r: Vec<u8>)
    requires
        at + len <= b@.len(),
    ensures
        r@ == b@.subrange(at as int, at + len),
{
    let n = b.len();
    let mut r: Vec<u8> = Vec::with_capacity(len);
    let mut i: usize = 0;
    while i < len
        invariant
            i <= len,
            at + len <= n,
            n == b@.len(),
            r@ == b@.subrange(at as int, at + i),
        decreases len - i,
    {
        r.push(b[at + i]);
        i = i + 1;
        assert(r@ =~= b@.subrange(at as int, at + i));
    }
    r
}

/// Appends every byte of `b`.
pub fn push_all(out: &mut Vec<u8>, b: &[u8])
    ensures
        final(out)@ == old(out)@ + b@,
{
    let mut i: usize = 0;
    while i < b.len()
        invariant
            i <= b@.len(),
            out@ == old(out)@ + b@.subrange(0, i as int),
        decreases b@.len() - i,
    {
        out.push(b[i]);
        i = i + 1;
        assert(out@ =~= old(out)@ + b@.subrange(0, i as int));
    }
    assert(b@.subrange(0, b@.len() as int) =~= b@);
}


/// Where the bytes of `x` stand at `i` in `b`, reading there gives `x`.
pub proof fn lemma_le_i32_at(b: Seq<u8>, i: int, x: i32)
    requires
        0 <= i,
        i + 4 <= b.len(),
        b.subrange(i, i + 4) == i32_le_bytes(x),
    ensures
        le_i32(b, i) == x,
{
    lemma_i32_le_round_trip(x);
    let s = i32_le_bytes(x);
    assert(b[i] == s[0] && b[i + 1] == s[1] && b[i + 2] == s[2] && b[i + 3] == s[3]) by {
        assert(b.subrange(i, i + 4)[0] == b[i]);
        assert(b.subrange(i, i + 4)[1] == b[i + 1]);
        assert(b.subrange(i, i + 4)[2] == b[i + 2]);
        assert(b.subrange(i, i + 4)[3] == b[i + 3]);
    }
}

} // verus!
