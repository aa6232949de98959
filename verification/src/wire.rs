//! Fixed-width integers as bytes: little-endian and big-endian layouts and
//! two's complement, by explicit arithmetic on each byte.

use vstd::prelude::*;

verus! {

/// Order in which the bytes of a multi-byte field are laid out.
#[derive(Debug, Clone, Copy, PartialEq, Eq, Structural)]
pub enum ByteOrder {
    Little,
    Big,
}

pub open spec fn u16_le(x: u16) -> Seq<u8> {
    seq![(x % 256) as u8, (x / 256) as u8]
}

pub open spec fn u32_le(x: u32) -> Seq<u8> {
    seq![
        (x % 256) as u8,
        ((x / 0x100) % 256) as u8,
        ((x / 0x1_0000) % 256) as u8,
        (x / 0x100_0000) as u8,
    ]
}

/// Eight bytes: the low half of `x` first, each half little-endian.
pub open spec fn u64_le(x: u64) -> Seq<u8> {
    u32_le((x % 0x1_0000_0000) as u32) + u32_le((x / 0x1_0000_0000) as u32)
}

pub open spec fn u16_be(x: u16) -> Seq<u8> {
    seq![(x / 256) as u8, (x % 256) as u8]
}

pub open spec fn u32_be(x: u32) -> Seq<u8> {
    seq![
        (x / 0x100_0000) as u8,
        ((x / 0x1_0000) % 256) as u8,
        ((x / 0x100) % 256) as u8,
        (x % 256) as u8,
    ]
}

pub open spec fn u16_in(order: ByteOrder, x: u16) -> Seq<u8> {
    match order {
        ByteOrder::Little => u16_le(x),
        ByteOrder::Big => u16_be(x),
    }
}

pub open spec fn u32_in(order: ByteOrder, x: u32) -> Seq<u8> {
    match order {
        ByteOrder::Little => u32_le(x),
        ByteOrder::Big => u32_be(x),
    }
}

/// The number that two little-endian bytes stand for.
pub open spec fn u16_from_le(b: Seq<u8>) -> u16 {
    (b[0] as int + 256 * b[1] as int) as u16
}

/// The number that four little-endian bytes stand for.
pub open spec fn u32_from_le(b: Seq<u8>) -> u32 {
    (b[0] as int + 0x100 * b[1] as int + 0x1_0000 * b[2] as int + 0x100_0000 * b[3] as int) as u32
}

/// The number that eight little-endian bytes stand for.
pub open spec fn u64_from_le(b: Seq<u8>) -> u64 {
    (u32_from_le(b.subrange(0, 4)) as int + 0x1_0000_0000 * u32_from_le(b.subrange(4, 8)) as int) as u64
}

pub open spec fn u16_from(order: ByteOrder, b: Seq<u8>) -> u16 {
    match order {
        ByteOrder::Little => u16_from_le(b),
        ByteOrder::Big => u16_from_le(seq![b[1], b[0]]),
    }
}

pub open spec fn u32_from(order: ByteOrder, b: Seq<u8>) -> u32 {
    match order {
        ByteOrder::Little => u32_from_le(b),
        ByteOrder::Big => u32_from_le(seq![b[3], b[2], b[1], b[0]]),
    }
}

/// Two's complement pattern of a signed 16-bit number.
pub open spec fn i16_bits(v: i16) -> u16 {
    if v < 0 {
        (v + 0x1_0000) as u16
    } else {
        v as u16
    }
}

/// Two's complement pattern of a signed 32-bit number.
pub open spec fn i32_bits(v: i32) -> u32 {
    if v < 0 {
        (v + 0x1_0000_0000) as u32
    } else {
        v as u32
    }
}

/// Two's complement pattern of a signed 64-bit number.
pub open spec fn i64_bits(v: i64) -> u64 {
    if v < 0 {
        (v + 0x1_0000_0000_0000_0000) as u64
    } else {
        v as u64
    }
}

/// The signed number of a 16-bit two's complement pattern.
pub open spec fn i16_of_bits(u: u16) -> i16 {
    if u >= 0x8000 {
        (u - 0x1_0000) as i16
    } else {
        u as i16
    }
}

/// The signed number of a 32-bit two's complement pattern.
pub open spec fn i32_of_bits(u: u32) -> i32 {
    if u >= 0x8000_0000 {
        (u - 0x1_0000_0000) as i32
    } else {
        u as i32
    }
}

/// The signed number of a 64-bit two's complement pattern.
pub open spec fn i64_of_bits(u: u64) -> i64 {
    if u >= 0x8000_0000_0000_0000 {
        (u - 0x1_0000_0000_0000_0000) as i64
    } else {
        u as i64
    }
}

/// Reading back two laid-out bytes gives the number again.
pub proof fn lemma_u16_round_trip(x: u16, order: ByteOrder)
    ensures
        u16_from_le(u16_le(x)) == x,
        u16_from(order, u16_in(order, x)) == x,
{
    if order == ByteOrder::Big {
        assert(seq![u16_be(x)[1], u16_be(x)[0]] =~= u16_le(x));
    }
}

/// Reading back four laid-out bytes gives the number again.
pub proof fn lemma_u32_round_trip(x: u32, order: ByteOrder)
    ensures
        u32_from_le(u32_le(x)) == x,
        u32_from(order, u32_in(order, x)) == x,
{
    if order == ByteOrder::Big {
        assert(seq![u32_be(x)[3], u32_be(x)[2], u32_be(x)[1], u32_be(x)[0]] =~= u32_le(x));
    }
}

/// Reading back eight laid-out bytes gives the number again.
pub proof fn lemma_u64_round_trip(x: u64)
    ensures
        u64_from_le(u64_le(x)) == x,
{
    let lo = (x % 0x1_0000_0000) as u32;
    let hi = (x / 0x1_0000_0000) as u32;
    assert(u64_le(x).subrange(0, 4) =~= u32_le(lo));
    assert(u64_le(x).subrange(4, 8) =~= u32_le(hi));
    lemma_u32_round_trip(lo, ByteOrder::Little);
    lemma_u32_round_trip(hi, ByteOrder::Little);
}

/// A signed number is found again from its two's complement pattern.
pub proof fn lemma_bits_round_trip(a: i16, b: i32, c: i64)
    ensures
        i16_of_bits(i16_bits(a)) == a,
        i32_of_bits(i32_bits(b)) == b,
        i64_of_bits(i64_bits(c)) == c,
{
}

/// A two's complement pattern is found again from its signed number.
pub proof fn lemma_signed_round_trip(a: u16, b: u32, c: u64)
    ensures
        i16_bits(i16_of_bits(a)) == a,
        i32_bits(i32_of_bits(b)) == b,
        i64_bits(i64_of_bits(c)) == c,
{
}

/// Two little-endian bytes are found again from their number.
pub proof fn lemma_u16_bytes_round_trip(b: Seq<u8>)
    requires
        b.len() == 2,
    ensures
        u16_le(u16_from_le(b)) == b,
{
    assert(u16_le(u16_from_le(b)) =~= b);
}

/// Four little-endian bytes are found again from their number.
pub proof fn lemma_u32_bytes_round_trip(b: Seq<u8>)
    requires
        b.len() == 4,
    ensures
        u32_le(u32_from_le(b)) == b,
{
    let b0 = b[0] as int;
    let b1 = b[1] as int;
    let b2 = b[2] as int;
    let b3 = b[3] as int;
    let hi = b2 + 0x100 * b3;
    let x = b0 + 0x100 * b1 + 0x1_0000 * hi;
    assert(x == u32_from_le(b));
    assert(x % 256 == b0);
    assert(x / 0x100 == b1 + 0x100 * hi);
    assert((x / 0x100) % 256 == b1);
    assert(x / 0x1_0000 == hi);
    assert((x / 0x1_0000) % 256 == b2);
    assert(x / 0x100_0000 == b3);
    assert(u32_le(u32_from_le(b)) =~= b);
}

/// Eight little-endian bytes are found again from their number.
pub proof fn lemma_u64_bytes_round_trip(b: Seq<u8>)
    requires
        b.len() == 8,
    ensures
        u64_le(u64_from_le(b)) == b,
{
    let lo = u32_from_le(b.subrange(0, 4));
    let hi = u32_from_le(b.subrange(4, 8));
    lemma_u32_bytes_round_trip(b.subrange(0, 4));
    lemma_u32_bytes_round_trip(b.subrange(4, 8));
    let x = u64_from_le(b);
    assert(x % 0x1_0000_0000 == lo);
    assert(x / 0x1_0000_0000 == hi);
    assert(u64_le(x) =~= b.subrange(0, 4) + b.subrange(4, 8));
    assert(b.subrange(0, 4) + b.subrange(4, 8) =~= b);
}

pub fn i16_to_bits(v: i16) -> (u: u16)
    ensures
        u == i16_bits(v),
{
    if v >= 0 {
        v as u16
    } else {
        u16::MAX - ((-(v + 1)) as u16)
    }
}

pub fn i32_to_bits(v: i32) -> (u: u32)
    ensures
        u == i32_bits(v),
{
    if v >= 0 {
        v as u32
    } else {
        u32::MAX - ((-(v + 1)) as u32)
    }
}

pub fn i64_to_bits(v: i64) -> (u: u64)
    ensures
        u == i64_bits(v),
{
    if v >= 0 {
        v as u64
    } else {
        u64::MAX - ((-(v + 1)) as u64)
    }
}

pub fn i16_from_bits(u: u16) -> (v: i16)
    ensures
        v == i16_of_bits(u),
{
    if u < 0x8000 {
        u as i16
    } else {
        -((u16::MAX - u) as i16) - 1
    }
}

pub fn i32_from_bits(u: u32) -> (v: i32)
    ensures
        v == i32_of_bits(u),
{
    if u < 0x8000_0000 {
        u as i32
    } else {
        -((u32::MAX - u) as i32) - 1
    }
}

pub fn i64_from_bits(u: u64) -> (v: i64)
    ensures
        v == i64_of_bits(u),
{
    if u < 0x8000_0000_0000_0000 {
        u as i64
    } else {
        -((u64::MAX - u) as i64) - 1
    }
}

/// Appends `x` in little-endian order.
pub fn push_u16_le(buf: &mut Vec<u8>, x: u16)
    ensures
        final(buf)@ == old(buf)@ + u16_le(x),
{
    buf.push((x % 256) as u8);
    buf.push((x / 256) as u8);
    assert(buf@ =~= old(buf)@ + u16_le(x));
}

/// Appends `x` in little-endian order.
pub fn push_u32_le(buf: &mut Vec<u8>, x: u32)
    ensures
        final(buf)@ == old(buf)@ + u32_le(x),
{
    buf.push((x % 256) as u8);
    buf.push(((x / 0x100) % 256) as u8);
    buf.push(((x / 0x1_0000) % 256) as u8);
    buf.push((x / 0x100_0000) as u8);
    assert(buf@ =~= old(buf)@ + u32_le(x));
}

/// Appends `x` in little-endian order.
pub fn push_u64_le(buf: &mut Vec<u8>, x: u64)
    ensures
        final(buf)@ == old(buf)@ + u64_le(x),
{
    push_u32_le(buf, (x % 0x1_0000_0000) as u32);
    push_u32_le(buf, (x / 0x1_0000_0000) as u32);
    assert(buf@ =~= old(buf)@ + u64_le(x));
}

/// Appends `x` in big-endian order.
pub fn push_u32_be(buf: &mut Vec<u8>, x: u32)
    ensures
        final(buf)@ == old(buf)@ + u32_be(x),
{
    buf.push((x / 0x100_0000) as u8);
    buf.push(((x / 0x1_0000) % 256) as u8);
    buf.push(((x / 0x100) % 256) as u8);
    buf.push((x % 256) as u8);
    assert(buf@ =~= old(buf)@ + u32_be(x));
}

/// Appends `x` in the given order.
pub fn push_u16_in(buf: &mut Vec<u8>, order: ByteOrder, x: u16)
    ensures
        final(buf)@ == old(buf)@ + u16_in(order, x),
{
    match order {
        ByteOrder::Little => push_u16_le(buf, x),
        ByteOrder::Big => {
            buf.push((x / 256) as u8);
            buf.push((x % 256) as u8);
            assert(buf@ =~= old(buf)@ + u16_be(x));
        },
    }
}

/// Appends `x` in the given order.
pub fn push_u32_in(buf: &mut Vec<u8>, order: ByteOrder, x: u32)
    ensures
        final(buf)@ == old(buf)@ + u32_in(order, x),
{
    match order {
        ByteOrder::Little => push_u32_le(buf, x),
        ByteOrder::Big => push_u32_be(buf, x),
    }
}

/// Reads two little-endian bytes at `at`.
pub fn read_u16_le(bytes: &[u8], at: usize) -> (x: u16)
    requires
        at + 2 <= bytes@.len(),
    ensures
        x == u16_from_le(bytes@.subrange(at as int, at + 2)),
{
    let b0: u16 = bytes[at] as u16;
    let b1: u16 = bytes[at + 1] as u16;
    b0 + 256 * b1
}

/// Reads four little-endian bytes at `at`.
pub fn read_u32_le(bytes: &[u8], at: usize) -> (x: u32)
    requires
        at + 4 <= bytes@.len(),
    ensures
        x == u32_from_le(bytes@.subrange(at as int, at + 4)),
{
    let b0: u32 = bytes[at] as u32;
    let b1: u32 = bytes[at + 1] as u32;
    let b2: u32 = bytes[at + 2] as u32;
    let b3: u32 = bytes[at + 3] as u32;
    b0 + 0x100 * b1 + 0x1_0000 * b2 + 0x100_0000 * b3
}

/// Reads eight little-endian bytes at `at`.
pub fn read_u64_le(bytes: &[u8], at: usize) -> (x: u64)
    requires
        at + 8 <= bytes@.len(),
    ensures
        x == u64_from_le(bytes@.subrange(at as int, at + 8)),
{
    let n: usize = bytes.len();
    assert(at + 8 <= n);
    let lo: u64 = read_u32_le(bytes, at) as u64;
    let hi: u64 = read_u32_le(bytes, at + 4) as u64;
    proof {
        let b = bytes@.subrange(at as int, at + 8);
        assert(b.subrange(0, 4) =~= bytes@.subrange(at as int, at + 4));
        assert(b.subrange(4, 8) =~= bytes@.subrange(at + 4, at + 8));
    }
    lo + 0x1_0000_0000 * hi
}

/// Reads two bytes at `at` in the given order.
pub fn read_u16_in(bytes: &[u8], order: ByteOrder, at: usize) -> (x: u16)
    requires
        at + 2 <= bytes@.len(),
    ensures
        x == u16_from(order, bytes@.subrange(at as int, at + 2)),
{
    let b0: u16 = bytes[at] as u16;
    let b1: u16 = bytes[at + 1] as u16;
    match order {
        ByteOrder::Little => b0 + 256 * b1,
        ByteOrder::Big => b1 + 256 * b0,
    }
}

/// Reads four bytes at `at` in the given order.
pub fn read_u32_in(bytes: &[u8], order: ByteOrder, at: usize) -> (x: u32)
    requires
        at + 4 <= bytes@.len(),
    ensures
        x == u32_from(order, bytes@.subrange(at as int, at + 4)),
{
    let b0: u32 = bytes[at] as u32;
    let b1: u32 = bytes[at + 1] as u32;
    let b2: u32 = bytes[at + 2] as u32;
    let b3: u32 = bytes[at + 3] as u32;
    match order {
        ByteOrder::Little => b0 + 0x100 * b1 + 0x1_0000 * b2 + 0x100_0000 * b3,
        ByteOrder::Big => b3 + 0x100 * b2 + 0x1_0000 * b1 + 0x100_0000 * b0,
    }
}

} // verus!
