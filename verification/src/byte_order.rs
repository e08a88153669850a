//! Fixed-width integers as bytes, in either byte order.

use vstd::prelude::*;

verus! {

/// The order in which the bytes of a multi-byte field are laid out.
#[derive(Clone, Copy, Debug, PartialEq, Eq, Structural)]
pub enum ByteOrder {
    /// Least significant byte first.
    Little,
    /// Most significant byte first.
    Big,
}

/// The byte of `x` that holds bits `8 * k` to `8 * k + 7`.
pub open spec fn u32_byte(x: u32, k: u32) -> u8 {
    ((x >> (8 * k)) & 0xff) as u8
}

/// The byte of `x` that holds bits `8 * k` to `8 * k + 7`.
pub open spec fn u16_byte(x: u16, k: u16) -> u8 {
    ((x >> (8 * k)) & 0xff) as u8
}

/// The four bytes of `x` in the given order.
pub open spec fn u32_bytes(order: ByteOrder, x: u32) -> Seq<u8> {
    match order {
        ByteOrder::Little => seq![u32_byte(x, 0), u32_byte(x, 1), u32_byte(x, 2), u32_byte(x, 3)],
        ByteOrder::Big => seq![u32_byte(x, 3), u32_byte(x, 2), u32_byte(x, 1), u32_byte(x, 0)],
    }
}

/// The two bytes of `x` in the given order.
pub open spec fn u16_bytes(order: ByteOrder, x: u16) -> Seq<u8> {
    match order {
        ByteOrder::Little => seq![u16_byte(x, 0), u16_byte(x, 1)],
        ByteOrder::Big => seq![u16_byte(x, 1), u16_byte(x, 0)],
    }
}

/// The value whose bytes, from the least significant up, are `b0` to `b3`.
pub open spec fn u32_join(b0: u8, b1: u8, b2: u8, b3: u8) -> u32 {
    (b0 as u32) | ((b1 as u32) << 8) | ((b2 as u32) << 16) | ((b3 as u32) << 24)
}

/// The value whose low byte is `b0` and whose high byte is `b1`.
pub open spec fn u16_join(b0: u8, b1: u8) -> u16 {
    (b0 as u16) | ((b1 as u16) << 8)
}

/// The value that the first four bytes of `s` stand for in the given order.
pub open spec fn u32_value(order: ByteOrder, s: Seq<u8>) -> u32
    recommends
        s.len() >= 4,
{
    match order {
        ByteOrder::Little => u32_join(s[0], s[1], s[2], s[3]),
        ByteOrder::Big => u32_join(s[3], s[2], s[1], s[0]),
    }
}

/// The value that the first two bytes of `s` stand for in the given order.
pub open spec fn u16_value(order: ByteOrder, s: Seq<u8>) -> u16
    recommends
        s.len() >= 2,
{
    match order {
        ByteOrder::Little => u16_join(s[0], s[1]),
        ByteOrder::Big => u16_join(s[1], s[0]),
    }
}

proof fn lemma_u32_split_join(x: u32)
    ensures
        u32_join(u32_byte(x, 0), u32_byte(x, 1), u32_byte(x, 2), u32_byte(x, 3)) == x,
{
    assert(((((x >> 0u32) & 0xff) as u8) as u32) | (((((x >> 8u32) & 0xff) as u8) as u32) << 8)
        | (((((x >> 16u32) & 0xff) as u8) as u32) << 16) | (((((x >> 24u32) & 0xff) as u8) as u32)
        << 24) == x) by (bit_vector);
}

proof fn lemma_u32_join_split(b0: u8, b1: u8, b2: u8, b3: u8)
    ensures
        u32_byte(u32_join(b0, b1, b2, b3), 0) == b0,
        u32_byte(u32_join(b0, b1, b2, b3), 1) == b1,
        u32_byte(u32_join(b0, b1, b2, b3), 2) == b2,
        u32_byte(u32_join(b0, b1, b2, b3), 3) == b3,
{
    let x = u32_join(b0, b1, b2, b3);
    assert(x == (b0 as u32) | ((b1 as u32) << 8) | ((b2 as u32) << 16) | ((b3 as u32) << 24));
    assert(((x >> 0u32) & 0xff) as u8 == b0 && ((x >> 8u32) & 0xff) as u8 == b1 && ((x >> 16u32)
        & 0xff) as u8 == b2 && ((x >> 24u32) & 0xff) as u8 == b3) by (bit_vector)
        requires
            x == (b0 as u32) | ((b1 as u32) << 8) | ((b2 as u32) << 16) | ((b3 as u32) << 24),
    ;
}

proof fn lemma_u16_split_join(x: u16)
    ensures
        u16_join(u16_byte(x, 0), u16_byte(x, 1)) == x,
{
    assert(((((x >> 0u16) & 0xff) as u8) as u16) | (((((x >> 8u16) & 0xff) as u8) as u16) << 8)
        == x) by (bit_vector);
}

proof fn lemma_u16_join_split(b0: u8, b1: u8)
    ensures
        u16_byte(u16_join(b0, b1), 0) == b0,
        u16_byte(u16_join(b0, b1), 1) == b1,
{
    let x = u16_join(b0, b1);
    assert(x == (b0 as u16) | ((b1 as u16) << 8));
    assert(((x >> 0u16) & 0xff) as u8 == b0 && ((x >> 8u16) & 0xff) as u8 == b1) by (bit_vector)
        requires
            x == (b0 as u16) | ((b1 as u16) << 8),
    ;
}

/// Reading the bytes of a 32-bit value gives the value back.
pub proof fn lemma_u32_value_of_bytes(order: ByteOrder, x: u32)
    ensures
        u32_bytes(order, x).len() == 4,
        u32_value(order, u32_bytes(order, x)) == x,
{
    lemma_u32_split_join(x);
}

/// Writing the value of four bytes gives the four bytes back.
pub proof fn lemma_u32_bytes_of_value(order: ByteOrder, s: Seq<u8>)
    requires
        s.len() == 4,
    ensures
        u32_bytes(order, u32_value(order, s)) == s,
{
    match order {
        ByteOrder::Little => lemma_u32_join_split(s[0], s[1], s[2], s[3]),
        ByteOrder::Big => lemma_u32_join_split(s[3], s[2], s[1], s[0]),
    }
    assert(u32_bytes(order, u32_value(order, s)) =~= s);
}

/// Reading the bytes of a 16-bit value gives the value back.
pub proof fn lemma_u16_value_of_bytes(order: ByteOrder, x: u16)
    ensures
        u16_bytes(order, x).len() == 2,
        u16_value(order, u16_bytes(order, x)) == x,
{
    lemma_u16_split_join(x);
}

/// Writing the value of two bytes gives the two bytes back.
pub proof fn lemma_u16_bytes_of_value(order: ByteOrder, s: Seq<u8>)
    requires
        s.len() == 2,
    ensures
        u16_bytes(order, u16_value(order, s)) == s,
{
    match order {
        ByteOrder::Little => lemma_u16_join_split(s[0], s[1]),
        ByteOrder::Big => lemma_u16_join_split(s[1], s[0]),
    }
    assert(u16_bytes(order, u16_value(order, s)) =~= s);
}

fn byte_of_u32(x: u32, k: u32) -> (b: u8)
    requires
        k < 4,
    ensures
        b == u32_byte(x, k),
{
    let shifted: u32 = (x >> (8 * k)) & 0xff;
    assert((x >> (8 * k)) & 0xff <= 0xff) by (bit_vector);
    shifted as u8
}

fn byte_of_u16(x: u16, k: u16) -> (b: u8)
    requires
        k < 2,
    ensures
        b == u16_byte(x, k),
{
    let shifted: u16 = (x >> (8 * k)) & 0xff;
    assert((x >> (8 * k)) & 0xff <= 0xff) by (bit_vector);
    shifted as u8
}

fn join_u32(b0: u8, b1: u8, b2: u8, b3: u8) -> (x: u32)
    ensures
        x == u32_join(b0, b1, b2, b3),
{
    (b0 as u32) | ((b1 as u32) << 8) | ((b2 as u32) << 16) | ((b3 as u32) << 24)
}

fn join_u16(b0: u8, b1: u8) -> (x: u16)
    ensures
        x == u16_join(b0, b1),
{
    (b0 as u16) | ((b1 as u16) << 8)
}

/// Appends the four bytes of `x` to `out`.
pub(crate) fn push_u32(out: &mut Vec<u8>, order: ByteOrder, x: u32)
    ensures
        final(out)@ == old(out)@ + u32_bytes(order, x),
{
    let b0: u8 = byte_of_u32(x, 0);
    let b1: u8 = byte_of_u32(x, 1);
    let b2: u8 = byte_of_u32(x, 2);
    let b3: u8 = byte_of_u32(x, 3);
    match order {
        ByteOrder::Little => {
            out.push(b0);
            out.push(b1);
            out.push(b2);
            out.push(b3);
        },
        ByteOrder::Big => {
            out.push(b3);
            out.push(b2);
            out.push(b1);
            out.push(b0);
        },
    }
    assert(out@ =~= old(out)@ + u32_bytes(order, x));
}

/// Appends the two bytes of `x` to `out`.
pub(crate) fn push_u16(out: &mut Vec<u8>, order: ByteOrder, x: u16)
    ensures
        final(out)@ == old(out)@ + u16_bytes(order, x),
{
    let b0: u8 = byte_of_u16(x, 0);
    let b1: u8 = byte_of_u16(x, 1);
    match order {
        ByteOrder::Little => {
            out.push(b0);
            out.push(b1);
        },
        ByteOrder::Big => {
            out.push(b1);
            out.push(b0);
        },
    }
    assert(out@ =~= old(out)@ + u16_bytes(order, x));
}

/// Reads the 32-bit value that starts at offset `at` of `bytes`.
pub(crate) fn read_u32(bytes: &[u8], at: usize, order: ByteOrder) -> (x: u32)
    requires
        at + 4 <= bytes@.len(),
    ensures
        x == u32_value(order, bytes@.subrange(at as int, at + 4)),
{
    let b0: u8 = bytes[at];
    let b1: u8 = bytes[at + 1];
    let b2: u8 = bytes[at + 2];
    let b3: u8 = bytes[at + 3];
    match order {
        ByteOrder::Little => join_u32(b0, b1, b2, b3),
        ByteOrder::Big => join_u32(b3, b2, b1, b0),
    }
}

/// Reads the 16-bit value that starts at offset `at` of `bytes`.
pub(crate) fn read_u16(bytes: &[u8], at: usize, order: ByteOrder) -> (x: u16)
    requires
        at + 2 <= bytes@.len(),
    ensures
        x == u16_value(order, bytes@.subrange(at as int, at + 2)),
{
    let b0: u8 = bytes[at];
    let b1: u8 = bytes[at + 1];
    match order {
        ByteOrder::Little => join_u16(b0, b1),
        ByteOrder::Big => join_u16(b1, b0),
    }
}

/// The low half of a 64-bit value.
pub open spec fn u64_low(x: u64) -> u32 {
    (x & 0xffff_ffff) as u32
}

/// The high half of a 64-bit value.
pub open spec fn u64_high(x: u64) -> u32 {
    (x >> 32) as u32
}

/// The eight bytes of `x` in the given order.
pub open spec fn u64_bytes(order: ByteOrder, x: u64) -> Seq<u8> {
    match order {
        ByteOrder::Little => u32_bytes(order, u64_low(x)) + u32_bytes(order, u64_high(x)),
        ByteOrder::Big => u32_bytes(order, u64_high(x)) + u32_bytes(order, u64_low(x)),
    }
}

/// Appends the eight bytes of `x` to `out`.
pub(crate) fn push_u64(out: &mut Vec<u8>, order: ByteOrder, x: u64)
    ensures
        final(out)@ == old(out)@ + u64_bytes(order, x),
{
    assert(x & 0xffff_ffff <= 0xffff_ffff) by (bit_vector);
    assert(x >> 32 <= 0xffff_ffff) by (bit_vector);
    let low: u32 = (x & 0xffff_ffff) as u32;
    let high: u32 = (x >> 32) as u32;
    match order {
        ByteOrder::Little => {
            push_u32(out, order, low);
            push_u32(out, order, high);
        },
        ByteOrder::Big => {
            push_u32(out, order, high);
            push_u32(out, order, low);
        },
    }
    assert(out@ =~= old(out)@ + u64_bytes(order, x));
}

} // verus!
