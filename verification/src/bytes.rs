//! The sixteen big-endian bytes of a 128-bit reading.

use vstd::prelude::*;

verus! {

/// The byte of `x` that lies `shift` bits above its lowest bit.
pub open spec fn byte_at(x: u128, shift: u128) -> u8 {
    ((x >> shift) & 0xff) as u8
}

/// The bytes of `x`, most significant first: byte `i` is the one that lies
/// `120 - 8 * i` bits up.
pub open spec fn be_bytes(x: u128) -> Seq<u8> {
    Seq::new(16, |i: int| byte_at(x, (120 - 8 * i) as u128))
}

/// The number whose base-256 digits, most significant first, are `bytes`.
pub open spec fn be_value(bytes: Seq<u8>) -> nat
    decreases bytes.len(),
{
    if bytes.len() == 0 {
        0
    } else {
        be_value(bytes.drop_last()) * 256 + bytes.last() as nat
    }
}

/// Takes one byte out of `x`: shifts right by `shift` bits and keeps the
/// low eight.
fn extract_byte(x: u128, shift: u32) -> (b: u8)
    requires
        shift < 128,
    ensures
        b == byte_at(x, shift as u128),
{
    let low: u128 = (x >> shift) & 0xff;
    assert(low < 0x100) by (bit_vector)
        requires
            low == (x >> shift) & 0xff,
    ;
    low as u8
}

/// Splits `x` into its sixteen bytes, most significant first.
pub fn split_be(x: u128) -> (bytes: [u8; 16])
    ensures
        bytes@ == be_bytes(x),
        be_value(bytes@) == x,
{
    let bytes: [u8; 16] = [
        extract_byte(x, 120),
        extract_byte(x, 112),
        extract_byte(x, 104),
        extract_byte(x, 96),
        extract_byte(x, 88),
        extract_byte(x, 80),
        extract_byte(x, 72),
        extract_byte(x, 64),
        extract_byte(x, 56),
        extract_byte(x, 48),
        extract_byte(x, 40),
        extract_byte(x, 32),
        extract_byte(x, 24),
        extract_byte(x, 16),
        extract_byte(x, 8),
        extract_byte(x, 0),
    ];
    assert(bytes@ =~= be_bytes(x));
    proof {
        lemma_be_bytes_value(x);
    }
    bytes
}

/// The first `k` bytes of `x` are the digits of `x` without its low
/// `128 - 8 * k` bits.
proof fn lemma_prefix_value(x: u128, k: nat)
    requires
        1 <= k <= 16,
    ensures
        be_value(be_bytes(x).take(k as int)) == x >> ((128 - 8 * k) as u128),
    decreases k,
{
    let all = be_bytes(x);
    let head = all.take(k as int);
    let shift: u128 = (128 - 8 * k) as u128;
    let digit: u8 = byte_at(x, shift);
    assert(head.last() == digit);
    assert(head.drop_last() =~= all.take(k - 1));
    if k == 1 {
        assert(be_value(head.drop_last()) == 0);
        assert(((x >> shift) & 0xff) as u8 == x >> shift) by (bit_vector)
            requires
                shift == 120,
        ;
    } else {
        lemma_prefix_value(x, (k - 1) as nat);
        let above: u128 = (shift + 8) as u128;
        assert((x >> above) * 256 + (((x >> shift) & 0xff) as u8) == x >> shift) by (bit_vector)
            requires
                shift <= 112,
                above == shift + 8,
        ;
    }
}

/// The bytes of a reading, read back as base-256 digits, give the reading.
pub proof fn lemma_be_bytes_value(x: u128)
    ensures
        be_bytes(x).len() == 16,
        be_value(be_bytes(x)) == x,
{
    lemma_prefix_value(x, 16);
    assert(be_bytes(x).take(16) =~= be_bytes(x));
    assert(x >> 0u128 == x) by (bit_vector);
}

/// Two readings with the same bytes are the same reading.
pub proof fn lemma_be_bytes_injective(a: u128, b: u128)
    requires
        be_bytes(a) == be_bytes(b),
    ensures
        a == b,
{
    lemma_be_bytes_value(a);
    lemma_be_bytes_value(b);
}

} // verus!
