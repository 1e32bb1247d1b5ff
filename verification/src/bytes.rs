//! Helpers on fixed blocks of thirty-two bytes.

use vstd::prelude::*;

verus! {

/// Two blocks hold the same bytes.
pub fn same_block(a: &[u8; 32], b: &[u8; 32]) -> (same: bool)
    ensures
        same == (a@ == b@),
        same == (*a == *b),
{
    let mut i: usize = 0;
    while i < 32
        invariant
            i <= 32,
            forall|j: int| 0 <= j < i ==> a@[j] == b@[j],
        decreases 32 - i,
    {
        if a[i] != b[i] {
            assert(a@[i as int] != b@[i as int]);
            return false;
        }
        i += 1;
    }
    assert(a@ =~= b@);
    assert(*a =~= *b);
    true
}

/// The block of thirty-two zero bytes.
pub open spec fn zero_block() -> Seq<u8> {
    Seq::new(32, |i: int| 0u8)
}

/// Appends the bytes of `block` to `out`.
pub fn append_block(out: &mut Vec<u8>, block: &[u8; 32])
    ensures
        final(out)@ == old(out)@ + block@,
{
    let mut i: usize = 0;
    while i < 32
        invariant
            i <= 32,
            out@ == old(out)@ + block@.subrange(0, i as int),
        decreases 32 - i,
    {
        out.push(block[i]);
        assert(out@ =~= old(out)@ + block@.subrange(0, i + 1));
        i += 1;
    }
    assert(block@.subrange(0, 32) =~= block@);
}

/// The thirty-two bytes of `bytes` that start at `start`.
pub fn block_at(bytes: &[u8], start: usize) -> (block: [u8; 32])
    requires
        start + 32 <= bytes@.len(),
    ensures
        block@ == bytes@.subrange(start as int, start + 32),
{
    let n: usize = bytes.len();
    let mut block = [0u8; 32];
    let mut i: usize = 0;
    while i < 32
        invariant
            i <= 32,
            n == bytes@.len(),
            start + 32 <= n,
            forall|j: int| 0 <= j < i ==> block@[j] == bytes@[start + j],
        decreases 32 - i,
    {
        block[i] = bytes[start + i];
        i += 1;
    }
    assert(block@ =~= bytes@.subrange(start as int, start + 32));
    block
}

/// The eight base-256 digits of `value`, lowest first.
pub open spec fn le_bytes(value: int) -> Seq<u8> {
    let q1 = value / 256;
    let q2 = q1 / 256;
    let q3 = q2 / 256;
    let q4 = q3 / 256;
    let q5 = q4 / 256;
    let q6 = q5 / 256;
    let q7 = q6 / 256;
    seq![
        (value % 256) as u8,
        (q1 % 256) as u8,
        (q2 % 256) as u8,
        (q3 % 256) as u8,
        (q4 % 256) as u8,
        (q5 % 256) as u8,
        (q6 % 256) as u8,
        (q7 % 256) as u8,
    ]
}

/// The number whose base-256 digits, lowest first, are the first eight bytes of `digits`.
pub open spec fn le_value(digits: Seq<u8>) -> int {
    digits[0] + 256 * (digits[1] + 256 * (digits[2] + 256 * (digits[3] + 256 * (digits[4] + 256
        * (digits[5] + 256 * (digits[6] + 256 * digits[7]))))))
}

/// The digits of a number below 2^64 give the number back.
pub proof fn lemma_le_value_of_bytes(value: int)
    requires
        0 <= value < 0x1_0000_0000_0000_0000,
    ensures
        le_bytes(value).len() == 8,
        le_value(le_bytes(value)) == value,
{
}

/// Eight digits are the digits of their number, which is below 2^64.
pub proof fn lemma_le_bytes_of_value(digits: Seq<u8>)
    requires
        digits.len() == 8,
    ensures
        0 <= le_value(digits) < 0x1_0000_0000_0000_0000,
        le_bytes(le_value(digits)) == digits,
{
    let d7 = digits[7] as int;
    let d6 = digits[6] + 256 * d7;
    let d5 = digits[5] + 256 * d6;
    let d4 = digits[4] + 256 * d5;
    let d3 = digits[3] + 256 * d4;
    let d2 = digits[2] + 256 * d3;
    let d1 = digits[1] + 256 * d2;
    let d0 = digits[0] + 256 * d1;
    assert(d0 / 256 == d1 && d0 % 256 == digits[0]);
    assert(d1 / 256 == d2 && d1 % 256 == digits[1]);
    assert(d2 / 256 == d3 && d2 % 256 == digits[2]);
    assert(d3 / 256 == d4 && d3 % 256 == digits[3]);
    assert(d4 / 256 == d5 && d4 % 256 == digits[4]);
    assert(d5 / 256 == d6 && d5 % 256 == digits[5]);
    assert(d6 / 256 == d7 && d6 % 256 == digits[6]);
    assert(d7 % 256 == digits[7]);
    assert(le_bytes(le_value(digits)) =~= digits);
}

/// The number below 2^64 that stands for a signed 64-bit `value` in two's complement.
pub open spec fn unsigned_of(value: int) -> int {
    if value >= 0 {
        value
    } else {
        value + 0x1_0000_0000_0000_0000
    }
}

/// The signed 64-bit value that a number below 2^64 stands for in two's complement.
pub open spec fn signed_of(value: int) -> int {
    if value < 0x8000_0000_0000_0000 {
        value
    } else {
        value - 0x1_0000_0000_0000_0000
    }
}

/// Appends the eight bytes of `value`, lowest first, in two's complement.
pub fn append_i64(out: &mut Vec<u8>, value: i64)
    ensures
        final(out)@ == old(out)@ + le_bytes(unsigned_of(value as int)),
{
    let unsigned: u64 = if value >= 0 {
        value as u64
    } else {
        ((value - i64::MIN) as u64) + 0x8000_0000_0000_0000u64
    };
    assert(unsigned == unsigned_of(value as int));
    let q1: u64 = unsigned / 256;
    let q2: u64 = q1 / 256;
    let q3: u64 = q2 / 256;
    let q4: u64 = q3 / 256;
    let q5: u64 = q4 / 256;
    let q6: u64 = q5 / 256;
    let q7: u64 = q6 / 256;
    out.push((unsigned % 256) as u8);
    out.push((q1 % 256) as u8);
    out.push((q2 % 256) as u8);
    out.push((q3 % 256) as u8);
    out.push((q4 % 256) as u8);
    out.push((q5 % 256) as u8);
    out.push((q6 % 256) as u8);
    out.push((q7 % 256) as u8);
    assert(out@ =~= old(out)@ + le_bytes(unsigned_of(value as int)));
}

/// The signed 64-bit value whose eight bytes, lowest first, start at `start`.
pub fn i64_at(bytes: &[u8], start: usize) -> (value: i64)
    requires
        start + 8 <= bytes@.len(),
    ensures
        value == signed_of(le_value(bytes@.subrange(start as int, start + 8))),
{
    let n: usize = bytes.len();
    let ghost digits = bytes@.subrange(start as int, start + 8);
    proof {
        assert(start + 8 <= n);
        lemma_le_bytes_of_value(digits);
    }
    let d7: u64 = bytes[start + 7] as u64;
    let d6: u64 = bytes[start + 6] as u64 + 256 * d7;
    let d5: u64 = bytes[start + 5] as u64 + 256 * d6;
    let d4: u64 = bytes[start + 4] as u64 + 256 * d5;
    let d3: u64 = bytes[start + 3] as u64 + 256 * d4;
    let d2: u64 = bytes[start + 2] as u64 + 256 * d3;
    let d1: u64 = bytes[start + 1] as u64 + 256 * d2;
    let d0: u64 = bytes[start] as u64 + 256 * d1;
    assert(d0 == le_value(digits));
    if d0 < 0x8000_0000_0000_0000u64 {
        d0 as i64
    } else {
        ((d0 - 0x8000_0000_0000_0000u64) as i64) + i64::MIN
    }
}

} // verus!
