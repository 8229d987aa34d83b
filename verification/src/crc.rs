//! The 8-bit checksum that guards every measurement the sensor sends.

use vstd::prelude::*;

verus! {

/// One step of the division: shifts the remainder left by one bit and, if a bit
/// fell off the top, subtracts the generator polynomial `x^8 + x^5 + x^4 + 1`.
pub open spec fn crc_shift(remainder: u8) -> u8 {
    if remainder & 0x80 != 0 {
        (remainder << 1) ^ 0x31
    } else {
        remainder << 1
    }
}

/// The remainder after `steps` division steps.
pub open spec fn crc_shifts(remainder: u8, steps: nat) -> u8
    decreases steps,
{
    if steps == 0 {
        remainder
    } else {
        crc_shift(crc_shifts(remainder, (steps - 1) as nat))
    }
}

/// The remainder after one more message byte: the byte is added into the
/// remainder, which is then divided through all eight bits.
pub open spec fn crc_add(remainder: u8, byte: u8) -> u8 {
    crc_shifts(remainder ^ byte, 8)
}

/// The remainder after all of `bytes`, taken in order, starting from `remainder`.
pub open spec fn crc_fold(remainder: u8, bytes: Seq<u8>) -> u8
    decreases bytes.len(),
{
    if bytes.len() == 0 {
        remainder
    } else {
        crc_add(crc_fold(remainder, bytes.drop_last()), bytes.last())
    }
}

/// Whether `bytes` pass the integrity check: fed through a fresh calculator
/// they leave the remainder zero.
pub open spec fn crc_valid(bytes: Seq<u8>) -> bool {
    crc_fold(0, bytes) == 0
}

proof fn lemma_shift_xor(a: u8, b: u8)
    ensures
        crc_shift(a ^ b) == crc_shift(a) ^ crc_shift(b),
{
    assert(crc_shift(a ^ b) == crc_shift(a) ^ crc_shift(b)) by (bit_vector);
}

proof fn lemma_shift_zero(a: u8)
    ensures
        crc_shift(a) == 0 <==> a == 0,
{
    assert(crc_shift(a) == 0 <==> a == 0) by (bit_vector);
}

/// Division steps distribute over the sum (xor) of two remainders.
proof fn lemma_shifts_xor(a: u8, b: u8, steps: nat)
    ensures
        crc_shifts(a ^ b, steps) == crc_shifts(a, steps) ^ crc_shifts(b, steps),
    decreases steps,
{
    if steps > 0 {
        let before = (steps - 1) as nat;
        lemma_shifts_xor(a, b, before);
        lemma_shift_xor(crc_shifts(a, before), crc_shifts(b, before));
    }
}

/// Division steps never turn a nonzero remainder into zero, nor zero into anything else.
proof fn lemma_shifts_zero(a: u8, steps: nat)
    ensures
        crc_shifts(a, steps) == 0 <==> a == 0,
    decreases steps,
{
    if steps > 0 {
        let before = (steps - 1) as nat;
        lemma_shifts_zero(a, before);
        lemma_shift_zero(crc_shifts(a, before));
    }
}

proof fn lemma_shifts_split(a: u8, first: nat, then_more: nat)
    ensures
        crc_shifts(crc_shifts(a, first), then_more) == crc_shifts(a, first + then_more),
    decreases then_more,
{
    if then_more > 0 {
        lemma_shifts_split(a, first, (then_more - 1) as nat);
    }
}

/// A difference `delta` in the remainder before a byte shows after it as
/// `delta` divided through eight more steps.
proof fn lemma_add_xor(remainder: u8, delta: u8, byte: u8)
    ensures
        crc_add(remainder ^ delta, byte) == crc_add(remainder, byte) ^ crc_shifts(delta, 8),
        crc_add(remainder, byte ^ delta) == crc_add(remainder, byte) ^ crc_shifts(delta, 8),
{
    assert((remainder ^ delta) ^ byte == (remainder ^ byte) ^ delta) by (bit_vector);
    assert(remainder ^ (byte ^ delta) == (remainder ^ byte) ^ delta) by (bit_vector);
    lemma_shifts_xor(remainder ^ byte, delta, 8);
}

/// The checksum of a message that differs from `bytes` in the byte at `index`
/// alone, by the bit pattern `delta`, is the checksum of `bytes` plus (xor)
/// `delta` divided through the eight steps of each byte from `index` on.
proof fn lemma_fold_xor_at(remainder: u8, bytes: Seq<u8>, index: int, delta: u8)
    requires
        0 <= index < bytes.len(),
    ensures
        crc_fold(remainder, bytes.update(index, bytes[index] ^ delta)) == crc_fold(
            remainder,
            bytes,
        ) ^ crc_shifts(delta, (8 * (bytes.len() - index)) as nat),
    decreases bytes.len(),
{
    let changed = bytes.update(index, bytes[index] ^ delta);
    let before = crc_fold(remainder, bytes.drop_last());
    if index == bytes.len() - 1 {
        assert(changed.drop_last() =~= bytes.drop_last());
        lemma_add_xor(before, delta, bytes.last());
    } else {
        let rest = bytes.drop_last();
        assert(changed.drop_last() =~= rest.update(index, rest[index] ^ delta));
        lemma_fold_xor_at(remainder, rest, index, delta);
        let carried = crc_shifts(delta, (8 * (rest.len() - index)) as nat);
        lemma_add_xor(before, carried, bytes.last());
        lemma_shifts_split(delta, (8 * (rest.len() - index)) as nat, 8);
    }
}

/// Feeding bytes one run after another is feeding their concatenation.
pub proof fn lemma_crc_fold_concat(remainder: u8, first: Seq<u8>, second: Seq<u8>)
    ensures
        crc_fold(remainder, first + second) == crc_fold(crc_fold(remainder, first), second),
    decreases second.len(),
{
    if second.len() == 0 {
        assert(first + second =~= first);
    } else {
        assert((first + second).drop_last() =~= first + second.drop_last());
        lemma_crc_fold_concat(remainder, first, second.drop_last());
    }
}

/// A message followed by its own checksum passes the integrity check.
pub proof fn lemma_checksum_appended_is_valid(message: Seq<u8>)
    ensures
        crc_valid(message.push(crc_fold(0, message))),
{
    let checksum = crc_fold(0, message);
    let framed = message.push(checksum);
    assert(framed.drop_last() =~= message);
    assert(checksum ^ checksum == 0) by (bit_vector);
    lemma_shifts_zero(0, 8);
}

/// Any change confined to a single byte changes the checksum: whatever the
/// message and wherever it starts from, replacing one byte by a different
/// one never leaves the remainder as it was.
pub proof fn lemma_byte_change_changes_checksum(
    remainder: u8,
    bytes: Seq<u8>,
    index: int,
    replacement: u8,
)
    requires
        0 <= index < bytes.len(),
        replacement != bytes[index],
    ensures
        crc_fold(remainder, bytes.update(index, replacement)) != crc_fold(remainder, bytes),
{
    let original = bytes[index];
    let delta = original ^ replacement;
    assert(original ^ (original ^ replacement) == replacement) by (bit_vector);
    assert(original ^ replacement != 0) by (bit_vector)
        requires
            replacement != original,
    ;
    lemma_fold_xor_at(remainder, bytes, index, delta);
    let carried = crc_shifts(delta, (8 * (bytes.len() - index)) as nat);
    lemma_shifts_zero(delta, (8 * (bytes.len() - index)) as nat);
    let sum = crc_fold(remainder, bytes);
    assert(sum ^ carried != sum) by (bit_vector)
        requires
            carried != 0,
    ;
}

/// Every single-bit error is detected: flipping any one bit of a message
/// that passes the integrity check yields one that fails it.
pub proof fn lemma_single_bit_flip_is_detected(bytes: Seq<u8>, index: int, bit: u8)
    requires
        crc_valid(bytes),
        0 <= index < bytes.len(),
        bit < 8,
    ensures
        !crc_valid(bytes.update(index, bytes[index] ^ (1u8 << bit))),
{
    let original = bytes[index];
    assert(original ^ (1u8 << bit) != original) by (bit_vector)
        requires
            bit < 8,
    ;
    lemma_byte_change_changes_checksum(0, bytes, index, original ^ (1u8 << bit));
}

/// 8-bit CRC, polynomial x^8 + x^5 + x^4 + 1, initialization 0
pub struct Crc {
    value: u8,
}

impl View for Crc {
    type V = u8;

    /// The remainder accumulated so far.
    closed spec fn view(&self) -> u8 {
        self.value
    }
}

impl Crc {
    /// Creates a new CRC calculator initialized to zero
    pub fn new() -> (crc: Self)
        ensures
            crc@ == 0,
    {
        Crc { value: 0 }
    }

    /// Adds a byte to the CRC
    pub fn add(&mut self, byte: u8)
        ensures
            final(self)@ == crc_add(old(self)@, byte),
    {
        self.value ^= byte;
        for i in 0..8usize
            invariant
                self.value == crc_shifts(old(self).value ^ byte, i as nat),
        {
            if (self.value & 0x80) != 0 {
                self.value = (self.value << 1) ^ 0x31;
            } else {
                self.value <<= 1;
            }
        }
    }

    /// Adds bytes from a slice
    pub fn add_all(&mut self, bytes: &[u8])
        ensures
            final(self)@ == crc_fold(old(self)@, bytes@),
    {
        let count = bytes.len();
        for i in 0..count
            invariant
                count == bytes@.len(),
                self@ == crc_fold(old(self)@, bytes@.take(i as int)),
        {
            proof {
                let next = bytes@.take(i + 1);
                assert(next.drop_last() =~= bytes@.take(i as int));
                assert(next.last() == bytes@[i as int]);
            }
            self.add(bytes[i]);
        }
        proof {
            assert(bytes@.take(count as int) =~= bytes@);
        }
    }

    /// Returns the current remainder value
    pub fn value(&self) -> (value: u8)
        ensures
            value == self@,
    {
        self.value
    }
}

} // verus!

