//! The E1381 frame checksum: the sum of the octets from the frame number
//! through the terminator, modulo 256, written as two uppercase hex digits.

use vstd::arithmetic::div_mod::lemma_add_mod_noop;
use vstd::prelude::*;

verus! {

/// Sum of all octets of `s`.
pub open spec fn byte_sum(s: Seq<u8>) -> nat
    decreases s.len(),
{
    if s.len() == 0 {
        0
    } else {
        byte_sum(s.drop_last()) + s.last() as nat
    }
}

/// The uppercase ASCII hex digit for a value below 16.
pub open spec fn hex_digit(v: nat) -> u8
    recommends
        v < 16,
{
    if v < 10 {
        (0x30 + v) as u8
    } else {
        (0x41 + v - 10) as u8
    }
}

/// The two uppercase hex digits of a byte value, high digit first.
pub open spec fn hex_pair_of(v: nat) -> (u8, u8)
    recommends
        v < 256,
{
    (hex_digit(v / 16), hex_digit(v % 16))
}

/// The checksum digits of a checksummed region.
pub open spec fn checksum_pair(region: Seq<u8>) -> (u8, u8) {
    hex_pair_of(byte_sum(region) % 256)
}

/// The checksummed region of a whole frame `STX FN text term C1 C2 CR LF`:
/// everything between the leading STX and the two checksum digits.
pub open spec fn frame_region(frame: Seq<u8>) -> Seq<u8> {
    frame.subrange(1, frame.len() - 4)
}

/// An uppercase hex digit for a value below 16.
pub fn hex_digit_of(v: u8) -> (r: u8)
    requires
        v < 16,
    ensures
        r == hex_digit(v as nat),
{
    if v < 10 {
        0x30 + v
    } else {
        0x41 + v - 10
    }
}

/// The two uppercase hex digits of `v`, high digit first; zero is `"00"`.
pub fn hex_pair(v: u8) -> (r: (u8, u8))
    ensures
        r == hex_pair_of(v as nat),
{
    (hex_digit_of(v / 16), hex_digit_of(v % 16))
}

/// The sum of the octets of `region`, modulo 256.
pub fn region_sum(region: &[u8]) -> (r: u8)
    ensures
        r as nat == byte_sum(region@) % 256,
{
    let mut acc: u8 = 0;
    let mut i: usize = 0;
    while i < region.len()
        invariant
            i <= region@.len(),
            acc as nat == byte_sum(region@.take(i as int)) % 256,
        decreases region@.len() - i,
    {
        let b = region[i];
        proof {
            let prev = region@.take(i as int);
            assert(region@.take(i as int + 1).drop_last() == prev);
            lemma_add_mod_noop(byte_sum(prev) as int, b as int, 256);
            assert((b as int) % 256 == b as int);
            assert(((byte_sum(prev) % 256) as int) % 256 == (byte_sum(prev) % 256) as int);
        }
        acc = ((acc as u16 + b as u16) % 256) as u8;
        i = i + 1;
    }
    assert(region@.take(i as int) == region@);
    acc
}

/// The two checksum digits of a checksummed region (from the frame number
/// through the terminator).
pub fn checksum_of_region(region: &[u8]) -> (r: (u8, u8))
    ensures
        r == checksum_pair(region@),
{
    hex_pair(region_sum(region))
}

/// The checksum digits that belong to a whole frame `STX FN text term C1 C2 CR LF`.
/// The sum covers the bytes after STX up to and including the terminator.
pub fn checksum(input: &[u8]) -> (r: (u8, u8))
    requires
        input@.len() >= 5,
    ensures
        r == checksum_pair(frame_region(input@)),
{
    let region = &input[1..input.len() - 4];
    checksum_of_region(region)
}

} // verus!
