use vstd::prelude::*;

verus! {

// ---------------------------------------------------------------------------
// 8/16-bit helpers
// ---------------------------------------------------------------------------

/// Reduction of any integer to the 16-bit range, for pointer and counter
/// arithmetic that wraps silently.
pub open spec fn wrap16(v: int) -> u16 {
    (v % 0x10000) as u16
}

/// High byte of a 16-bit value.
pub open spec fn hi8(v: u16) -> u8 {
    (v / 0x100) as u8
}

/// Low byte of a 16-bit value.
pub open spec fn lo8(v: u16) -> u8 {
    (v % 0x100) as u8
}

/// The signed reading of an operand byte, for branch displacements.
pub open spec fn to_i8(v: u8) -> i8 {
    if v < 0x80 {
        v as i8
    } else {
        (v - 0x100) as i8
    }
}

// ---------------------------------------------------------------------------
// The flag register
// ---------------------------------------------------------------------------

/// The flag register byte assembled from the four flags: Zero at bit 7,
/// Subtract at bit 6, Half-carry at bit 5, Carry at bit 4; the low nibble
/// always reads zero.
pub open spec fn flags_byte(z: bool, n: bool, h: bool, c: bool) -> u8 {
    ((if z {
        0x80int
    } else {
        0int
    }) + (if n {
        0x40int
    } else {
        0int
    }) + (if h {
        0x20int
    } else {
        0int
    }) + (if c {
        0x10int
    } else {
        0int
    })) as u8
}

pub open spec fn z_flag(f: u8) -> bool {
    (f / 0x80) % 2 == 1
}

pub open spec fn n_flag(f: u8) -> bool {
    (f / 0x40) % 2 == 1
}

pub open spec fn h_flag(f: u8) -> bool {
    (f / 0x20) % 2 == 1
}

pub open spec fn c_flag(f: u8) -> bool {
    (f / 0x10) % 2 == 1
}

/// Reading a flag out of an assembled flag byte gives back the flag that was
/// put in, and the low nibble of the assembled byte always reads zero.
pub broadcast proof fn lemma_flags_byte(z: bool, n: bool, h: bool, c: bool)
    ensures
        z_flag(#[trigger] flags_byte(z, n, h, c)) == z,
        n_flag(flags_byte(z, n, h, c)) == n,
        h_flag(flags_byte(z, n, h, c)) == h,
        c_flag(flags_byte(z, n, h, c)) == c,
        flags_byte(z, n, h, c) % 16 == 0,
{
}

/// The flag register as written by a pop into AF: the top nibble is taken,
/// the low nibble always reads zero.
pub open spec fn mask_low_nibble(v: u8) -> u8 {
    ((v / 16) * 16) as u8
}

// ---------------------------------------------------------------------------
// Arithmetic/flag unit: pure functions from operands to (result, flag byte)
// ---------------------------------------------------------------------------

/// 8-bit add: result wraps; Zero iff the result is 0x00; Subtract cleared;
/// Half-carry on carry out of bit 3; Carry on carry out of bit 7.
pub open spec fn add8(x: u8, y: u8) -> (u8, u8) {
    (
        ((x + y) % 0x100) as u8,
        flags_byte((x + y) % 0x100 == 0, false, (x % 16) + (y % 16) > 15, x + y > 255),
    )
}

/// 8-bit subtract: result wraps; Zero iff the result is 0x00; Subtract set;
/// Half-carry on borrow into bit 3; Carry on borrow into bit 7.
pub open spec fn sub8(x: u8, y: u8) -> (u8, u8) {
    (
        ((x - y + 0x100) % 0x100) as u8,
        flags_byte((x - y + 0x100) % 0x100 == 0, true, (x % 16) < (y % 16), x < y),
    )
}

/// 8-bit increment: as an add of one, except that the Carry flag is exempt
/// and keeps its prior value out of `f`.
pub open spec fn inc8(v: u8, f: u8) -> (u8, u8) {
    (((v + 1) % 0x100) as u8, flags_byte((v + 1) % 0x100 == 0, false, v % 16 == 15, c_flag(f)))
}

/// 8-bit decrement: as a subtract of one, with the Carry flag exempt.
pub open spec fn dec8(v: u8, f: u8) -> (u8, u8) {
    (((v - 1 + 0x100) % 0x100) as u8, flags_byte(v == 1, true, v % 16 == 0, c_flag(f)))
}

/// Flag-setting 16-bit increment: the same flag rule over the bit 11 and
/// bit 15 boundaries, with modular 16-bit wraparound.
pub open spec fn inc16(v: u16) -> (u16, u8) {
    (
        ((v + 1) % 0x10000) as u16,
        flags_byte((v + 1) % 0x10000 == 0, false, v % 0x1000 == 0xFFF, v == 0xFFFF),
    )
}

/// Flag-setting 16-bit decrement, mirroring the increment over the bit 11 and
/// bit 15 boundaries.
pub open spec fn dec16(v: u16) -> (u16, u8) {
    (((v - 1 + 0x10000) % 0x10000) as u16, flags_byte(v == 1, true, v % 0x1000 == 0, v == 0))
}

/// Rotate left through carry: bit 7 moves out into Carry, the prior Carry
/// value (taken from `f`) moves into bit 0; Subtract and Half-carry clear,
/// Zero follows the result.
pub open spec fn rl8(v: u8, f: u8) -> (u8, u8) {
    (
        ((v % 0x80) * 2 + (if c_flag(f) {
            1int
        } else {
            0int
        })) as u8,
        flags_byte(
            (v % 0x80) * 2 + (if c_flag(f) {
                1int
            } else {
                0int
            }) == 0,
            false,
            false,
            v >= 0x80,
        ),
    )
}

/// Exclusive-or into the accumulator: Zero follows the result, the other
/// three flags clear.
pub open spec fn xor8(x: u8, y: u8) -> (u8, u8) {
    (x ^ y, flags_byte(x ^ y == 0, false, false, false))
}

/// Single-bit test: Zero set iff the masked bit is clear; Subtract cleared,
/// Half-carry set, Carry kept from `f`.
pub open spec fn bit_test_flags(v: u8, mask: u8, f: u8) -> u8 {
    flags_byte(v & mask == 0, false, true, c_flag(f))
}

} // verus!
