use vstd::prelude::*;

use crate::alu::{
    add8, dec16, dec8, inc16, inc8, lemma_flags_byte, sub8, wrap16, z_flag,
};
use crate::cpu::{
    exec_spec, jr_spec, pop16_value, push16_spec, CpuView,
};
use crate::instruction::Instruction;
use crate::mmu::MmuView;
use crate::ppu::{
    bg_pixel, bg_seq_spec, lcd_enabled, ly_iter, ly_step, ppu_step_spec, viewport_seq_spec,
    PpuView, LIGHTEST_GREEN,
};

verus! {

broadcast use lemma_flags_byte;

// ---------------------------------------------------------------------------
// Stack round trip
// ---------------------------------------------------------------------------

/// Law: for any 8-bit values a and b, pushing the 16-bit pair packed from
/// them and popping it back returns the identical pair bit-for-bit, and the
/// stack pointer returns to where it started. The stack must sit above the
/// boot-overlay range and not wrap (a pop from a stack that has wrapped into
/// the overlay range would read the overlay instead).
pub proof fn lemma_push_pop_identity(s: CpuView, m: MmuView, a: u8, b: u8)
    requires
        m.wf(),
        0x102 <= s.sp,
    ensures
        ({
            let pair = ((a as int) * 0x100 + b as int) as u16;
            let (s1, m1) = push16_spec(s, m, pair);
            &&& pop16_value(s1, m1) == pair
            &&& wrap16(s1.sp + 2) == s.sp
        }),
{
    let pair = ((a as int) * 0x100 + b as int) as u16;
    let (s1, m1) = push16_spec(s, m, pair);
    assert(wrap16(s.sp - 1) == s.sp - 1);
    assert(wrap16(s.sp - 2) == s.sp - 2);
    assert(wrap16(s1.sp + 1) == s.sp - 1);
    assert(wrap16(s1.sp + 2) == s.sp);
    assert(m1.ram[s.sp - 1] == ((pair as int / 0x100) as u8));
    assert(m1.ram[s.sp as int] == ((pair as int % 0x100) as u8));
    assert((pair as int) / 0x100 == a as int);
    assert((pair as int) % 0x100 == b as int);
}

// ---------------------------------------------------------------------------
// Pointer increments
// ---------------------------------------------------------------------------

/// A 16-bit value recomposes from its high and low bytes.
pub proof fn lemma_hi_lo(v: u16)
    ensures
        (v as int) / 0x100 * 0x100 + (v as int) % 0x100 == v as int,
{
    vstd::arithmetic::div_mod::lemma_fundamental_div_mod(v as int, 0x100);
}

/// Law, first half: one pointer-increment instruction advances the register
/// pair by exactly one with 16-bit wraparound, touches nothing else on the
/// bus, and — being documented flag-exempt — leaves the flag register
/// untouched.
pub proof fn lemma_pointer_increment(s: CpuView, m: MmuView)
    ensures
        ({
            let (s1, m1) = exec_spec(Instruction::IncHlNoflags, s, m);
            &&& s1.hl() == wrap16(s.hl() + 1)
            &&& s1.f == s.f
            &&& s1.a == s.a && s1.sp == s.sp
            &&& m1 == m
        }),
{
    let (s1, m1) = exec_spec(Instruction::IncHlNoflags, s, m);
    lemma_hi_lo(wrap16(s.hl() + 1));
}

/// The register-pair value after `n` single increments.
pub open spec fn inc_iter(v: u16, n: nat) -> u16
    decreases n,
{
    if n == 0 {
        v
    } else {
        wrap16(inc_iter(v, (n - 1) as nat) + 1)
    }
}

/// Law, second half: `n` pointer increments amount to adding `n` modulo
/// 2^16, so a full cycle of 2^16 increments wraps the pair back to its
/// original value.
pub proof fn lemma_pointer_increment_wraps(v: u16, n: nat)
    ensures
        inc_iter(v, n) == wrap16(v + n),
        inc_iter(v, 0x10000) == v,
{
    lemma_inc_iter_mod(v, n);
    lemma_inc_iter_mod(v, 0x10000);
    vstd::arithmetic::div_mod::lemma_mod_multiples_vanish(1, v as int, 0x10000);
    vstd::arithmetic::div_mod::lemma_small_mod(v as nat, 0x10000nat);
}

/// Induction step for the pointer-increment law: each increment adds one
/// modulo 2^16.
proof fn lemma_inc_iter_mod(v: u16, n: nat)
    ensures
        inc_iter(v, n) == wrap16(v + n),
    decreases n,
{
    if n == 0 {
        vstd::arithmetic::div_mod::lemma_small_mod(v as nat, 0x10000nat);
    } else {
        lemma_inc_iter_mod(v, (n - 1) as nat);
        vstd::arithmetic::div_mod::lemma_add_mod_noop(v + (n - 1) as int, 1, 0x10000);
        vstd::arithmetic::div_mod::lemma_mod_bound(v + (n - 1) as int, 0x10000);
        vstd::arithmetic::div_mod::lemma_small_mod(1nat, 0x10000nat);
        vstd::arithmetic::div_mod::lemma_mod_twice(v + (n - 1) as int, 0x10000);
    }
}

// ---------------------------------------------------------------------------
// Zero flag
// ---------------------------------------------------------------------------

/// Law: the Zero flag comes out set if and only if the arithmetic result is
/// 0x00, for every add, subtract, increment and decrement — including the
/// wrapping cases 0xFF + 1 = 0x00 and 0x00 - 1 = 0xFF.
pub proof fn lemma_zero_flag(x: u8, y: u8, f: u8, v: u16)
    ensures
        z_flag(add8(x, y).1) == (add8(x, y).0 == 0),
        z_flag(sub8(x, y).1) == (sub8(x, y).0 == 0),
        z_flag(inc8(x, f).1) == (inc8(x, f).0 == 0),
        z_flag(dec8(x, f).1) == (dec8(x, f).0 == 0),
        z_flag(inc16(v).1) == (inc16(v).0 == 0),
        z_flag(dec16(v).1) == (dec16(v).0 == 0),
{
}

// ---------------------------------------------------------------------------
// Conditional branches
// ---------------------------------------------------------------------------

/// Law: a conditional branch not taken only steps over its two bytes for the
/// shorter cost of 8 fine cycles; taken, it steps over its two bytes and
/// then adds the signed displacement, for the longer cost of 12 — and a
/// displacement of -2 therefore branches back to the instruction itself.
/// Flags are untouched either way.
pub proof fn lemma_conditional_branch(s: CpuView, d: i8)
    ensures
        jr_spec(s, false, d).pc == wrap16(s.pc + 2),
        jr_spec(s, false, d).t == s.t + 8,
        jr_spec(s, true, d).pc == wrap16(s.pc + 2 + d),
        jr_spec(s, true, d).t == s.t + 12,
        jr_spec(s, false, d).f == s.f,
        jr_spec(s, true, d).f == s.f,
        d == -2 ==> jr_spec(s, true, d).pc == s.pc,
{
    if d == -2 {
        assert(wrap16(s.pc as int) == s.pc);
    }
}

// ---------------------------------------------------------------------------
// Scanline timing
// ---------------------------------------------------------------------------

/// Law, within one scanline: with the picture unit enabled on a visible
/// line and the mode-clock starting at zero, any step that stays inside the
/// 456-cycle budget leaves the raster line alone and lands in OAM-scan,
/// Transfer or HBlank exactly according to the elapsed cycles — so the
/// modes are visited in the order OAM-scan, Transfer, HBlank.
pub proof fn lemma_scanline_phases(p: PpuView, m: MmuView, delta: nat)
    requires
        m.wf(),
        lcd_enabled(m),
        p.mode_clock == 0,
        m.ram[0xFF44] < 144,
        delta < 456,
    ensures
        ({
            let (p1, m1) = ppu_step_spec(p, delta, m);
            &&& m1.ram[0xFF44] == m.ram[0xFF44]
            &&& p1.mode_clock == delta
            &&& (delta < 80 ==> p1.mode == 2)
            &&& (80 <= delta && delta < 252 ==> p1.mode == 3)
            &&& (252 <= delta ==> p1.mode == 0)
        }),
{
    vstd::arithmetic::div_mod::lemma_basic_div(delta as int, 456);
    vstd::arithmetic::div_mod::lemma_small_mod(delta, 456nat);
}

/// Law, at the budget boundary: a step of exactly one scanline budget
/// increments the raster line exactly once (wrapping to zero after line
/// 153) and resets the mode-clock.
pub proof fn lemma_scanline_budget(p: PpuView, m: MmuView)
    requires
        m.wf(),
        lcd_enabled(m),
        p.mode_clock == 0,
    ensures
        ({
            let (p1, m1) = ppu_step_spec(p, 456, m);
            &&& m1.ram[0xFF44] == ly_step(m.ram[0xFF44])
            &&& p1.mode_clock == 0
        }),
{
    vstd::arithmetic::div_mod::lemma_div_by_self(456);
    vstd::arithmetic::div_mod::lemma_mod_self_0(456);
    assert(ly_iter(m.ram[0xFF44], 0) == m.ram[0xFF44]);
}

/// Law, over a frame: the raster line advances modulo 154, so after 154
/// scanline budgets it wraps back to where it started — in particular, from
/// the last line one budget wraps it to zero.
pub proof fn lemma_frame_wrap(ly: u8, n: nat)
    requires
        ly < 154,
    ensures
        ly_iter(ly, n) == ((ly + n) % 154) as u8,
        ly_iter(ly, 154) == ly,
{
    lemma_ly_iter_mod(ly, n);
    lemma_ly_iter_mod(ly, 154);
    vstd::arithmetic::div_mod::lemma_mod_multiples_vanish(1, ly as int, 154);
    vstd::arithmetic::div_mod::lemma_small_mod(ly as nat, 154nat);
}

/// Induction step for the frame-wrap law: each budget adds one modulo 154.
proof fn lemma_ly_iter_mod(ly: u8, n: nat)
    requires
        ly < 154,
    ensures
        ly_iter(ly, n) == ((ly + n) % 154) as u8,
    decreases n,
{
    if n == 0 {
        vstd::arithmetic::div_mod::lemma_small_mod(ly as nat, 154nat);
    } else {
        lemma_ly_iter_mod(ly, (n - 1) as nat);
        vstd::arithmetic::div_mod::lemma_add_mod_noop(ly + (n - 1) as int, 1, 154);
        vstd::arithmetic::div_mod::lemma_mod_bound(ly + (n - 1) as int, 154);
        vstd::arithmetic::div_mod::lemma_small_mod(1nat, 154nat);
        vstd::arithmetic::div_mod::lemma_mod_twice(ly + (n - 1) as int, 154);
    }
}

// ---------------------------------------------------------------------------
// Uniform background
// ---------------------------------------------------------------------------

/// Law, background half: with the whole tile map holding one tile index,
/// that tile's pattern all zero, and the palette mapping value zero to the
/// lightest shade, every background pixel shows the lightest shade.
pub proof fn lemma_uniform_background(m: MmuView, idx: u8, x: int, y: int)
    requires
        m.wf(),
        forall|a: int| 0x9800 <= a < 0x9C00 ==> m.ram[a] == idx,
        forall|a: int| 0x8000 + idx * 16 <= a < 0x8000 + idx * 16 + 16 ==> m.ram[a] == 0u8,
        m.ram[0xFF47] % 4 == 0,
        0 <= x < 256,
        0 <= y < 256,
    ensures
        bg_pixel(m, x, y) == LIGHTEST_GREEN,
{
    assert(0 <= (y / 8) * 32 + (x / 8) < 1024);
    assert(m.ram[0x9800 + (y / 8) * 32 + (x / 8)] == idx);
    assert(0 <= 2 * (y % 8) < 16);
    assert(m.ram[0x8000 + idx * 16 + 2 * (y % 8)] == 0);
    assert(m.ram[0x8000 + idx * 16 + 2 * (y % 8) + 1] == 0);
}

/// Law: a tile map filled with one tile index whose pattern is all zero,
/// under a palette whose entry zero is the lightest shade, produces a
/// uniform lightest-shade viewport regardless of the scroll register
/// values.
pub proof fn lemma_uniform_viewport(m: MmuView, idx: u8, scx: u8, scy: u8, i: int)
    requires
        m.wf(),
        forall|a: int| 0x9800 <= a < 0x9C00 ==> m.ram[a] == idx,
        forall|a: int| 0x8000 + idx * 16 <= a < 0x8000 + idx * 16 + 16 ==> m.ram[a] == 0u8,
        m.ram[0xFF47] % 4 == 0,
        0 <= i < 23040,
    ensures
        viewport_seq_spec(bg_seq_spec(m), scx, scy)[i] == LIGHTEST_GREEN,
{
    let bg = bg_seq_spec(m);
    let col = (scx + i % 160) % 256;
    let row = (scy + i / 160) % 256;
    vstd::arithmetic::div_mod::lemma_mod_bound(scx + i % 160, 256);
    vstd::arithmetic::div_mod::lemma_mod_bound(scy + i / 160, 256);
    let j = row * 256 + col;
    assert(0 <= j < 65536);
    vstd::arithmetic::div_mod::lemma_fundamental_div_mod_converse(j, 256, row, col);
    assert(bg[j] == bg_pixel(m, col, row));
    lemma_uniform_background(m, idx, col, row);
}

} // verus!

