use vstd::prelude::*;

use crate::alu::{
    add8, bit_test_flags, c_flag, dec16, dec8, flags_byte, h_flag, hi8, inc16, inc8,
    lemma_flags_byte, lo8, mask_low_nibble, n_flag, rl8, sub8, to_i8, wrap16, xor8, z_flag,
};
use crate::instruction::Instruction;
use crate::mmu::{MmuView, MMU};
use crate::ppu::{ppu_step_spec, PPU};

verus! {

broadcast use lemma_flags_byte;

// ---------------------------------------------------------------------------
// Mathematical view of the processor
// ---------------------------------------------------------------------------

/// Register file, program counter, stack pointer, interrupt master enable and
/// the two cycle counters, as the contracts speak of them.
pub ghost struct CpuView {
    pub a: u8,
    pub b: u8,
    pub c: u8,
    pub d: u8,
    pub e: u8,
    pub f: u8,
    pub h: u8,
    pub l: u8,
    pub pc: u16,
    pub sp: u16,
    pub t: nat,
    pub m: nat,
    pub ime: bool,
    pub last_t: nat,
    pub last_m: nat,
}

impl CpuView {
    /// The flag register's low nibble always reads zero, and the fine cycle
    /// counter stays at exactly four times the coarse one.
    pub open spec fn wf(self) -> bool {
        &&& self.f % 16 == 0
        &&& self.t == 4 * self.m
        &&& self.last_t == 4 * self.last_m
    }

    pub open spec fn hl(self) -> u16 {
        (self.h * 0x100 + self.l) as u16
    }

    pub open spec fn bc(self) -> u16 {
        (self.b * 0x100 + self.c) as u16
    }

    pub open spec fn de(self) -> u16 {
        (self.d * 0x100 + self.e) as u16
    }

    pub open spec fn af(self) -> u16 {
        (self.a * 0x100 + self.f) as u16
    }

    /// The state after an instruction has accounted for its cycle cost: the
    /// fine counter grows by `cost`, the coarse one by a quarter of it.
    pub open spec fn cycles(self, cost: int) -> CpuView {
        CpuView { t: (self.t + cost) as nat, m: (self.m + cost / 4) as nat, ..self }
    }

    /// The state after an instruction of length `len` bytes and cycle cost
    /// `cost`: the program counter advances with 16-bit wraparound.
    pub open spec fn step_pc(self, len: int, cost: int) -> CpuView {
        CpuView { pc: wrap16(self.pc + len), ..self.cycles(cost) }
    }
}

// ---------------------------------------------------------------------------
// Decode errors
// ---------------------------------------------------------------------------

/// The register and pointer state at the moment a fatal decode error was
/// raised, carried alongside the offending byte for inspection.
#[derive(Clone, Copy, Debug, PartialEq, Eq)]
pub struct RegSnapshot {
    pub a: u8,
    pub b: u8,
    pub c: u8,
    pub d: u8,
    pub e: u8,
    pub f: u8,
    pub h: u8,
    pub l: u8,
    pub pc: u16,
    pub sp: u16,
}

/// The two fatal, non-recoverable conditions: an opcode with no defined
/// decoding, or a secondary-table byte (after the 0xCB prefix) with none.
/// Either signals a foreign or unimplemented program; the instruction loop
/// must halt rather than execute arbitrary memory as code.
#[derive(Clone, Copy, Debug, PartialEq, Eq)]
pub enum EmuError {
    IllegalOpcode { opcode: u8, regs: RegSnapshot },
    IllegalPrefixedOpcode { sub_opcode: u8, regs: RegSnapshot },
}

pub open spec fn snapshot_spec(s: CpuView) -> RegSnapshot {
    RegSnapshot {
        a: s.a,
        b: s.b,
        c: s.c,
        d: s.d,
        e: s.e,
        f: s.f,
        h: s.h,
        l: s.l,
        pc: s.pc,
        sp: s.sp,
    }
}

/// The error a failed decode reports: the offending byte (the secondary one
/// where the 0xCB prefix was recognised) plus the register snapshot.
pub open spec fn decode_error_spec(s: CpuView, opcode: u8, n1: u8) -> EmuError {
    if opcode == 0xCB {
        EmuError::IllegalPrefixedOpcode { sub_opcode: n1, regs: snapshot_spec(s) }
    } else {
        EmuError::IllegalOpcode { opcode, regs: snapshot_spec(s) }
    }
}

// ---------------------------------------------------------------------------
// Instruction decoding, at the specification level
// ---------------------------------------------------------------------------

/// The secondary, prefixed table: keyed by the byte following the 0xCB
/// prefix, no further operands.
pub open spec fn decode_prefixed_spec(sub: u8) -> Option<Instruction> {
    match sub {
        0x10 => Some(Instruction::RlB),
        0x11 => Some(Instruction::RlC),
        0x12 => Some(Instruction::RlD),
        0x13 => Some(Instruction::RlE),
        0x14 => Some(Instruction::RlH),
        0x15 => Some(Instruction::RlL),
        0x16 => Some(Instruction::RlHl),
        0x17 => Some(Instruction::RlA),
        0x40 => Some(Instruction::BitbB(0x01)),
        0x41 => Some(Instruction::BitbC(0x01)),
        0x42 => Some(Instruction::BitbD(0x01)),
        0x43 => Some(Instruction::BitbE(0x01)),
        0x44 => Some(Instruction::BitbH(0x01)),
        0x45 => Some(Instruction::BitbL(0x01)),
        0x46 => Some(Instruction::BitbHL(0x01)),
        0x47 => Some(Instruction::BitbA(0x01)),
        0x48 => Some(Instruction::BitbB(0x02)),
        0x49 => Some(Instruction::BitbC(0x02)),
        0x4A => Some(Instruction::BitbD(0x02)),
        0x4B => Some(Instruction::BitbE(0x02)),
        0x4C => Some(Instruction::BitbH(0x02)),
        0x4D => Some(Instruction::BitbL(0x02)),
        0x4E => Some(Instruction::BitbHL(0x02)),
        0x4F => Some(Instruction::BitbA(0x02)),
        0x50 => Some(Instruction::BitbB(0x04)),
        0x51 => Some(Instruction::BitbC(0x04)),
        0x52 => Some(Instruction::BitbD(0x04)),
        0x53 => Some(Instruction::BitbE(0x04)),
        0x54 => Some(Instruction::BitbH(0x04)),
        0x55 => Some(Instruction::BitbL(0x04)),
        0x56 => Some(Instruction::BitbHL(0x04)),
        0x57 => Some(Instruction::BitbA(0x04)),
        0x58 => Some(Instruction::BitbB(0x08)),
        0x59 => Some(Instruction::BitbC(0x08)),
        0x5A => Some(Instruction::BitbD(0x08)),
        0x5B => Some(Instruction::BitbE(0x08)),
        0x5C => Some(Instruction::BitbH(0x08)),
        0x5D => Some(Instruction::BitbL(0x08)),
        0x5E => Some(Instruction::BitbHL(0x08)),
        0x5F => Some(Instruction::BitbA(0x08)),
        0x7C => Some(Instruction::BitbH(0x80)),
        _ => None,
    }
}

/// The primary opcode table: maps the byte at the program counter, plus the
/// two bytes that follow it (for 8-bit immediates and little-endian 16-bit
/// immediates), to the decoded instruction. An unmapped byte decodes to
/// nothing and is fatal to the instruction loop.
pub open spec fn decode_spec(op: u8, n1: u8, n2: u8) -> Option<Instruction> {
    let d16: u16 = (n2 * 0x100 + n1) as u16;
    match op {
        0x00 => Some(Instruction::Nop),
        0x01 => Some(Instruction::LdBc(d16)),
        0x02 => Some(Instruction::LdBcA),
        0x03 => Some(Instruction::IncBc),
        0x04 => Some(Instruction::IncB),
        0x05 => Some(Instruction::DecB),
        0x06 => Some(Instruction::LdB(n1)),
        0x0A => Some(Instruction::LdABc),
        0x0C => Some(Instruction::IncC),
        0x0D => Some(Instruction::DecC),
        0x0E => Some(Instruction::LdC(n1)),
        0x11 => Some(Instruction::LdDe(d16)),
        0x12 => Some(Instruction::LdDeA),
        0x13 => Some(Instruction::IncDe),
        0x14 => Some(Instruction::IncD),
        0x15 => Some(Instruction::DecD),
        0x16 => Some(Instruction::LdD(n1)),
        0x17 => Some(Instruction::RLA),
        0x18 => Some(Instruction::Jr(to_i8(n1))),
        0x1A => Some(Instruction::LdADe),
        0x1C => Some(Instruction::IncE),
        0x1D => Some(Instruction::DecE),
        0x1E => Some(Instruction::LdE(n1)),
        0x20 => Some(Instruction::JrNz(to_i8(n1))),
        0x21 => Some(Instruction::LdHl(d16)),
        0x22 => Some(Instruction::LdiHlA),
        0x23 => Some(Instruction::IncHlNoflags),
        0x24 => Some(Instruction::IncH),
        0x25 => Some(Instruction::DecH),
        0x26 => Some(Instruction::LdH(n1)),
        0x28 => Some(Instruction::JrZ(to_i8(n1))),
        0x2A => Some(Instruction::LdiAHl),
        0x2C => Some(Instruction::IncL),
        0x2D => Some(Instruction::DecL),
        0x2E => Some(Instruction::LdL(n1)),
        0x30 => Some(Instruction::JrNc(to_i8(n1))),
        0x31 => Some(Instruction::LdSp(d16)),
        0x32 => Some(Instruction::LddHlA),
        0x33 => Some(Instruction::IncSp),
        0x34 => Some(Instruction::IncHl),
        0x35 => Some(Instruction::DecHl),
        0x36 => Some(Instruction::LdHln(n1)),
        0x38 => Some(Instruction::JrC(to_i8(n1))),
        0x3C => Some(Instruction::IncA),
        0x3D => Some(Instruction::DecA),
        0x3E => Some(Instruction::LdA(n1)),
        0x47 => Some(Instruction::LdBa),
        0x4F => Some(Instruction::LdCa),
        0x57 => Some(Instruction::LdDa),
        0x5F => Some(Instruction::LdEa),
        0x67 => Some(Instruction::LdHa),
        0x6F => Some(Instruction::LdLa),
        0x77 => Some(Instruction::LdHlA),
        0x78 => Some(Instruction::LdAb),
        0x79 => Some(Instruction::LdAc),
        0x7A => Some(Instruction::LdAd),
        0x7B => Some(Instruction::LdAe),
        0x7C => Some(Instruction::LdAh),
        0x7D => Some(Instruction::LdAl),
        0x7F => Some(Instruction::LdAa),
        0x80 => Some(Instruction::AddAb),
        0x81 => Some(Instruction::AddAc),
        0x82 => Some(Instruction::AddAd),
        0x83 => Some(Instruction::AddAe),
        0x84 => Some(Instruction::AddAh),
        0x85 => Some(Instruction::AddAl),
        0x86 => Some(Instruction::AddAhl),
        0x87 => Some(Instruction::AddAa),
        0x90 => Some(Instruction::SubB),
        0x91 => Some(Instruction::SubC),
        0x92 => Some(Instruction::SubD),
        0x93 => Some(Instruction::SubE),
        0x94 => Some(Instruction::SubH),
        0x95 => Some(Instruction::SubL),
        0x96 => Some(Instruction::SubHl),
        0x97 => Some(Instruction::SubA),
        0xA8 => Some(Instruction::XorB),
        0xA9 => Some(Instruction::XorC),
        0xAA => Some(Instruction::XorD),
        0xAB => Some(Instruction::XorE),
        0xAC => Some(Instruction::XorH),
        0xAD => Some(Instruction::XorL),
        0xAE => Some(Instruction::XorHl),
        0xAF => Some(Instruction::XorA),
        0xB8 => Some(Instruction::CpB),
        0xB9 => Some(Instruction::CpC),
        0xBA => Some(Instruction::CpD),
        0xBB => Some(Instruction::CpE),
        0xBC => Some(Instruction::CpH),
        0xBD => Some(Instruction::CpL),
        0xBE => Some(Instruction::CpHl),
        0xBF => Some(Instruction::CpA),
        0xC1 => Some(Instruction::PopBc),
        0xC3 => Some(Instruction::Jp(d16)),
        0xC4 => Some(Instruction::CallNz(d16)),
        0xC5 => Some(Instruction::PushBc),
        0xC6 => Some(Instruction::AddA(n1)),
        0xC9 => Some(Instruction::Ret),
        0xCB => decode_prefixed_spec(n1),
        0xCC => Some(Instruction::CallZ(d16)),
        0xCD => Some(Instruction::Call(d16)),
        0xD1 => Some(Instruction::PopDe),
        0xD4 => Some(Instruction::CallNc(d16)),
        0xD5 => Some(Instruction::PushDe),
        0xD6 => Some(Instruction::Sub(n1)),
        0xDC => Some(Instruction::CallC(d16)),
        0xE0 => Some(Instruction::LdFf00U8a(n1)),
        0xE1 => Some(Instruction::PopHl),
        0xE2 => Some(Instruction::LdFf00Ca),
        0xE5 => Some(Instruction::PushHl),
        0xEA => Some(Instruction::LdXxA(d16)),
        0xEE => Some(Instruction::Xor(n1)),
        0xF0 => Some(Instruction::LdAFf00U8(n1)),
        0xF1 => Some(Instruction::PopAf),
        0xF3 => Some(Instruction::Di),
        0xF5 => Some(Instruction::PushAf),
        0xFB => Some(Instruction::Ei),
        0xFE => Some(Instruction::Cp(n1)),
        _ => None,
    }
}

// ---------------------------------------------------------------------------
// Instruction execution, at the specification level
// ---------------------------------------------------------------------------

/// A relative branch: the program counter first advances over the two
/// instruction bytes, then — only when the branch is taken — adds the signed
/// displacement, with 16-bit wraparound. Taken costs 12 fine cycles, not
/// taken 8.
pub open spec fn jr_spec(s: CpuView, taken: bool, d: i8) -> CpuView {
    if taken {
        CpuView { pc: wrap16(s.pc + 2 + d), ..s.cycles(12) }
    } else {
        CpuView { pc: wrap16(s.pc + 2), ..s.cycles(8) }
    }
}

/// A push: low byte at the current stack pointer, high byte one below, stack
/// pointer down by two with wraparound.
pub open spec fn push16_spec(s: CpuView, m: MmuView, v: u16) -> (CpuView, MmuView) {
    (
        CpuView { sp: wrap16(s.sp - 2), ..s },
        m.write(s.sp, lo8(v)).write(wrap16(s.sp - 1), hi8(v)),
    )
}

/// A call: when taken, pushes the address of the following instruction and
/// jumps, for 24 fine cycles; not taken, it only steps over its three bytes
/// for 12.
pub open spec fn call_spec(s: CpuView, m: MmuView, taken: bool, target: u16) -> (
    CpuView,
    MmuView,
) {
    if taken {
        let (s1, m1) = push16_spec(s, m, wrap16(s.pc + 3));
        (CpuView { pc: target, ..s1.cycles(24) }, m1)
    } else {
        (s.step_pc(3, 12), m)
    }
}

/// What one decoded instruction does to the processor and the bus: register
/// and memory effects, program-counter advance (by the instruction's length,
/// or to a branch target) and cycle accounting.
pub open spec fn exec_spec(inst: Instruction, s: CpuView, m: MmuView) -> (CpuView, MmuView) {
    match inst {
        Instruction::Nop => (s.step_pc(1, 4), m),
        Instruction::LdBc(v) => (CpuView { b: hi8(v), c: lo8(v), ..s.step_pc(3, 12) }, m),
        Instruction::LdDe(v) => (CpuView { d: hi8(v), e: lo8(v), ..s.step_pc(3, 12) }, m),
        Instruction::LdHl(v) => (CpuView { h: hi8(v), l: lo8(v), ..s.step_pc(3, 12) }, m),
        Instruction::LdHln(n) => (s.step_pc(2, 12), m.write(s.hl(), n)),
        Instruction::LdSp(v) => (CpuView { sp: v, ..s.step_pc(3, 12) }, m),
        Instruction::LdA(n) => (CpuView { a: n, ..s.step_pc(2, 8) }, m),
        Instruction::LdB(n) => (CpuView { b: n, ..s.step_pc(2, 8) }, m),
        Instruction::LdC(n) => (CpuView { c: n, ..s.step_pc(2, 8) }, m),
        Instruction::LdD(n) => (CpuView { d: n, ..s.step_pc(2, 8) }, m),
        Instruction::LdE(n) => (CpuView { e: n, ..s.step_pc(2, 8) }, m),
        Instruction::LdH(n) => (CpuView { h: n, ..s.step_pc(2, 8) }, m),
        Instruction::LdL(n) => (CpuView { l: n, ..s.step_pc(2, 8) }, m),
        Instruction::LdAa => (s.step_pc(1, 4), m),
        Instruction::LdBa => (CpuView { b: s.a, ..s.step_pc(1, 4) }, m),
        Instruction::LdCa => (CpuView { c: s.a, ..s.step_pc(1, 4) }, m),
        Instruction::LdDa => (CpuView { d: s.a, ..s.step_pc(1, 4) }, m),
        Instruction::LdEa => (CpuView { e: s.a, ..s.step_pc(1, 4) }, m),
        Instruction::LdHa => (CpuView { h: s.a, ..s.step_pc(1, 4) }, m),
        Instruction::LdLa => (CpuView { l: s.a, ..s.step_pc(1, 4) }, m),
        Instruction::LdAb => (CpuView { a: s.b, ..s.step_pc(1, 4) }, m),
        Instruction::LdAc => (CpuView { a: s.c, ..s.step_pc(1, 4) }, m),
        Instruction::LdAd => (CpuView { a: s.d, ..s.step_pc(1, 4) }, m),
        Instruction::LdAe => (CpuView { a: s.e, ..s.step_pc(1, 4) }, m),
        Instruction::LdAh => (CpuView { a: s.h, ..s.step_pc(1, 4) }, m),
        Instruction::LdAl => (CpuView { a: s.l, ..s.step_pc(1, 4) }, m),
        Instruction::LdBcA => (s.step_pc(1, 8), m.write(s.bc(), s.a)),
        Instruction::LdDeA => (s.step_pc(1, 8), m.write(s.de(), s.a)),
        Instruction::LdHlA => (s.step_pc(1, 8), m.write(s.hl(), s.a)),
        Instruction::LdXxA(addr) => (s.step_pc(3, 16), m.write(addr, s.a)),
        Instruction::LdFf00U8a(n) => (s.step_pc(2, 12), m.write((0xFF00 + n) as u16, s.a)),
        Instruction::LdAFf00U8(n) => (
            CpuView { a: m.read((0xFF00 + n) as u16), ..s.step_pc(2, 12) },
            m,
        ),
        Instruction::LdFf00Ca => (s.step_pc(1, 8), m.write((0xFF00 + s.c) as u16, s.a)),
        Instruction::LddHlA => (
            CpuView { h: hi8(wrap16(s.hl() - 1)), l: lo8(wrap16(s.hl() - 1)), ..s.step_pc(1, 8) },
            m.write(s.hl(), s.a),
        ),
        Instruction::LdiHlA => (
            CpuView { h: hi8(wrap16(s.hl() + 1)), l: lo8(wrap16(s.hl() + 1)), ..s.step_pc(1, 8) },
            m.write(s.hl(), s.a),
        ),
        Instruction::LdiAHl => (
            CpuView {
                a: m.read(s.hl()),
                h: hi8(wrap16(s.hl() + 1)),
                l: lo8(wrap16(s.hl() + 1)),
                ..s.step_pc(1, 8)
            },
            m,
        ),
        Instruction::LdABc => (CpuView { a: m.read(s.bc()), ..s.step_pc(1, 8) }, m),
        Instruction::LdADe => (CpuView { a: m.read(s.de()), ..s.step_pc(1, 8) }, m),
        Instruction::XorA => (
            CpuView { a: xor8(s.a, s.a).0, f: xor8(s.a, s.a).1, ..s.step_pc(1, 4) },
            m,
        ),
        Instruction::XorB => (
            CpuView { a: xor8(s.a, s.b).0, f: xor8(s.a, s.b).1, ..s.step_pc(1, 4) },
            m,
        ),
        Instruction::XorC => (
            CpuView { a: xor8(s.a, s.c).0, f: xor8(s.a, s.c).1, ..s.step_pc(1, 4) },
            m,
        ),
        Instruction::XorD => (
            CpuView { a: xor8(s.a, s.d).0, f: xor8(s.a, s.d).1, ..s.step_pc(1, 4) },
            m,
        ),
        Instruction::XorE => (
            CpuView { a: xor8(s.a, s.e).0, f: xor8(s.a, s.e).1, ..s.step_pc(1, 4) },
            m,
        ),
        Instruction::XorH => (
            CpuView { a: xor8(s.a, s.h).0, f: xor8(s.a, s.h).1, ..s.step_pc(1, 4) },
            m,
        ),
        Instruction::XorL => (
            CpuView { a: xor8(s.a, s.l).0, f: xor8(s.a, s.l).1, ..s.step_pc(1, 4) },
            m,
        ),
        Instruction::XorHl => (
            CpuView {
                a: xor8(s.a, m.read(s.hl())).0,
                f: xor8(s.a, m.read(s.hl())).1,
                ..s.step_pc(1, 8)
            },
            m,
        ),
        Instruction::Xor(n) => (
            CpuView { a: xor8(s.a, n).0, f: xor8(s.a, n).1, ..s.step_pc(2, 8) },
            m,
        ),
        Instruction::BitbA(mask) => (
            CpuView { f: bit_test_flags(s.a, mask, s.f), ..s.step_pc(2, 8) },
            m,
        ),
        Instruction::BitbB(mask) => (
            CpuView { f: bit_test_flags(s.b, mask, s.f), ..s.step_pc(2, 8) },
            m,
        ),
        Instruction::BitbC(mask) => (
            CpuView { f: bit_test_flags(s.c, mask, s.f), ..s.step_pc(2, 8) },
            m,
        ),
        Instruction::BitbD(mask) => (
            CpuView { f: bit_test_flags(s.d, mask, s.f), ..s.step_pc(2, 8) },
            m,
        ),
        Instruction::BitbE(mask) => (
            CpuView { f: bit_test_flags(s.e, mask, s.f), ..s.step_pc(2, 8) },
            m,
        ),
        Instruction::BitbH(mask) => (
            CpuView { f: bit_test_flags(s.h, mask, s.f), ..s.step_pc(2, 8) },
            m,
        ),
        Instruction::BitbL(mask) => (
            CpuView { f: bit_test_flags(s.l, mask, s.f), ..s.step_pc(2, 8) },
            m,
        ),
        Instruction::BitbHL(mask) => (
            CpuView { f: bit_test_flags(m.read(s.hl()), mask, s.f), ..s.step_pc(2, 12) },
            m,
        ),
        Instruction::Jr(d) => (jr_spec(s, true, d), m),
        Instruction::JrNz(d) => (jr_spec(s, !z_flag(s.f), d), m),
        Instruction::JrZ(d) => (jr_spec(s, z_flag(s.f), d), m),
        Instruction::JrNc(d) => (jr_spec(s, !c_flag(s.f), d), m),
        Instruction::JrC(d) => (jr_spec(s, c_flag(s.f), d), m),
        Instruction::Jp(a) => (CpuView { pc: a, ..s.cycles(16) }, m),
        Instruction::IncA => (
            CpuView { a: inc8(s.a, s.f).0, f: inc8(s.a, s.f).1, ..s.step_pc(1, 4) },
            m,
        ),
        Instruction::IncB => (
            CpuView { b: inc8(s.b, s.f).0, f: inc8(s.b, s.f).1, ..s.step_pc(1, 4) },
            m,
        ),
        Instruction::IncC => (
            CpuView { c: inc8(s.c, s.f).0, f: inc8(s.c, s.f).1, ..s.step_pc(1, 4) },
            m,
        ),
        Instruction::IncD => (
            CpuView { d: inc8(s.d, s.f).0, f: inc8(s.d, s.f).1, ..s.step_pc(1, 4) },
            m,
        ),
        Instruction::IncE => (
            CpuView { e: inc8(s.e, s.f).0, f: inc8(s.e, s.f).1, ..s.step_pc(1, 4) },
            m,
        ),
        Instruction::IncH => (
            CpuView { h: inc8(s.h, s.f).0, f: inc8(s.h, s.f).1, ..s.step_pc(1, 4) },
            m,
        ),
        Instruction::IncL => (
            CpuView { l: inc8(s.l, s.f).0, f: inc8(s.l, s.f).1, ..s.step_pc(1, 4) },
            m,
        ),
        Instruction::IncBc => (
            CpuView { b: hi8(wrap16(s.bc() + 1)), c: lo8(wrap16(s.bc() + 1)), ..s.step_pc(1, 8) },
            m,
        ),
        Instruction::IncDe => (
            CpuView { d: hi8(wrap16(s.de() + 1)), e: lo8(wrap16(s.de() + 1)), ..s.step_pc(1, 8) },
            m,
        ),
        Instruction::IncHlNoflags => (
            CpuView { h: hi8(wrap16(s.hl() + 1)), l: lo8(wrap16(s.hl() + 1)), ..s.step_pc(1, 8) },
            m,
        ),
        Instruction::IncSp => (CpuView { sp: wrap16(s.sp + 1), ..s.step_pc(1, 8) }, m),
        Instruction::IncHl => (
            CpuView {
                h: hi8(inc16(s.hl()).0),
                l: lo8(inc16(s.hl()).0),
                f: inc16(s.hl()).1,
                ..s.step_pc(1, 4)
            },
            m,
        ),
        Instruction::DecHl => (
            CpuView {
                h: hi8(dec16(s.hl()).0),
                l: lo8(dec16(s.hl()).0),
                f: dec16(s.hl()).1,
                ..s.step_pc(1, 4)
            },
            m,
        ),
        Instruction::Call(a) => call_spec(s, m, true, a),
        Instruction::CallNz(a) => call_spec(s, m, !z_flag(s.f), a),
        Instruction::CallZ(a) => call_spec(s, m, z_flag(s.f), a),
        Instruction::CallNc(a) => call_spec(s, m, !c_flag(s.f), a),
        Instruction::CallC(a) => call_spec(s, m, c_flag(s.f), a),
        Instruction::PushAf => {
            let (s1, m1) = push16_spec(s, m, s.af());
            (s1.step_pc(1, 16), m1)
        },
        Instruction::PushBc => {
            let (s1, m1) = push16_spec(s, m, s.bc());
            (s1.step_pc(1, 16), m1)
        },
        Instruction::PushDe => {
            let (s1, m1) = push16_spec(s, m, s.de());
            (s1.step_pc(1, 16), m1)
        },
        Instruction::PushHl => {
            let (s1, m1) = push16_spec(s, m, s.hl());
            (s1.step_pc(1, 16), m1)
        },
        Instruction::PopAf => (
            CpuView {
                a: hi8(pop16_value(s, m)),
                f: mask_low_nibble(lo8(pop16_value(s, m))),
                sp: wrap16(s.sp + 2),
                ..s.step_pc(1, 12)
            },
            m,
        ),
        Instruction::PopBc => (
            CpuView {
                b: hi8(pop16_value(s, m)),
                c: lo8(pop16_value(s, m)),
                sp: wrap16(s.sp + 2),
                ..s.step_pc(1, 12)
            },
            m,
        ),
        Instruction::PopDe => (
            CpuView {
                d: hi8(pop16_value(s, m)),
                e: lo8(pop16_value(s, m)),
                sp: wrap16(s.sp + 2),
                ..s.step_pc(1, 12)
            },
            m,
        ),
        Instruction::PopHl => (
            CpuView {
                h: hi8(pop16_value(s, m)),
                l: lo8(pop16_value(s, m)),
                sp: wrap16(s.sp + 2),
                ..s.step_pc(1, 12)
            },
            m,
        ),
        Instruction::RLA => (
            CpuView { a: rl8(s.a, s.f).0, f: rl8(s.a, s.f).1, ..s.step_pc(1, 4) },
            m,
        ),
        Instruction::RlA => (
            CpuView { a: rl8(s.a, s.f).0, f: rl8(s.a, s.f).1, ..s.step_pc(2, 8) },
            m,
        ),
        Instruction::RlB => (
            CpuView { b: rl8(s.b, s.f).0, f: rl8(s.b, s.f).1, ..s.step_pc(2, 8) },
            m,
        ),
        Instruction::RlC => (
            CpuView { c: rl8(s.c, s.f).0, f: rl8(s.c, s.f).1, ..s.step_pc(2, 8) },
            m,
        ),
        Instruction::RlD => (
            CpuView { d: rl8(s.d, s.f).0, f: rl8(s.d, s.f).1, ..s.step_pc(2, 8) },
            m,
        ),
        Instruction::RlE => (
            CpuView { e: rl8(s.e, s.f).0, f: rl8(s.e, s.f).1, ..s.step_pc(2, 8) },
            m,
        ),
        Instruction::RlH => (
            CpuView { h: rl8(s.h, s.f).0, f: rl8(s.h, s.f).1, ..s.step_pc(2, 8) },
            m,
        ),
        Instruction::RlL => (
            CpuView { l: rl8(s.l, s.f).0, f: rl8(s.l, s.f).1, ..s.step_pc(2, 8) },
            m,
        ),
        Instruction::RlHl => (
            CpuView { f: rl8(m.read(s.hl()), s.f).1, ..s.step_pc(2, 16) },
            m.write(s.hl(), rl8(m.read(s.hl()), s.f).0),
        ),
        Instruction::DecA => (
            CpuView { a: dec8(s.a, s.f).0, f: dec8(s.a, s.f).1, ..s.step_pc(1, 4) },
            m,
        ),
        Instruction::DecB => (
            CpuView { b: dec8(s.b, s.f).0, f: dec8(s.b, s.f).1, ..s.step_pc(1, 4) },
            m,
        ),
        Instruction::DecC => (
            CpuView { c: dec8(s.c, s.f).0, f: dec8(s.c, s.f).1, ..s.step_pc(1, 4) },
            m,
        ),
        Instruction::DecD => (
            CpuView { d: dec8(s.d, s.f).0, f: dec8(s.d, s.f).1, ..s.step_pc(1, 4) },
            m,
        ),
        Instruction::DecE => (
            CpuView { e: dec8(s.e, s.f).0, f: dec8(s.e, s.f).1, ..s.step_pc(1, 4) },
            m,
        ),
        Instruction::DecH => (
            CpuView { h: dec8(s.h, s.f).0, f: dec8(s.h, s.f).1, ..s.step_pc(1, 4) },
            m,
        ),
        Instruction::DecL => (
            CpuView { l: dec8(s.l, s.f).0, f: dec8(s.l, s.f).1, ..s.step_pc(1, 4) },
            m,
        ),
        Instruction::SubA => (
            CpuView { a: sub8(s.a, s.a).0, f: sub8(s.a, s.a).1, ..s.step_pc(1, 4) },
            m,
        ),
        Instruction::SubB => (
            CpuView { a: sub8(s.a, s.b).0, f: sub8(s.a, s.b).1, ..s.step_pc(1, 4) },
            m,
        ),
        Instruction::SubC => (
            CpuView { a: sub8(s.a, s.c).0, f: sub8(s.a, s.c).1, ..s.step_pc(1, 4) },
            m,
        ),
        Instruction::SubD => (
            CpuView { a: sub8(s.a, s.d).0, f: sub8(s.a, s.d).1, ..s.step_pc(1, 4) },
            m,
        ),
        Instruction::SubE => (
            CpuView { a: sub8(s.a, s.e).0, f: sub8(s.a, s.e).1, ..s.step_pc(1, 4) },
            m,
        ),
        Instruction::SubH => (
            CpuView { a: sub8(s.a, s.h).0, f: sub8(s.a, s.h).1, ..s.step_pc(1, 4) },
            m,
        ),
        Instruction::SubL => (
            CpuView { a: sub8(s.a, s.l).0, f: sub8(s.a, s.l).1, ..s.step_pc(1, 4) },
            m,
        ),
        Instruction::SubHl => (
            CpuView {
                a: sub8(s.a, m.read(s.hl())).0,
                f: sub8(s.a, m.read(s.hl())).1,
                ..s.step_pc(1, 8)
            },
            m,
        ),
        Instruction::Sub(n) => (
            CpuView { a: sub8(s.a, n).0, f: sub8(s.a, n).1, ..s.step_pc(2, 8) },
            m,
        ),
        Instruction::AddAa => (
            CpuView { a: add8(s.a, s.a).0, f: add8(s.a, s.a).1, ..s.step_pc(1, 4) },
            m,
        ),
        Instruction::AddAb => (
            CpuView { a: add8(s.a, s.b).0, f: add8(s.a, s.b).1, ..s.step_pc(1, 4) },
            m,
        ),
        Instruction::AddAc => (
            CpuView { a: add8(s.a, s.c).0, f: add8(s.a, s.c).1, ..s.step_pc(1, 4) },
            m,
        ),
        Instruction::AddAd => (
            CpuView { a: add8(s.a, s.d).0, f: add8(s.a, s.d).1, ..s.step_pc(1, 4) },
            m,
        ),
        Instruction::AddAe => (
            CpuView { a: add8(s.a, s.e).0, f: add8(s.a, s.e).1, ..s.step_pc(1, 4) },
            m,
        ),
        Instruction::AddAh => (
            CpuView { a: add8(s.a, s.h).0, f: add8(s.a, s.h).1, ..s.step_pc(1, 4) },
            m,
        ),
        Instruction::AddAl => (
            CpuView { a: add8(s.a, s.l).0, f: add8(s.a, s.l).1, ..s.step_pc(1, 4) },
            m,
        ),
        Instruction::AddAhl => (
            CpuView {
                a: add8(s.a, m.read(s.hl())).0,
                f: add8(s.a, m.read(s.hl())).1,
                ..s.step_pc(1, 8)
            },
            m,
        ),
        Instruction::AddA(n) => (
            CpuView { a: add8(s.a, n).0, f: add8(s.a, n).1, ..s.step_pc(2, 8) },
            m,
        ),
        Instruction::Ret => (
            CpuView { pc: pop16_value(s, m), sp: wrap16(s.sp + 2), ..s.cycles(16) },
            m,
        ),
        Instruction::CpA => (CpuView { f: sub8(s.a, s.a).1, ..s.step_pc(1, 4) }, m),
        Instruction::CpB => (CpuView { f: sub8(s.a, s.b).1, ..s.step_pc(1, 4) }, m),
        Instruction::CpC => (CpuView { f: sub8(s.a, s.c).1, ..s.step_pc(1, 4) }, m),
        Instruction::CpD => (CpuView { f: sub8(s.a, s.d).1, ..s.step_pc(1, 4) }, m),
        Instruction::CpE => (CpuView { f: sub8(s.a, s.e).1, ..s.step_pc(1, 4) }, m),
        Instruction::CpH => (CpuView { f: sub8(s.a, s.h).1, ..s.step_pc(1, 4) }, m),
        Instruction::CpL => (CpuView { f: sub8(s.a, s.l).1, ..s.step_pc(1, 4) }, m),
        Instruction::CpHl => (
            CpuView { f: sub8(s.a, m.read(s.hl())).1, ..s.step_pc(1, 8) },
            m,
        ),
        Instruction::Cp(n) => (CpuView { f: sub8(s.a, n).1, ..s.step_pc(2, 8) }, m),
        Instruction::Di => (CpuView { ime: false, ..s.step_pc(1, 4) }, m),
        Instruction::Ei => (CpuView { ime: true, ..s.step_pc(1, 4) }, m),
    }
}

/// 16-bit add with wraparound, for pointer arithmetic.
fn wrap_add16(v: u16, k: u16) -> (r: u16)
    ensures
        r == wrap16(v + k),
{
    (((v as u32) + (k as u32)) % 0x10000) as u16
}

/// 16-bit subtract with wraparound, for pointer arithmetic.
fn wrap_sub16(v: u16, k: u16) -> (r: u16)
    ensures
        r == wrap16(v - k),
{
    if v >= k {
        v - k
    } else {
        (((0x10000u32 + v as u32) - k as u32) % 0x10000) as u16
    }
}

/// The signed reading of an operand byte.
fn to_signed8(v: u8) -> (r: i8)
    ensures
        r == to_i8(v),
{
    if v < 0x80 {
        v as i8
    } else {
        ((v as i16) - 0x100) as i8
    }
}

// ---------------------------------------------------------------------------
// The processor
// ---------------------------------------------------------------------------

/// The central processor: eight 8-bit registers, the 16-bit program counter
/// and stack pointer, the interrupt master enable, and the running cycle
/// counters together with their values as of the previous step.
pub struct CPU {
    a: u8,
    b: u8,
    c: u8,
    d: u8,
    e: u8,
    f: u8,
    h: u8,
    l: u8,
    pc: u16,
    sp: u16,
    t: usize,
    m: usize,
    ime: bool,
    last_t: usize,
    last_m: usize,
}

impl View for CPU {
    type V = CpuView;

    closed spec fn view(&self) -> CpuView {
        CpuView {
            a: self.a,
            b: self.b,
            c: self.c,
            d: self.d,
            e: self.e,
            f: self.f,
            h: self.h,
            l: self.l,
            pc: self.pc,
            sp: self.sp,
            t: self.t as nat,
            m: self.m as nat,
            ime: self.ime,
            last_t: self.last_t as nat,
            last_m: self.last_m as nat,
        }
    }
}

impl CPU {
    /// A processor in its power-on state: every register, counter and the
    /// interrupt master enable at zero.
    pub fn new() -> (r: CPU)
        ensures
            r@.wf(),
            r@ == (CpuView {
                a: 0u8,
                b: 0u8,
                c: 0u8,
                d: 0u8,
                e: 0u8,
                f: 0u8,
                h: 0u8,
                l: 0u8,
                pc: 0u16,
                sp: 0u16,
                t: 0nat,
                m: 0nat,
                ime: false,
                last_t: 0nat,
                last_m: 0nat,
            }),
    {
        CPU {
            a: 0,
            b: 0,
            c: 0,
            d: 0,
            e: 0,
            f: 0,
            h: 0,
            l: 0,
            pc: 0,
            sp: 0,
            t: 0,
            m: 0,
            ime: false,
            last_t: 0,
            last_m: 0,
        }
    }

    // -- observation ---------------------------------------------------------

    pub fn get_a(&self) -> (r: u8)
        ensures
            r == self@.a,
    {
        self.a
    }

    pub fn get_f(&self) -> (r: u8)
        ensures
            r == self@.f,
    {
        self.f
    }

    pub fn get_pc(&self) -> (r: u16)
        ensures
            r == self@.pc,
    {
        self.pc
    }

    pub fn get_sp(&self) -> (r: u16)
        ensures
            r == self@.sp,
    {
        self.sp
    }

    pub fn get_t(&self) -> (r: usize)
        ensures
            r == self@.t,
    {
        self.t
    }

    pub fn get_m(&self) -> (r: usize)
        ensures
            r == self@.m,
    {
        self.m
    }

    pub fn get_ime(&self) -> (r: bool)
        ensures
            r == self@.ime,
    {
        self.ime
    }

    pub fn get_z_flag(&self) -> (r: bool)
        ensures
            r == z_flag(self@.f),
    {
        (self.f / 0x80) % 2 == 1
    }

    pub fn get_n_flag(&self) -> (r: bool)
        ensures
            r == n_flag(self@.f),
    {
        (self.f / 0x40) % 2 == 1
    }

    pub fn get_h_flag(&self) -> (r: bool)
        ensures
            r == h_flag(self@.f),
    {
        (self.f / 0x20) % 2 == 1
    }

    pub fn get_c_flag(&self) -> (r: bool)
        ensures
            r == c_flag(self@.f),
    {
        (self.f / 0x10) % 2 == 1
    }

    // -- flag register -------------------------------------------------------

    fn set_flags(&mut self, z: bool, n: bool, h: bool, c: bool)
        ensures
            final(self)@ == (CpuView { f: flags_byte(z, n, h, c), ..old(self)@ }),
    {
        let mut v: u8 = 0;
        if z {
            v += 0x80;
        }
        if n {
            v += 0x40;
        }
        if h {
            v += 0x20;
        }
        if c {
            v += 0x10;
        }
        self.f = v;
    }

    // -- register pairs (big-endian packing: high register in the upper byte)

    fn get_hl(&self) -> (r: u16)
        ensures
            r == self@.hl(),
    {
        (self.h as u16) * 0x100 + (self.l as u16)
    }

    fn set_hl(&mut self, v: u16)
        ensures
            final(self)@ == (CpuView { h: hi8(v), l: lo8(v), ..old(self)@ }),
    {
        self.h = (v / 0x100) as u8;
        self.l = (v % 0x100) as u8;
    }

    fn get_bc(&self) -> (r: u16)
        ensures
            r == self@.bc(),
    {
        (self.b as u16) * 0x100 + (self.c as u16)
    }

    fn set_bc(&mut self, v: u16)
        ensures
            final(self)@ == (CpuView { b: hi8(v), c: lo8(v), ..old(self)@ }),
    {
        self.b = (v / 0x100) as u8;
        self.c = (v % 0x100) as u8;
    }

    fn get_de(&self) -> (r: u16)
        ensures
            r == self@.de(),
    {
        (self.d as u16) * 0x100 + (self.e as u16)
    }

    fn get_af(&self) -> (r: u16)
        ensures
            r == self@.af(),
    {
        (self.a as u16) * 0x100 + (self.f as u16)
    }

    fn set_de(&mut self, v: u16)
        ensures
            final(self)@ == (CpuView { d: hi8(v), e: lo8(v), ..old(self)@ }),
    {
        self.d = (v / 0x100) as u8;
        self.e = (v % 0x100) as u8;
    }

    // -- arithmetic/flag unit (pure helpers: result out, flags mutated) ------

    fn alu_add(&mut self, x: u8, y: u8) -> (r: u8)
        ensures
            r == add8(x, y).0,
            final(self)@ == (CpuView { f: add8(x, y).1, ..old(self)@ }),
    {
        let sum: u16 = x as u16 + y as u16;
        let r: u8 = (sum % 0x100) as u8;
        self.set_flags(r == 0, false, (x % 16) + (y % 16) > 15, sum > 255);
        r
    }

    fn alu_sub(&mut self, x: u8, y: u8) -> (r: u8)
        ensures
            r == sub8(x, y).0,
            final(self)@ == (CpuView { f: sub8(x, y).1, ..old(self)@ }),
    {
        let diff: u16 = (x as u16 + 0x100) - (y as u16);
        let r: u8 = (diff % 0x100) as u8;
        self.set_flags(r == 0, true, (x % 16) < (y % 16), x < y);
        r
    }

    fn alu_inc(&mut self, v: u8) -> (r: u8)
        ensures
            r == inc8(v, old(self)@.f).0,
            final(self)@ == (CpuView { f: inc8(v, old(self)@.f).1, ..old(self)@ }),
    {
        let keep_c = self.get_c_flag();
        let r: u8 = if v == 0xFF {
            0
        } else {
            v + 1
        };
        self.set_flags(r == 0, false, v % 16 == 15, keep_c);
        r
    }

    fn alu_dec(&mut self, v: u8) -> (r: u8)
        ensures
            r == dec8(v, old(self)@.f).0,
            final(self)@ == (CpuView { f: dec8(v, old(self)@.f).1, ..old(self)@ }),
    {
        let keep_c = self.get_c_flag();
        let r: u8 = if v == 0 {
            0xFF
        } else {
            v - 1
        };
        self.set_flags(r == 0, true, v % 16 == 0, keep_c);
        r
    }

    fn alu_inc16(&mut self, v: u16) -> (r: u16)
        ensures
            r == inc16(v).0,
            final(self)@ == (CpuView { f: inc16(v).1, ..old(self)@ }),
    {
        let r: u16 = if v == 0xFFFF {
            0
        } else {
            v + 1
        };
        self.set_flags(r == 0, false, v % 0x1000 == 0xFFF, v == 0xFFFF);
        r
    }

    fn alu_dec16(&mut self, v: u16) -> (r: u16)
        ensures
            r == dec16(v).0,
            final(self)@ == (CpuView { f: dec16(v).1, ..old(self)@ }),
    {
        let r: u16 = if v == 0 {
            0xFFFF
        } else {
            v - 1
        };
        self.set_flags(r == 0, true, v % 0x1000 == 0, v == 0);
        r
    }

    fn alu_rl(&mut self, v: u8) -> (r: u8)
        ensures
            r == rl8(v, old(self)@.f).0,
            final(self)@ == (CpuView { f: rl8(v, old(self)@.f).1, ..old(self)@ }),
    {
        let carry_in = self.get_c_flag();
        let r: u8 = (v % 0x80) * 2 + (if carry_in {
            1
        } else {
            0
        });
        self.set_flags(r == 0, false, false, v >= 0x80);
        r
    }

    fn alu_xor(&mut self, x: u8, y: u8) -> (r: u8)
        ensures
            r == xor8(x, y).0,
            final(self)@ == (CpuView { f: xor8(x, y).1, ..old(self)@ }),
    {
        let r: u8 = x ^ y;
        self.set_flags(r == 0, false, false, false);
        r
    }

    fn alu_bit_test(&mut self, v: u8, mask: u8)
        ensures
            final(self)@ == (CpuView { f: bit_test_flags(v, mask, old(self)@.f), ..old(self)@ }),
    {
        let keep_c = self.get_c_flag();
        self.set_flags(v & mask == 0, false, true, keep_c);
    }

    // -- program counter and cycle accounting --------------------------------

    fn advance(&mut self, len: u16, cost: usize)
        requires
            cost % 4 == 0,
            old(self)@.t == 4 * old(self)@.m,
            old(self)@.t + cost <= usize::MAX,
        ensures
            final(self)@ == old(self)@.step_pc(len as int, cost as int),
    {
        let p: u32 = self.pc as u32 + len as u32;
        self.pc = (p % 0x10000) as u16;
        self.t += cost;
        self.m += cost / 4;
    }

    fn add_cycles(&mut self, cost: usize)
        requires
            cost % 4 == 0,
            old(self)@.t == 4 * old(self)@.m,
            old(self)@.t + cost <= usize::MAX,
        ensures
            final(self)@ == old(self)@.cycles(cost as int),
    {
        self.t += cost;
        self.m += cost / 4;
    }

    /// The register and pointer state as carried inside a fatal error.
    pub fn snapshot(&self) -> (r: RegSnapshot)
        ensures
            r == snapshot_spec(self@),
    {
        RegSnapshot {
            a: self.a,
            b: self.b,
            c: self.c,
            d: self.d,
            e: self.e,
            f: self.f,
            h: self.h,
            l: self.l,
            pc: self.pc,
            sp: self.sp,
        }
    }

    // -- instruction decoder --------------------------------------------------

    /// Maps `opcode` (the byte at the program counter), together with up to
    /// two following bytes fetched through the bus, to a decoded instruction.
    /// A 16-bit immediate assembles from the two following bytes, low-order
    /// byte first. An unmapped opcode, or an unmapped byte after the 0xCB
    /// prefix, is fatal: the error carries the offending byte and a register
    /// snapshot, and the instruction loop must halt rather than execute
    /// arbitrary memory as code.
    pub fn decode(&self, opcode: u8, mmu: &MMU) -> (r: Result<Instruction, EmuError>)
        requires
            mmu@.wf(),
        ensures
            ({
                let n1 = mmu@.read(wrap16(self@.pc + 1));
                let n2 = mmu@.read(wrap16(self@.pc + 2));
                match decode_spec(opcode, n1, n2) {
                    Some(inst) => r == Ok::<Instruction, EmuError>(inst),
                    None => r == Err::<Instruction, EmuError>(
                        decode_error_spec(self@, opcode, n1),
                    ),
                }
            }),
    {
        let n1 = mmu.read_byte(wrap_add16(self.pc, 1));
        let n2 = mmu.read_byte(wrap_add16(self.pc, 2));
        let d16: u16 = (n2 as u16) * 0x100 + (n1 as u16);
        match opcode {
            0x00 => Ok(Instruction::Nop),
            0x01 => Ok(Instruction::LdBc(d16)),
            0x02 => Ok(Instruction::LdBcA),
            0x03 => Ok(Instruction::IncBc),
            0x04 => Ok(Instruction::IncB),
            0x05 => Ok(Instruction::DecB),
            0x06 => Ok(Instruction::LdB(n1)),
            0x0A => Ok(Instruction::LdABc),
            0x0C => Ok(Instruction::IncC),
            0x0D => Ok(Instruction::DecC),
            0x0E => Ok(Instruction::LdC(n1)),
            0x11 => Ok(Instruction::LdDe(d16)),
            0x12 => Ok(Instruction::LdDeA),
            0x13 => Ok(Instruction::IncDe),
            0x14 => Ok(Instruction::IncD),
            0x15 => Ok(Instruction::DecD),
            0x16 => Ok(Instruction::LdD(n1)),
            0x17 => Ok(Instruction::RLA),
            0x18 => Ok(Instruction::Jr(to_signed8(n1))),
            0x1A => Ok(Instruction::LdADe),
            0x1C => Ok(Instruction::IncE),
            0x1D => Ok(Instruction::DecE),
            0x1E => Ok(Instruction::LdE(n1)),
            0x20 => Ok(Instruction::JrNz(to_signed8(n1))),
            0x21 => Ok(Instruction::LdHl(d16)),
            0x22 => Ok(Instruction::LdiHlA),
            0x23 => Ok(Instruction::IncHlNoflags),
            0x24 => Ok(Instruction::IncH),
            0x25 => Ok(Instruction::DecH),
            0x26 => Ok(Instruction::LdH(n1)),
            0x28 => Ok(Instruction::JrZ(to_signed8(n1))),
            0x2A => Ok(Instruction::LdiAHl),
            0x2C => Ok(Instruction::IncL),
            0x2D => Ok(Instruction::DecL),
            0x2E => Ok(Instruction::LdL(n1)),
            0x30 => Ok(Instruction::JrNc(to_signed8(n1))),
            0x31 => Ok(Instruction::LdSp(d16)),
            0x32 => Ok(Instruction::LddHlA),
            0x33 => Ok(Instruction::IncSp),
            0x34 => Ok(Instruction::IncHl),
            0x35 => Ok(Instruction::DecHl),
            0x36 => Ok(Instruction::LdHln(n1)),
            0x38 => Ok(Instruction::JrC(to_signed8(n1))),
            0x3C => Ok(Instruction::IncA),
            0x3D => Ok(Instruction::DecA),
            0x3E => Ok(Instruction::LdA(n1)),
            0x47 => Ok(Instruction::LdBa),
            0x4F => Ok(Instruction::LdCa),
            0x57 => Ok(Instruction::LdDa),
            0x5F => Ok(Instruction::LdEa),
            0x67 => Ok(Instruction::LdHa),
            0x6F => Ok(Instruction::LdLa),
            0x77 => Ok(Instruction::LdHlA),
            0x78 => Ok(Instruction::LdAb),
            0x79 => Ok(Instruction::LdAc),
            0x7A => Ok(Instruction::LdAd),
            0x7B => Ok(Instruction::LdAe),
            0x7C => Ok(Instruction::LdAh),
            0x7D => Ok(Instruction::LdAl),
            0x7F => Ok(Instruction::LdAa),
            0x80 => Ok(Instruction::AddAb),
            0x81 => Ok(Instruction::AddAc),
            0x82 => Ok(Instruction::AddAd),
            0x83 => Ok(Instruction::AddAe),
            0x84 => Ok(Instruction::AddAh),
            0x85 => Ok(Instruction::AddAl),
            0x86 => Ok(Instruction::AddAhl),
            0x87 => Ok(Instruction::AddAa),
            0x90 => Ok(Instruction::SubB),
            0x91 => Ok(Instruction::SubC),
            0x92 => Ok(Instruction::SubD),
            0x93 => Ok(Instruction::SubE),
            0x94 => Ok(Instruction::SubH),
            0x95 => Ok(Instruction::SubL),
            0x96 => Ok(Instruction::SubHl),
            0x97 => Ok(Instruction::SubA),
            0xA8 => Ok(Instruction::XorB),
            0xA9 => Ok(Instruction::XorC),
            0xAA => Ok(Instruction::XorD),
            0xAB => Ok(Instruction::XorE),
            0xAC => Ok(Instruction::XorH),
            0xAD => Ok(Instruction::XorL),
            0xAE => Ok(Instruction::XorHl),
            0xAF => Ok(Instruction::XorA),
            0xB8 => Ok(Instruction::CpB),
            0xB9 => Ok(Instruction::CpC),
            0xBA => Ok(Instruction::CpD),
            0xBB => Ok(Instruction::CpE),
            0xBC => Ok(Instruction::CpH),
            0xBD => Ok(Instruction::CpL),
            0xBE => Ok(Instruction::CpHl),
            0xBF => Ok(Instruction::CpA),
            0xC1 => Ok(Instruction::PopBc),
            0xC3 => Ok(Instruction::Jp(d16)),
            0xC4 => Ok(Instruction::CallNz(d16)),
            0xC5 => Ok(Instruction::PushBc),
            0xC6 => Ok(Instruction::AddA(n1)),
            0xC9 => Ok(Instruction::Ret),
            0xCB => match n1 {
                0x10 => Ok(Instruction::RlB),
                0x11 => Ok(Instruction::RlC),
                0x12 => Ok(Instruction::RlD),
                0x13 => Ok(Instruction::RlE),
                0x14 => Ok(Instruction::RlH),
                0x15 => Ok(Instruction::RlL),
                0x16 => Ok(Instruction::RlHl),
                0x17 => Ok(Instruction::RlA),
                0x40 => Ok(Instruction::BitbB(0x01)),
                0x41 => Ok(Instruction::BitbC(0x01)),
                0x42 => Ok(Instruction::BitbD(0x01)),
                0x43 => Ok(Instruction::BitbE(0x01)),
                0x44 => Ok(Instruction::BitbH(0x01)),
                0x45 => Ok(Instruction::BitbL(0x01)),
                0x46 => Ok(Instruction::BitbHL(0x01)),
                0x47 => Ok(Instruction::BitbA(0x01)),
                0x48 => Ok(Instruction::BitbB(0x02)),
                0x49 => Ok(Instruction::BitbC(0x02)),
                0x4A => Ok(Instruction::BitbD(0x02)),
                0x4B => Ok(Instruction::BitbE(0x02)),
                0x4C => Ok(Instruction::BitbH(0x02)),
                0x4D => Ok(Instruction::BitbL(0x02)),
                0x4E => Ok(Instruction::BitbHL(0x02)),
                0x4F => Ok(Instruction::BitbA(0x02)),
                0x50 => Ok(Instruction::BitbB(0x04)),
                0x51 => Ok(Instruction::BitbC(0x04)),
                0x52 => Ok(Instruction::BitbD(0x04)),
                0x53 => Ok(Instruction::BitbE(0x04)),
                0x54 => Ok(Instruction::BitbH(0x04)),
                0x55 => Ok(Instruction::BitbL(0x04)),
                0x56 => Ok(Instruction::BitbHL(0x04)),
                0x57 => Ok(Instruction::BitbA(0x04)),
                0x58 => Ok(Instruction::BitbB(0x08)),
                0x59 => Ok(Instruction::BitbC(0x08)),
                0x5A => Ok(Instruction::BitbD(0x08)),
                0x5B => Ok(Instruction::BitbE(0x08)),
                0x5C => Ok(Instruction::BitbH(0x08)),
                0x5D => Ok(Instruction::BitbL(0x08)),
                0x5E => Ok(Instruction::BitbHL(0x08)),
                0x5F => Ok(Instruction::BitbA(0x08)),
                0x7C => Ok(Instruction::BitbH(0x80)),
                _ => Err(EmuError::IllegalPrefixedOpcode {
                    sub_opcode: n1,
                    regs: self.snapshot(),
                }),
            },
            0xCC => Ok(Instruction::CallZ(d16)),
            0xCD => Ok(Instruction::Call(d16)),
            0xD1 => Ok(Instruction::PopDe),
            0xD4 => Ok(Instruction::CallNc(d16)),
            0xD5 => Ok(Instruction::PushDe),
            0xD6 => Ok(Instruction::Sub(n1)),
            0xDC => Ok(Instruction::CallC(d16)),
            0xE0 => Ok(Instruction::LdFf00U8a(n1)),
            0xE1 => Ok(Instruction::PopHl),
            0xE2 => Ok(Instruction::LdFf00Ca),
            0xE5 => Ok(Instruction::PushHl),
            0xEA => Ok(Instruction::LdXxA(d16)),
            0xEE => Ok(Instruction::Xor(n1)),
            0xF0 => Ok(Instruction::LdAFf00U8(n1)),
            0xF1 => Ok(Instruction::PopAf),
            0xF3 => Ok(Instruction::Di),
            0xF5 => Ok(Instruction::PushAf),
            0xFB => Ok(Instruction::Ei),
            0xFE => Ok(Instruction::Cp(n1)),
            _ => Err(EmuError::IllegalOpcode { opcode, regs: self.snapshot() }),
        }
    }

    // -- stack ---------------------------------------------------------------

    /// Pushes a 16-bit value: the low byte lands at the current stack
    /// pointer, the high byte one below it, and the stack pointer drops by
    /// two with wraparound.
    pub fn push_to_stack(&mut self, mmu: &mut MMU, addr: u16)
        requires
            old(mmu)@.wf(),
        ensures
            final(mmu)@.wf(),
            final(self)@ == (CpuView { sp: wrap16(old(self)@.sp - 2), ..old(self)@ }),
            final(mmu)@ == old(mmu)@.write(old(self)@.sp, lo8(addr)).write(
                wrap16(old(self)@.sp - 1),
                hi8(addr),
            ),
    {
        let hi: u8 = (addr / 0x100) as u8;
        let lo: u8 = (addr % 0x100) as u8;
        mmu.write_byte(self.sp, lo);
        self.sp = if self.sp == 0 {
            0xFFFF
        } else {
            self.sp - 1
        };
        mmu.write_byte(self.sp, hi);
        self.sp = if self.sp == 0 {
            0xFFFF
        } else {
            self.sp - 1
        };
    }

    /// Pops a 16-bit value: the high byte is read one above the current stack
    /// pointer, the low byte one above that, and the stack pointer rises by
    /// two with wraparound — the exact mirror of a push.
    pub fn pop_from_stack(&mut self, mmu: &MMU) -> (r: u16)
        requires
            mmu@.wf(),
        ensures
            final(self)@ == (CpuView { sp: wrap16(old(self)@.sp + 2), ..old(self)@ }),
            r == pop16_value(old(self)@, mmu@),
    {
        self.sp = if self.sp == 0xFFFF {
            0
        } else {
            self.sp + 1
        };
        let hi = mmu.read_byte(self.sp);
        self.sp = if self.sp == 0xFFFF {
            0
        } else {
            self.sp + 1
        };
        let lo = mmu.read_byte(self.sp);
        (hi as u16) * 0x100 + (lo as u16)
    }

    // -- execution unit -------------------------------------------------------

    /// A relative branch: steps over the two instruction bytes, then adds the
    /// signed displacement only when taken; taken and not-taken cycle costs
    /// differ.
    fn do_jump(&mut self, taken: bool, d: i8)
        requires
            old(self)@.t == 4 * old(self)@.m,
            old(self)@.t + 12 <= usize::MAX,
        ensures
            final(self)@ == jr_spec(old(self)@, taken, d),
    {
        if taken {
            let target: i32 = self.pc as i32 + 2 + d as i32;
            proof {
                vstd::arithmetic::div_mod::lemma_mod_multiples_vanish(
                    1,
                    target as int,
                    0x10000,
                );
            }
            self.pc = ((target + 0x10000) % 0x10000) as u16;
            self.add_cycles(12);
        } else {
            self.pc = wrap_add16(self.pc, 2);
            self.add_cycles(8);
        }
    }

    /// A call: when taken, pushes the address of the following instruction
    /// and jumps to the target; not taken, it steps over its three bytes.
    fn do_call(&mut self, mmu: &mut MMU, taken: bool, target: u16)
        requires
            old(mmu)@.wf(),
            old(self)@.t == 4 * old(self)@.m,
            old(self)@.t + 24 <= usize::MAX,
        ensures
            final(mmu)@.wf(),
            (final(self)@, final(mmu)@) == call_spec(old(self)@, old(mmu)@, taken, target),
    {
        if taken {
            let ret_addr = wrap_add16(self.pc, 3);
            self.push_to_stack(mmu, ret_addr);
            self.pc = target;
            self.add_cycles(24);
        } else {
            self.advance(3, 12);
        }
    }

    /// Execution cases of the register and immediate load family.
    #[verifier::rlimit(100)]
    fn exec_move_reg(&mut self, instruction: Instruction, mmu: &mut MMU)
        requires
            old(self)@.wf(),
            old(mmu)@.wf(),
            old(self)@.t + 24 <= usize::MAX,
            ({
                ||| instruction is Nop
                ||| instruction is LdBc
                ||| instruction is LdDe
                ||| instruction is LdHl
                ||| instruction is LdSp
                ||| instruction is LdA
                ||| instruction is LdB
                ||| instruction is LdC
                ||| instruction is LdD
                ||| instruction is LdE
                ||| instruction is LdH
                ||| instruction is LdL
                ||| instruction is LdAa
                ||| instruction is LdBa
                ||| instruction is LdCa
                ||| instruction is LdDa
                ||| instruction is LdEa
                ||| instruction is LdHa
                ||| instruction is LdLa
                ||| instruction is LdAb
                ||| instruction is LdAc
                ||| instruction is LdAd
                ||| instruction is LdAe
                ||| instruction is LdAh
                ||| instruction is LdAl
            }),
        ensures
            final(self)@.wf(),
            final(mmu)@.wf(),
            (final(self)@, final(mmu)@) == exec_spec(instruction, old(self)@, old(mmu)@),
    {
        match instruction {
            Instruction::Nop => self.advance(1, 4),
            Instruction::LdBc(v) => {
                self.set_bc(v);
                self.advance(3, 12);
            },
            Instruction::LdDe(v) => {
                self.set_de(v);
                self.advance(3, 12);
            },
            Instruction::LdHl(v) => {
                self.set_hl(v);
                self.advance(3, 12);
            },
            Instruction::LdSp(v) => {
                self.sp = v;
                self.advance(3, 12);
            },
            Instruction::LdA(n) => {
                self.a = n;
                self.advance(2, 8);
            },
            Instruction::LdB(n) => {
                self.b = n;
                self.advance(2, 8);
            },
            Instruction::LdC(n) => {
                self.c = n;
                self.advance(2, 8);
            },
            Instruction::LdD(n) => {
                self.d = n;
                self.advance(2, 8);
            },
            Instruction::LdE(n) => {
                self.e = n;
                self.advance(2, 8);
            },
            Instruction::LdH(n) => {
                self.h = n;
                self.advance(2, 8);
            },
            Instruction::LdL(n) => {
                self.l = n;
                self.advance(2, 8);
            },
            Instruction::LdAa => {
                self.advance(1, 4);
            },
            Instruction::LdBa => {
                self.b = self.a;
                self.advance(1, 4);
            },
            Instruction::LdCa => {
                self.c = self.a;
                self.advance(1, 4);
            },
            Instruction::LdDa => {
                self.d = self.a;
                self.advance(1, 4);
            },
            Instruction::LdEa => {
                self.e = self.a;
                self.advance(1, 4);
            },
            Instruction::LdHa => {
                self.h = self.a;
                self.advance(1, 4);
            },
            Instruction::LdLa => {
                self.l = self.a;
                self.advance(1, 4);
            },
            Instruction::LdAb => {
                self.a = self.b;
                self.advance(1, 4);
            },
            Instruction::LdAc => {
                self.a = self.c;
                self.advance(1, 4);
            },
            Instruction::LdAd => {
                self.a = self.d;
                self.advance(1, 4);
            },
            Instruction::LdAe => {
                self.a = self.e;
                self.advance(1, 4);
            },
            Instruction::LdAh => {
                self.a = self.h;
                self.advance(1, 4);
            },
            Instruction::LdAl => {
                self.a = self.l;
                self.advance(1, 4);
            },
            _ => {
                proof {
                    assert(false);
                }
            },
        }
    }

    /// Execution cases of the plain stores through the bus.
    #[verifier::rlimit(100)]
    fn exec_store(&mut self, instruction: Instruction, mmu: &mut MMU)
        requires
            old(self)@.wf(),
            old(mmu)@.wf(),
            old(self)@.t + 24 <= usize::MAX,
            ({
                ||| instruction is LdHln
                ||| instruction is LdBcA
                ||| instruction is LdDeA
                ||| instruction is LdHlA
                ||| instruction is LdXxA
                ||| instruction is LdFf00U8a
                ||| instruction is LdFf00Ca
            }),
        ensures
            final(self)@.wf(),
            final(mmu)@.wf(),
            (final(self)@, final(mmu)@) == exec_spec(instruction, old(self)@, old(mmu)@),
    {
        match instruction {
            Instruction::LdHln(n) => {
                let addr = self.get_hl();
                mmu.write_byte(addr, n);
                self.advance(2, 12);
            },
            Instruction::LdBcA => {
                let addr = self.get_bc();
                mmu.write_byte(addr, self.a);
                self.advance(1, 8);
            },
            Instruction::LdDeA => {
                let addr = self.get_de();
                mmu.write_byte(addr, self.a);
                self.advance(1, 8);
            },
            Instruction::LdHlA => {
                let addr = self.get_hl();
                mmu.write_byte(addr, self.a);
                self.advance(1, 8);
            },
            Instruction::LdXxA(addr) => {
                mmu.write_byte(addr, self.a);
                self.advance(3, 16);
            },
            Instruction::LdFf00U8a(n) => {
                mmu.write_byte(0xFF00 + n as u16, self.a);
                self.advance(2, 12);
            },
            Instruction::LdFf00Ca => {
                mmu.write_byte(0xFF00 + self.c as u16, self.a);
                self.advance(1, 8);
            },
            _ => {
                proof {
                    assert(false);
                }
            },
        }
    }

    /// Execution cases of the plain loads through the bus.
    #[verifier::rlimit(100)]
    fn exec_load_mem(&mut self, instruction: Instruction, mmu: &mut MMU)
        requires
            old(self)@.wf(),
            old(mmu)@.wf(),
            old(self)@.t + 24 <= usize::MAX,
            ({
                ||| instruction is LdAFf00U8
                ||| instruction is LdABc
                ||| instruction is LdADe
            }),
        ensures
            final(self)@.wf(),
            final(mmu)@.wf(),
            (final(self)@, final(mmu)@) == exec_spec(instruction, old(self)@, old(mmu)@),
    {
        match instruction {
            Instruction::LdAFf00U8(n) => {
                self.a = mmu.read_byte(0xFF00 + n as u16);
                self.advance(2, 12);
            },
            Instruction::LdABc => {
                let addr = self.get_bc();
                self.a = mmu.read_byte(addr);
                self.advance(1, 8);
            },
            Instruction::LdADe => {
                let addr = self.get_de();
                self.a = mmu.read_byte(addr);
                self.advance(1, 8);
            },
            _ => {
                proof {
                    assert(false);
                }
            },
        }
    }

    /// Execution case of the store of A through (HL) with post-decrement of
    /// the pair.
    #[verifier::rlimit(100)]
    fn exec_ldd_hl_a(&mut self, mmu: &mut MMU)
        requires
            old(self)@.wf(),
            old(mmu)@.wf(),
            old(self)@.t + 24 <= usize::MAX,
        ensures
            final(self)@.wf(),
            final(mmu)@.wf(),
            (final(self)@, final(mmu)@) == exec_spec(Instruction::LddHlA, old(self)@, old(mmu)@),
    {
        let hl = self.get_hl();
        mmu.write_byte(hl, self.a);
        let nhl = wrap_sub16(hl, 1);
        self.set_hl(nhl);
        self.advance(1, 8);
    }

    /// Execution case of the store of A through (HL) with post-increment of
    /// the pair.
    #[verifier::rlimit(100)]
    fn exec_ldi_hl_a(&mut self, mmu: &mut MMU)
        requires
            old(self)@.wf(),
            old(mmu)@.wf(),
            old(self)@.t + 24 <= usize::MAX,
        ensures
            final(self)@.wf(),
            final(mmu)@.wf(),
            (final(self)@, final(mmu)@) == exec_spec(Instruction::LdiHlA, old(self)@, old(mmu)@),
    {
        let hl = self.get_hl();
        mmu.write_byte(hl, self.a);
        self.set_hl(wrap_add16(hl, 1));
        self.advance(1, 8);
    }

    /// Execution case of the load of A from (HL) with post-increment of the
    /// pair.
    #[verifier::rlimit(100)]
    fn exec_ldi_a_hl(&mut self, mmu: &mut MMU)
        requires
            old(self)@.wf(),
            old(mmu)@.wf(),
            old(self)@.t + 24 <= usize::MAX,
        ensures
            final(self)@.wf(),
            final(mmu)@.wf(),
            (final(self)@, final(mmu)@) == exec_spec(Instruction::LdiAHl, old(self)@, old(mmu)@),
    {
        let hl = self.get_hl();
        self.a = mmu.read_byte(hl);
        self.set_hl(wrap_add16(hl, 1));
        self.advance(1, 8);
    }

    /// Execution cases of the increment, decrement, add, subtract and
    /// compare families.
    #[verifier::rlimit(100)]
    fn exec_arith(&mut self, instruction: Instruction, mmu: &mut MMU)
        requires
            old(self)@.wf(),
            old(mmu)@.wf(),
            old(self)@.t + 24 <= usize::MAX,
            ({
                ||| instruction is IncA
                ||| instruction is IncB
                ||| instruction is IncC
                ||| instruction is IncD
                ||| instruction is IncE
                ||| instruction is IncH
                ||| instruction is IncL
                ||| instruction is IncBc
                ||| instruction is IncDe
                ||| instruction is IncHlNoflags
                ||| instruction is IncSp
                ||| instruction is IncHl
                ||| instruction is DecA
                ||| instruction is DecB
                ||| instruction is DecC
                ||| instruction is DecD
                ||| instruction is DecE
                ||| instruction is DecH
                ||| instruction is DecL
                ||| instruction is DecHl
                ||| instruction is AddAa
                ||| instruction is AddAb
                ||| instruction is AddAc
                ||| instruction is AddAd
                ||| instruction is AddAe
                ||| instruction is AddAh
                ||| instruction is AddAl
                ||| instruction is AddAhl
                ||| instruction is AddA
                ||| instruction is SubA
                ||| instruction is SubB
                ||| instruction is SubC
                ||| instruction is SubD
                ||| instruction is SubE
                ||| instruction is SubH
                ||| instruction is SubL
                ||| instruction is SubHl
                ||| instruction is Sub
                ||| instruction is CpA
                ||| instruction is CpB
                ||| instruction is CpC
                ||| instruction is CpD
                ||| instruction is CpE
                ||| instruction is CpH
                ||| instruction is CpL
                ||| instruction is CpHl
                ||| instruction is Cp
            }),
        ensures
            final(self)@.wf(),
            final(mmu)@.wf(),
            (final(self)@, final(mmu)@) == exec_spec(instruction, old(self)@, old(mmu)@),
    {
        match instruction {
            Instruction::IncA => {
                let v = self.a;
                self.a = self.alu_inc(v);
                self.advance(1, 4);
            },
            Instruction::IncB => {
                let v = self.b;
                self.b = self.alu_inc(v);
                self.advance(1, 4);
            },
            Instruction::IncC => {
                let v = self.c;
                self.c = self.alu_inc(v);
                self.advance(1, 4);
            },
            Instruction::IncD => {
                let v = self.d;
                self.d = self.alu_inc(v);
                self.advance(1, 4);
            },
            Instruction::IncE => {
                let v = self.e;
                self.e = self.alu_inc(v);
                self.advance(1, 4);
            },
            Instruction::IncH => {
                let v = self.h;
                self.h = self.alu_inc(v);
                self.advance(1, 4);
            },
            Instruction::IncL => {
                let v = self.l;
                self.l = self.alu_inc(v);
                self.advance(1, 4);
            },
            Instruction::IncBc => {
                let v = wrap_add16(self.get_bc(), 1);
                self.set_bc(v);
                self.advance(1, 8);
            },
            Instruction::IncDe => {
                let v = wrap_add16(self.get_de(), 1);
                self.set_de(v);
                self.advance(1, 8);
            },
            Instruction::IncHlNoflags => {
                let v = wrap_add16(self.get_hl(), 1);
                self.set_hl(v);
                self.advance(1, 8);
            },
            Instruction::IncSp => {
                self.sp = wrap_add16(self.sp, 1);
                self.advance(1, 8);
            },
            Instruction::IncHl => {
                let v = self.get_hl();
                let r = self.alu_inc16(v);
                self.set_hl(r);
                self.advance(1, 4);
            },
            Instruction::DecA => {
                let v = self.a;
                self.a = self.alu_dec(v);
                self.advance(1, 4);
            },
            Instruction::DecB => {
                let v = self.b;
                self.b = self.alu_dec(v);
                self.advance(1, 4);
            },
            Instruction::DecC => {
                let v = self.c;
                self.c = self.alu_dec(v);
                self.advance(1, 4);
            },
            Instruction::DecD => {
                let v = self.d;
                self.d = self.alu_dec(v);
                self.advance(1, 4);
            },
            Instruction::DecE => {
                let v = self.e;
                self.e = self.alu_dec(v);
                self.advance(1, 4);
            },
            Instruction::DecH => {
                let v = self.h;
                self.h = self.alu_dec(v);
                self.advance(1, 4);
            },
            Instruction::DecL => {
                let v = self.l;
                self.l = self.alu_dec(v);
                self.advance(1, 4);
            },
            Instruction::DecHl => {
                let v = self.get_hl();
                let r = self.alu_dec16(v);
                self.set_hl(r);
                self.advance(1, 4);
            },
            Instruction::AddAa => {
                let x = self.a;
                self.a = self.alu_add(x, x);
                self.advance(1, 4);
            },
            Instruction::AddAb => {
                let x = self.a;
                let y = self.b;
                self.a = self.alu_add(x, y);
                self.advance(1, 4);
            },
            Instruction::AddAc => {
                let x = self.a;
                let y = self.c;
                self.a = self.alu_add(x, y);
                self.advance(1, 4);
            },
            Instruction::AddAd => {
                let x = self.a;
                let y = self.d;
                self.a = self.alu_add(x, y);
                self.advance(1, 4);
            },
            Instruction::AddAe => {
                let x = self.a;
                let y = self.e;
                self.a = self.alu_add(x, y);
                self.advance(1, 4);
            },
            Instruction::AddAh => {
                let x = self.a;
                let y = self.h;
                self.a = self.alu_add(x, y);
                self.advance(1, 4);
            },
            Instruction::AddAl => {
                let x = self.a;
                let y = self.l;
                self.a = self.alu_add(x, y);
                self.advance(1, 4);
            },
            Instruction::AddAhl => {
                let x = self.a;
                let y = mmu.read_byte(self.get_hl());
                self.a = self.alu_add(x, y);
                self.advance(1, 8);
            },
            Instruction::AddA(n) => {
                let x = self.a;
                self.a = self.alu_add(x, n);
                self.advance(2, 8);
            },
            Instruction::SubA => {
                let x = self.a;
                self.a = self.alu_sub(x, x);
                self.advance(1, 4);
            },
            Instruction::SubB => {
                let x = self.a;
                let y = self.b;
                self.a = self.alu_sub(x, y);
                self.advance(1, 4);
            },
            Instruction::SubC => {
                let x = self.a;
                let y = self.c;
                self.a = self.alu_sub(x, y);
                self.advance(1, 4);
            },
            Instruction::SubD => {
                let x = self.a;
                let y = self.d;
                self.a = self.alu_sub(x, y);
                self.advance(1, 4);
            },
            Instruction::SubE => {
                let x = self.a;
                let y = self.e;
                self.a = self.alu_sub(x, y);
                self.advance(1, 4);
            },
            Instruction::SubH => {
                let x = self.a;
                let y = self.h;
                self.a = self.alu_sub(x, y);
                self.advance(1, 4);
            },
            Instruction::SubL => {
                let x = self.a;
                let y = self.l;
                self.a = self.alu_sub(x, y);
                self.advance(1, 4);
            },
            Instruction::SubHl => {
                let x = self.a;
                let y = mmu.read_byte(self.get_hl());
                self.a = self.alu_sub(x, y);
                self.advance(1, 8);
            },
            Instruction::Sub(n) => {
                let x = self.a;
                self.a = self.alu_sub(x, n);
                self.advance(2, 8);
            },
            Instruction::CpA => {
                let x = self.a;
                let _ = self.alu_sub(x, x);
                self.advance(1, 4);
            },
            Instruction::CpB => {
                let x = self.a;
                let y = self.b;
                let _ = self.alu_sub(x, y);
                self.advance(1, 4);
            },
            Instruction::CpC => {
                let x = self.a;
                let y = self.c;
                let _ = self.alu_sub(x, y);
                self.advance(1, 4);
            },
            Instruction::CpD => {
                let x = self.a;
                let y = self.d;
                let _ = self.alu_sub(x, y);
                self.advance(1, 4);
            },
            Instruction::CpE => {
                let x = self.a;
                let y = self.e;
                let _ = self.alu_sub(x, y);
                self.advance(1, 4);
            },
            Instruction::CpH => {
                let x = self.a;
                let y = self.h;
                let _ = self.alu_sub(x, y);
                self.advance(1, 4);
            },
            Instruction::CpL => {
                let x = self.a;
                let y = self.l;
                let _ = self.alu_sub(x, y);
                self.advance(1, 4);
            },
            Instruction::CpHl => {
                let x = self.a;
                let y = mmu.read_byte(self.get_hl());
                let _ = self.alu_sub(x, y);
                self.advance(1, 8);
            },
            Instruction::Cp(n) => {
                let x = self.a;
                let _ = self.alu_sub(x, n);
                self.advance(2, 8);
            },
            _ => {
                proof {
                    assert(false);
                }
            },
        }
    }

    /// Execution cases of the exclusive-or, single-bit-test and
    /// rotate-left families.
    #[verifier::rlimit(100)]
    fn exec_bits(&mut self, instruction: Instruction, mmu: &mut MMU)
        requires
            old(self)@.wf(),
            old(mmu)@.wf(),
            old(self)@.t + 24 <= usize::MAX,
            ({
                ||| instruction is XorA
                ||| instruction is XorB
                ||| instruction is XorC
                ||| instruction is XorD
                ||| instruction is XorE
                ||| instruction is XorH
                ||| instruction is XorL
                ||| instruction is XorHl
                ||| instruction is Xor
                ||| instruction is BitbA
                ||| instruction is BitbB
                ||| instruction is BitbC
                ||| instruction is BitbD
                ||| instruction is BitbE
                ||| instruction is BitbH
                ||| instruction is BitbL
                ||| instruction is BitbHL
                ||| instruction is RLA
                ||| instruction is RlA
                ||| instruction is RlB
                ||| instruction is RlC
                ||| instruction is RlD
                ||| instruction is RlE
                ||| instruction is RlH
                ||| instruction is RlL
                ||| instruction is RlHl
            }),
        ensures
            final(self)@.wf(),
            final(mmu)@.wf(),
            (final(self)@, final(mmu)@) == exec_spec(instruction, old(self)@, old(mmu)@),
    {
        match instruction {
            Instruction::XorA => {
                let x = self.a;
                self.a = self.alu_xor(x, x);
                self.advance(1, 4);
            },
            Instruction::XorB => {
                let x = self.a;
                let y = self.b;
                self.a = self.alu_xor(x, y);
                self.advance(1, 4);
            },
            Instruction::XorC => {
                let x = self.a;
                let y = self.c;
                self.a = self.alu_xor(x, y);
                self.advance(1, 4);
            },
            Instruction::XorD => {
                let x = self.a;
                let y = self.d;
                self.a = self.alu_xor(x, y);
                self.advance(1, 4);
            },
            Instruction::XorE => {
                let x = self.a;
                let y = self.e;
                self.a = self.alu_xor(x, y);
                self.advance(1, 4);
            },
            Instruction::XorH => {
                let x = self.a;
                let y = self.h;
                self.a = self.alu_xor(x, y);
                self.advance(1, 4);
            },
            Instruction::XorL => {
                let x = self.a;
                let y = self.l;
                self.a = self.alu_xor(x, y);
                self.advance(1, 4);
            },
            Instruction::XorHl => {
                let x = self.a;
                let y = mmu.read_byte(self.get_hl());
                self.a = self.alu_xor(x, y);
                self.advance(1, 8);
            },
            Instruction::Xor(n) => {
                let x = self.a;
                self.a = self.alu_xor(x, n);
                self.advance(2, 8);
            },
            Instruction::BitbA(mask) => {
                let v = self.a;
                self.alu_bit_test(v, mask);
                self.advance(2, 8);
            },
            Instruction::BitbB(mask) => {
                let v = self.b;
                self.alu_bit_test(v, mask);
                self.advance(2, 8);
            },
            Instruction::BitbC(mask) => {
                let v = self.c;
                self.alu_bit_test(v, mask);
                self.advance(2, 8);
            },
            Instruction::BitbD(mask) => {
                let v = self.d;
                self.alu_bit_test(v, mask);
                self.advance(2, 8);
            },
            Instruction::BitbE(mask) => {
                let v = self.e;
                self.alu_bit_test(v, mask);
                self.advance(2, 8);
            },
            Instruction::BitbH(mask) => {
                let v = self.h;
                self.alu_bit_test(v, mask);
                self.advance(2, 8);
            },
            Instruction::BitbL(mask) => {
                let v = self.l;
                self.alu_bit_test(v, mask);
                self.advance(2, 8);
            },
            Instruction::BitbHL(mask) => {
                let v = mmu.read_byte(self.get_hl());
                self.alu_bit_test(v, mask);
                self.advance(2, 12);
            },
            Instruction::RLA => {
                let v = self.a;
                self.a = self.alu_rl(v);
                self.advance(1, 4);
            },
            Instruction::RlA => {
                let v = self.a;
                self.a = self.alu_rl(v);
                self.advance(2, 8);
            },
            Instruction::RlB => {
                let v = self.b;
                self.b = self.alu_rl(v);
                self.advance(2, 8);
            },
            Instruction::RlC => {
                let v = self.c;
                self.c = self.alu_rl(v);
                self.advance(2, 8);
            },
            Instruction::RlD => {
                let v = self.d;
                self.d = self.alu_rl(v);
                self.advance(2, 8);
            },
            Instruction::RlE => {
                let v = self.e;
                self.e = self.alu_rl(v);
                self.advance(2, 8);
            },
            Instruction::RlH => {
                let v = self.h;
                self.h = self.alu_rl(v);
                self.advance(2, 8);
            },
            Instruction::RlL => {
                let v = self.l;
                self.l = self.alu_rl(v);
                self.advance(2, 8);
            },
            Instruction::RlHl => {
                let addr = self.get_hl();
                let v = mmu.read_byte(addr);
                let r = self.alu_rl(v);
                mmu.write_byte(addr, r);
                self.advance(2, 16);
            },
            _ => {
                proof {
                    assert(false);
                }
            },
        }
    }

    /// Execution cases of the branch, jump, call, return and
    /// interrupt-enable families.
    #[verifier::rlimit(100)]
    fn exec_jump(&mut self, instruction: Instruction, mmu: &mut MMU)
        requires
            old(self)@.wf(),
            old(mmu)@.wf(),
            old(self)@.t + 24 <= usize::MAX,
            ({
                ||| instruction is Jr
                ||| instruction is JrNz
                ||| instruction is JrZ
                ||| instruction is JrNc
                ||| instruction is JrC
                ||| instruction is Jp
                ||| instruction is Call
                ||| instruction is CallNz
                ||| instruction is CallZ
                ||| instruction is CallNc
                ||| instruction is CallC
                ||| instruction is Ret
                ||| instruction is Di
                ||| instruction is Ei
            }),
        ensures
            final(self)@.wf(),
            final(mmu)@.wf(),
            (final(self)@, final(mmu)@) == exec_spec(instruction, old(self)@, old(mmu)@),
    {
        match instruction {
            Instruction::Jr(d) => self.do_jump(true, d),
            Instruction::JrNz(d) => {
                let taken = !self.get_z_flag();
                self.do_jump(taken, d);
            },
            Instruction::JrZ(d) => {
                let taken = self.get_z_flag();
                self.do_jump(taken, d);
            },
            Instruction::JrNc(d) => {
                let taken = !self.get_c_flag();
                self.do_jump(taken, d);
            },
            Instruction::JrC(d) => {
                let taken = self.get_c_flag();
                self.do_jump(taken, d);
            },
            Instruction::Jp(a) => {
                self.pc = a;
                self.add_cycles(16);
            },
            Instruction::Call(a) => self.do_call(mmu, true, a),
            Instruction::CallNz(a) => {
                let taken = !self.get_z_flag();
                self.do_call(mmu, taken, a);
            },
            Instruction::CallZ(a) => {
                let taken = self.get_z_flag();
                self.do_call(mmu, taken, a);
            },
            Instruction::CallNc(a) => {
                let taken = !self.get_c_flag();
                self.do_call(mmu, taken, a);
            },
            Instruction::CallC(a) => {
                let taken = self.get_c_flag();
                self.do_call(mmu, taken, a);
            },
            Instruction::Ret => {
                self.pc = self.pop_from_stack(mmu);
                self.add_cycles(16);
            },
            Instruction::Di => {
                self.ime = false;
                self.advance(1, 4);
            },
            Instruction::Ei => {
                self.ime = true;
                self.advance(1, 4);
            },
            _ => {
                proof {
                    assert(false);
                }
            },
        }
    }

    /// Execution cases of the push family.
    #[verifier::rlimit(100)]
    fn exec_push(&mut self, instruction: Instruction, mmu: &mut MMU)
        requires
            old(self)@.wf(),
            old(mmu)@.wf(),
            old(self)@.t + 24 <= usize::MAX,
            ({
                ||| instruction is PushAf
                ||| instruction is PushBc
                ||| instruction is PushDe
                ||| instruction is PushHl
            }),
        ensures
            final(self)@.wf(),
            final(mmu)@.wf(),
            (final(self)@, final(mmu)@) == exec_spec(instruction, old(self)@, old(mmu)@),
    {
        match instruction {
            Instruction::PushAf => {
                let v = self.get_af();
                self.push_to_stack(mmu, v);
                self.advance(1, 16);
            },
            Instruction::PushBc => {
                let v = self.get_bc();
                self.push_to_stack(mmu, v);
                self.advance(1, 16);
            },
            Instruction::PushDe => {
                let v = self.get_de();
                self.push_to_stack(mmu, v);
                self.advance(1, 16);
            },
            Instruction::PushHl => {
                let v = self.get_hl();
                self.push_to_stack(mmu, v);
                self.advance(1, 16);
            },
            _ => {
                proof {
                    assert(false);
                }
            },
        }
    }

    /// Execution cases of the pop family.
    #[verifier::rlimit(100)]
    fn exec_pop(&mut self, instruction: Instruction, mmu: &mut MMU)
        requires
            old(self)@.wf(),
            old(mmu)@.wf(),
            old(self)@.t + 24 <= usize::MAX,
            ({
                ||| instruction is PopAf
                ||| instruction is PopBc
                ||| instruction is PopDe
                ||| instruction is PopHl
            }),
        ensures
            final(self)@.wf(),
            final(mmu)@.wf(),
            (final(self)@, final(mmu)@) == exec_spec(instruction, old(self)@, old(mmu)@),
    {
        match instruction {
            Instruction::PopAf => {
                let v = self.pop_from_stack(mmu);
                self.a = (v / 0x100) as u8;
                self.f = (((v % 0x100) as u8) / 16) * 16;
                self.advance(1, 12);
            },
            Instruction::PopBc => {
                let v = self.pop_from_stack(mmu);
                self.set_bc(v);
                self.advance(1, 12);
            },
            Instruction::PopDe => {
                let v = self.pop_from_stack(mmu);
                self.set_de(v);
                self.advance(1, 12);
            },
            Instruction::PopHl => {
                let v = self.pop_from_stack(mmu);
                self.set_hl(v);
                self.advance(1, 12);
            },
            _ => {
                proof {
                    assert(false);
                }
            },
        }
    }

    /// Applies one decoded instruction to the registers and the bus, advances
    /// the program counter by the instruction's length (branches add a signed
    /// offset or jump to a target), and adds the instruction's cycle cost to
    /// both clock counters. Every variant of the closed instruction set has
    /// its execution case, so a decoded instruction can never fail to
    /// execute.
    pub fn execute(&mut self, instruction: Instruction, mmu: &mut MMU)
        requires
            old(self)@.wf(),
            old(mmu)@.wf(),
            old(self)@.t + 24 <= usize::MAX,
        ensures
            final(self)@.wf(),
            final(mmu)@.wf(),
            (final(self)@, final(mmu)@) == exec_spec(instruction, old(self)@, old(mmu)@),
    {
        match instruction {
            Instruction::Nop
            | Instruction::LdBc(..)
            | Instruction::LdDe(..)
            | Instruction::LdHl(..)
            | Instruction::LdSp(..)
            | Instruction::LdA(..)
            | Instruction::LdB(..)
            | Instruction::LdC(..)
            | Instruction::LdD(..)
            | Instruction::LdE(..)
            | Instruction::LdH(..)
            | Instruction::LdL(..)
            | Instruction::LdAa
            | Instruction::LdBa
            | Instruction::LdCa
            | Instruction::LdDa
            | Instruction::LdEa
            | Instruction::LdHa
            | Instruction::LdLa
            | Instruction::LdAb
            | Instruction::LdAc
            | Instruction::LdAd
            | Instruction::LdAe
            | Instruction::LdAh
            | Instruction::LdAl => self.exec_move_reg(instruction, mmu),
            Instruction::LdHln(..)
            | Instruction::LdBcA
            | Instruction::LdDeA
            | Instruction::LdHlA
            | Instruction::LdXxA(..)
            | Instruction::LdFf00U8a(..)
            | Instruction::LdFf00Ca => self.exec_store(instruction, mmu),
            Instruction::LdAFf00U8(..)
            | Instruction::LdABc
            | Instruction::LdADe => self.exec_load_mem(instruction, mmu),
            Instruction::LddHlA => self.exec_ldd_hl_a(mmu),
            Instruction::LdiHlA => self.exec_ldi_hl_a(mmu),
            Instruction::LdiAHl => self.exec_ldi_a_hl(mmu),
            Instruction::IncA
            | Instruction::IncB
            | Instruction::IncC
            | Instruction::IncD
            | Instruction::IncE
            | Instruction::IncH
            | Instruction::IncL
            | Instruction::IncBc
            | Instruction::IncDe
            | Instruction::IncHlNoflags
            | Instruction::IncSp
            | Instruction::IncHl
            | Instruction::DecA
            | Instruction::DecB
            | Instruction::DecC
            | Instruction::DecD
            | Instruction::DecE
            | Instruction::DecH
            | Instruction::DecL
            | Instruction::DecHl
            | Instruction::AddAa
            | Instruction::AddAb
            | Instruction::AddAc
            | Instruction::AddAd
            | Instruction::AddAe
            | Instruction::AddAh
            | Instruction::AddAl
            | Instruction::AddAhl
            | Instruction::AddA(..)
            | Instruction::SubA
            | Instruction::SubB
            | Instruction::SubC
            | Instruction::SubD
            | Instruction::SubE
            | Instruction::SubH
            | Instruction::SubL
            | Instruction::SubHl
            | Instruction::Sub(..)
            | Instruction::CpA
            | Instruction::CpB
            | Instruction::CpC
            | Instruction::CpD
            | Instruction::CpE
            | Instruction::CpH
            | Instruction::CpL
            | Instruction::CpHl
            | Instruction::Cp(..) => self.exec_arith(instruction, mmu),
            Instruction::XorA
            | Instruction::XorB
            | Instruction::XorC
            | Instruction::XorD
            | Instruction::XorE
            | Instruction::XorH
            | Instruction::XorL
            | Instruction::XorHl
            | Instruction::Xor(..)
            | Instruction::BitbA(..)
            | Instruction::BitbB(..)
            | Instruction::BitbC(..)
            | Instruction::BitbD(..)
            | Instruction::BitbE(..)
            | Instruction::BitbH(..)
            | Instruction::BitbL(..)
            | Instruction::BitbHL(..)
            | Instruction::RLA
            | Instruction::RlA
            | Instruction::RlB
            | Instruction::RlC
            | Instruction::RlD
            | Instruction::RlE
            | Instruction::RlH
            | Instruction::RlL
            | Instruction::RlHl => self.exec_bits(instruction, mmu),
            Instruction::Jr(..)
            | Instruction::JrNz(..)
            | Instruction::JrZ(..)
            | Instruction::JrNc(..)
            | Instruction::JrC(..)
            | Instruction::Jp(..)
            | Instruction::Call(..)
            | Instruction::CallNz(..)
            | Instruction::CallZ(..)
            | Instruction::CallNc(..)
            | Instruction::CallC(..)
            | Instruction::Ret
            | Instruction::Di
            | Instruction::Ei => self.exec_jump(instruction, mmu),
            Instruction::PushAf
            | Instruction::PushBc
            | Instruction::PushDe
            | Instruction::PushHl => self.exec_push(instruction, mmu),
            Instruction::PopAf
            | Instruction::PopBc
            | Instruction::PopDe
            | Instruction::PopHl => self.exec_pop(instruction, mmu),
        }
    }

    /// One whole step of the machine: fetches the byte at the program
    /// counter, decodes it, executes it, records the previous cycle counts,
    /// and hands the picture unit exactly the cycles this instruction
    /// consumed. Returns that fine-cycle delta; on an unmapped opcode it
    /// returns the fatal decode error and leaves processor, bus and picture
    /// unit untouched, so the driving loop decides what to do.
    pub fn run_instruction(&mut self, mmu: &mut MMU, ppu: &mut PPU) -> (r: Result<usize, EmuError>)
        requires
            old(self)@.wf(),
            old(mmu)@.wf(),
            old(ppu)@.wf(),
            old(self)@.t + 24 <= usize::MAX,
        ensures
            final(self)@.wf(),
            final(mmu)@.wf(),
            final(ppu)@.wf(),
            match step_spec(old(self)@, old(mmu)@) {
                Some((s2, m2)) => {
                    &&& r == Ok::<usize, EmuError>(((s2.t - old(self)@.t) as usize))
                    &&& final(self)@ == (CpuView {
                        last_t: old(self)@.t,
                        last_m: old(self)@.m,
                        ..s2
                    })
                    &&& (final(ppu)@, final(mmu)@) == ppu_step_spec(
                        old(ppu)@,
                        (s2.t - old(self)@.t) as nat,
                        m2,
                    )
                },
                None => {
                    &&& final(self)@ == old(self)@
                    &&& final(mmu)@ == old(mmu)@
                    &&& final(ppu)@ == old(ppu)@
                    &&& r == Err::<usize, EmuError>(
                        decode_error_spec(
                            old(self)@,
                            old(mmu)@.read(old(self)@.pc),
                            old(mmu)@.read(wrap16(old(self)@.pc + 1)),
                        ),
                    )
                },
            },
    {
        let byte = mmu.read_byte(self.pc);
        match self.decode(byte, mmu) {
            Ok(inst) => {
                let t_before = self.t;
                let m_before = self.m;
                proof {
                    lemma_exec_cost(inst, self@, mmu@);
                }
                self.execute(inst, mmu);
                self.last_t = t_before;
                self.last_m = m_before;
                let delta = self.t - t_before;
                ppu.step(delta, mmu);
                Ok(delta)
            },
            Err(e) => Err(e),
        }
    }
}

/// The 16-bit value a pop from `s.sp` reads off the bus: high byte one above
/// the stack pointer, low byte two above.
pub open spec fn pop16_value(s: CpuView, m: MmuView) -> u16 {
    (m.read(wrap16(s.sp + 1)) * 0x100 + m.read(wrap16(s.sp + 2))) as u16
}

/// One whole fetch-decode-execute step: the byte at the program counter,
/// with up to two operand bytes after it, decodes and executes; an unmapped
/// opcode yields nothing and the machine state must not change.
pub open spec fn step_spec(s: CpuView, m: MmuView) -> Option<(CpuView, MmuView)> {
    let op = m.read(s.pc);
    let n1 = m.read(wrap16(s.pc + 1));
    let n2 = m.read(wrap16(s.pc + 2));
    match decode_spec(op, n1, n2) {
        Some(inst) => Some(exec_spec(inst, s, m)),
        None => None,
    }
}

/// Every instruction consumes between 4 and 24 fine cycles, so the cycle
/// delta a step reports is positive and small.
#[verifier::rlimit(100)]
pub proof fn lemma_exec_cost(inst: Instruction, s: CpuView, m: MmuView)
    ensures
        s.t + 4 <= exec_spec(inst, s, m).0.t <= s.t + 24,
{
}

} // verus!
