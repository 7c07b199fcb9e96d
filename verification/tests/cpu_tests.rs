use gbrustemu::cpu::{EmuError, CPU};
use gbrustemu::mmu::MMU;
use gbrustemu::ppu::PPU;

/// A machine with the boot overlay disabled and `program` copied in at
/// address zero, ready to execute.
fn boot_machine(program: &[u8]) -> (CPU, MMU, PPU) {
    let mut mmu = MMU::new();
    mmu.write_byte(0xFF50, 1);
    mmu.from_rom_file(program);
    (CPU::new(), mmu, PPU::new())
}

fn run(cpu: &mut CPU, mmu: &mut MMU, ppu: &mut PPU) -> usize {
    cpu.run_instruction(mmu, ppu).expect("legal opcode")
}

const Z: u8 = 0x80;
const N: u8 = 0x40;
const H: u8 = 0x20;
const C: u8 = 0x10;

#[test]
fn ld_sp_immediate_sets_sp_pc_and_cost() {
    // Opcode 0x31 with immediate bytes 0x34, 0x12 at PC=0.
    let (mut cpu, mut mmu, mut ppu) = boot_machine(&[0x31, 0x34, 0x12]);
    let delta = run(&mut cpu, &mut mmu, &mut ppu);
    assert_eq!(cpu.get_sp(), 0x1234);
    assert_eq!(cpu.get_pc(), 3);
    assert_eq!(delta, 12);
    assert_eq!(cpu.get_t(), 12);
}

#[test]
fn xor_a_with_itself_clears_a_and_sets_only_z() {
    // LD A,0x5A then XOR A.
    let (mut cpu, mut mmu, mut ppu) = boot_machine(&[0x3E, 0x5A, 0xAF]);
    run(&mut cpu, &mut mmu, &mut ppu);
    assert_eq!(cpu.get_a(), 0x5A);
    let delta = run(&mut cpu, &mut mmu, &mut ppu);
    assert_eq!(cpu.get_a(), 0x00);
    assert!(cpu.get_z_flag());
    assert!(!cpu.get_n_flag());
    assert!(!cpu.get_h_flag());
    assert!(!cpu.get_c_flag());
    assert_eq!(cpu.get_pc(), 3);
    assert_eq!(delta, 4);
}

#[test]
fn add_half_carry_without_carry() {
    // 0x0F + 0x01 sets half-carry, not carry, not zero.
    let (mut cpu, mut mmu, mut ppu) = boot_machine(&[0x3E, 0x0F, 0x06, 0x01, 0x80]);
    for _ in 0..3 {
        run(&mut cpu, &mut mmu, &mut ppu);
    }
    assert_eq!(cpu.get_a(), 0x10);
    assert_eq!(cpu.get_f(), H);
}

#[test]
fn add_overflow_sets_half_carry_carry_and_zero() {
    // 0xFF + 0x01 sets half-carry, carry and zero.
    let (mut cpu, mut mmu, mut ppu) = boot_machine(&[0x3E, 0xFF, 0x06, 0x01, 0x80]);
    for _ in 0..3 {
        run(&mut cpu, &mut mmu, &mut ppu);
    }
    assert_eq!(cpu.get_a(), 0x00);
    assert_eq!(cpu.get_f(), Z | H | C);
}

#[test]
fn increment_wraps_to_zero_with_zero_flag() {
    // INC A on 0xFF gives 0x00 with Z set.
    let (mut cpu, mut mmu, mut ppu) = boot_machine(&[0x3E, 0xFF, 0x3C]);
    run(&mut cpu, &mut mmu, &mut ppu);
    run(&mut cpu, &mut mmu, &mut ppu);
    assert_eq!(cpu.get_a(), 0x00);
    assert!(cpu.get_z_flag());
    assert!(!cpu.get_n_flag());
    assert!(cpu.get_h_flag());
}

#[test]
fn decrement_wraps_to_ff_with_zero_flag_clear() {
    // DEC A on 0x00 gives 0xFF with Z clear and N set.
    let (mut cpu, mut mmu, mut ppu) = boot_machine(&[0x3E, 0x00, 0x3D]);
    run(&mut cpu, &mut mmu, &mut ppu);
    run(&mut cpu, &mut mmu, &mut ppu);
    assert_eq!(cpu.get_a(), 0xFF);
    assert!(!cpu.get_z_flag());
    assert!(cpu.get_n_flag());
}

#[test]
fn subtract_to_zero_sets_zero_and_subtract_flags() {
    // LD A,0x42 then SUB 0x42 gives zero with N set, no borrows.
    let (mut cpu, mut mmu, mut ppu) = boot_machine(&[0x3E, 0x42, 0xD6, 0x42]);
    run(&mut cpu, &mut mmu, &mut ppu);
    run(&mut cpu, &mut mmu, &mut ppu);
    assert_eq!(cpu.get_a(), 0x00);
    assert_eq!(cpu.get_f(), Z | N);
}

#[test]
fn subtract_with_borrow_sets_carry_flags() {
    // 0x00 - 0x01 borrows into both nibbles.
    let (mut cpu, mut mmu, mut ppu) = boot_machine(&[0x3E, 0x00, 0xD6, 0x01]);
    run(&mut cpu, &mut mmu, &mut ppu);
    run(&mut cpu, &mut mmu, &mut ppu);
    assert_eq!(cpu.get_a(), 0xFF);
    assert_eq!(cpu.get_f(), N | H | C);
}

#[test]
fn compare_leaves_accumulator_untouched() {
    // CP with an equal immediate sets Z but keeps A.
    let (mut cpu, mut mmu, mut ppu) = boot_machine(&[0x3E, 0x37, 0xFE, 0x37]);
    run(&mut cpu, &mut mmu, &mut ppu);
    run(&mut cpu, &mut mmu, &mut ppu);
    assert_eq!(cpu.get_a(), 0x37);
    assert!(cpu.get_z_flag());
    assert!(cpu.get_n_flag());
}

#[test]
fn conditional_branch_not_taken_short_cost() {
    // XOR A sets Z, so JR NZ falls through: PC += 2, 8 cycles.
    let (mut cpu, mut mmu, mut ppu) = boot_machine(&[0xAF, 0x20, 0x05]);
    run(&mut cpu, &mut mmu, &mut ppu);
    let delta = run(&mut cpu, &mut mmu, &mut ppu);
    assert_eq!(cpu.get_pc(), 3);
    assert_eq!(delta, 8);
}

#[test]
fn conditional_branch_taken_adds_displacement_longer_cost() {
    // XOR A sets Z, so JR Z branches: PC += 2 then += 5, 12 cycles.
    let (mut cpu, mut mmu, mut ppu) = boot_machine(&[0xAF, 0x28, 0x05]);
    run(&mut cpu, &mut mmu, &mut ppu);
    let delta = run(&mut cpu, &mut mmu, &mut ppu);
    assert_eq!(cpu.get_pc(), 8);
    assert_eq!(delta, 12);
}

#[test]
fn branch_displacement_minus_two_self_loops() {
    // JR with displacement -2 lands back on the branch itself.
    let (mut cpu, mut mmu, mut ppu) = boot_machine(&[0x18, 0xFE]);
    let delta = run(&mut cpu, &mut mmu, &mut ppu);
    assert_eq!(cpu.get_pc(), 0);
    assert_eq!(delta, 12);
}

#[test]
fn push_pop_round_trip_is_identity() {
    // For a sample of 8-bit pairs: push the packed pair, pop it back.
    let (mut cpu, mut mmu, mut ppu) = boot_machine(&[0x31, 0x00, 0xC0]);
    run(&mut cpu, &mut mmu, &mut ppu);
    assert_eq!(cpu.get_sp(), 0xC000);
    for &(a, b) in &[(0x00u8, 0x00u8), (0xABu8, 0xCDu8), (0xFFu8, 0xFFu8), (0x12u8, 0x34u8)] {
        let pair = ((a as u16) << 8) | b as u16;
        let sp_before = cpu.get_sp();
        cpu.push_to_stack(&mut mmu, pair);
        assert_eq!(cpu.get_sp(), sp_before - 2);
        let back = cpu.pop_from_stack(&mmu);
        assert_eq!(back, pair);
        assert_eq!(cpu.get_sp(), sp_before);
    }
}

#[test]
fn push_pop_instructions_move_pair_between_registers() {
    // LD SP; LD BC,0x1234; PUSH BC; POP DE.
    let (mut cpu, mut mmu, mut ppu) = boot_machine(&[0x31, 0x00, 0xC0, 0x01, 0x34, 0x12, 0xC5, 0xD1]);
    for _ in 0..4 {
        run(&mut cpu, &mut mmu, &mut ppu);
    }
    let regs = cpu.snapshot();
    assert_eq!(regs.d, 0x12);
    assert_eq!(regs.e, 0x34);
}

#[test]
fn pop_af_masks_flag_low_nibble() {
    // Push 0xABCD, pop into AF: A=0xAB, F=0xCD with low nibble forced clear.
    let (mut cpu, mut mmu, mut ppu) = boot_machine(&[0x31, 0x00, 0xC0, 0x01, 0xCD, 0xAB, 0xC5, 0xF1]);
    for _ in 0..4 {
        run(&mut cpu, &mut mmu, &mut ppu);
    }
    assert_eq!(cpu.get_a(), 0xAB);
    assert_eq!(cpu.get_f(), 0xC0);
}

#[test]
fn call_pushes_return_address_and_ret_comes_back() {
    // LD SP,0xC000; CALL 0x0100; at 0x0100 a RET returns past the call.
    let mut program = vec![0x31, 0x00, 0xC0, 0xCD, 0x00, 0x01];
    program.resize(0x100, 0x00);
    program.push(0xC9);
    let (mut cpu, mut mmu, mut ppu) = boot_machine(&program);
    run(&mut cpu, &mut mmu, &mut ppu);
    let delta = run(&mut cpu, &mut mmu, &mut ppu);
    assert_eq!(cpu.get_pc(), 0x0100);
    assert_eq!(delta, 24);
    // The pushed return address is the byte after the call: low byte at the
    // old stack pointer, high byte below it.
    assert_eq!(mmu.read_byte(0xC000), 0x06);
    assert_eq!(mmu.read_byte(0xBFFF), 0x00);
    assert_eq!(cpu.get_sp(), 0xBFFE);
    let delta = run(&mut cpu, &mut mmu, &mut ppu);
    assert_eq!(cpu.get_pc(), 0x0006);
    assert_eq!(delta, 16);
    assert_eq!(cpu.get_sp(), 0xC000);
}

#[test]
fn conditional_call_not_taken_costs_less() {
    // XOR A sets Z, so CALL NZ falls through: PC += 3, 12 cycles.
    let (mut cpu, mut mmu, mut ppu) = boot_machine(&[0xAF, 0xC4, 0x00, 0x01]);
    run(&mut cpu, &mut mmu, &mut ppu);
    let delta = run(&mut cpu, &mut mmu, &mut ppu);
    assert_eq!(cpu.get_pc(), 4);
    assert_eq!(delta, 12);
}

#[test]
fn pointer_increment_wraps_and_keeps_flags() {
    // XOR A sets Z; LD HL,0xFFFF; INC HL wraps to 0 and leaves flags alone.
    let (mut cpu, mut mmu, mut ppu) = boot_machine(&[0xAF, 0x21, 0xFF, 0xFF, 0x23]);
    for _ in 0..3 {
        run(&mut cpu, &mut mmu, &mut ppu);
    }
    let regs = cpu.snapshot();
    assert_eq!(regs.h, 0x00);
    assert_eq!(regs.l, 0x00);
    assert!(cpu.get_z_flag());
}

#[test]
fn pointer_increment_sixteen_times_advances_by_sixteen() {
    // LD HL,0xFFF8 then sixteen INC HL: the pair wraps through 0 to 0x0008.
    let mut program = vec![0x21, 0xF8, 0xFF];
    program.extend(std::iter::repeat(0x23).take(16));
    let (mut cpu, mut mmu, mut ppu) = boot_machine(&program);
    for _ in 0..17 {
        run(&mut cpu, &mut mmu, &mut ppu);
    }
    let regs = cpu.snapshot();
    assert_eq!(regs.h, 0x00);
    assert_eq!(regs.l, 0x08);
}

#[test]
fn flag_setting_sixteen_bit_increment_reports_bit_eleven_carry() {
    // LD HL,0x0FFF then the flag-setting increment: H set, Z and C clear.
    let (mut cpu, mut mmu, mut ppu) = boot_machine(&[0x21, 0xFF, 0x0F, 0x34]);
    run(&mut cpu, &mut mmu, &mut ppu);
    run(&mut cpu, &mut mmu, &mut ppu);
    let regs = cpu.snapshot();
    assert_eq!(regs.h, 0x10);
    assert_eq!(regs.l, 0x00);
    assert_eq!(cpu.get_f(), 0x00 | H);
}

#[test]
fn rotate_accumulator_feeds_carry_and_sets_zero_from_result() {
    // LD A,0x80 then RLA: bit 7 leaves into carry, result 0 sets Z.
    let (mut cpu, mut mmu, mut ppu) = boot_machine(&[0x3E, 0x80, 0x17]);
    run(&mut cpu, &mut mmu, &mut ppu);
    let delta = run(&mut cpu, &mut mmu, &mut ppu);
    assert_eq!(cpu.get_a(), 0x00);
    assert_eq!(cpu.get_f(), Z | C);
    assert_eq!(delta, 4);
    assert_eq!(cpu.get_pc(), 3);
}

#[test]
fn rotate_through_carry_brings_prior_carry_into_bit_zero() {
    // LD A,0x80; RLA; RLA: the carry from the first rotate re-enters.
    let (mut cpu, mut mmu, mut ppu) = boot_machine(&[0x3E, 0x80, 0x17, 0x17]);
    for _ in 0..3 {
        run(&mut cpu, &mut mmu, &mut ppu);
    }
    assert_eq!(cpu.get_a(), 0x01);
    assert!(!cpu.get_c_flag());
    assert!(!cpu.get_z_flag());
}

#[test]
fn prefixed_rotate_costs_eight_cycles() {
    // LD B,0x80 then the prefixed RL B: distinct cost from RLA.
    let (mut cpu, mut mmu, mut ppu) = boot_machine(&[0x06, 0x80, 0xCB, 0x10]);
    run(&mut cpu, &mut mmu, &mut ppu);
    let delta = run(&mut cpu, &mut mmu, &mut ppu);
    assert_eq!(cpu.snapshot().b, 0x00);
    assert_eq!(cpu.get_f(), Z | C);
    assert_eq!(delta, 8);
    assert_eq!(cpu.get_pc(), 4);
}

#[test]
fn bit_test_sets_zero_iff_bit_clear() {
    // LD H,0x80 then BIT 7,H: bit set, so Z clear; H flag set, N clear.
    let (mut cpu, mut mmu, mut ppu) = boot_machine(&[0x26, 0x80, 0xCB, 0x7C]);
    run(&mut cpu, &mut mmu, &mut ppu);
    run(&mut cpu, &mut mmu, &mut ppu);
    assert!(!cpu.get_z_flag());
    assert!(cpu.get_h_flag());
    assert!(!cpu.get_n_flag());

    let (mut cpu, mut mmu, mut ppu) = boot_machine(&[0x26, 0x00, 0xCB, 0x7C]);
    run(&mut cpu, &mut mmu, &mut ppu);
    run(&mut cpu, &mut mmu, &mut ppu);
    assert!(cpu.get_z_flag());
}

#[test]
fn store_accumulator_to_immediate_address() {
    // LD A,0x42 then LD (0xC000),A.
    let (mut cpu, mut mmu, mut ppu) = boot_machine(&[0x3E, 0x42, 0xEA, 0x00, 0xC0]);
    run(&mut cpu, &mut mmu, &mut ppu);
    run(&mut cpu, &mut mmu, &mut ppu);
    assert_eq!(mmu.read_byte(0xC000), 0x42);
    assert_eq!(cpu.get_pc(), 5);
}

#[test]
fn load_and_store_through_hl_with_post_increment() {
    // LD HL,0xC000; LD (HL+),A twice leaves HL at 0xC002.
    let (mut cpu, mut mmu, mut ppu) = boot_machine(&[0x3E, 0x77, 0x21, 0x00, 0xC0, 0x22, 0x22]);
    for _ in 0..4 {
        run(&mut cpu, &mut mmu, &mut ppu);
    }
    assert_eq!(mmu.read_byte(0xC000), 0x77);
    assert_eq!(mmu.read_byte(0xC001), 0x77);
    let regs = cpu.snapshot();
    assert_eq!(regs.h, 0xC0);
    assert_eq!(regs.l, 0x02);
}

#[test]
fn interrupt_enable_and_disable_toggle_ime() {
    let (mut cpu, mut mmu, mut ppu) = boot_machine(&[0xFB, 0xF3]);
    assert!(!cpu.get_ime());
    run(&mut cpu, &mut mmu, &mut ppu);
    assert!(cpu.get_ime());
    run(&mut cpu, &mut mmu, &mut ppu);
    assert!(!cpu.get_ime());
}

#[test]
fn fine_cycles_stay_four_times_coarse_cycles() {
    let (mut cpu, mut mmu, mut ppu) = boot_machine(&[0x3E, 0x01, 0x80, 0x18, 0xFB]);
    for _ in 0..8 {
        run(&mut cpu, &mut mmu, &mut ppu);
        assert_eq!(cpu.get_t(), 4 * cpu.get_m());
    }
}

#[test]
fn unknown_opcode_reports_byte_and_snapshot_and_halts() {
    // 0xD3 has no decoding; the error carries the byte and the registers,
    // and the machine state stays put.
    let (mut cpu, mut mmu, mut ppu) = boot_machine(&[0x3E, 0x5A, 0xD3]);
    run(&mut cpu, &mut mmu, &mut ppu);
    let t_before = cpu.get_t();
    let err = cpu.run_instruction(&mut mmu, &mut ppu).unwrap_err();
    match err {
        EmuError::IllegalOpcode { opcode, regs } => {
            assert_eq!(opcode, 0xD3);
            assert_eq!(regs.a, 0x5A);
            assert_eq!(regs.pc, 2);
        }
        other => panic!("wrong error variant: {:?}", other),
    }
    assert_eq!(cpu.get_pc(), 2);
    assert_eq!(cpu.get_t(), t_before);
}

#[test]
fn unknown_prefixed_opcode_reports_secondary_byte() {
    // 0xCB 0x00 has no decoding in the secondary table.
    let (mut cpu, mut mmu, mut ppu) = boot_machine(&[0xCB, 0x00]);
    let err = cpu.run_instruction(&mut mmu, &mut ppu).unwrap_err();
    match err {
        EmuError::IllegalPrefixedOpcode { sub_opcode, regs } => {
            assert_eq!(sub_opcode, 0x00);
            assert_eq!(regs.pc, 0);
        }
        other => panic!("wrong error variant: {:?}", other),
    }
}

#[test]
fn register_to_register_moves() {
    // LD A,0x21; LD B,A; LD C,A; then LD A,0x00 and LD A,B brings it back.
    let (mut cpu, mut mmu, mut ppu) = boot_machine(&[0x3E, 0x21, 0x47, 0x4F, 0x3E, 0x00, 0x78]);
    for _ in 0..5 {
        run(&mut cpu, &mut mmu, &mut ppu);
    }
    let regs = cpu.snapshot();
    assert_eq!(regs.a, 0x21);
    assert_eq!(regs.b, 0x21);
    assert_eq!(regs.c, 0x21);
}
