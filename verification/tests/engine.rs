use cpu8086::cpu::Cpu8086;
use cpu8086::cpu::Cpu8086Context;
use cpu8086::cpu::CpuError;
use cpu8086::cpu::linear_address;
use cpu8086::registers::Flag;
use cpu8086::registers::Reg16;
use cpu8086::registers::Reg8;
use cpu8086::registers::SegReg;

/// A flat 1 MiB RAM with no IO devices, standing in for the machine the
/// engine is wired to.
struct RamBus {
    mem: Vec<u8>,
}

impl RamBus {
    fn new() -> RamBus {
        RamBus { mem: vec![0u8; 0x100000] }
    }

    fn load(program: &[u8]) -> RamBus {
        let mut bus = RamBus::new();
        bus.mem[..program.len()].copy_from_slice(program);
        bus
    }
}

impl Cpu8086Context for RamBus {
    fn mem_read_byte(&mut self, addr: u32) -> u8 {
        self.mem[addr as usize]
    }

    fn mem_write_byte(&mut self, addr: u32, value: u8) {
        self.mem[addr as usize] = value;
    }

    fn io_read_byte(&mut self, _addr: u16) -> u8 {
        0
    }

    fn io_write_byte(&mut self, _addr: u16, _value: u8) {}
}

/// A CPU whose code segment and instruction pointer are zero, so programs
/// loaded at linear address zero run directly.
fn cpu_at_zero() -> Cpu8086 {
    let mut cpu = Cpu8086::new();
    cpu.regs.writeseg16(SegReg::CS, 0);
    cpu
}

#[test]
fn linear_address_wraps_past_the_20_bit_boundary() {
    assert_eq!(linear_address(0xffff, 0x0010), 0x00000);
    assert_eq!(linear_address(0x0000, 0x0000), 0x00000);
    assert_eq!(linear_address(0x1000, 0x0000), 0x10000);
}

#[test]
fn parity_flag_exhaustive() {
    for v in 0..=0xffu16 {
        let mut cpu = Cpu8086::new();
        cpu.set_parity_flag(v);
        let even = v.count_ones() % 2 == 0;
        assert_eq!(cpu.regs.get_flag(Flag::Parity), even, "value {v:#x}");
    }
}

#[test]
fn parity_flag_reads_only_the_low_byte() {
    let mut cpu = Cpu8086::new();
    // 0x0103 has three set bits, but its low byte has two: parity is even.
    cpu.set_parity_flag(0x0103);
    assert!(cpu.regs.get_flag(Flag::Parity));
}

#[test]
fn xor_self_clears_and_sets_zero_and_parity() {
    let mut bus = RamBus::load(&[0x32, 0xc0]);
    let mut cpu = cpu_at_zero();
    cpu.regs.write8(Reg8::AL, 0x55);
    let r = cpu.tick(&mut bus);
    assert_eq!(r, Ok(()));
    assert_eq!(cpu.regs.read8(Reg8::AL), 0x00);
    assert!(cpu.regs.get_flag(Flag::Zero));
    assert!(!cpu.regs.get_flag(Flag::Sign));
    assert!(cpu.regs.get_flag(Flag::Parity));
    assert!(!cpu.regs.get_flag(Flag::Carry));
    assert!(!cpu.regs.get_flag(Flag::Overflow));
    assert_eq!(cpu.regs.ip, 2);
}

#[test]
fn xor_of_two_registers() {
    // xor bl, dl with bl = 0xf0, dl = 0x96: result 0x66 in bl.
    let mut bus = RamBus::load(&[0x32, 0xda]);
    let mut cpu = cpu_at_zero();
    cpu.regs.write8(Reg8::BL, 0xf0);
    cpu.regs.write8(Reg8::DL, 0x96);
    let r = cpu.tick(&mut bus);
    assert_eq!(r, Ok(()));
    assert_eq!(cpu.regs.read8(Reg8::BL), 0x66);
    assert_eq!(cpu.regs.read8(Reg8::DL), 0x96);
    assert!(!cpu.regs.get_flag(Flag::Zero));
    assert!(!cpu.regs.get_flag(Flag::Sign));
    // 0x66 has four set bits: even parity.
    assert!(cpu.regs.get_flag(Flag::Parity));
}

#[test]
fn xor_with_memory_operand_is_fatal() {
    let mut bus = RamBus::load(&[0x32, 0x00]);
    let mut cpu = cpu_at_zero();
    let r = cpu.tick(&mut bus);
    assert_eq!(r, Err(CpuError::UnsupportedOperand { opcode: 0x32, encoding: 0x00 }));
    assert_eq!(cpu.regs.ip, 2);
}

#[test]
fn conditional_jump_not_taken_vs_taken() {
    let mut bus = RamBus::load(&[0x74, 0x05]);
    let mut cpu = cpu_at_zero();
    let r = cpu.tick(&mut bus);
    assert_eq!(r, Ok(()));
    assert_eq!(cpu.regs.ip, 2);

    let mut bus = RamBus::load(&[0x74, 0x05]);
    let mut cpu = cpu_at_zero();
    cpu.regs.set_flag(Flag::Zero, true);
    let r = cpu.tick(&mut bus);
    assert_eq!(r, Ok(()));
    assert_eq!(cpu.regs.ip, 7);
}

#[test]
fn conditional_jump_negative_displacement() {
    // jnz -2 with the zero flag clear loops back onto itself.
    let mut bus = RamBus::load(&[0x75, 0xfe]);
    let mut cpu = cpu_at_zero();
    let r = cpu.tick(&mut bus);
    assert_eq!(r, Ok(()));
    assert_eq!(cpu.regs.ip, 0);
}

#[test]
fn all_ten_conditional_jumps_follow_their_flag() {
    let cases: [(u8, Flag, bool); 10] = [
        (0x70, Flag::Overflow, true),
        (0x71, Flag::Overflow, false),
        (0x72, Flag::Carry, true),
        (0x73, Flag::Carry, false),
        (0x74, Flag::Zero, true),
        (0x75, Flag::Zero, false),
        (0x78, Flag::Sign, true),
        (0x79, Flag::Sign, false),
        (0x7a, Flag::Parity, true),
        (0x7b, Flag::Parity, false),
    ];
    for (opcode, flag, wants_set) in cases {
        for flag_value in [false, true] {
            let mut bus = RamBus::load(&[opcode, 0x10]);
            let mut cpu = cpu_at_zero();
            cpu.regs.set_flag(flag, flag_value);
            let r = cpu.tick(&mut bus);
            assert_eq!(r, Ok(()));
            let expected = if flag_value == wants_set { 0x12 } else { 2 };
            assert_eq!(cpu.regs.ip, expected, "opcode {opcode:#x} flag {flag_value}");
        }
    }
}

#[test]
fn mov_rm_seg_copies_segment_into_register() {
    // mov ax, ds (modrm 11 011 000).
    let mut bus = RamBus::load(&[0x8c, 0xd8]);
    let mut cpu = cpu_at_zero();
    cpu.regs.writeseg16(SegReg::DS, 0x1234);
    let r = cpu.tick(&mut bus);
    assert_eq!(r, Ok(()));
    assert_eq!(cpu.regs.read16(Reg16::AX), 0x1234);
    assert_eq!(cpu.regs.ip, 2);
}

#[test]
fn mov_seg_rm_copies_register_into_segment() {
    // mov ds, ax (modrm 11 011 000).
    let mut bus = RamBus::load(&[0x8e, 0xd8]);
    let mut cpu = cpu_at_zero();
    cpu.regs.write16(Reg16::AX, 0xb800);
    let r = cpu.tick(&mut bus);
    assert_eq!(r, Ok(()));
    assert_eq!(cpu.regs.readseg16(SegReg::DS), 0xb800);
    assert_eq!(cpu.regs.ip, 2);
}

#[test]
fn mov_seg_with_memory_operand_is_fatal() {
    let mut bus = RamBus::load(&[0x8e, 0x18]);
    let mut cpu = cpu_at_zero();
    let r = cpu.tick(&mut bus);
    assert_eq!(r, Err(CpuError::UnsupportedOperand { opcode: 0x8e, encoding: 0x18 }));
}

#[test]
fn stc_lahf_sahf_round_trip() {
    let mut bus = RamBus::load(&[0xf9, 0x9f, 0xf8, 0x9e]);
    let mut cpu = cpu_at_zero();
    assert_eq!(cpu.tick(&mut bus), Ok(()));
    assert!(cpu.regs.get_flag(Flag::Carry));
    assert_eq!(cpu.tick(&mut bus), Ok(()));
    // The stored byte has the carry bit set.
    assert_eq!(cpu.regs.read8(Reg8::AH) & 0x01, 0x01);
    // Clear the carry, then load the stored byte back: carry is set again.
    assert_eq!(cpu.tick(&mut bus), Ok(()));
    assert!(!cpu.regs.get_flag(Flag::Carry));
    assert_eq!(cpu.tick(&mut bus), Ok(()));
    assert!(cpu.regs.get_flag(Flag::Carry));
    assert_eq!(cpu.regs.ip, 4);
}

#[test]
fn lahf_stores_the_masked_subset() {
    let mut bus = RamBus::load(&[0x9f]);
    let mut cpu = cpu_at_zero();
    cpu.regs.set_flag(Flag::Carry, true);
    cpu.regs.set_flag(Flag::Zero, true);
    let r = cpu.tick(&mut bus);
    assert_eq!(r, Ok(()));
    assert_eq!(cpu.regs.read8(Reg8::AH), 0x41);
    assert_eq!(cpu.regs.ip, 1);
}

#[test]
fn sahf_replaces_only_the_masked_low_byte() {
    let mut bus = RamBus::load(&[0x9e]);
    let mut cpu = cpu_at_zero();
    cpu.regs.write8(Reg8::AH, 0xff);
    let r = cpu.tick(&mut bus);
    assert_eq!(r, Ok(()));
    // Of the 0xff byte only the fixed subset 0xd5 lands in the flags; the
    // reserved bits stay put and the high byte is untouched.
    assert_eq!(cpu.regs.read16(Reg16::FLAGS), 0xf0d7);
    assert_eq!(cpu.regs.ip, 1);
}

#[test]
fn mov_r8_imm_all_eight_registers() {
    let regs = [
        (0xb0u8, Reg8::AL),
        (0xb1, Reg8::CL),
        (0xb2, Reg8::DL),
        (0xb3, Reg8::BL),
        (0xb4, Reg8::AH),
        (0xb5, Reg8::CH),
        (0xb6, Reg8::DH),
        (0xb7, Reg8::BH),
    ];
    for (opcode, reg) in regs {
        let mut bus = RamBus::load(&[opcode, 0x5a]);
        let mut cpu = cpu_at_zero();
        let r = cpu.tick(&mut bus);
        assert_eq!(r, Ok(()));
        assert_eq!(cpu.regs.read8(reg), 0x5a, "opcode {opcode:#x}");
        assert_eq!(cpu.regs.ip, 2);
    }
}

#[test]
fn mov_r16_imm_is_little_endian() {
    let regs = [(0xb8u8, Reg16::AX), (0xb9, Reg16::CX), (0xba, Reg16::DX), (0xbb, Reg16::BX)];
    for (opcode, reg) in regs {
        let mut bus = RamBus::load(&[opcode, 0x34, 0x12]);
        let mut cpu = cpu_at_zero();
        let r = cpu.tick(&mut bus);
        assert_eq!(r, Ok(()));
        assert_eq!(cpu.regs.read16(reg), 0x1234, "opcode {opcode:#x}");
        assert_eq!(cpu.regs.ip, 3);
    }
}

#[test]
fn shift_left_by_one_flags() {
    // shl al, 1 with al = 0x81: result 0x02; the carry samples the
    // original bit 0 (the modeled hardware's behavior), and the overflow
    // is the xor of the two most significant bits before the shift.
    let mut bus = RamBus::load(&[0xd0, 0xe0]);
    let mut cpu = cpu_at_zero();
    cpu.regs.write8(Reg8::AL, 0x81);
    let r = cpu.tick(&mut bus);
    assert_eq!(r, Ok(()));
    assert_eq!(cpu.regs.read8(Reg8::AL), 0x02);
    assert!(cpu.regs.get_flag(Flag::Carry));
    assert!(cpu.regs.get_flag(Flag::Overflow));
    assert_eq!(cpu.regs.ip, 2);
}

#[test]
fn shift_right_by_one_flags() {
    // shr al, 1 with al = 0x81: result 0x40, carry from bit 0, overflow
    // from the original bit 7.
    let mut bus = RamBus::load(&[0xd0, 0xe8]);
    let mut cpu = cpu_at_zero();
    cpu.regs.write8(Reg8::AL, 0x81);
    let r = cpu.tick(&mut bus);
    assert_eq!(r, Ok(()));
    assert_eq!(cpu.regs.read8(Reg8::AL), 0x40);
    assert!(cpu.regs.get_flag(Flag::Carry));
    assert!(cpu.regs.get_flag(Flag::Overflow));
    assert_eq!(cpu.regs.ip, 2);
}

#[test]
fn shift_left_by_count_tracks_the_last_bit_out() {
    // shl al, cl with al = 0xc1, cl = 2: bits 1 then 1 shift out, so the
    // carry ends set and the register holds 0x04.
    let mut bus = RamBus::load(&[0xd2, 0xe0]);
    let mut cpu = cpu_at_zero();
    cpu.regs.write8(Reg8::AL, 0xc1);
    cpu.regs.write8(Reg8::CL, 2);
    let r = cpu.tick(&mut bus);
    assert_eq!(r, Ok(()));
    assert_eq!(cpu.regs.read8(Reg8::AL), 0x04);
    assert!(cpu.regs.get_flag(Flag::Carry));
}

#[test]
fn shift_right_by_count_tracks_the_last_bit_out() {
    // shr al, cl with al = 0x06, cl = 2: bits 0 then 1 shift out.
    let mut bus = RamBus::load(&[0xd2, 0xe8]);
    let mut cpu = cpu_at_zero();
    cpu.regs.write8(Reg8::AL, 0x06);
    cpu.regs.write8(Reg8::CL, 2);
    let r = cpu.tick(&mut bus);
    assert_eq!(r, Ok(()));
    assert_eq!(cpu.regs.read8(Reg8::AL), 0x01);
    assert!(cpu.regs.get_flag(Flag::Carry));
}

#[test]
fn shift_by_count_of_zero_is_a_noop() {
    let mut bus = RamBus::load(&[0xd2, 0xe0]);
    let mut cpu = cpu_at_zero();
    cpu.regs.write8(Reg8::AL, 0x55);
    cpu.regs.write8(Reg8::CL, 0);
    cpu.regs.set_flag(Flag::Carry, true);
    cpu.regs.set_flag(Flag::Overflow, true);
    let flags_before = cpu.regs.read16(Reg16::FLAGS);
    let r = cpu.tick(&mut bus);
    assert_eq!(r, Ok(()));
    assert_eq!(cpu.regs.read8(Reg8::AL), 0x55);
    assert_eq!(cpu.regs.read16(Reg16::FLAGS), flags_before);
    assert_eq!(cpu.regs.ip, 2);
}

#[test]
fn shift_group_unimplemented_sub_operation_is_fatal() {
    // Group sub-operation 0 (a rotate) has no implemented behavior.
    let mut bus = RamBus::load(&[0xd0, 0xc0]);
    let mut cpu = cpu_at_zero();
    let r = cpu.tick(&mut bus);
    assert_eq!(r, Err(CpuError::UnsupportedOperand { opcode: 0xd0, encoding: 0xc0 }));

    let mut bus = RamBus::load(&[0xd2, 0xc0]);
    let mut cpu = cpu_at_zero();
    let r = cpu.tick(&mut bus);
    assert_eq!(r, Err(CpuError::UnsupportedOperand { opcode: 0xd2, encoding: 0xc0 }));
}

#[test]
fn jmp_near_adds_the_displacement_to_ip() {
    let mut bus = RamBus::load(&[0xe9, 0x10, 0x00]);
    let mut cpu = cpu_at_zero();
    let r = cpu.tick(&mut bus);
    assert_eq!(r, Ok(()));
    assert_eq!(cpu.regs.ip, 0x0010);
}

#[test]
fn jmp_far_loads_segment_and_offset() {
    let mut bus = RamBus::load(&[0xea, 0x34, 0x12, 0x00, 0xb8]);
    let mut cpu = cpu_at_zero();
    let r = cpu.tick(&mut bus);
    assert_eq!(r, Ok(()));
    assert_eq!(cpu.regs.ip, 0x1234);
    assert_eq!(cpu.regs.readseg16(SegReg::CS), 0xb800);
}

#[test]
fn flag_control_opcodes() {
    let mut bus = RamBus::load(&[0xf9, 0xfb, 0xfd, 0xf8, 0xfa, 0xfc]);
    let mut cpu = cpu_at_zero();
    assert_eq!(cpu.tick(&mut bus), Ok(()));
    assert!(cpu.regs.get_flag(Flag::Carry));
    assert_eq!(cpu.tick(&mut bus), Ok(()));
    assert!(cpu.regs.get_flag(Flag::Interrupt));
    assert_eq!(cpu.tick(&mut bus), Ok(()));
    assert!(cpu.regs.get_flag(Flag::Direction));
    assert_eq!(cpu.tick(&mut bus), Ok(()));
    assert!(!cpu.regs.get_flag(Flag::Carry));
    assert_eq!(cpu.tick(&mut bus), Ok(()));
    assert!(!cpu.regs.get_flag(Flag::Interrupt));
    assert_eq!(cpu.tick(&mut bus), Ok(()));
    assert!(!cpu.regs.get_flag(Flag::Direction));
    assert_eq!(cpu.regs.ip, 6);
}

#[test]
fn unknown_opcode_is_fatal_and_mutates_nothing() {
    let mut bus = RamBus::load(&[0xf6]);
    let mut cpu = cpu_at_zero();
    let before = cpu.regs;
    let r = cpu.tick(&mut bus);
    assert_eq!(r, Err(CpuError::UnimplementedOpcode(0xf6)));
    assert_eq!(cpu.regs, before);
    assert_eq!(cpu.opcode, 0xf6);
}

#[test]
fn boot_fetch_comes_from_the_reset_vector() {
    // The boot state's code segment is 0xffff and its instruction pointer
    // 0, so the first opcode is fetched at linear 0xffff0.
    let mut bus = RamBus::new();
    bus.mem[0xffff0] = 0xf9;
    let mut cpu = Cpu8086::new();
    let r = cpu.tick(&mut bus);
    assert_eq!(r, Ok(()));
    assert!(cpu.regs.get_flag(Flag::Carry));
}

#[test]
fn fetch_wraps_within_the_20_bit_space() {
    // With cs:ip = 0xffff:0x0010 the opcode's linear address wraps past
    // 0xfffff back to zero.
    let mut bus = RamBus::new();
    bus.mem[0x00000] = 0xf9;
    let mut cpu = Cpu8086::new();
    cpu.regs.ip = 0x0010;
    let r = cpu.tick(&mut bus);
    assert_eq!(r, Ok(()));
    assert!(cpu.regs.get_flag(Flag::Carry));
}

#[test]
fn word_fetch_wraps_its_second_byte_independently() {
    // A 16-bit immediate read at linear 0xfffff takes its high byte from
    // linear 0x00000.
    let mut bus = RamBus::new();
    // mov ax, imm16 with the opcode at 0xffffe: cs = 0xffff, ip = 0x000e.
    bus.mem[0xffffe] = 0xb8;
    bus.mem[0xfffff] = 0x34;
    bus.mem[0x00000] = 0x12;
    let mut cpu = Cpu8086::new();
    cpu.regs.ip = 0x000e;
    let r = cpu.tick(&mut bus);
    assert_eq!(r, Ok(()));
    assert_eq!(cpu.regs.read16(Reg16::AX), 0x1234);
}

#[test]
fn memory_helpers_translate_and_assemble() {
    let mut bus = RamBus::new();
    let mut cpu = cpu_at_zero();
    cpu.mem_write_byte(&mut bus, 0x1000, 0x0005, 0xab);
    assert_eq!(bus.mem[0x10005], 0xab);
    assert_eq!(cpu.mem_read_byte(&mut bus, 0x1000, 0x0005), 0xab);
    bus.mem[0x10006] = 0xcd;
    assert_eq!(cpu.mem_read_word(&mut bus, 0x1000, 0x0005), 0xcdab);
}
