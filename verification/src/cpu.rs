//! The fetch-decode-execute engine: one instruction per call, driven
//! through an injected memory/IO bus capability.
//!
//! The instruction semantics live in the `spec_step` family of
//! specification functions: `spec_step` maps a register file, an opcode
//! byte and the (up to four) encoding bytes that follow it to the next
//! register file and the step's outcome. The executable engine is verified
//! against it, so every implemented opcode's flag and state effect is
//! pinned down bit for bit.

use vstd::prelude::*;

use crate::operand::Operand;
use crate::operand::decode_modrm;
use crate::operand::modrm_mode;
use crate::operand::modrm_reg;
use crate::operand::modrm_rm;
use crate::registers::FLAGS_LOW_MASK;
use crate::registers::Flag;
use crate::registers::Reg16;
use crate::registers::Reg8;
use crate::registers::Registers;
use crate::registers::SegReg;

verus! {

/// A fatal condition of the dispatch/execution engine. Both are design
/// decisions rather than recoverable states: the caller can tell an
/// instruction-set gap from an addressing-mode gap.
#[derive(Clone, Copy, Debug, PartialEq, Eq, Structural)]
pub enum CpuError {
    /// The fetched opcode byte has no entry in the dispatch table.
    UnimplementedOpcode(u8),
    /// The ModRM byte asks for an operand form the opcode's implemented
    /// behavior does not support: a memory `rm` operand, or an
    /// unimplemented sub-operation of a group opcode.
    UnsupportedOperand { opcode: u8, encoding: u8 },
}

/// The memory and IO bus capability the engine is driven through. The
/// engine borrows it per call and never retains it; nothing is assumed of
/// the values a read returns.
pub trait Cpu8086Context {
    /// Reads the byte at a 20-bit linear memory address.
    fn mem_read_byte(&mut self, addr: u32) -> u8;

    /// Writes a byte at a 20-bit linear memory address.
    fn mem_write_byte(&mut self, addr: u32, value: u8);

    /// Reads a byte from an IO port.
    fn io_read_byte(&mut self, addr: u16) -> u8;

    /// Writes a byte to an IO port.
    fn io_write_byte(&mut self, addr: u16, value: u8);
}

/// The 20-bit linear address a segment:offset pair maps to: the segment
/// shifted left four bits, plus the offset, wrapped to 20 bits. An offset
/// near `0xFFFF` combined with a high segment wraps past `0xFFFFF` back to
/// low addresses; this wraparound is exact.
pub open spec fn spec_linear_address(seg: u16, offset: u16) -> u32 {
    ((((seg as u32) << 4) + (offset as u32)) as u32) & 0xfffff
}

/// Translates a segment:offset pair to its 20-bit linear address, with
/// exact wraparound past the 20-bit boundary.
pub fn linear_address(seg: u16, offset: u16) -> (r: u32)
    ensures
        r == spec_linear_address(seg, offset),
        r <= 0xfffff,
{
    let base: u32 = (seg as u32) << 4;
    proof {
        assert((seg as u32) << 4 <= 0xffff0) by (bit_vector);
    }
    let unmasked: u32 = base + (offset as u32);
    proof {
        assert(unmasked & 0xfffff <= 0xfffff) by (bit_vector);
    }
    unmasked & 0xfffff
}

/// 16-bit addition with wraparound: the arithmetic of every instruction
/// advance and relative control transfer.
pub open spec fn wadd16(a: u16, b: u16) -> u16 {
    ((a + b) % 0x10000) as u16
}

/// Adds two 16-bit values with wraparound.
pub fn wrapping_add16(a: u16, b: u16) -> (r: u16)
    ensures
        r == wadd16(a, b),
{
    let sum: u32 = (a as u32) + (b as u32);
    proof {
        assert((sum & 0xffff) as u16 == ((a + b) % 0x10000) as u16) by (bit_vector)
            requires
                sum == a + b,
        ;
    }
    (sum & 0xffff) as u16
}

/// A displacement byte sign-extended to 16 bits.
pub open spec fn sext8(b: u8) -> u16 {
    if b < 0x80 {
        b as u16
    } else {
        (b as u16) | 0xff00
    }
}

/// Sign-extends a displacement byte to 16 bits.
pub fn sign_extend8(b: u8) -> (r: u16)
    ensures
        r == sext8(b),
{
    if b < 0x80 {
        b as u16
    } else {
        (b as u16) | 0xff00
    }
}

/// A 16-bit word assembled from its little-endian bytes: low byte at the
/// lower address.
pub open spec fn word_le(lo: u8, hi: u8) -> u16 {
    (lo as u16) | ((hi as u16) << 8)
}

/// Number of set bits in a byte.
pub open spec fn popcount8(v: u8) -> u8 {
    ((v & 1) + ((v >> 1) & 1) + ((v >> 2) & 1) + ((v >> 3) & 1) + ((v >> 4) & 1) + ((v >> 5) & 1)
        + ((v >> 6) & 1) + ((v >> 7) & 1)) as u8
}

/// Whether a byte has an even number of set bits: the condition under
/// which the parity flag is set.
pub open spec fn even_parity8(v: u8) -> bool {
    popcount8(v) % 2 == 0
}

/// Whether an opcode byte is one of the ten implemented short conditional
/// jumps (overflow/carry/zero/sign/parity, each with its negation).
pub open spec fn is_jcc_opcode(opcode: u8) -> bool {
    (0x70 <= opcode && opcode <= 0x75) || (0x78 <= opcode && opcode <= 0x7b)
}

/// Whether an opcode byte is one of the six single-flag control
/// instructions (clear/set carry, interrupt-enable, direction).
pub open spec fn is_flag_control_opcode(opcode: u8) -> bool {
    0xf8 <= opcode && opcode <= 0xfd
}

/// Total encoding length in bytes (opcode included) of an implemented
/// opcode, or `None` for a byte absent from the dispatch table.
pub open spec fn spec_instr_len(opcode: u8) -> Option<u8> {
    if opcode == 0x9e || opcode == 0x9f || is_flag_control_opcode(opcode) {
        Some(1u8)
    } else if opcode == 0x32 || is_jcc_opcode(opcode) || opcode == 0x8c || opcode == 0x8e || (0xb0
        <= opcode && opcode <= 0xb7) || opcode == 0xd0 || opcode == 0xd2 {
        Some(2u8)
    } else if (0xb8 <= opcode && opcode <= 0xbb) || opcode == 0xe9 {
        Some(3u8)
    } else if opcode == 0xea {
        Some(5u8)
    } else {
        None
    }
}

/// Looks up an opcode byte in the dispatch table: its total encoding
/// length if implemented, `None` if the byte has no entry.
pub fn instr_len(opcode: u8) -> (r: Option<u8>)
    ensures
        r == spec_instr_len(opcode),
{
    if opcode == 0x9e || opcode == 0x9f || (0xf8 <= opcode && opcode <= 0xfd) {
        Some(1u8)
    } else if opcode == 0x32 || (0x70 <= opcode && opcode <= 0x75) || (0x78 <= opcode && opcode
        <= 0x7b) || opcode == 0x8c || opcode == 0x8e || (0xb0 <= opcode && opcode <= 0xb7)
        || opcode == 0xd0 || opcode == 0xd2 {
        Some(2u8)
    } else if (0xb8 <= opcode && opcode <= 0xbb) || opcode == 0xe9 {
        Some(3u8)
    } else if opcode == 0xea {
        Some(5u8)
    } else {
        None
    }
}

/// XOR of an 8-bit register pair, register operands only: the `reg`-field
/// register becomes `reg XOR rm`; overflow and carry are cleared; zero,
/// sign and parity follow the result. A memory `rm` is fatal (the
/// instruction pointer has already advanced past the encoding).
pub open spec fn spec_xor_reg_rm(regs: Registers, modrm: u8) -> (Registers, Result<(), CpuError>) {
    let advanced = regs.with_ip(wadd16(regs.ip, 2));
    if modrm_mode(modrm) != 3 {
        (advanced, Err(CpuError::UnsupportedOperand { opcode: 0x32, encoding: modrm }))
    } else {
        let dst = Reg8::spec_from_num(modrm_reg(modrm));
        let src = Reg8::spec_from_num(modrm_rm(modrm));
        let result = regs.read8_spec(dst) ^ regs.read8_spec(src);
        let flagged = advanced.set_flag_spec(Flag::Overflow, false).set_flag_spec(
            Flag::Carry,
            false,
        ).set_flag_spec(Flag::Zero, result == 0).set_flag_spec(
            Flag::Sign,
            result & 0x80 == 0x80,
        ).set_flag_spec(Flag::Parity, even_parity8(result));
        (flagged.write8_spec(dst, result), Ok(()))
    }
}

/// Whether a conditional jump's condition holds: the named flag matches
/// the polarity the opcode byte selects.
pub open spec fn spec_jcc_taken(regs: Registers, opcode: u8) -> bool {
    if opcode == 0x70 {
        regs.get_flag_spec(Flag::Overflow)
    } else if opcode == 0x71 {
        !regs.get_flag_spec(Flag::Overflow)
    } else if opcode == 0x72 {
        regs.get_flag_spec(Flag::Carry)
    } else if opcode == 0x73 {
        !regs.get_flag_spec(Flag::Carry)
    } else if opcode == 0x74 {
        regs.get_flag_spec(Flag::Zero)
    } else if opcode == 0x75 {
        !regs.get_flag_spec(Flag::Zero)
    } else if opcode == 0x78 {
        regs.get_flag_spec(Flag::Sign)
    } else if opcode == 0x79 {
        !regs.get_flag_spec(Flag::Sign)
    } else if opcode == 0x7a {
        regs.get_flag_spec(Flag::Parity)
    } else {
        !regs.get_flag_spec(Flag::Parity)
    }
}

/// A short conditional jump: the instruction pointer advances past the
/// 2-byte encoding, then, if the condition holds, the sign-extended
/// displacement is added with 16-bit wraparound. Flags are untouched.
pub open spec fn spec_jcc(regs: Registers, opcode: u8, disp: u8) -> Registers {
    let next = wadd16(regs.ip, 2);
    if spec_jcc_taken(regs, opcode) {
        regs.with_ip(wadd16(next, sext8(disp)))
    } else {
        regs.with_ip(next)
    }
}

/// Copy of a segment register into a 16-bit general register, register
/// `rm` only. No flag effect.
pub open spec fn spec_mov_rm_seg(regs: Registers, modrm: u8) -> (Registers, Result<(), CpuError>) {
    let advanced = regs.with_ip(wadd16(regs.ip, 2));
    if modrm_mode(modrm) != 3 {
        (advanced, Err(CpuError::UnsupportedOperand { opcode: 0x8c, encoding: modrm }))
    } else {
        let src = SegReg::spec_from_num(modrm_reg(modrm));
        let dst = Reg16::spec_from_num(modrm_rm(modrm));
        (advanced.write16_spec(dst, regs.readseg16_spec(src)), Ok(()))
    }
}

/// Copy of a 16-bit general register into a segment register, register
/// `rm` only. No flag effect.
pub open spec fn spec_mov_seg_rm(regs: Registers, modrm: u8) -> (Registers, Result<(), CpuError>) {
    let advanced = regs.with_ip(wadd16(regs.ip, 2));
    if modrm_mode(modrm) != 3 {
        (advanced, Err(CpuError::UnsupportedOperand { opcode: 0x8e, encoding: modrm }))
    } else {
        let dst = SegReg::spec_from_num(modrm_reg(modrm));
        let src = Reg16::spec_from_num(modrm_rm(modrm));
        (advanced.writeseg16_spec(dst, regs.read16_spec(src)), Ok(()))
    }
}

/// Store-flags-to-AH: the fixed masked subset of the flags low byte
/// (sign, zero, auxiliary-carry, parity, carry) is copied into the high
/// half of the accumulator. Flags themselves are read-only here.
pub open spec fn spec_lahf(regs: Registers) -> Registers {
    regs.write8_spec(Reg8::AH, (regs.flags & FLAGS_LOW_MASK) as u8).with_ip(wadd16(regs.ip, 1))
}

/// Load-flags-from-AH: the fixed masked subset of the flags low byte is
/// replaced from the high half of the accumulator; the flags high byte and
/// the reserved low bits are preserved, and the undefined low-byte
/// positions of AH are ignored.
pub open spec fn spec_sahf(regs: Registers) -> Registers {
    let ah = regs.read8_spec(Reg8::AH);
    Registers {
        flags: (regs.flags & 0xff02) | ((ah as u16) & FLAGS_LOW_MASK),
        ip: wadd16(regs.ip, 1),
        ..regs
    }
}

/// Load of an immediate byte into the 8-bit register the opcode's low
/// three bits select. No flag effect.
pub open spec fn spec_mov_r8_imm(regs: Registers, opcode: u8, imm: u8) -> Registers {
    regs.write8_spec(Reg8::spec_from_num(opcode), imm).with_ip(wadd16(regs.ip, 2))
}

/// Load of a little-endian immediate word into the 16-bit register the
/// opcode's low three bits select. No flag effect.
pub open spec fn spec_mov_r16_imm(regs: Registers, opcode: u8, lo: u8, hi: u8) -> Registers {
    regs.write16_spec(Reg16::spec_from_num(opcode), word_le(lo, hi)).with_ip(wadd16(regs.ip, 3))
}

/// One step of an iterated logical left shift: the carry takes the bit
/// shifted out, one bit position per step.
pub open spec fn spec_shl_steps(v: u8, carry: bool, n: nat) -> (u8, bool)
    decreases n,
{
    if n == 0 {
        (v, carry)
    } else {
        spec_shl_steps(v << 1, (v & 0x80) == 0x80, (n - 1) as nat)
    }
}

/// One step of an iterated logical right shift: the carry takes the bit
/// shifted out, one bit position per step.
pub open spec fn spec_shr_steps(v: u8, carry: bool, n: nat) -> (u8, bool)
    decreases n,
{
    if n == 0 {
        (v, carry)
    } else {
        spec_shr_steps(v >> 1, (v & 1) == 1, (n - 1) as nat)
    }
}

/// The shift-by-1 group opcode, register operands only. The ModRM `reg`
/// field selects the sub-operation: 4 is a left shift (carry from the
/// original bit 0 — kept bit-for-bit from the modeled hardware even though
/// a left shift would conventionally take bit 7 — and overflow from the
/// XOR of the two most significant bits before the shift); 5 is a right
/// shift (carry from the original bit 0, overflow from the original bit
/// 7). Any other sub-operation, or a memory `rm`, is fatal.
pub open spec fn spec_shift_one(regs: Registers, modrm: u8) -> (Registers, Result<(), CpuError>) {
    let advanced = regs.with_ip(wadd16(regs.ip, 2));
    if modrm_mode(modrm) != 3 {
        (advanced, Err(CpuError::UnsupportedOperand { opcode: 0xd0, encoding: modrm }))
    } else {
        let group = modrm_reg(modrm);
        let target = Reg8::spec_from_num(modrm_rm(modrm));
        let v = regs.read8_spec(target);
        if group == 4 {
            let flagged = advanced.set_flag_spec(Flag::Carry, v & 1 == 1).set_flag_spec(
                Flag::Overflow,
                (((v >> 7) & 1) ^ ((v >> 6) & 1)) == 1,
            );
            (flagged.write8_spec(target, v << 1), Ok(()))
        } else if group == 5 {
            let flagged = advanced.set_flag_spec(Flag::Carry, v & 1 == 1).set_flag_spec(
                Flag::Overflow,
                v & 0x80 == 0x80,
            );
            (flagged.write8_spec(target, v >> 1), Ok(()))
        } else {
            (advanced, Err(CpuError::UnsupportedOperand { opcode: 0xd0, encoding: modrm }))
        }
    }
}

/// The shift-by-count group opcode, register operands only: an iterative
/// shift by the count in the counter register's low byte, the carry
/// updated from the bit shifted out on each iteration. A count of zero
/// performs no iterations and leaves the target register and all flags
/// unchanged. The sub-operations and fatal cases mirror the shift-by-1
/// form; overflow is not touched here.
pub open spec fn spec_shift_count(regs: Registers, modrm: u8) -> (Registers, Result<(), CpuError>) {
    let advanced = regs.with_ip(wadd16(regs.ip, 2));
    if modrm_mode(modrm) != 3 {
        (advanced, Err(CpuError::UnsupportedOperand { opcode: 0xd2, encoding: modrm }))
    } else {
        let group = modrm_reg(modrm);
        let target = Reg8::spec_from_num(modrm_rm(modrm));
        let count = regs.read8_spec(Reg8::CL);
        let v = regs.read8_spec(target);
        let carry = regs.get_flag_spec(Flag::Carry);
        if group == 4 {
            let res = spec_shl_steps(v, carry, count as nat);
            (advanced.set_flag_spec(Flag::Carry, res.1).write8_spec(target, res.0), Ok(()))
        } else if group == 5 {
            let res = spec_shr_steps(v, carry, count as nat);
            (advanced.set_flag_spec(Flag::Carry, res.1).write8_spec(target, res.0), Ok(()))
        } else {
            (advanced, Err(CpuError::UnsupportedOperand { opcode: 0xd2, encoding: modrm }))
        }
    }
}

/// Unconditional near jump: the little-endian displacement word is added
/// to the instruction pointer with 16-bit wraparound. No flag effect.
pub open spec fn spec_jmp_near(regs: Registers, lo: u8, hi: u8) -> Registers {
    regs.with_ip(wadd16(regs.ip, word_le(lo, hi)))
}

/// Unconditional far jump: the code segment and the instruction pointer
/// are loaded from two little-endian immediate words (offset first, then
/// segment). No flag effect.
pub open spec fn spec_jmp_far(regs: Registers, off_lo: u8, off_hi: u8, seg_lo: u8, seg_hi: u8) -> Registers {
    Registers { cs: word_le(seg_lo, seg_hi), ip: word_le(off_lo, off_hi), ..regs }
}

/// The six single-flag control instructions: clear or set the carry,
/// interrupt-enable or direction flag, and advance past the 1-byte
/// encoding.
pub open spec fn spec_flag_control(regs: Registers, opcode: u8) -> Registers {
    let advanced = regs.with_ip(wadd16(regs.ip, 1));
    if opcode == 0xf8 {
        advanced.set_flag_spec(Flag::Carry, false)
    } else if opcode == 0xf9 {
        advanced.set_flag_spec(Flag::Carry, true)
    } else if opcode == 0xfa {
        advanced.set_flag_spec(Flag::Interrupt, false)
    } else if opcode == 0xfb {
        advanced.set_flag_spec(Flag::Interrupt, true)
    } else if opcode == 0xfc {
        advanced.set_flag_spec(Flag::Direction, false)
    } else {
        advanced.set_flag_spec(Flag::Direction, true)
    }
}

/// One step of the dispatch/execution engine on an already-fetched
/// instruction: the next register file and the step's outcome, given the
/// opcode byte and the encoding bytes that follow it in address order
/// (bytes past the instruction's length are ignored). An opcode absent
/// from the dispatch table changes nothing and yields the
/// unimplemented-opcode error.
pub open spec fn spec_step(regs: Registers, opcode: u8, b1: u8, b2: u8, b3: u8, b4: u8) -> (
    Registers,
    Result<(), CpuError>,
) {
    if opcode == 0x32 {
        spec_xor_reg_rm(regs, b1)
    } else if is_jcc_opcode(opcode) {
        (spec_jcc(regs, opcode, b1), Ok(()))
    } else if opcode == 0x8c {
        spec_mov_rm_seg(regs, b1)
    } else if opcode == 0x8e {
        spec_mov_seg_rm(regs, b1)
    } else if opcode == 0x9e {
        (spec_sahf(regs), Ok(()))
    } else if opcode == 0x9f {
        (spec_lahf(regs), Ok(()))
    } else if 0xb0 <= opcode && opcode <= 0xb7 {
        (spec_mov_r8_imm(regs, opcode, b1), Ok(()))
    } else if 0xb8 <= opcode && opcode <= 0xbb {
        (spec_mov_r16_imm(regs, opcode, b1, b2), Ok(()))
    } else if opcode == 0xd0 {
        spec_shift_one(regs, b1)
    } else if opcode == 0xd2 {
        spec_shift_count(regs, b1)
    } else if opcode == 0xe9 {
        (spec_jmp_near(regs, b1, b2), Ok(()))
    } else if opcode == 0xea {
        (spec_jmp_far(regs, b1, b2, b3, b4), Ok(()))
    } else if is_flag_control_opcode(opcode) {
        (spec_flag_control(regs, opcode), Ok(()))
    } else {
        (regs, Err(CpuError::UnimplementedOpcode(opcode)))
    }
}

/// The CPU core: the register file plus the last opcode byte fetched (kept
/// for diagnostics; it carries no instruction semantics of its own).
#[derive(Clone, Copy, Debug, PartialEq, Eq, Structural)]
pub struct Cpu8086 {
    pub regs: Registers,
    pub opcode: u8,
}

impl Cpu8086 {
    /// Builds a CPU in the boot state.
    pub fn new() -> (r: Cpu8086)
        ensures
            r.regs == Registers::spec_new(),
            r.opcode == 0,
    {
        Cpu8086 { regs: Registers::new(), opcode: 0 }
    }

    /// Reads the memory byte at `seg:addr` through the bus capability.
    /// Nothing is known of the value; the CPU state itself is untouched.
    pub fn mem_read_byte<T: Cpu8086Context>(&mut self, ctx: &mut T, seg: u16, addr: u16) -> (r:
        u8)
        ensures
            *final(self) == *old(self),
    {
        let masked_addr = linear_address(seg, addr);
        ctx.mem_read_byte(masked_addr)
    }

    /// Writes a memory byte at `seg:addr` through the bus capability.
    pub fn mem_write_byte<T: Cpu8086Context>(&mut self, ctx: &mut T, seg: u16, addr: u16, value: u8)
        ensures
            *final(self) == *old(self),
    {
        let masked_addr = linear_address(seg, addr);
        ctx.mem_write_byte(masked_addr, value)
    }

    /// Reads a 16-bit little-endian word at `seg:addr`: two byte reads, the
    /// second at the linear successor address wrapped independently to 20
    /// bits (computed from the unwrapped successor, not from the wrapped
    /// first address plus one within the offset).
    pub fn mem_read_word<T: Cpu8086Context>(&mut self, ctx: &mut T, seg: u16, addr: u16) -> (r:
        u16)
        ensures
            *final(self) == *old(self),
    {
        let masked_addr = linear_address(seg, addr);
        let lo = ctx.mem_read_byte(masked_addr);
        let hi = ctx.mem_read_byte((masked_addr + 1) & 0xfffff);
        (lo as u16) | ((hi as u16) << 8)
    }

    /// Assigns the parity flag from the low 8 bits of `data`: set exactly
    /// when the number of set bits there is even.
    pub fn set_parity_flag(&mut self, data: u16)
        ensures
            final(self).regs == old(self).regs.set_flag_spec(
                Flag::Parity,
                even_parity8((data & 0xff) as u8),
            ),
            final(self).opcode == old(self).opcode,
    {
        let b: u8 = (data & 0xff) as u8;
        proof {
            assert((b & 1) + ((b >> 1) & 1) + ((b >> 2) & 1) + ((b >> 3) & 1) + ((b >> 4) & 1) + ((b
                >> 5) & 1) + ((b >> 6) & 1) + ((b >> 7) & 1) <= 8) by (bit_vector);
        }
        let ones: u8 = (b & 1) + ((b >> 1) & 1) + ((b >> 2) & 1) + ((b >> 3) & 1) + ((b >> 4) & 1)
            + ((b >> 5) & 1) + ((b >> 6) & 1) + ((b >> 7) & 1);
        self.regs.set_flag(Flag::Parity, ones % 2 == 0);
    }

    fn op_xor_reg_rm(&mut self, modrm: u8) -> (r: Result<(), CpuError>)
        ensures
            final(self).opcode == old(self).opcode,
            (final(self).regs, r) == spec_xor_reg_rm(old(self).regs, modrm),
    {
        self.regs.ip = wrapping_add16(self.regs.ip, 2);
        let params = decode_modrm(modrm);
        match (params.reg, params.rm) {
            (Operand::Register(reg_idx), Operand::Register(rm_idx)) => {
                let dst = Reg8::from_num(reg_idx).unwrap();
                let src = Reg8::from_num(rm_idx).unwrap();
                self.regs.set_flag(Flag::Overflow, false);
                self.regs.set_flag(Flag::Carry, false);
                let result: u8 = self.regs.read8(dst) ^ self.regs.read8(src);
                self.regs.set_flag(Flag::Zero, result == 0);
                self.regs.set_flag(Flag::Sign, result & 0x80 == 0x80);
                proof {
                    assert(((result as u16) & 0xff) as u8 == result) by (bit_vector);
                }
                self.set_parity_flag(result as u16);
                self.regs.write8(dst, result);
                Ok(())
            },
            _ => Err(CpuError::UnsupportedOperand { opcode: 0x32, encoding: modrm }),
        }
    }

    fn op_jcc(&mut self, opcode: u8, disp: u8)
        requires
            is_jcc_opcode(opcode),
        ensures
            final(self).opcode == old(self).opcode,
            final(self).regs == spec_jcc(old(self).regs, opcode, disp),
    {
        let taken: bool = if opcode == 0x70 {
            self.regs.get_flag(Flag::Overflow)
        } else if opcode == 0x71 {
            !self.regs.get_flag(Flag::Overflow)
        } else if opcode == 0x72 {
            self.regs.get_flag(Flag::Carry)
        } else if opcode == 0x73 {
            !self.regs.get_flag(Flag::Carry)
        } else if opcode == 0x74 {
            self.regs.get_flag(Flag::Zero)
        } else if opcode == 0x75 {
            !self.regs.get_flag(Flag::Zero)
        } else if opcode == 0x78 {
            self.regs.get_flag(Flag::Sign)
        } else if opcode == 0x79 {
            !self.regs.get_flag(Flag::Sign)
        } else if opcode == 0x7a {
            self.regs.get_flag(Flag::Parity)
        } else {
            !self.regs.get_flag(Flag::Parity)
        };
        self.regs.ip = wrapping_add16(self.regs.ip, 2);
        if taken {
            self.regs.ip = wrapping_add16(self.regs.ip, sign_extend8(disp));
        }
    }

    fn op_mov_rm_seg(&mut self, modrm: u8) -> (r: Result<(), CpuError>)
        ensures
            final(self).opcode == old(self).opcode,
            (final(self).regs, r) == spec_mov_rm_seg(old(self).regs, modrm),
    {
        self.regs.ip = wrapping_add16(self.regs.ip, 2);
        let params = decode_modrm(modrm);
        match (params.reg, params.rm) {
            (Operand::Register(reg_idx), Operand::Register(rm_idx)) => {
                let src = SegReg::from_num(reg_idx).unwrap();
                let dst = Reg16::from_num(rm_idx).unwrap();
                let value: u16 = self.regs.readseg16(src);
                self.regs.write16(dst, value);
                Ok(())
            },
            _ => Err(CpuError::UnsupportedOperand { opcode: 0x8c, encoding: modrm }),
        }
    }

    fn op_mov_seg_rm(&mut self, modrm: u8) -> (r: Result<(), CpuError>)
        ensures
            final(self).opcode == old(self).opcode,
            (final(self).regs, r) == spec_mov_seg_rm(old(self).regs, modrm),
    {
        self.regs.ip = wrapping_add16(self.regs.ip, 2);
        let params = decode_modrm(modrm);
        match (params.reg, params.rm) {
            (Operand::Register(reg_idx), Operand::Register(rm_idx)) => {
                let dst = SegReg::from_num(reg_idx).unwrap();
                let src = Reg16::from_num(rm_idx).unwrap();
                let value: u16 = self.regs.read16(src);
                self.regs.writeseg16(dst, value);
                Ok(())
            },
            _ => Err(CpuError::UnsupportedOperand { opcode: 0x8e, encoding: modrm }),
        }
    }

    fn op_shift_one(&mut self, modrm: u8) -> (r: Result<(), CpuError>)
        ensures
            final(self).opcode == old(self).opcode,
            (final(self).regs, r) == spec_shift_one(old(self).regs, modrm),
    {
        self.regs.ip = wrapping_add16(self.regs.ip, 2);
        let params = decode_modrm(modrm);
        match params.rm {
            Operand::Register(rm_idx) => {
                let group: u8 = (modrm >> 3) & 7;
                let target = Reg8::from_num(rm_idx).unwrap();
                let v: u8 = self.regs.read8(target);
                if group == 4 {
                    self.regs.set_flag(Flag::Carry, (v & 1) == 1);
                    let overflow_calc: u8 = ((v >> 7) & 1) ^ ((v >> 6) & 1);
                    self.regs.set_flag(Flag::Overflow, overflow_calc == 1);
                    self.regs.write8(target, v << 1);
                    Ok(())
                } else if group == 5 {
                    self.regs.set_flag(Flag::Carry, (v & 1) == 1);
                    self.regs.set_flag(Flag::Overflow, (v & 0x80) == 0x80);
                    self.regs.write8(target, v >> 1);
                    Ok(())
                } else {
                    Err(CpuError::UnsupportedOperand { opcode: 0xd0, encoding: modrm })
                }
            },
            Operand::Memory(_) => Err(
                CpuError::UnsupportedOperand { opcode: 0xd0, encoding: modrm },
            ),
        }
    }

    fn op_shift_count(&mut self, modrm: u8) -> (r: Result<(), CpuError>)
        ensures
            final(self).opcode == old(self).opcode,
            (final(self).regs, r) == spec_shift_count(old(self).regs, modrm),
    {
        self.regs.ip = wrapping_add16(self.regs.ip, 2);
        let params = decode_modrm(modrm);
        match params.rm {
            Operand::Register(rm_idx) => {
                let group: u8 = (modrm >> 3) & 7;
                let target = Reg8::from_num(rm_idx).unwrap();
                let count0: u8 = self.regs.read8(Reg8::CL);
                let v0: u8 = self.regs.read8(target);
                let carry0: bool = self.regs.get_flag(Flag::Carry);
                if group == 4 {
                    let mut v: u8 = v0;
                    let mut carry: bool = carry0;
                    let mut count: u8 = count0;
                    while count != 0
                        invariant
                            spec_shl_steps(v, carry, count as nat) == spec_shl_steps(
                                v0,
                                carry0,
                                count0 as nat,
                            ),
                        decreases count,
                    {
                        carry = (v & 0x80) == 0x80;
                        v = v << 1;
                        count = count - 1;
                    }
                    self.regs.set_flag(Flag::Carry, carry);
                    self.regs.write8(target, v);
                    Ok(())
                } else if group == 5 {
                    let mut v: u8 = v0;
                    let mut carry: bool = carry0;
                    let mut count: u8 = count0;
                    while count != 0
                        invariant
                            spec_shr_steps(v, carry, count as nat) == spec_shr_steps(
                                v0,
                                carry0,
                                count0 as nat,
                            ),
                        decreases count,
                    {
                        carry = (v & 1) == 1;
                        v = v >> 1;
                        count = count - 1;
                    }
                    self.regs.set_flag(Flag::Carry, carry);
                    self.regs.write8(target, v);
                    Ok(())
                } else {
                    Err(CpuError::UnsupportedOperand { opcode: 0xd2, encoding: modrm })
                }
            },
            Operand::Memory(_) => Err(
                CpuError::UnsupportedOperand { opcode: 0xd2, encoding: modrm },
            ),
        }
    }

    /// Executes one already-fetched instruction: `self.opcode` is the
    /// opcode byte, and `b1` to `b4` are the encoding bytes after it in
    /// address order (bytes past the instruction's length are ignored).
    /// The whole effect on the register file, and the outcome, are exactly
    /// `spec_step`.
    pub fn execute(&mut self, b1: u8, b2: u8, b3: u8, b4: u8) -> (r: Result<(), CpuError>)
        ensures
            final(self).opcode == old(self).opcode,
            (final(self).regs, r) == spec_step(old(self).regs, old(self).opcode, b1, b2, b3, b4),
    {
        let opcode: u8 = self.opcode;
        if opcode == 0x32 {
            self.op_xor_reg_rm(b1)
        } else if (0x70 <= opcode && opcode <= 0x75) || (0x78 <= opcode && opcode <= 0x7b) {
            self.op_jcc(opcode, b1);
            Ok(())
        } else if opcode == 0x8c {
            self.op_mov_rm_seg(b1)
        } else if opcode == 0x8e {
            self.op_mov_seg_rm(b1)
        } else if opcode == 0x9e {
            let ah: u8 = self.regs.read8(Reg8::AH);
            self.regs.flags = (self.regs.flags & 0xff02) | ((ah as u16) & FLAGS_LOW_MASK);
            self.regs.ip = wrapping_add16(self.regs.ip, 1);
            Ok(())
        } else if opcode == 0x9f {
            let stored: u8 = (self.regs.flags & FLAGS_LOW_MASK) as u8;
            self.regs.write8(Reg8::AH, stored);
            self.regs.ip = wrapping_add16(self.regs.ip, 1);
            Ok(())
        } else if 0xb0 <= opcode && opcode <= 0xb7 {
            let reg = Reg8::from_num(opcode).unwrap();
            self.regs.write8(reg, b1);
            self.regs.ip = wrapping_add16(self.regs.ip, 2);
            Ok(())
        } else if 0xb8 <= opcode && opcode <= 0xbb {
            let reg = Reg16::from_num(opcode).unwrap();
            let imm: u16 = (b1 as u16) | ((b2 as u16) << 8);
            self.regs.write16(reg, imm);
            self.regs.ip = wrapping_add16(self.regs.ip, 3);
            Ok(())
        } else if opcode == 0xd0 {
            self.op_shift_one(b1)
        } else if opcode == 0xd2 {
            self.op_shift_count(b1)
        } else if opcode == 0xe9 {
            let offset: u16 = (b1 as u16) | ((b2 as u16) << 8);
            self.regs.ip = wrapping_add16(self.regs.ip, offset);
            Ok(())
        } else if opcode == 0xea {
            let offset: u16 = (b1 as u16) | ((b2 as u16) << 8);
            let segment: u16 = (b3 as u16) | ((b4 as u16) << 8);
            self.regs.writeseg16(SegReg::CS, segment);
            self.regs.ip = offset;
            Ok(())
        } else if opcode == 0xf8 {
            self.regs.set_flag(Flag::Carry, false);
            self.regs.ip = wrapping_add16(self.regs.ip, 1);
            Ok(())
        } else if opcode == 0xf9 {
            self.regs.set_flag(Flag::Carry, true);
            self.regs.ip = wrapping_add16(self.regs.ip, 1);
            Ok(())
        } else if opcode == 0xfa {
            self.regs.set_flag(Flag::Interrupt, false);
            self.regs.ip = wrapping_add16(self.regs.ip, 1);
            Ok(())
        } else if opcode == 0xfb {
            self.regs.set_flag(Flag::Interrupt, true);
            self.regs.ip = wrapping_add16(self.regs.ip, 1);
            Ok(())
        } else if opcode == 0xfc {
            self.regs.set_flag(Flag::Direction, false);
            self.regs.ip = wrapping_add16(self.regs.ip, 1);
            Ok(())
        } else if opcode == 0xfd {
            self.regs.set_flag(Flag::Direction, true);
            self.regs.ip = wrapping_add16(self.regs.ip, 1);
            Ok(())
        } else {
            Err(CpuError::UnimplementedOpcode(opcode))
        }
    }

    /// One full cycle of the engine: fetches the opcode byte at code
    /// segment : instruction pointer through the bus, consumes exactly the
    /// further bytes the instruction's encoding owes (none for a byte
    /// absent from the dispatch table), executes, and advances. Whatever
    /// bytes the bus returned, the step taken is a `spec_step` on them;
    /// an unimplemented opcode is reported without touching any register.
    pub fn tick<T: Cpu8086Context>(&mut self, ctx: &mut T) -> (r: Result<(), CpuError>)
        ensures
            exists|b1: u8, b2: u8, b3: u8, b4: u8|
                (final(self).regs, r) == #[trigger] spec_step(
                    old(self).regs,
                    final(self).opcode,
                    b1,
                    b2,
                    b3,
                    b4,
                ),
            spec_instr_len(final(self).opcode) is None ==> r == Err::<(), CpuError>(
                CpuError::UnimplementedOpcode(final(self).opcode),
            ) && final(self).regs == old(self).regs,
    {
        let cs: u16 = self.regs.readseg16(SegReg::CS);
        let ip: u16 = self.regs.ip;
        let opcode: u8 = self.mem_read_byte(ctx, cs, ip);
        self.opcode = opcode;
        match instr_len(opcode) {
            None => {
                proof {
                    lemma_unknown_opcode_is_fatal(self.regs, opcode, 0, 0, 0, 0);
                }
                Err(CpuError::UnimplementedOpcode(opcode))
            },
            Some(len) => {
                let r = if len == 1 {
                    self.execute(0, 0, 0, 0)
                } else if len == 2 {
                    let b1: u8 = self.mem_read_byte(ctx, cs, wrapping_add16(ip, 1));
                    self.execute(b1, 0, 0, 0)
                } else if len == 3 {
                    let w: u16 = self.mem_read_word(ctx, cs, wrapping_add16(ip, 1));
                    self.execute((w & 0xff) as u8, (w >> 8) as u8, 0, 0)
                } else {
                    let w1: u16 = self.mem_read_word(ctx, cs, wrapping_add16(ip, 1));
                    let w2: u16 = self.mem_read_word(ctx, cs, wrapping_add16(ip, 3));
                    self.execute(
                        (w1 & 0xff) as u8,
                        (w1 >> 8) as u8,
                        (w2 & 0xff) as u8,
                        (w2 >> 8) as u8,
                    )
                };
                r
            },
        }
    }
}

/// A shift-by-count whose count (the counter register's low byte) is zero
/// performs no iterations: the target register and every flag are left
/// unchanged, and only the instruction pointer advances past the 2-byte
/// encoding.
pub proof fn lemma_shift_count_zero_noop(regs: Registers, modrm: u8)
    requires
        regs.read8_spec(Reg8::CL) == 0,
        modrm_mode(modrm) == 3,
        modrm_reg(modrm) == 4 || modrm_reg(modrm) == 5,
    ensures
        spec_step(regs, 0xd2, modrm, 0, 0, 0).0 == regs.with_ip(wadd16(regs.ip, 2)),
        spec_step(regs, 0xd2, modrm, 0, 0, 0).1 == Ok::<(), CpuError>(()),
{
    let advanced = regs.with_ip(wadd16(regs.ip, 2));
    let target = Reg8::spec_from_num(modrm_rm(modrm));
    crate::registers::lemma_set_flag_identity(advanced, Flag::Carry);
    crate::registers::lemma_write8_read8_identity(advanced, target);
}

/// After a set-carry instruction followed by a store-flags-to-AH, the
/// carry bit of the byte stored in AH is set; loading that byte back with
/// load-flags-from-AH sets the carry flag again.
pub proof fn lemma_stc_lahf_sahf_carry(regs: Registers)
    ensures
        ({
            let after_stc = spec_step(regs, 0xf9, 0, 0, 0, 0).0;
            let after_lahf = spec_step(after_stc, 0x9f, 0, 0, 0, 0).0;
            let after_sahf = spec_step(after_lahf, 0x9e, 0, 0, 0, 0).0;
            &&& after_lahf.read8_spec(Reg8::AH) & 0x01 == 0x01
            &&& after_sahf.get_flag_spec(Flag::Carry)
        }),
{
    let f = regs.flags;
    let a = regs.ax;
    let f1 = f | 0x0001u16;
    let s = ((f1 & 0x00d5) as u8);
    assert(s & 1 == 1) by (bit_vector)
        requires
            s == (((f | 0x0001u16) & 0x00d5) as u8),
    ;
    assert((((a & 0x00ff) | ((s as u16) << 8)) >> 8) as u8 == s) by (bit_vector);
    assert(((f1 & 0xff02) | ((s as u16) & 0x00d5)) & 0x0001 != 0) by (bit_vector)
        requires
            s & 1 == 1,
    ;
}

/// Loading flags from a byte just stored by store-flags-to-AH restores
/// exactly the masked low-byte flag subset and leaves the rest of the
/// flags word (its high byte and the reserved low bits) untouched.
pub proof fn lemma_sahf_of_lahf_masked(regs: Registers)
    ensures
        spec_sahf(spec_lahf(regs)).flags & FLAGS_LOW_MASK == regs.flags & FLAGS_LOW_MASK,
        spec_sahf(spec_lahf(regs)).flags & 0xff02 == regs.flags & 0xff02,
{
    let f = regs.flags;
    let a = regs.ax;
    let s = ((f & 0x00d5) as u8);
    assert((((a & 0x00ff) | ((s as u16) << 8)) >> 8) as u8 == s) by (bit_vector);
    assert(((f & 0xff02) | ((s as u16) & 0x00d5)) & 0x00d5 == f & 0x00d5 && ((f & 0xff02) | ((
    s as u16) & 0x00d5)) & 0xff02 == f & 0xff02) by (bit_vector)
        requires
            s == ((f & 0x00d5) as u8),
    ;
}

/// An opcode absent from the dispatch table is fatal and mutates nothing:
/// the step yields the distinct unimplemented-opcode error and returns the
/// register file unchanged, whatever bytes follow the opcode.
pub proof fn lemma_unknown_opcode_is_fatal(
    regs: Registers,
    opcode: u8,
    b1: u8,
    b2: u8,
    b3: u8,
    b4: u8,
)
    requires
        spec_instr_len(opcode) is None,
    ensures
        spec_step(regs, opcode, b1, b2, b3, b4) == (
            regs,
            Err::<(), CpuError>(CpuError::UnimplementedOpcode(opcode)),
        ),
{
}

} // verus!
