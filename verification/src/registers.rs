//! The architectural register file: instruction pointer, eight
//! general-purpose 16-bit registers (the first four also addressable as
//! independent 8-bit halves), four segment registers, and the flags word.

use vstd::prelude::*;

verus! {

/// Carry flag bit of the flags word.
pub const FLAG_CARRY: u16 = 0x0001;
/// Parity flag bit of the flags word.
pub const FLAG_PARITY: u16 = 0x0004;
/// Auxiliary-carry (adjust) flag bit of the flags word.
pub const FLAG_ADJUST: u16 = 0x0010;
/// Zero flag bit of the flags word.
pub const FLAG_ZERO: u16 = 0x0040;
/// Sign flag bit of the flags word.
pub const FLAG_SIGN: u16 = 0x0080;
/// Trap flag bit of the flags word.
pub const FLAG_TRAP: u16 = 0x0100;
/// Interrupt-enable flag bit of the flags word.
pub const FLAG_INTERRUPT: u16 = 0x0200;
/// Direction flag bit of the flags word.
pub const FLAG_DIRECTION: u16 = 0x0400;
/// Overflow flag bit of the flags word.
pub const FLAG_OVERFLOW: u16 = 0x0800;

/// The architecturally defined bits of the flags word: the nine status and
/// control flags plus the permanently-set reserved bits. A 16-bit write to
/// the flags register keeps only these bits.
pub const FLAGS_DEFINED: u16 = 0xffd7;

/// The reserved bits of the flags word, forced on by every architectural
/// 16-bit read of the flags register. This is also the initial flags value.
pub const FLAGS_RESERVED: u16 = 0xf002;

/// The fixed subset of low-byte flags (sign, zero, auxiliary-carry, parity,
/// carry) moved by the dedicated 8-bit flag load/store operations.
pub const FLAGS_LOW_MASK: u16 = 0x00d5;

/// A named single-bit flag of the flags word.
#[derive(Clone, Copy, Debug, PartialEq, Eq, Structural)]
pub enum Flag {
    Carry,
    Parity,
    Adjust,
    Zero,
    Sign,
    Trap,
    Interrupt,
    Direction,
    Overflow,
}

impl Flag {
    /// The single bit of the flags word that this flag occupies.
    pub open spec fn spec_mask(self) -> u16 {
        match self {
            Flag::Carry => FLAG_CARRY,
            Flag::Parity => FLAG_PARITY,
            Flag::Adjust => FLAG_ADJUST,
            Flag::Zero => FLAG_ZERO,
            Flag::Sign => FLAG_SIGN,
            Flag::Trap => FLAG_TRAP,
            Flag::Interrupt => FLAG_INTERRUPT,
            Flag::Direction => FLAG_DIRECTION,
            Flag::Overflow => FLAG_OVERFLOW,
        }
    }

    /// The single bit of the flags word that this flag occupies.
    pub fn mask(self) -> (r: u16)
        ensures
            r == self.spec_mask(),
    {
        match self {
            Flag::Carry => FLAG_CARRY,
            Flag::Parity => FLAG_PARITY,
            Flag::Adjust => FLAG_ADJUST,
            Flag::Zero => FLAG_ZERO,
            Flag::Sign => FLAG_SIGN,
            Flag::Trap => FLAG_TRAP,
            Flag::Interrupt => FLAG_INTERRUPT,
            Flag::Direction => FLAG_DIRECTION,
            Flag::Overflow => FLAG_OVERFLOW,
        }
    }
}

/// One of the eight 8-bit register names: the low and high halves of the
/// first four general-purpose registers.
#[derive(Clone, Copy, Debug, PartialEq, Eq, Structural)]
pub enum Reg8 {
    AL,
    CL,
    DL,
    BL,
    AH,
    CH,
    DH,
    BH,
}

impl Reg8 {
    /// The 8-bit register selected by a 3-bit encoding field.
    pub open spec fn spec_from_num(num: u8) -> Reg8 {
        let n = num & 7;
        if n == 0 {
            Reg8::AL
        } else if n == 1 {
            Reg8::CL
        } else if n == 2 {
            Reg8::DL
        } else if n == 3 {
            Reg8::BL
        } else if n == 4 {
            Reg8::AH
        } else if n == 5 {
            Reg8::CH
        } else if n == 6 {
            Reg8::DH
        } else {
            Reg8::BH
        }
    }

    /// Maps a 3-bit encoding field to its 8-bit register. Total: only the
    /// low three bits are read, so every byte names a register.
    pub fn from_num(num: u8) -> (r: Option<Reg8>)
        ensures
            r == Some(Reg8::spec_from_num(num)),
    {
        let n: u8 = num & 7;
        if n == 0 {
            Some(Reg8::AL)
        } else if n == 1 {
            Some(Reg8::CL)
        } else if n == 2 {
            Some(Reg8::DL)
        } else if n == 3 {
            Some(Reg8::BL)
        } else if n == 4 {
            Some(Reg8::AH)
        } else if n == 5 {
            Some(Reg8::CH)
        } else if n == 6 {
            Some(Reg8::DH)
        } else {
            Some(Reg8::BH)
        }
    }
}

/// One of the nine 16-bit register views: the eight general-purpose
/// registers and the flags register.
#[derive(Clone, Copy, Debug, PartialEq, Eq, Structural)]
pub enum Reg16 {
    AX,
    CX,
    DX,
    BX,
    SP,
    BP,
    SI,
    DI,
    FLAGS,
}

impl Reg16 {
    /// The 16-bit general-purpose register selected by a 3-bit encoding
    /// field. The flags view has no encoding and is never produced here.
    pub open spec fn spec_from_num(num: u8) -> Reg16 {
        let n = num & 7;
        if n == 0 {
            Reg16::AX
        } else if n == 1 {
            Reg16::CX
        } else if n == 2 {
            Reg16::DX
        } else if n == 3 {
            Reg16::BX
        } else if n == 4 {
            Reg16::SP
        } else if n == 5 {
            Reg16::BP
        } else if n == 6 {
            Reg16::SI
        } else {
            Reg16::DI
        }
    }

    /// Maps a 3-bit encoding field to its 16-bit general-purpose register.
    /// Total: only the low three bits are read.
    pub fn from_num(num: u8) -> (r: Option<Reg16>)
        ensures
            r == Some(Reg16::spec_from_num(num)),
    {
        let n: u8 = num & 7;
        if n == 0 {
            Some(Reg16::AX)
        } else if n == 1 {
            Some(Reg16::CX)
        } else if n == 2 {
            Some(Reg16::DX)
        } else if n == 3 {
            Some(Reg16::BX)
        } else if n == 4 {
            Some(Reg16::SP)
        } else if n == 5 {
            Some(Reg16::BP)
        } else if n == 6 {
            Some(Reg16::SI)
        } else {
            Some(Reg16::DI)
        }
    }
}

/// Whether a register operand names an 8-bit half or a full 16-bit
/// register; the same 3-bit encoding field means either, depending on the
/// opcode that consumes it.
#[derive(Clone, Copy, Debug, PartialEq, Eq, Structural)]
pub enum RegisterType {
    Bits8,
    Bits16,
}

/// One of the four segment registers.
#[derive(Clone, Copy, Debug, PartialEq, Eq, Structural)]
pub enum SegReg {
    ES,
    CS,
    SS,
    DS,
}

impl SegReg {
    /// The segment register selected by a 2-bit encoding field.
    pub open spec fn spec_from_num(num: u8) -> SegReg {
        let n = num & 3;
        if n == 0 {
            SegReg::ES
        } else if n == 1 {
            SegReg::CS
        } else if n == 2 {
            SegReg::SS
        } else {
            SegReg::DS
        }
    }

    /// Maps a 2-bit encoding field to its segment register. Total: only the
    /// low two bits are read.
    pub fn from_num(num: u8) -> (r: Option<SegReg>)
        ensures
            r == Some(SegReg::spec_from_num(num)),
    {
        let n: u8 = num & 3;
        if n == 0 {
            Some(SegReg::ES)
        } else if n == 1 {
            Some(SegReg::CS)
        } else if n == 2 {
            Some(SegReg::SS)
        } else {
            Some(SegReg::DS)
        }
    }
}

/// The register file. The eight general-purpose registers are named
/// fields; the first four (`ax`, `cx`, `dx`, `bx`) each carry two aliased
/// 8-bit halves. `flags` stores the flags word; an architectural 16-bit
/// read of it forces the reserved bits on.
#[derive(Clone, Copy, Debug, PartialEq, Eq, Structural)]
pub struct Registers {
    pub ip: u16,
    pub ax: u16,
    pub cx: u16,
    pub dx: u16,
    pub bx: u16,
    pub sp: u16,
    pub bp: u16,
    pub si: u16,
    pub di: u16,
    pub es: u16,
    pub cs: u16,
    pub ss: u16,
    pub ds: u16,
    pub flags: u16,
}

impl Registers {
    /// The boot state: every general-purpose register and the instruction
    /// pointer zero, the code segment `0xFFFF` (boot-vector convention),
    /// the other segments zero, and only the reserved flag bits set.
    pub open spec fn spec_new() -> Registers {
        Registers {
            ip: 0,
            ax: 0,
            cx: 0,
            dx: 0,
            bx: 0,
            sp: 0,
            bp: 0,
            si: 0,
            di: 0,
            es: 0,
            cs: 0xffff,
            ss: 0,
            ds: 0,
            flags: FLAGS_RESERVED,
        }
    }

    /// Builds the boot state of the register file.
    pub fn new() -> (r: Registers)
        ensures
            r == Registers::spec_new(),
    {
        Registers {
            ip: 0,
            ax: 0,
            cx: 0,
            dx: 0,
            bx: 0,
            sp: 0,
            bp: 0,
            si: 0,
            di: 0,
            es: 0,
            cs: 0xffff,
            ss: 0,
            ds: 0,
            flags: FLAGS_RESERVED,
        }
    }

    /// Value of an 8-bit register: the low or high half of its 16-bit slot.
    pub open spec fn read8_spec(self, reg: Reg8) -> u8 {
        match reg {
            Reg8::AL => (self.ax & 0xff) as u8,
            Reg8::CL => (self.cx & 0xff) as u8,
            Reg8::DL => (self.dx & 0xff) as u8,
            Reg8::BL => (self.bx & 0xff) as u8,
            Reg8::AH => (self.ax >> 8) as u8,
            Reg8::CH => (self.cx >> 8) as u8,
            Reg8::DH => (self.dx >> 8) as u8,
            Reg8::BH => (self.bx >> 8) as u8,
        }
    }

    /// The register file after writing an 8-bit register: only that half of
    /// the owning 16-bit slot changes.
    pub open spec fn write8_spec(self, reg: Reg8, value: u8) -> Registers {
        match reg {
            Reg8::AL => Registers { ax: (self.ax & 0xff00) | (value as u16), ..self },
            Reg8::CL => Registers { cx: (self.cx & 0xff00) | (value as u16), ..self },
            Reg8::DL => Registers { dx: (self.dx & 0xff00) | (value as u16), ..self },
            Reg8::BL => Registers { bx: (self.bx & 0xff00) | (value as u16), ..self },
            Reg8::AH => Registers { ax: (self.ax & 0x00ff) | ((value as u16) << 8), ..self },
            Reg8::CH => Registers { cx: (self.cx & 0x00ff) | ((value as u16) << 8), ..self },
            Reg8::DH => Registers { dx: (self.dx & 0x00ff) | ((value as u16) << 8), ..self },
            Reg8::BH => Registers { bx: (self.bx & 0x00ff) | ((value as u16) << 8), ..self },
        }
    }

    /// Reads one of the eight aliased 8-bit halves.
    pub fn read8(&self, reg: Reg8) -> (r: u8)
        ensures
            r == self.read8_spec(reg),
    {
        match reg {
            Reg8::AL => (self.ax & 0xff) as u8,
            Reg8::CL => (self.cx & 0xff) as u8,
            Reg8::DL => (self.dx & 0xff) as u8,
            Reg8::BL => (self.bx & 0xff) as u8,
            Reg8::AH => (self.ax >> 8) as u8,
            Reg8::CH => (self.cx >> 8) as u8,
            Reg8::DH => (self.dx >> 8) as u8,
            Reg8::BH => (self.bx >> 8) as u8,
        }
    }

    /// Writes one of the eight aliased 8-bit halves; the other half of the
    /// same 16-bit slot is untouched.
    pub fn write8(&mut self, reg: Reg8, value: u8)
        ensures
            *final(self) == old(self).write8_spec(reg, value),
    {
        match reg {
            Reg8::AL => {
                self.ax = (self.ax & 0xff00) | (value as u16);
            },
            Reg8::CL => {
                self.cx = (self.cx & 0xff00) | (value as u16);
            },
            Reg8::DL => {
                self.dx = (self.dx & 0xff00) | (value as u16);
            },
            Reg8::BL => {
                self.bx = (self.bx & 0xff00) | (value as u16);
            },
            Reg8::AH => {
                self.ax = (self.ax & 0x00ff) | ((value as u16) << 8);
            },
            Reg8::CH => {
                self.cx = (self.cx & 0x00ff) | ((value as u16) << 8);
            },
            Reg8::DH => {
                self.dx = (self.dx & 0x00ff) | ((value as u16) << 8);
            },
            Reg8::BH => {
                self.bx = (self.bx & 0x00ff) | ((value as u16) << 8);
            },
        }
    }

    /// Value of a 16-bit register view. The flags view is the stored flags
    /// word with the reserved bits forced on.
    pub open spec fn read16_spec(self, reg: Reg16) -> u16 {
        match reg {
            Reg16::AX => self.ax,
            Reg16::CX => self.cx,
            Reg16::DX => self.dx,
            Reg16::BX => self.bx,
            Reg16::SP => self.sp,
            Reg16::BP => self.bp,
            Reg16::SI => self.si,
            Reg16::DI => self.di,
            Reg16::FLAGS => self.flags | FLAGS_RESERVED,
        }
    }

    /// The register file after writing a 16-bit register view. A write to
    /// the flags view keeps only the architecturally defined bits.
    pub open spec fn write16_spec(self, reg: Reg16, value: u16) -> Registers {
        match reg {
            Reg16::AX => Registers { ax: value, ..self },
            Reg16::CX => Registers { cx: value, ..self },
            Reg16::DX => Registers { dx: value, ..self },
            Reg16::BX => Registers { bx: value, ..self },
            Reg16::SP => Registers { sp: value, ..self },
            Reg16::BP => Registers { bp: value, ..self },
            Reg16::SI => Registers { si: value, ..self },
            Reg16::DI => Registers { di: value, ..self },
            Reg16::FLAGS => Registers { flags: value & FLAGS_DEFINED, ..self },
        }
    }

    /// Reads one of the nine 16-bit register views.
    pub fn read16(&self, reg: Reg16) -> (r: u16)
        ensures
            r == self.read16_spec(reg),
    {
        match reg {
            Reg16::AX => self.ax,
            Reg16::CX => self.cx,
            Reg16::DX => self.dx,
            Reg16::BX => self.bx,
            Reg16::SP => self.sp,
            Reg16::BP => self.bp,
            Reg16::SI => self.si,
            Reg16::DI => self.di,
            Reg16::FLAGS => self.flags | FLAGS_RESERVED,
        }
    }

    /// Writes one of the nine 16-bit register views; a write to the flags
    /// view keeps only the architecturally defined bits.
    pub fn write16(&mut self, reg: Reg16, value: u16)
        ensures
            *final(self) == old(self).write16_spec(reg, value),
    {
        match reg {
            Reg16::AX => {
                self.ax = value;
            },
            Reg16::CX => {
                self.cx = value;
            },
            Reg16::DX => {
                self.dx = value;
            },
            Reg16::BX => {
                self.bx = value;
            },
            Reg16::SP => {
                self.sp = value;
            },
            Reg16::BP => {
                self.bp = value;
            },
            Reg16::SI => {
                self.si = value;
            },
            Reg16::DI => {
                self.di = value;
            },
            Reg16::FLAGS => {
                self.flags = value & FLAGS_DEFINED;
            },
        }
    }

    /// Value of a segment register.
    pub open spec fn readseg16_spec(self, seg_reg: SegReg) -> u16 {
        match seg_reg {
            SegReg::ES => self.es,
            SegReg::CS => self.cs,
            SegReg::SS => self.ss,
            SegReg::DS => self.ds,
        }
    }

    /// The register file after writing a segment register: independent
    /// 16-bit values, no aliasing and no masking.
    pub open spec fn writeseg16_spec(self, seg_reg: SegReg, value: u16) -> Registers {
        match seg_reg {
            SegReg::ES => Registers { es: value, ..self },
            SegReg::CS => Registers { cs: value, ..self },
            SegReg::SS => Registers { ss: value, ..self },
            SegReg::DS => Registers { ds: value, ..self },
        }
    }

    /// Reads one of the four segment registers.
    pub fn readseg16(&self, seg_reg: SegReg) -> (r: u16)
        ensures
            r == self.readseg16_spec(seg_reg),
    {
        match seg_reg {
            SegReg::ES => self.es,
            SegReg::CS => self.cs,
            SegReg::SS => self.ss,
            SegReg::DS => self.ds,
        }
    }

    /// Writes one of the four segment registers.
    pub fn writeseg16(&mut self, seg_reg: SegReg, value: u16)
        ensures
            *final(self) == old(self).writeseg16_spec(seg_reg, value),
    {
        match seg_reg {
            SegReg::ES => {
                self.es = value;
            },
            SegReg::CS => {
                self.cs = value;
            },
            SegReg::SS => {
                self.ss = value;
            },
            SegReg::DS => {
                self.ds = value;
            },
        }
    }

    /// Whether a named single flag is set in the stored flags word.
    pub open spec fn get_flag_spec(self, flag: Flag) -> bool {
        self.flags & flag.spec_mask() != 0
    }

    /// The register file with one named single flag assigned.
    pub open spec fn set_flag_spec(self, flag: Flag, value: bool) -> Registers {
        if value {
            Registers { flags: self.flags | flag.spec_mask(), ..self }
        } else {
            Registers { flags: self.flags & !flag.spec_mask(), ..self }
        }
    }

    /// Tests one named single flag.
    pub fn get_flag(&self, flag: Flag) -> (r: bool)
        ensures
            r == self.get_flag_spec(flag),
    {
        (self.flags & flag.mask()) != 0
    }

    /// Assigns one named single flag, leaving every other bit untouched.
    pub fn set_flag(&mut self, flag: Flag, value: bool)
        ensures
            *final(self) == old(self).set_flag_spec(flag, value),
    {
        if value {
            self.flags = self.flags | flag.mask();
        } else {
            self.flags = self.flags & !flag.mask();
        }
    }

    /// The register file with the instruction pointer replaced.
    pub open spec fn with_ip(self, ip: u16) -> Registers {
        Registers { ip, ..self }
    }
}

/// `lo`, `hi` and `full` name the two 8-bit halves and the 16-bit view of
/// one of the four aliased general-purpose registers.
pub open spec fn aliased_pair(lo: Reg8, hi: Reg8, full: Reg16) -> bool {
    ||| (lo == Reg8::AL && hi == Reg8::AH && full == Reg16::AX)
    ||| (lo == Reg8::CL && hi == Reg8::CH && full == Reg16::CX)
    ||| (lo == Reg8::DL && hi == Reg8::DH && full == Reg16::DX)
    ||| (lo == Reg8::BL && hi == Reg8::BH && full == Reg16::BX)
}

proof fn lemma_half_writes(a: u16, l: u8, h: u8)
    by (bit_vector)
    ensures
        ((((a & 0xff00) | (l as u16)) & 0x00ff) | ((h as u16) << 8)) == (((h as u16) << 8) | (
        l as u16)),
        ((((a & 0x00ff) | ((h as u16) << 8)) & 0xff00) | (l as u16)) == (((h as u16) << 8) | (
        l as u16)),
        ((((a & 0xff00) | (l as u16)) >> 8) as u8) == ((a >> 8) as u8),
        ((((a & 0x00ff) | ((h as u16) << 8)) & 0xff) as u8) == ((a & 0xff) as u8),
{
}

/// Sub-register aliasing: for each aliased register, writing the low half
/// then the high half (in either order) leaves the 16-bit view equal to
/// `(high << 8) | low`, and writing one half never changes the other half.
pub proof fn lemma_sub_register_aliasing(
    regs: Registers,
    lo: Reg8,
    hi: Reg8,
    full: Reg16,
    low_val: u8,
    high_val: u8,
)
    requires
        aliased_pair(lo, hi, full),
    ensures
        regs.write8_spec(lo, low_val).write8_spec(hi, high_val).read16_spec(full) == (((
        high_val as u16) << 8) | (low_val as u16)),
        regs.write8_spec(hi, high_val).write8_spec(lo, low_val).read16_spec(full) == (((
        high_val as u16) << 8) | (low_val as u16)),
        regs.write8_spec(lo, low_val).read8_spec(hi) == regs.read8_spec(hi),
        regs.write8_spec(hi, high_val).read8_spec(lo) == regs.read8_spec(lo),
{
    if lo == Reg8::AL {
        lemma_half_writes(regs.ax, low_val, high_val);
    } else if lo == Reg8::CL {
        lemma_half_writes(regs.cx, low_val, high_val);
    } else if lo == Reg8::DL {
        lemma_half_writes(regs.dx, low_val, high_val);
    } else {
        lemma_half_writes(regs.bx, low_val, high_val);
    }
}

proof fn lemma_half_identity(a: u16)
    by (bit_vector)
    ensures
        ((a & 0xff00) | (((a & 0xff) as u8) as u16)) == a,
        ((a & 0x00ff) | ((((a >> 8) as u8) as u16) << 8)) == a,
{
}

/// Writing back into an 8-bit register the value just read from it leaves
/// the register file unchanged.
pub proof fn lemma_write8_read8_identity(regs: Registers, reg: Reg8)
    ensures
        regs.write8_spec(reg, regs.read8_spec(reg)) == regs,
{
    match reg {
        Reg8::AL | Reg8::AH => lemma_half_identity(regs.ax),
        Reg8::CL | Reg8::CH => lemma_half_identity(regs.cx),
        Reg8::DL | Reg8::DH => lemma_half_identity(regs.dx),
        Reg8::BL | Reg8::BH => lemma_half_identity(regs.bx),
    }
}

proof fn lemma_single_bit_identity(x: u16, m: u16)
    by (bit_vector)
    requires
        m == 0x0001 || m == 0x0004 || m == 0x0010 || m == 0x0040 || m == 0x0080 || m == 0x0100 || m
            == 0x0200 || m == 0x0400 || m == 0x0800,
    ensures
        (x & m != 0) ==> (x | m) == x,
        (x & m == 0) ==> (x & !m) == x,
{
}

/// Assigning to a named flag the value it already holds leaves the
/// register file unchanged.
pub proof fn lemma_set_flag_identity(regs: Registers, flag: Flag)
    ensures
        regs.set_flag_spec(flag, regs.get_flag_spec(flag)) == regs,
{
    lemma_single_bit_identity(regs.flags, flag.spec_mask());
}

/// Flags round-trip: a 16-bit write of `v` to the flags register followed
/// by an architectural read yields `v` with only the defined bits kept and
/// the reserved bits forced on.
pub proof fn lemma_flags_round_trip(regs: Registers, v: u16)
    ensures
        regs.write16_spec(Reg16::FLAGS, v).read16_spec(Reg16::FLAGS) == ((v & FLAGS_DEFINED)
            | FLAGS_RESERVED),
{
}

} // verus!
