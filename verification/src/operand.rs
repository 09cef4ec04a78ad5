//! The ModRM operand decoder: a total function from one encoding byte to a
//! tagged `{reg, rm}` operand pair.

use vstd::prelude::*;

verus! {

/// The register or register pair a memory operand's effective address is
/// built from, as selected by the `rm` field of a ModRM byte.
#[derive(Clone, Copy, Debug, PartialEq, Eq, Structural)]
pub enum AddressBase {
    /// Base register plus source index.
    BxSi,
    /// Base register plus destination index.
    BxDi,
    /// Frame pointer plus source index.
    BpSi,
    /// Frame pointer plus destination index.
    BpDi,
    /// Source index alone.
    Si,
    /// Destination index alone.
    Di,
    /// Frame pointer alone.
    Bp,
    /// Base register alone.
    Bx,
    /// No register: the address is a direct 16-bit displacement.
    Direct,
}

/// The displacement bytes a memory operand still owes: they follow the
/// ModRM byte and have not been consumed by the decode step itself.
#[derive(Clone, Copy, Debug, PartialEq, Eq, Structural)]
pub enum Displacement {
    /// No displacement bytes follow.
    Disp0,
    /// One signed displacement byte follows.
    Disp8,
    /// One 16-bit little-endian displacement word follows.
    Disp16,
}

/// A memory operand: an effective-address expression made of an optional
/// register combination plus a pending displacement.
#[derive(Clone, Copy, Debug, PartialEq, Eq, Structural)]
pub struct MemoryOperand {
    pub base: AddressBase,
    pub displacement: Displacement,
}

/// A decoded operand: either a direct register reference (a 3-bit index
/// whose 8-bit or 16-bit meaning depends on the consuming opcode) or a
/// memory reference requiring further address computation.
#[derive(Clone, Copy, Debug, PartialEq, Eq, Structural)]
pub enum Operand {
    Register(u8),
    Memory(MemoryOperand),
}

/// The `{reg, rm}` operand pair decoded from one ModRM byte.
#[derive(Clone, Copy, Debug, PartialEq, Eq, Structural)]
pub struct OpcodeParams {
    pub reg: Operand,
    pub rm: Operand,
}

/// The addressing-mode field of a ModRM byte (bits 7-6).
pub open spec fn modrm_mode(modrm: u8) -> u8 {
    (modrm >> 6) & 3
}

/// The `reg` field of a ModRM byte (bits 5-3).
pub open spec fn modrm_reg(modrm: u8) -> u8 {
    (modrm >> 3) & 7
}

/// The `rm` field of a ModRM byte (bits 2-0).
pub open spec fn modrm_rm(modrm: u8) -> u8 {
    modrm & 7
}

/// The register combination a memory-mode `rm` field selects.
pub open spec fn spec_address_base(mode: u8, rm: u8) -> AddressBase {
    if rm == 0 {
        AddressBase::BxSi
    } else if rm == 1 {
        AddressBase::BxDi
    } else if rm == 2 {
        AddressBase::BpSi
    } else if rm == 3 {
        AddressBase::BpDi
    } else if rm == 4 {
        AddressBase::Si
    } else if rm == 5 {
        AddressBase::Di
    } else if rm == 6 {
        if mode == 0 {
            AddressBase::Direct
        } else {
            AddressBase::Bp
        }
    } else {
        AddressBase::Bx
    }
}

/// The displacement a memory-mode operand still owes: none in mode 0
/// (except the direct-address form, which owes a word), one byte in mode
/// 1, one word in mode 2.
pub open spec fn spec_displacement(mode: u8, rm: u8) -> Displacement {
    if mode == 1 {
        Displacement::Disp8
    } else if mode == 2 {
        Displacement::Disp16
    } else if rm == 6 {
        Displacement::Disp16
    } else {
        Displacement::Disp0
    }
}

/// The operand the `rm` field of a ModRM byte decodes to: a register in
/// mode 3, otherwise a memory reference.
pub open spec fn spec_rm_operand(modrm: u8) -> Operand {
    let mode = modrm_mode(modrm);
    let rm = modrm_rm(modrm);
    if mode == 3 {
        Operand::Register(rm)
    } else {
        Operand::Memory(
            MemoryOperand {
                base: spec_address_base(mode, rm),
                displacement: spec_displacement(mode, rm),
            },
        )
    }
}

/// The `{reg, rm}` pair one ModRM byte decodes to: the `reg` field is
/// always a register reference; the `rm` field is a register in mode 3 and
/// a memory reference otherwise.
pub open spec fn spec_decode_modrm(modrm: u8) -> OpcodeParams {
    OpcodeParams { reg: Operand::Register(modrm_reg(modrm)), rm: spec_rm_operand(modrm) }
}

/// Decodes one ModRM byte into its `{reg, rm}` operand pair. Total over
/// all 256 input bytes; performs no bus access and consumes no further
/// bytes (a pending displacement is only described, never read here).
pub fn decode_modrm(modrm: u8) -> (r: OpcodeParams)
    ensures
        r == spec_decode_modrm(modrm),
{
    let mode: u8 = (modrm >> 6) & 3;
    let reg_field: u8 = (modrm >> 3) & 7;
    let rm_field: u8 = modrm & 7;
    let rm = if mode == 3 {
        Operand::Register(rm_field)
    } else {
        let base = if rm_field == 0 {
            AddressBase::BxSi
        } else if rm_field == 1 {
            AddressBase::BxDi
        } else if rm_field == 2 {
            AddressBase::BpSi
        } else if rm_field == 3 {
            AddressBase::BpDi
        } else if rm_field == 4 {
            AddressBase::Si
        } else if rm_field == 5 {
            AddressBase::Di
        } else if rm_field == 6 {
            if mode == 0 {
                AddressBase::Direct
            } else {
                AddressBase::Bp
            }
        } else {
            AddressBase::Bx
        };
        let displacement = if mode == 1 {
            Displacement::Disp8
        } else if mode == 2 {
            Displacement::Disp16
        } else if rm_field == 6 {
            Displacement::Disp16
        } else {
            Displacement::Disp0
        };
        Operand::Memory(MemoryOperand { base, displacement })
    };
    OpcodeParams { reg: Operand::Register(reg_field), rm }
}

} // verus!
