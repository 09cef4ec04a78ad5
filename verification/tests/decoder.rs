use cpu8086::operand::AddressBase;
use cpu8086::operand::Displacement;
use cpu8086::operand::MemoryOperand;
use cpu8086::operand::Operand;
use cpu8086::operand::decode_modrm;

#[test]
fn register_direct_mode() {
    let params = decode_modrm(0xc0);
    assert_eq!(params.reg, Operand::Register(0));
    assert_eq!(params.rm, Operand::Register(0));

    let params = decode_modrm(0xd9);
    assert_eq!(params.reg, Operand::Register(3));
    assert_eq!(params.rm, Operand::Register(1));

    let params = decode_modrm(0xff);
    assert_eq!(params.reg, Operand::Register(7));
    assert_eq!(params.rm, Operand::Register(7));
}

#[test]
fn memory_mode_without_displacement() {
    let params = decode_modrm(0x00);
    assert_eq!(
        params.rm,
        Operand::Memory(MemoryOperand { base: AddressBase::BxSi, displacement: Displacement::Disp0 })
    );
    let params = decode_modrm(0x07);
    assert_eq!(
        params.rm,
        Operand::Memory(MemoryOperand { base: AddressBase::Bx, displacement: Displacement::Disp0 })
    );
}

#[test]
fn direct_address_form() {
    // mode 0 with rm 6 is the direct-address exception: no base register,
    // one displacement word owed.
    let params = decode_modrm(0x06);
    assert_eq!(
        params.rm,
        Operand::Memory(MemoryOperand {
            base: AddressBase::Direct,
            displacement: Displacement::Disp16,
        })
    );
}

#[test]
fn memory_mode_with_byte_displacement() {
    let params = decode_modrm(0x46);
    assert_eq!(
        params.rm,
        Operand::Memory(MemoryOperand { base: AddressBase::Bp, displacement: Displacement::Disp8 })
    );
    let params = decode_modrm(0x44);
    assert_eq!(
        params.rm,
        Operand::Memory(MemoryOperand { base: AddressBase::Si, displacement: Displacement::Disp8 })
    );
}

#[test]
fn memory_mode_with_word_displacement() {
    let params = decode_modrm(0x87);
    assert_eq!(
        params.rm,
        Operand::Memory(MemoryOperand { base: AddressBase::Bx, displacement: Displacement::Disp16 })
    );
    let params = decode_modrm(0x83);
    assert_eq!(
        params.rm,
        Operand::Memory(MemoryOperand {
            base: AddressBase::BpDi,
            displacement: Displacement::Disp16,
        })
    );
}

#[test]
fn decoder_is_total_and_fields_follow_the_bits() {
    for b in 0..=0xffu16 {
        let byte = b as u8;
        let params = decode_modrm(byte);
        assert_eq!(params.reg, Operand::Register((byte >> 3) & 7));
        match params.rm {
            Operand::Register(idx) => {
                assert!(byte >= 0xc0);
                assert_eq!(idx, byte & 7);
            }
            Operand::Memory(_) => {
                assert!(byte < 0xc0);
            }
        }
    }
}
