use virtual_machine::libs::constants::PC_START;
use virtual_machine::libs::instructions::{InstructionSet, InstructionSetError, Instructions};
use virtual_machine::libs::types::{
    ConditionalFlags, MemomryTrait, Memory, Opcodes, RegisterError, RegisterStorage,
    RegisterStorageTrait, Registers,
};

#[test]
fn new_register_file_starts_at_pc_start_with_zero_flag() {
    let rs = RegisterStorage::new();
    assert_eq!(rs.locations[8], PC_START);
    assert_eq!(rs.locations[8], 0x3000);
    assert_eq!(rs.locations[9], 2);
    for i in 0..8 {
        assert_eq!(rs.locations[i], 0);
    }
}

#[test]
fn get_register_maps_indices() {
    assert_eq!(RegisterStorage::get_register(0), Ok(Registers::R0));
    assert_eq!(RegisterStorage::get_register(7), Ok(Registers::R7));
    assert_eq!(RegisterStorage::get_register(8), Ok(Registers::PC));
    assert_eq!(RegisterStorage::get_register(9), Ok(Registers::COND));
    assert_eq!(
        RegisterStorage::get_register(10),
        Err(RegisterError::InvalidRegister(10))
    );
    assert_eq!(Registers::COND.index(), 9);
    assert_eq!(Registers::COUNT.index(), 10);
}

#[test]
fn load_and_store_validate_the_index() {
    let mut rs = RegisterStorage::new();
    assert_eq!(rs.store(0xBEEF, 3), Ok(()));
    assert_eq!(rs.load(3), Ok(0xBEEF));
    assert_eq!(rs.store(1, 10), Err(RegisterError::InvalidRegister(10)));
    assert_eq!(rs.load(0xFFFF), Err(RegisterError::InvalidRegister(0xFFFF)));
    assert_eq!(rs.update_flags(11), Err(RegisterError::InvalidRegister(11)));
    assert_eq!(rs.locations[3], 0xBEEF);
}

fn flag_after(value: u16) -> u16 {
    let mut rs = RegisterStorage::new();
    rs.store(value, 4).unwrap();
    rs.update_flags(4).unwrap();
    rs.locations[9]
}

#[test]
fn update_flags_sets_exactly_one_flag_at_the_boundaries() {
    assert_eq!(flag_after(0x0000), ConditionalFlags::ZRO.value());
    assert_eq!(flag_after(0x0001), ConditionalFlags::POS.value());
    assert_eq!(flag_after(0x7FFF), ConditionalFlags::POS.value());
    assert_eq!(flag_after(0x8000), ConditionalFlags::NEG.value());
    assert_eq!(flag_after(0xFFFF), ConditionalFlags::NEG.value());
    for v in [0x0000u16, 0x0001, 0x7FFF, 0x8000, 0xFFFF] {
        let c = flag_after(v);
        assert!(c == 1 || c == 2 || c == 4);
        assert_eq!(c.count_ones(), 1);
    }
}

#[test]
fn flag_values() {
    assert_eq!(ConditionalFlags::POS.value(), 1);
    assert_eq!(ConditionalFlags::ZRO.value(), 2);
    assert_eq!(ConditionalFlags::NEG.value(), 4);
}

#[test]
fn memory_is_zeroed_and_total() {
    let mut m = Memory::new();
    assert_eq!(m.read(0), 0);
    assert_eq!(m.read(0xFFFF), 0);
    m.write(0xFFFF, 7);
    m.write(0, 9);
    assert_eq!(m.read(0xFFFF), 7);
    assert_eq!(m.read(0), 9);
    m.write(0, 10);
    assert_eq!(m.read(0), 10);
}

#[test]
fn opcodes_decode_all_sixteen_codes() {
    let expected = [
        Opcodes::BR,
        Opcodes::ADD,
        Opcodes::LD,
        Opcodes::ST,
        Opcodes::JSR,
        Opcodes::AND,
        Opcodes::LDR,
        Opcodes::STR,
        Opcodes::RTI,
        Opcodes::NOT,
        Opcodes::LDI,
        Opcodes::STI,
        Opcodes::JMP,
        Opcodes::RES,
        Opcodes::LEA,
        Opcodes::TRAP,
    ];
    for (code, op) in expected.iter().enumerate() {
        assert_eq!(Opcodes::from_u16(code as u16), Some(*op));
    }
    assert_eq!(Opcodes::from_u16(16), None);
    assert_eq!(Opcodes::from_u16(0xFFFF), None);
}

#[test]
fn sign_extend_keeps_a_positive_field() {
    assert_eq!(Instructions::sign_extend(0b01011, 5), Ok(0b01011));
    assert_eq!(Instructions::sign_extend(0x00FF, 9), Ok(0x00FF));
}

#[test]
fn sign_extend_fills_the_high_bits_of_a_negative_field() {
    assert_eq!(Instructions::sign_extend(0b11011, 5), Ok(0b1111111111111011));
    assert_eq!(Instructions::sign_extend(0x1FF, 9), Ok(0xFFFF));
    assert_eq!(Instructions::sign_extend(0x100, 9), Ok(0xFF00));
    assert_eq!(Instructions::sign_extend(0x400, 11), Ok(0xFC00));
    assert_eq!(Instructions::sign_extend(1, 1), Ok(0xFFFF));
    assert_eq!(Instructions::sign_extend(0x8000, 16), Ok(0x8000));
}

#[test]
fn sign_extend_rejects_widths_outside_one_to_sixteen() {
    assert_eq!(
        Instructions::sign_extend(5, 0),
        Err(InstructionSetError::InvalidBitCount(0))
    );
    assert_eq!(
        Instructions::sign_extend(5, 17),
        Err(InstructionSetError::InvalidBitCount(17))
    );
    assert_eq!(
        Instructions::sign_extend(5, u32::MAX),
        Err(InstructionSetError::InvalidBitCount(u32::MAX))
    );
    for n in 1..=16u32 {
        assert!(Instructions::sign_extend(0xFFFF, n).is_ok());
        assert!(Instructions::sign_extend(0, n).is_ok());
    }
}

#[test]
fn sign_extend_is_idempotent() {
    for bits in [0u16, 0b01011, 0b11011, 0x1FF, 0x100, 0x7FF, 0xABCD] {
        for n in 1..=16u32 {
            let once = Instructions::sign_extend(bits, n).unwrap();
            assert_eq!(Instructions::sign_extend(once, n), Ok(once));
            assert_eq!(Instructions::sign_extend(once, 16), Ok(once));
        }
    }
}
