use virtual_machine::libs::instructions::{InstructionSet, Instructions};
use virtual_machine::libs::trap::StepAction;
use virtual_machine::libs::types::{MemomryTrait, Memory, RegisterStorage, RegisterStorageTrait};

const PC: usize = 8;
const COND: usize = 9;
const POS: u16 = 1;
const ZRO: u16 = 2;
const NEG: u16 = 4;

fn regs_with(values: &[(usize, u16)]) -> RegisterStorage {
    let mut rs = RegisterStorage::new();
    for &(i, v) in values {
        rs.locations[i] = v;
    }
    rs
}

#[test]
fn add_immediate_positive_operand() {
    // DR=R2, SR1=R1, imm_flag=1, imm5=0b01011
    let mut rs = regs_with(&[(1, 5)]);
    Instructions::add(&mut rs, 0x146B).unwrap();
    assert_eq!(rs.locations[2], 16);
    assert_eq!(rs.locations[COND], POS);
    assert_eq!(rs.locations[1], 5);
}

#[test]
fn add_register_mode_wraps_around() {
    let mut rs = regs_with(&[(1, 0xFFFF), (3, 0x0001)]);
    Instructions::add(&mut rs, 0x1043).unwrap();
    assert_eq!(rs.locations[0], 0x0000);
    assert_eq!(rs.locations[COND], ZRO);
}

#[test]
fn add_immediate_negative_operand() {
    // ADD R1, R1, #-1
    let mut rs = regs_with(&[(1, 3)]);
    Instructions::add(&mut rs, 0x127F).unwrap();
    assert_eq!(rs.locations[1], 2);
    assert_eq!(rs.locations[COND], POS);
}

#[test]
fn and_immediate_clears_a_register() {
    let mut rs = regs_with(&[(0, 0x1234), (COND, POS)]);
    Instructions::and(&mut rs, 0x5020).unwrap();
    assert_eq!(rs.locations[0], 0);
    assert_eq!(rs.locations[COND], ZRO);
}

#[test]
fn and_register_mode() {
    let mut rs = regs_with(&[(1, 0xF0F0), (2, 0xFF00)]);
    Instructions::and(&mut rs, 0x5642).unwrap();
    assert_eq!(rs.locations[3], 0xF000);
    assert_eq!(rs.locations[COND], NEG);
}

#[test]
fn not_complements_the_source() {
    let mut rs = regs_with(&[(1, 0x00FF)]);
    Instructions::not(&mut rs, 0x987F).unwrap();
    assert_eq!(rs.locations[4], 0xFF00);
    assert_eq!(rs.locations[1], 0x00FF);
    assert_eq!(rs.locations[COND], NEG);
}

#[test]
fn branch_taken_when_mask_matches_cond() {
    let mut rs = regs_with(&[(PC, 0x3001), (COND, NEG)]);
    Instructions::branch(&mut rs, 0x0805).unwrap();
    assert_eq!(rs.locations[PC], 0x3006);
}

#[test]
fn branch_not_taken_when_mask_misses_cond() {
    let mut rs = regs_with(&[(PC, 0x3001), (COND, NEG)]);
    Instructions::branch(&mut rs, 0x0605).unwrap();
    assert_eq!(rs.locations[PC], 0x3001);
}

#[test]
fn branch_backwards_with_negative_offset() {
    let mut rs = regs_with(&[(PC, 0x3001), (COND, ZRO)]);
    Instructions::branch(&mut rs, 0x0FFE).unwrap();
    assert_eq!(rs.locations[PC], 0x2FFF);
}

#[test]
fn jump_sets_pc_from_base_register() {
    let mut rs = regs_with(&[(3, 0x4000)]);
    Instructions::jump(&mut rs, 0xC0C0).unwrap();
    assert_eq!(rs.locations[PC], 0x4000);
}

#[test]
fn jsr_links_and_jumps_pc_relative() {
    let mut rs = regs_with(&[(PC, 0x3002)]);
    Instructions::jump_register(&mut rs, 0x480E).unwrap();
    assert_eq!(rs.locations[7], 0x3002);
    assert_eq!(rs.locations[PC], 0x3010);
}

#[test]
fn jsrr_links_and_jumps_to_base_register() {
    let mut rs = regs_with(&[(PC, 0x3002), (2, 0x5000)]);
    Instructions::jump_register(&mut rs, 0x4080).unwrap();
    assert_eq!(rs.locations[7], 0x3002);
    assert_eq!(rs.locations[PC], 0x5000);
}

#[test]
fn jsrr_through_r7_reads_the_new_link() {
    let mut rs = regs_with(&[(PC, 0x3002), (7, 0x6000)]);
    Instructions::jump_register(&mut rs, 0x41C0).unwrap();
    assert_eq!(rs.locations[7], 0x3002);
    assert_eq!(rs.locations[PC], 0x3002);
}

#[test]
fn load_pc_relative() {
    let mut rs = regs_with(&[(PC, 0x3001)]);
    let mut m = Memory::new();
    m.write(0x3003, 0x8001);
    Instructions::load(&mut rs, &m, 0x2A02).unwrap();
    assert_eq!(rs.locations[5], 0x8001);
    assert_eq!(rs.locations[COND], NEG);
}

#[test]
fn ldi_reads_through_a_pointer() {
    let mut rs = regs_with(&[(PC, 0x3001)]);
    let mut m = Memory::new();
    m.write(0x3005, 0x4000);
    m.write(0x4000, 0x0042);
    Instructions::ldi(&mut rs, &m, 0xAC04).unwrap();
    assert_eq!(rs.locations[6], 0x0042);
    assert_eq!(rs.locations[COND], POS);
}

#[test]
fn ldr_loads_into_the_destination_not_the_base() {
    let mut rs = regs_with(&[(2, 0x4000)]);
    let mut m = Memory::new();
    m.write(0x3FFE, 7);
    Instructions::load_register(&mut rs, &m, 0x62BE).unwrap();
    assert_eq!(rs.locations[1], 7);
    assert_eq!(rs.locations[2], 0x4000);
    assert_eq!(rs.locations[COND], POS);
}

#[test]
fn lea_wraps_below_address_zero() {
    let mut rs = regs_with(&[(PC, 0x0000)]);
    Instructions::load_effective_address(&mut rs, 0xE1FF).unwrap();
    assert_eq!(rs.locations[0], 0xFFFF);
    assert_eq!(rs.locations[COND], NEG);
}

#[test]
fn store_pc_relative() {
    let mut rs = regs_with(&[(PC, 0x3001), (3, 0x1234)]);
    let mut m = Memory::new();
    Instructions::store(&mut rs, &mut m, 0x37FF).unwrap();
    assert_eq!(m.read(0x3000), 0x1234);
    assert_eq!(rs.locations[3], 0x1234);
}

#[test]
fn store_indirect_writes_through_a_pointer() {
    let mut rs = regs_with(&[(PC, 0x3001), (4, 0x9999)]);
    let mut m = Memory::new();
    m.write(0x3011, 0x5000);
    Instructions::store_indirect(&mut rs, &mut m, 0xB810).unwrap();
    assert_eq!(m.read(0x5000), 0x9999);
    assert_eq!(m.read(0x3011), 0x5000);
}

#[test]
fn store_register_base_plus_offset() {
    let mut rs = regs_with(&[(0, 0xAAAA), (1, 0x4000)]);
    let mut m = Memory::new();
    Instructions::store_register(&mut rs, &mut m, 0x7045).unwrap();
    assert_eq!(m.read(0x4005), 0xAAAA);
}

#[test]
fn return_from_subroutine_jumps_to_r7() {
    let mut rs = regs_with(&[(7, 0x3456)]);
    Instructions::return_from_subroutine(&mut rs).unwrap();
    assert_eq!(rs.locations[PC], 0x3456);
}

#[test]
fn trap_links_r7_and_runs_the_routine() {
    let mut rs = regs_with(&[(PC, 0x3001), (0, 0x1241)]);
    let m = Memory::new();
    let action = Instructions::trap(&mut rs, &m, 0xF021).unwrap();
    assert_eq!(rs.locations[7], 0x3001);
    match action {
        StepAction::Write(bytes) => assert_eq!(bytes, vec![0x41u8]),
        other => panic!("unexpected action {:?}", other),
    }
}
