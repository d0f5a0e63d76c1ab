use vstd::prelude::*;

use crate::libs::constants::{MEMORY_MAX, PC_START, REGISTER_COUNT};

verus! {

/// Failure of a register-file access.
#[derive(Debug, Clone, Copy, PartialEq, Eq, Structural)]
pub enum RegisterError {
    /// The index names none of the ten register slots.
    InvalidRegister(u16),
}

/// The addressable register slots, in index order.
#[derive(Debug, Clone, Copy, PartialEq, Eq, Structural)]
pub enum Registers {
    R0,
    R1,
    R2,
    R3,
    R4,
    R5,
    R6,
    R7,
    /// Program counter.
    PC,
    /// Condition flags.
    COND,
    /// Number of slots; names no register.
    COUNT,
}

impl Registers {
    pub open spec fn spec_index(self) -> u16 {
        match self {
            Registers::R0 => 0,
            Registers::R1 => 1,
            Registers::R2 => 2,
            Registers::R3 => 3,
            Registers::R4 => 4,
            Registers::R5 => 5,
            Registers::R6 => 6,
            Registers::R7 => 7,
            Registers::PC => 8,
            Registers::COND => 9,
            Registers::COUNT => 10,
        }
    }

    /// The slot index of this register in the register file.
    #[verifier::when_used_as_spec(spec_index)]
    pub fn index(self) -> (r: u16)
        ensures
            r == self.spec_index(),
    {
        match self {
            Registers::R0 => 0,
            Registers::R1 => 1,
            Registers::R2 => 2,
            Registers::R3 => 3,
            Registers::R4 => 4,
            Registers::R5 => 5,
            Registers::R6 => 6,
            Registers::R7 => 7,
            Registers::PC => 8,
            Registers::COND => 9,
            Registers::COUNT => 10,
        }
    }
}

/// The sixteen operations, in the order of their 4-bit codes.
#[derive(Debug, Clone, Copy, PartialEq, Eq, Structural)]
pub enum Opcodes {
    /// Conditional branch.
    BR,
    ADD,
    /// Load, PC-relative.
    LD,
    /// Store, PC-relative.
    ST,
    /// Jump to subroutine.
    JSR,
    AND,
    /// Load, base plus offset.
    LDR,
    /// Store, base plus offset.
    STR,
    /// Return from interrupt (not supported).
    RTI,
    NOT,
    /// Load indirect.
    LDI,
    /// Store indirect.
    STI,
    /// Jump through a register.
    JMP,
    /// Reserved.
    RES,
    /// Load effective address.
    LEA,
    /// System call through a trap vector.
    TRAP,
}

impl Opcodes {
    /// The opcode whose 4-bit code is `code`; every code below 16 names one.
    pub open spec fn spec_from_code(code: u16) -> Option<Opcodes> {
        if code == 0 { Some(Opcodes::BR) }
        else if code == 1 { Some(Opcodes::ADD) }
        else if code == 2 { Some(Opcodes::LD) }
        else if code == 3 { Some(Opcodes::ST) }
        else if code == 4 { Some(Opcodes::JSR) }
        else if code == 5 { Some(Opcodes::AND) }
        else if code == 6 { Some(Opcodes::LDR) }
        else if code == 7 { Some(Opcodes::STR) }
        else if code == 8 { Some(Opcodes::RTI) }
        else if code == 9 { Some(Opcodes::NOT) }
        else if code == 10 { Some(Opcodes::LDI) }
        else if code == 11 { Some(Opcodes::STI) }
        else if code == 12 { Some(Opcodes::JMP) }
        else if code == 13 { Some(Opcodes::RES) }
        else if code == 14 { Some(Opcodes::LEA) }
        else if code == 15 { Some(Opcodes::TRAP) }
        else { None }
    }

    /// Decodes a 4-bit opcode field.
    pub fn from_u16(value: u16) -> (r: Option<Self>)
        ensures
            r == Self::spec_from_code(value),
            r is Some <==> value < 16,
    {
        match value {
            0 => Some(Opcodes::BR),
            1 => Some(Opcodes::ADD),
            2 => Some(Opcodes::LD),
            3 => Some(Opcodes::ST),
            4 => Some(Opcodes::JSR),
            5 => Some(Opcodes::AND),
            6 => Some(Opcodes::LDR),
            7 => Some(Opcodes::STR),
            8 => Some(Opcodes::RTI),
            9 => Some(Opcodes::NOT),
            10 => Some(Opcodes::LDI),
            11 => Some(Opcodes::STI),
            12 => Some(Opcodes::JMP),
            13 => Some(Opcodes::RES),
            14 => Some(Opcodes::LEA),
            15 => Some(Opcodes::TRAP),
            _ => None,
        }
    }
}

/// The three condition flags; COND holds exactly one of them.
#[derive(Debug, Clone, Copy, PartialEq, Eq, Structural)]
pub enum ConditionalFlags {
    /// Last result was positive.
    POS,
    /// Last result was zero.
    ZRO,
    /// Last result was negative (bit 15 set).
    NEG,
}

impl ConditionalFlags {
    pub open spec fn spec_value(self) -> u16 {
        match self {
            ConditionalFlags::POS => 1,
            ConditionalFlags::ZRO => 2,
            ConditionalFlags::NEG => 4,
        }
    }

    /// The bit that stands for this flag in COND.
    #[verifier::when_used_as_spec(spec_value)]
    pub fn value(self) -> (r: u16)
        ensures
            r == self.spec_value(),
    {
        match self {
            ConditionalFlags::POS => 1,
            ConditionalFlags::ZRO => 2,
            ConditionalFlags::NEG => 4,
        }
    }
}

/// The flag that a result `v` sets: zero, negative when bit 15 is set, else positive.
pub open spec fn flag_for(v: u16) -> ConditionalFlags {
    if v == 0 {
        ConditionalFlags::ZRO
    } else if v >= 0x8000 {
        ConditionalFlags::NEG
    } else {
        ConditionalFlags::POS
    }
}

/// COND holds exactly one of the three flags.
pub open spec fn valid_cond(c: u16) -> bool {
    c == ConditionalFlags::POS.spec_value() || c == ConditionalFlags::ZRO.spec_value()
        || c == ConditionalFlags::NEG.spec_value()
}

/// Each value `valid_cond` accepts is a single bit among the low three.
pub proof fn lemma_valid_cond_single_bit(c: u16)
    requires
        valid_cond(c),
    ensures
        c != 0,
        c & ((c - 1) as u16) == 0,
        c & 7u16 == c,
{
    assert(c == 1u16 || c == 2u16 || c == 4u16 ==> c != 0 && c & ((c - 1) as u16) == 0 && c & 7u16
        == c) by (bit_vector);
}

/// Whatever the value, the flag it sets is one that `valid_cond` accepts.
pub proof fn lemma_flag_for_valid(v: u16)
    ensures
        valid_cond(flag_for(v).spec_value()),
{
}

/// A register file after `v` was written to slot `d` and the flags were set from it.
pub open spec fn with_result(regs: Seq<u16>, d: int, v: u16) -> Seq<u16> {
    regs.update(d, v).update(Registers::COND.spec_index() as int, flag_for(v).spec_value())
}

/// The register file at power-on: all zero but PC, at the start address, and COND,
/// at the zero flag.
pub open spec fn initial_registers() -> Seq<u16> {
    Seq::new(
        REGISTER_COUNT as nat,
        |i: int|
            if i == Registers::PC.spec_index() {
                PC_START
            } else if i == Registers::COND.spec_index() {
                ConditionalFlags::ZRO.spec_value()
            } else {
                0u16
            },
    )
}

/// Validated access to a register file whose contents are its view.
pub trait RegisterStorageTrait: Sized + View<V = Seq<u16>> {
    /// A register file at power-on.
    fn new() -> (r: Self)
        ensures
            r@ == initial_registers(),
    ;

    /// The value in slot `reg_location`.
    fn load(&self, reg_location: u16) -> (r: Result<u16, RegisterError>)
        ensures
            reg_location < 10 ==> r == Ok::<u16, RegisterError>(self@[reg_location as int]),
            reg_location >= 10 ==> r == Err::<u16, RegisterError>(
                RegisterError::InvalidRegister(reg_location),
            ),
    ;

    /// Overwrites slot `reg_location` with `instr`.
    fn store(&mut self, instr: u16, reg_location: u16) -> (r: Result<(), RegisterError>)
        ensures
            reg_location < 10 ==> r is Ok && final(self)@ == old(self)@.update(
                reg_location as int,
                instr,
            ),
            reg_location >= 10 ==> r == Err::<(), RegisterError>(
                RegisterError::InvalidRegister(reg_location),
            ) && final(self)@ == old(self)@,
    ;

    /// Sets COND from the value now in slot `destination_register`.
    fn update_flags(&mut self, destination_register: u16) -> (r: Result<(), RegisterError>)
        ensures
            destination_register < 10 ==> r is Ok && final(self)@ == old(self)@.update(
                Registers::COND.spec_index() as int,
                flag_for(old(self)@[destination_register as int]).spec_value(),
            ),
            destination_register >= 10 ==> r == Err::<(), RegisterError>(
                RegisterError::InvalidRegister(destination_register),
            ) && final(self)@ == old(self)@,
    ;
}

/// The register file: R0..R7, PC and COND, each a 16-bit word.
#[derive(Debug)]
pub struct RegisterStorage {
    pub locations: [u16; REGISTER_COUNT],
}

impl View for RegisterStorage {
    type V = Seq<u16>;

    open spec fn view(&self) -> Seq<u16> {
        self.locations@
    }
}

impl RegisterStorage {
    /// Maps a slot index to the register it names.
    pub fn get_register(register: u16) -> (r: Result<Registers, RegisterError>)
        ensures
            register < 10 ==> (r matches Ok(reg) && reg.spec_index() == register),
            register >= 10 ==> r == Err::<Registers, RegisterError>(
                RegisterError::InvalidRegister(register),
            ),
    {
        match register {
            0 => Ok(Registers::R0),
            1 => Ok(Registers::R1),
            2 => Ok(Registers::R2),
            3 => Ok(Registers::R3),
            4 => Ok(Registers::R4),
            5 => Ok(Registers::R5),
            6 => Ok(Registers::R6),
            7 => Ok(Registers::R7),
            8 => Ok(Registers::PC),
            9 => Ok(Registers::COND),
            _ => Err(RegisterError::InvalidRegister(register)),
        }
    }
}

impl RegisterStorageTrait for RegisterStorage {
    fn new() -> (r: Self) {
        let mut locations = [0u16; REGISTER_COUNT];
        locations[Registers::PC.index() as usize] = PC_START;
        locations[Registers::COND.index() as usize] = ConditionalFlags::ZRO.value();
        let r = Self { locations };
        assert(r@ =~= initial_registers());
        r
    }

    fn load(&self, reg_location: u16) -> (r: Result<u16, RegisterError>) {
        let register = RegisterStorage::get_register(reg_location)?;
        Ok(self.locations[register.index() as usize])
    }

    fn store(&mut self, instr: u16, reg_location: u16) -> (r: Result<(), RegisterError>) {
        let register = RegisterStorage::get_register(reg_location)?;
        self.locations[register.index() as usize] = instr;
        Ok(())
    }

    fn update_flags(&mut self, destination_register: u16) -> (r: Result<(), RegisterError>)
        ensures
            destination_register < 10 ==> valid_cond(
                final(self)@[Registers::COND.spec_index() as int],
            ),
    {
        let result = self.load(destination_register)?;
        let cond = Registers::COND.index();
        if result == 0 {
            self.store(ConditionalFlags::ZRO.value(), cond)?;
        } else if result >> 15u16 == 1 {
            /* a 1 in the left-most bit indicates negative */
            assert(result >= 0x8000) by (bit_vector)
                requires
                    result >> 15u16 == 1,
            ;
            self.store(ConditionalFlags::NEG.value(), cond)?;
        } else {
            assert(result < 0x8000) by (bit_vector)
                requires
                    result >> 15u16 != 1,
            ;
            self.store(ConditionalFlags::POS.value(), cond)?;
        }
        Ok(())
    }
}

/// The whole address space: one 16-bit word for each 16-bit address.
#[derive(Debug)]
pub struct Memory {
    pub locations: [u16; MEMORY_MAX],
}

impl View for Memory {
    type V = Seq<u16>;

    open spec fn view(&self) -> Seq<u16> {
        self.locations@
    }
}

/// A memory of zero words, one for each 16-bit address.
pub open spec fn zeroed_memory() -> Seq<u16> {
    Seq::new(MEMORY_MAX as nat, |i: int| 0u16)
}

/// Word-addressed memory whose contents are its view. Reads and writes are total.
pub trait MemomryTrait: Sized + View<V = Seq<u16>> {
    /// A memory of zero words.
    fn new() -> (r: Self)
        ensures
            r@ == zeroed_memory(),
    ;

    /// The word at `address`.
    fn read(&self, address: u16) -> (r: u16)
        ensures
            r == self@[address as int],
    ;

    /// Overwrites the word at `address`.
    fn write(&mut self, address: u16, value: u16)
        ensures
            final(self)@ == old(self)@.update(address as int, value),
    ;
}

impl MemomryTrait for Memory {
    fn new() -> (r: Self) {
        let r = Self { locations: [0u16; MEMORY_MAX] };
        assert(r@ =~= zeroed_memory());
        r
    }

    fn read(&self, memory_address: u16) -> (r: u16) {
        self.locations[memory_address as usize]
    }

    fn write(&mut self, memory_address: u16, value: u16) {
        self.locations[memory_address as usize] = value;
    }
}

} // verus!
