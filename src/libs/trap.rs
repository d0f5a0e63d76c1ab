use vstd::prelude::*;

use crate::libs::instructions::{wrap_add, InstructionSetError};
use crate::libs::types::{
    with_result, MemomryTrait, RegisterError, RegisterStorage, RegisterStorageTrait, Registers,
};

verus! {

/// What the host must do after an instruction, when anything.
///
/// The machine does no console I/O itself: a trap that writes hands back the
/// bytes, and a trap that reads asks the host for a byte, which the host then
/// passes to `Trap::getc` or `Trap::trap_in`.
#[derive(Debug)]
pub enum StepAction {
    /// Nothing: go on with the next instruction.
    Continue,
    /// Write these bytes to the console, then flush.
    Write(Vec<u8>),
    /// GETC: read one byte (`None` at end of input) and pass it to `Trap::getc`.
    ReadChar,
    /// IN: prompt, read one byte and pass it to `Trap::trap_in`, then write the
    /// echo that it returns.
    ReadCharEchoed,
    /// HALT: report the halt and end the run; nothing more is fetched.
    Halt,
}

/// The trap routines, one for each defined trap vector.
#[derive(Debug, Clone, Copy, PartialEq, Eq, Structural)]
pub enum Trap {
    /// Read a character, not echoed (vector 0x20).
    GETC,
    /// Write a character (vector 0x21).
    OUT,
    /// Write a string of one character per word (vector 0x22).
    PUTS,
    /// Prompt for a character and echo it (vector 0x23).
    IN,
    /// Write a string of two characters per word (vector 0x24).
    PUTSP,
    /// Halt the machine (vector 0x25).
    HALT,
}

/// Number of words a string routine looks at before it stops without a
/// terminator: the whole address space.
pub const STRING_SCAN_LIMIT: u32 = 65536;

/// The character held in the low byte of a word.
pub open spec fn low_byte(w: u16) -> u8 {
    (w & 0xFFu16) as u8
}

/// The character held in the high byte of a word.
pub open spec fn high_byte(w: u16) -> u8 {
    (w >> 8u16) as u8
}

/// The characters of the word string at `address`: the low byte of each word up
/// to the first zero word, from at most `limit` words. Addresses wrap.
pub open spec fn word_string(mem: Seq<u16>, address: u16, limit: nat) -> Seq<u8>
    decreases limit,
{
    if limit == 0 || mem[address as int] == 0 {
        Seq::empty()
    } else {
        seq![low_byte(mem[address as int])] + word_string(mem, wrap_add(address, 1), (limit - 1) as nat)
    }
}

/// The characters packed in one word: the low byte, then the high byte unless it
/// is zero.
pub open spec fn packed_chars(w: u16) -> Seq<u8> {
    if high_byte(w) != 0 {
        seq![low_byte(w), high_byte(w)]
    } else {
        seq![low_byte(w)]
    }
}

/// The characters of the packed string at `address`, up to the first zero word,
/// from at most `limit` words. Addresses wrap.
pub open spec fn packed_string(mem: Seq<u16>, address: u16, limit: nat) -> Seq<u8>
    decreases limit,
{
    if limit == 0 || mem[address as int] == 0 {
        Seq::empty()
    } else {
        packed_chars(mem[address as int]) + packed_string(
            mem,
            wrap_add(address, 1),
            (limit - 1) as nat,
        )
    }
}

/// The word stored in R0 by GETC and IN: the byte read, or zero at end of input.
pub open spec fn input_word(input: Option<u8>) -> u16 {
    match input {
        Some(b) => b as u16,
        None => 0u16,
    }
}

pub open spec fn r0_of(regs: Seq<u16>) -> u16 {
    regs[Registers::R0.spec_index() as int]
}

impl Trap {
    pub open spec fn spec_from_u16(instr: u16) -> Option<Trap> {
        if instr == 0x20 {
            Some(Trap::GETC)
        } else if instr == 0x21 {
            Some(Trap::OUT)
        } else if instr == 0x22 {
            Some(Trap::PUTS)
        } else if instr == 0x23 {
            Some(Trap::IN)
        } else if instr == 0x24 {
            Some(Trap::PUTSP)
        } else if instr == 0x25 {
            Some(Trap::HALT)
        } else {
            None
        }
    }

    /// The routine for a trap vector.
    pub fn from_u16(instr: u16) -> (r: Option<Trap>)
        ensures
            r == Self::spec_from_u16(instr),
            r is Some <==> 0x20 <= instr <= 0x25,
    {
        match instr {
            0x20 => Some(Trap::GETC),
            0x21 => Some(Trap::OUT),
            0x22 => Some(Trap::PUTS),
            0x23 => Some(Trap::IN),
            0x24 => Some(Trap::PUTSP),
            0x25 => Some(Trap::HALT),
            _ => None,
        }
    }
}

/// The result that `execute_trap_instruction` owes for vector `vector`, given the
/// register file and memory it ran on.
pub open spec fn trap_outcome(
    regs: Seq<u16>,
    mem: Seq<u16>,
    vector: u16,
    r: Result<StepAction, InstructionSetError>,
) -> bool {
    match Trap::spec_from_u16(vector) {
        Some(Trap::GETC) => r == Ok::<StepAction, InstructionSetError>(StepAction::ReadChar),
        Some(Trap::OUT) => (r matches Ok(StepAction::Write(out)) && out@ == seq![
            low_byte(r0_of(regs)),
        ]),
        Some(Trap::PUTS) => (r matches Ok(StepAction::Write(out)) && out@ == word_string(
            mem,
            r0_of(regs),
            STRING_SCAN_LIMIT as nat,
        )),
        Some(Trap::IN) => r == Ok::<StepAction, InstructionSetError>(StepAction::ReadCharEchoed),
        Some(Trap::PUTSP) => (r matches Ok(StepAction::Write(out)) && out@ == packed_string(
            mem,
            r0_of(regs),
            STRING_SCAN_LIMIT as nat,
        )),
        Some(Trap::HALT) => r == Ok::<StepAction, InstructionSetError>(StepAction::Halt),
        None => r == Err::<StepAction, InstructionSetError>(
            InstructionSetError::UnknownTrapVector(vector),
        ),
    }
}

/// The trap routines. Those that read take the byte the host read; those that
/// write return the bytes for the host to write.
pub trait TrapTrait {
    /// GETC: R0 = the byte read (zero at end of input); flags from R0.
    fn getc(register_storage: &mut RegisterStorage, input: Option<u8>) -> (r: Result<
        (),
        RegisterError,
    >)
        ensures
            r is Ok,
            final(register_storage)@ == with_result(
                old(register_storage)@,
                Registers::R0.spec_index() as int,
                input_word(input),
            ),
    ;

    /// OUT: the low byte of R0.
    fn out(register_storage: &RegisterStorage) -> (r: Result<Vec<u8>, RegisterError>)
        ensures
            r matches Ok(out) && out@ == seq![low_byte(r0_of(register_storage@))],
    ;

    /// PUTS: the low bytes of the words from address R0 up to the first zero word.
    fn puts<M: MemomryTrait>(register_storage: &RegisterStorage, memory: &M) -> (r: Result<
        Vec<u8>,
        RegisterError,
    >)
        ensures
            r matches Ok(out) && out@ == word_string(
                memory@,
                r0_of(register_storage@),
                STRING_SCAN_LIMIT as nat,
            ),
    ;

    /// IN: R0 = the byte read (zero at end of input); flags from R0. Returns the
    /// echo: that byte and a newline.
    fn trap_in(register_storage: &mut RegisterStorage, input: Option<u8>) -> (r: Result<
        Vec<u8>,
        RegisterError,
    >)
        ensures
            r matches Ok(echo) && echo@ == seq![input_word(input) as u8, 10u8],
            final(register_storage)@ == with_result(
                old(register_storage)@,
                Registers::R0.spec_index() as int,
                input_word(input),
            ),
    ;

    /// PUTSP: two characters per word from address R0 up to the first zero word.
    fn putsp<M: MemomryTrait>(register_storage: &RegisterStorage, memory: &M) -> (r: Result<
        Vec<u8>,
        RegisterError,
    >)
        ensures
            r matches Ok(out) && out@ == packed_string(
                memory@,
                r0_of(register_storage@),
                STRING_SCAN_LIMIT as nat,
            ),
    ;

    /// HALT: the run ends.
    fn halt() -> (r: StepAction)
        ensures
            r == StepAction::Halt,
    ;
}

impl TrapTrait for Trap {
    fn getc(register_storage: &mut RegisterStorage, input: Option<u8>) -> (r: Result<
        (),
        RegisterError,
    >) {
        let char_code: u16 = match input {
            Some(b) => b as u16,
            None => 0,
        };
        // Store in R0 and clear high 8 bits
        assert(char_code & 0x00FFu16 == char_code) by (bit_vector)
            requires
                char_code < 256,
        ;
        register_storage.store(char_code & 0x00FF, Registers::R0.index())?;
        register_storage.update_flags(Registers::R0.index())?;
        Ok(())
    }

    fn out(register_storage: &RegisterStorage) -> (r: Result<Vec<u8>, RegisterError>) {
        let char_code = register_storage.load(Registers::R0.index())?;
        let mut bytes: Vec<u8> = Vec::new();
        bytes.push((char_code & 0x00FFu16) as u8);
        Ok(bytes)
    }

    fn puts<M: MemomryTrait>(register_storage: &RegisterStorage, memory: &M) -> (r: Result<
        Vec<u8>,
        RegisterError,
    >) {
        let start = register_storage.load(Registers::R0.index())?;
        let mut address = start;
        let mut bytes: Vec<u8> = Vec::new();
        let mut remaining: u32 = STRING_SCAN_LIMIT;
        let mut memory_value = memory.read(address);
        // Collect characters until the null terminator 0x0000
        while remaining > 0 && memory_value != 0
            invariant
                remaining <= STRING_SCAN_LIMIT,
                memory_value == memory@[address as int],
                bytes@ + word_string(memory@, address, remaining as nat) == word_string(
                    memory@,
                    start,
                    STRING_SCAN_LIMIT as nat,
                ),
            decreases remaining,
        {
            let c = (memory_value & 0x00FFu16) as u8;
            proof {
                let rest = word_string(memory@, wrap_add(address, 1), (remaining - 1) as nat);
                assert(bytes@.push(c) + rest =~= bytes@ + (seq![c] + rest));
            }
            bytes.push(c);
            address = address.wrapping_add(1);
            remaining = remaining - 1;
            memory_value = memory.read(address);
        }
        assert(bytes@ + word_string(memory@, address, remaining as nat) =~= bytes@);
        Ok(bytes)
    }

    fn trap_in(register_storage: &mut RegisterStorage, input: Option<u8>) -> (r: Result<
        Vec<u8>,
        RegisterError,
    >) {
        let char_code: u16 = match input {
            Some(b) => b as u16,
            None => 0,
        };
        assert(char_code & 0x00FFu16 == char_code) by (bit_vector)
            requires
                char_code < 256,
        ;
        // Store in R0 and echo
        register_storage.store(char_code & 0x00FF, Registers::R0.index())?;
        let mut echo: Vec<u8> = Vec::new();
        echo.push(char_code as u8);
        echo.push(10u8);
        register_storage.update_flags(Registers::R0.index())?;
        Ok(echo)
    }

    fn putsp<M: MemomryTrait>(register_storage: &RegisterStorage, memory: &M) -> (r: Result<
        Vec<u8>,
        RegisterError,
    >) {
        let start = register_storage.load(Registers::R0.index())?;
        let mut address = start;
        let mut bytes: Vec<u8> = Vec::new();
        let mut remaining: u32 = STRING_SCAN_LIMIT;
        let mut memory_value = memory.read(address);
        // Collect packed characters until the null terminator 0x0000
        while remaining > 0 && memory_value != 0
            invariant
                remaining <= STRING_SCAN_LIMIT,
                memory_value == memory@[address as int],
                bytes@ + packed_string(memory@, address, remaining as nat) == packed_string(
                    memory@,
                    start,
                    STRING_SCAN_LIMIT as nat,
                ),
            decreases remaining,
        {
            // Low byte first, then the high byte when it is not zero
            let char1 = (memory_value & 0x00FFu16) as u8;
            let char2 = (memory_value >> 8u16) as u8;
            let ghost before = bytes@;
            bytes.push(char1);
            if char2 != 0 {
                bytes.push(char2);
            }
            proof {
                let rest = packed_string(memory@, wrap_add(address, 1), (remaining - 1) as nat);
                assert(bytes@ =~= before + packed_chars(memory_value));
                assert(bytes@ + rest =~= before + (packed_chars(memory_value) + rest));
            }
            address = address.wrapping_add(1);
            remaining = remaining - 1;
            memory_value = memory.read(address);
        }
        assert(bytes@ + packed_string(memory@, address, remaining as nat) =~= bytes@);
        Ok(bytes)
    }

    fn halt() -> (r: StepAction) {
        StepAction::Halt
    }
}

impl Trap {
    /// Runs the trap routine that the low eight bits of `trap_vector` name. GETC
    /// and IN only ask the host for a byte; their effect on the registers comes
    /// with `getc` or `trap_in`.
    pub fn execute_trap_instruction<M: MemomryTrait>(
        register_storage: &RegisterStorage,
        memory: &M,
        trap_vector: u16,
    ) -> (r: Result<StepAction, InstructionSetError>)
        ensures
            trap_outcome(register_storage@, memory@, trap_vector & 0xFFu16, r),
    {
        let vector = trap_vector & 0xFFu16;
        match Self::from_u16(vector) {
            Some(Trap::GETC) => Ok(StepAction::ReadChar),
            Some(Trap::OUT) => Ok(StepAction::Write(Self::out(register_storage)?)),
            Some(Trap::PUTS) => Ok(StepAction::Write(Self::puts(register_storage, memory)?)),
            Some(Trap::IN) => Ok(StepAction::ReadCharEchoed),
            Some(Trap::PUTSP) => Ok(StepAction::Write(Self::putsp(register_storage, memory)?)),
            Some(Trap::HALT) => Ok(Self::halt()),
            None => Err(InstructionSetError::UnknownTrapVector(vector)),
        }
    }
}

} // verus!
