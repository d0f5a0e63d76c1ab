use vstd::arithmetic::power2::pow2;
use vstd::bits::{lemma_u32_pow2_no_overflow, lemma_u32_shl_is_mul};
use vstd::prelude::*;

use crate::libs::trap::{trap_outcome, StepAction, Trap};
use crate::libs::types::{
    with_result, MemomryTrait, Memory, RegisterError, RegisterStorage, RegisterStorageTrait,
    Registers,
};

verus! {

/// Failure of an instruction handler or of the decode step.
#[derive(Debug, Clone, Copy, PartialEq, Eq, Structural)]
pub enum InstructionSetError {
    /// `sign_extend` was asked for a width of zero or above sixteen bits.
    InvalidBitCount(u32),
    /// A register index named no register slot.
    RegisterError(RegisterError),
    /// The instruction at `pc` carries a reserved or unsupported opcode.
    IllegalOpcode { pc: u16, opcode: u16 },
    /// A TRAP instruction named no trap routine.
    UnknownTrapVector(u16),
}

impl From<RegisterError> for InstructionSetError {
    fn from(e: RegisterError) -> (r: Self)
        ensures
            r == InstructionSetError::RegisterError(e),
    {
        InstructionSetError::RegisterError(e)
    }
}

impl vstd::std_specs::convert::FromSpecImpl<RegisterError> for InstructionSetError {
    open spec fn obeys_from_spec() -> bool {
        true
    }

    open spec fn from_spec(e: RegisterError) -> Self {
        InstructionSetError::RegisterError(e)
    }
}

/// `bits` widened from `bit_count` significant bits to sixteen: when bit
/// `bit_count - 1` is set, every bit from `bit_count` up is set as well.
pub open spec fn sign_extended(bits: u16, bit_count: u32) -> u16 {
    if (bits >> ((bit_count - 1) as u32)) & 1u16 == 1u16 {
        bits | ((0xFFFFu32 << bit_count) as u16)
    } else {
        bits
    }
}

/// The two's-complement value of the low `bit_count` bits of a field.
pub open spec fn field_value(bits: u16, bit_count: u32) -> int {
    if bits as int >= pow2((bit_count - 1) as nat) {
        bits as int - pow2(bit_count as nat)
    } else {
        bits as int
    }
}

/// A sign-extended field, read as a 16-bit word, is the two's-complement encoding
/// of the field's value.
pub proof fn lemma_sign_extended_value(bits: u16, bit_count: u32)
    requires
        1 <= bit_count <= 16,
        (bits as int) < pow2(bit_count as nat),
    ensures
        sign_extended(bits, bit_count) as int == (field_value(bits, bit_count) + 0x10000)
            % 0x10000,
{
    lemma_u32_pow2_no_overflow(bit_count as nat);
    lemma_u32_pow2_no_overflow((bit_count - 1) as nat);
    lemma_u32_shl_is_mul(1u32, bit_count);
    lemma_u32_shl_is_mul(1u32, (bit_count - 1) as u32);
    let p = 1u32 << bit_count;
    let h = 1u32 << ((bit_count - 1) as u32);
    assert(bits < p ==> sign_extended(bits, bit_count) as u32 == if bits as u32 >= h {
        (bits as u32 + 0x10000u32 - p) as u32
    } else {
        bits as u32
    }) by (bit_vector)
        requires
            1 <= bit_count <= 16,
            p == 1u32 << bit_count,
            h == 1u32 << ((bit_count - 1) as u32),
    ;
    assert(p <= 0x10000u32) by (bit_vector)
        requires
            1 <= bit_count <= 16,
            p == 1u32 << bit_count,
    ;
    let v = field_value(bits, bit_count);
    if bits as u32 >= h {
        assert(v == bits as int - p as int);
        assert(0 <= v + 0x10000 < 0x10000);
        vstd::arithmetic::div_mod::lemma_small_mod((v + 0x10000) as nat, 0x10000);
    } else {
        assert(v == bits as int);
        vstd::arithmetic::div_mod::lemma_mod_add_multiples_vanish(v, 0x10000);
        vstd::arithmetic::div_mod::lemma_small_mod(v as nat, 0x10000);
    }
}

/// Sign extension is idempotent at the same width, and extending at the full
/// width of sixteen bits leaves a word unchanged.
pub proof fn lemma_sign_extend_idempotent(bits: u16, bit_count: u32)
    requires
        1 <= bit_count <= 16,
    ensures
        sign_extended(sign_extended(bits, bit_count), bit_count) == sign_extended(bits, bit_count),
        sign_extended(sign_extended(bits, bit_count), 16) == sign_extended(bits, bit_count),
{
    let once = sign_extended(bits, bit_count);
    assert(sign_extended(once, bit_count) == once) by (bit_vector)
        requires
            1 <= bit_count <= 16,
            once == sign_extended(bits, bit_count),
    ;
    assert(sign_extended(once, 16) == once) by (bit_vector);
}

/// Destination (or source, for stores) register: bits 11..9. For BR the same
/// bits are the condition mask.
pub open spec fn dest(instr: u16) -> u16 {
    (instr >> 9u16) & 7u16
}

/// First source or base register: bits 8..6.
pub open spec fn base(instr: u16) -> u16 {
    (instr >> 6u16) & 7u16
}

/// Second source register: bits 2..0.
pub open spec fn src2(instr: u16) -> u16 {
    instr & 7u16
}

/// Bit 5 selects the immediate form of ADD and AND.
pub open spec fn immediate_mode(instr: u16) -> bool {
    (instr >> 5u16) & 1u16 == 1u16
}

/// Bit 11 selects the PC-relative form of JSR.
pub open spec fn pc_relative_mode(instr: u16) -> bool {
    (instr >> 11u16) & 1u16 == 1u16
}

pub open spec fn imm5(instr: u16) -> u16 {
    sign_extended(instr & 0x1Fu16, 5)
}

pub open spec fn offset6(instr: u16) -> u16 {
    sign_extended(instr & 0x3Fu16, 6)
}

pub open spec fn pc_offset9(instr: u16) -> u16 {
    sign_extended(instr & 0x1FFu16, 9)
}

pub open spec fn pc_offset11(instr: u16) -> u16 {
    sign_extended(instr & 0x7FFu16, 11)
}

/// Sixteen-bit addition modulo 2^16.
pub open spec fn wrap_add(a: u16, b: u16) -> u16 {
    ((a + b) % 0x10000) as u16
}

pub open spec fn pc_of(regs: Seq<u16>) -> u16 {
    regs[Registers::PC.spec_index() as int]
}

/// PC plus the sign-extended 9-bit offset of `instr`.
pub open spec fn pc_relative(regs: Seq<u16>, instr: u16) -> u16 {
    wrap_add(pc_of(regs), pc_offset9(instr))
}

/// The base register plus the sign-extended 6-bit offset of `instr`.
pub open spec fn base_relative(regs: Seq<u16>, instr: u16) -> u16 {
    wrap_add(regs[base(instr) as int], offset6(instr))
}

/// The second operand of ADD and AND: the immediate or the second register.
pub open spec fn second_operand(regs: Seq<u16>, instr: u16) -> u16 {
    if immediate_mode(instr) {
        imm5(instr)
    } else {
        regs[src2(instr) as int]
    }
}

pub open spec fn after_add(regs: Seq<u16>, instr: u16) -> Seq<u16> {
    with_result(
        regs,
        dest(instr) as int,
        wrap_add(regs[base(instr) as int], second_operand(regs, instr)),
    )
}

pub open spec fn after_and(regs: Seq<u16>, instr: u16) -> Seq<u16> {
    with_result(regs, dest(instr) as int, regs[base(instr) as int] & second_operand(regs, instr))
}

pub open spec fn after_not(regs: Seq<u16>, instr: u16) -> Seq<u16> {
    with_result(regs, dest(instr) as int, !regs[base(instr) as int])
}

/// BR: taken when the condition mask shares a bit with COND.
pub open spec fn after_branch(regs: Seq<u16>, instr: u16) -> Seq<u16> {
    if dest(instr) & regs[Registers::COND.spec_index() as int] != 0 {
        regs.update(Registers::PC.spec_index() as int, pc_relative(regs, instr))
    } else {
        regs
    }
}

pub open spec fn after_jump(regs: Seq<u16>, instr: u16) -> Seq<u16> {
    regs.update(Registers::PC.spec_index() as int, regs[base(instr) as int])
}

/// JSR / JSRR: R7 takes the return address first; the register form then reads
/// its base register from the updated file.
pub open spec fn after_jump_register(regs: Seq<u16>, instr: u16) -> Seq<u16> {
    let linked = regs.update(Registers::R7.spec_index() as int, pc_of(regs));
    if pc_relative_mode(instr) {
        linked.update(
            Registers::PC.spec_index() as int,
            wrap_add(pc_of(regs), pc_offset11(instr)),
        )
    } else {
        linked.update(Registers::PC.spec_index() as int, linked[base(instr) as int])
    }
}

pub open spec fn after_load(regs: Seq<u16>, mem: Seq<u16>, instr: u16) -> Seq<u16> {
    with_result(regs, dest(instr) as int, mem[pc_relative(regs, instr) as int])
}

pub open spec fn after_load_indirect(regs: Seq<u16>, mem: Seq<u16>, instr: u16) -> Seq<u16> {
    with_result(regs, dest(instr) as int, mem[mem[pc_relative(regs, instr) as int] as int])
}

pub open spec fn after_load_register(regs: Seq<u16>, mem: Seq<u16>, instr: u16) -> Seq<u16> {
    with_result(regs, dest(instr) as int, mem[base_relative(regs, instr) as int])
}

pub open spec fn after_load_effective_address(regs: Seq<u16>, instr: u16) -> Seq<u16> {
    with_result(regs, dest(instr) as int, pc_relative(regs, instr))
}

pub open spec fn after_store(regs: Seq<u16>, mem: Seq<u16>, instr: u16) -> Seq<u16> {
    mem.update(pc_relative(regs, instr) as int, regs[dest(instr) as int])
}

pub open spec fn after_store_indirect(regs: Seq<u16>, mem: Seq<u16>, instr: u16) -> Seq<u16> {
    mem.update(mem[pc_relative(regs, instr) as int] as int, regs[dest(instr) as int])
}

pub open spec fn after_store_register(regs: Seq<u16>, mem: Seq<u16>, instr: u16) -> Seq<u16> {
    mem.update(base_relative(regs, instr) as int, regs[dest(instr) as int])
}

pub open spec fn after_return(regs: Seq<u16>) -> Seq<u16> {
    regs.update(Registers::PC.spec_index() as int, regs[Registers::R7.spec_index() as int])
}

/// The register fields of an instruction name general-purpose registers.
pub proof fn lemma_register_fields(instr: u16)
    ensures
        dest(instr) < 8,
        base(instr) < 8,
        src2(instr) < 8,
{
    assert((instr >> 9u16) & 7u16 < 8) by (bit_vector);
    assert((instr >> 6u16) & 7u16 < 8) by (bit_vector);
    assert(instr & 7u16 < 8) by (bit_vector);
}

/// The operations of the instruction set. Each handler runs after the fetch step
/// has advanced PC, so PC-relative addresses are taken from the advanced PC. All
/// address and value arithmetic wraps modulo 2^16.
pub trait InstructionSet {
    /// Widens the low `bit_count` bits of `bits` to sixteen by copying bit
    /// `bit_count - 1` into every higher bit; bits above the field are kept.
    fn sign_extend(bits: u16, bit_count: u32) -> (r: Result<u16, InstructionSetError>)
        ensures
            1 <= bit_count <= 16 ==> r == Ok::<u16, InstructionSetError>(
                sign_extended(bits, bit_count),
            ),
            1 <= bit_count <= 16 && (bits as int) < pow2(bit_count as nat) ==> r->Ok_0 as int == (
            field_value(bits, bit_count) + 0x10000) % 0x10000,
            !(1 <= bit_count <= 16) ==> r == Err::<u16, InstructionSetError>(
                InstructionSetError::InvalidBitCount(bit_count),
            ),
    ;

    /// ADD: DR = SR1 + (imm5 or SR2); flags from DR.
    fn add(register_storage: &mut RegisterStorage, instr: u16) -> (r: Result<(), InstructionSetError>)
        ensures
            r is Ok,
            final(register_storage)@ == after_add(old(register_storage)@, instr),
    ;

    /// AND: DR = SR1 & (imm5 or SR2); flags from DR.
    fn and(register_storage: &mut RegisterStorage, instr: u16) -> (r: Result<(), InstructionSetError>)
        ensures
            r is Ok,
            final(register_storage)@ == after_and(old(register_storage)@, instr),
    ;
    /// LDI: DR = mem[mem[PC + PCoffset9]]; flags from DR.
    fn ldi<M: MemomryTrait>(register_storage: &mut RegisterStorage, memory: &M, instr: u16) -> (r:
        Result<(), InstructionSetError>)
        ensures
            r is Ok,
            final(register_storage)@ == after_load_indirect(old(register_storage)@, memory@, instr),
    ;

    /// NOT: DR = bitwise complement of SR1; flags from DR.
    fn not(register_storage: &mut RegisterStorage, instr: u16) -> (r: Result<(), InstructionSetError>)
        ensures
            r is Ok,
            final(register_storage)@ == after_not(old(register_storage)@, instr),
    ;

    /// BR: PC += PCoffset9 when the condition mask shares a bit with COND.
    fn branch(register_storage: &mut RegisterStorage, instr: u16) -> (r: Result<(), InstructionSetError>)
        ensures
            r is Ok,
            final(register_storage)@ == after_branch(old(register_storage)@, instr),
    ;

    /// JMP: PC = BaseR (RET when BaseR is R7).
    fn jump(register_storage: &mut RegisterStorage, instr: u16) -> (r: Result<(), InstructionSetError>)
        ensures
            r is Ok,
            final(register_storage)@ == after_jump(old(register_storage)@, instr),
    ;

    /// JSR / JSRR: R7 = PC, then PC = PC + PCoffset11 or PC = BaseR.
    fn jump_register(register_storage: &mut RegisterStorage, instr: u16) -> (r: Result<
        (),
        InstructionSetError,
    >)
        ensures
            r is Ok,
            final(register_storage)@ == after_jump_register(old(register_storage)@, instr),
    ;

    /// LD: DR = mem[PC + PCoffset9]; flags from DR.
    fn load<M: MemomryTrait>(register_storage: &mut RegisterStorage, memory: &M, instr: u16) -> (r:
        Result<(), InstructionSetError>)
        ensures
            r is Ok,
            final(register_storage)@ == after_load(old(register_storage)@, memory@, instr),
    ;

    /// LDR: DR = mem[BaseR + offset6]; flags from DR.
    fn load_register<M: MemomryTrait>(
        register_storage: &mut RegisterStorage,
        memory: &M,
        instr: u16,
    ) -> (r: Result<(), InstructionSetError>)
        ensures
            r is Ok,
            final(register_storage)@ == after_load_register(old(register_storage)@, memory@, instr),
    ;

    /// LEA: DR = PC + PCoffset9; flags from DR.
    fn load_effective_address(register_storage: &mut RegisterStorage, instr: u16) -> (r: Result<
        (),
        InstructionSetError,
    >)
        ensures
            r is Ok,
            final(register_storage)@ == after_load_effective_address(old(register_storage)@, instr),
    ;

    /// ST: mem[PC + PCoffset9] = SR.
    fn store(register_storage: &mut RegisterStorage, memory: &mut Memory, instr: u16) -> (r: Result<
        (),
        InstructionSetError,
    >)
        ensures
            r is Ok,
            final(register_storage)@ == old(register_storage)@,
            final(memory)@ == after_store(old(register_storage)@, old(memory)@, instr),
    ;

    /// STI: mem[mem[PC + PCoffset9]] = SR.
    fn store_indirect(register_storage: &mut RegisterStorage, memory: &mut Memory, instr: u16) -> (r:
        Result<(), InstructionSetError>)
        ensures
            r is Ok,
            final(register_storage)@ == old(register_storage)@,
            final(memory)@ == after_store_indirect(old(register_storage)@, old(memory)@, instr),
    ;

    /// STR: mem[BaseR + offset6] = SR.
    fn store_register(register_storage: &mut RegisterStorage, memory: &mut Memory, instr: u16) -> (r:
        Result<(), InstructionSetError>)
        ensures
            r is Ok,
            final(register_storage)@ == old(register_storage)@,
            final(memory)@ == after_store_register(old(register_storage)@, old(memory)@, instr),
    ;

    /// RET: PC = R7.
    fn return_from_subroutine(register_storage: &mut RegisterStorage) -> (r: Result<
        (),
        InstructionSetError,
    >)
        ensures
            r is Ok,
            final(register_storage)@ == after_return(old(register_storage)@),
    ;
    /// TRAP: R7 = PC, then the trap routine named by bits 7..0.
    fn trap<M: MemomryTrait>(register_storage: &mut RegisterStorage, memory: &M, instr: u16) -> (r:
        Result<StepAction, InstructionSetError>)
        ensures
            final(register_storage)@ == old(register_storage)@.update(
                Registers::R7.spec_index() as int,
                pc_of(old(register_storage)@),
            ),
            trap_outcome(final(register_storage)@, memory@, instr & 0xFFu16, r),
    ;
}

/// The instruction handlers of the machine.
pub struct Instructions {}

impl InstructionSet for Instructions {
    fn sign_extend(bits: u16, bit_count: u32) -> (r: Result<u16, InstructionSetError>) {
        if bit_count == 0 || bit_count > 16 {
            return Err(InstructionSetError::InvalidBitCount(bit_count));
        }
        proof {
            if (bits as int) < pow2(bit_count as nat) {
                lemma_sign_extended_value(bits, bit_count);
            }
        }
        let sign_bit_position = bit_count - 1;

        if ((bits >> sign_bit_position) & 1) == 1 {
            // Create mask of 1's in the higher bits
            let mask = (0xFFFFu32 << bit_count) as u16;
            Ok(bits | mask)
        } else {
            Ok(bits)
        }
    }
    fn add(register_storage: &mut RegisterStorage, instr: u16) -> (r: Result<(), InstructionSetError>) {
        proof {
            lemma_register_fields(instr);
        }
        /* destination register (DR) */
        let r0 = (instr >> 9u16) & 0x7u16;
        /* first operand (SR1) */
        let r1 = (instr >> 6u16) & 0x7u16;
        /* whether we are in immediate mode */
        let imm_flag = (instr >> 5u16) & 0x1u16;

        let operand = if imm_flag == 1 {
            Self::sign_extend(instr & 0x1Fu16, 5)?
        } else {
            register_storage.load(instr & 0x7u16)?
        };
        let value = register_storage.load(r1)?.wrapping_add(operand);
        register_storage.store(value, r0)?;
        register_storage.update_flags(r0)?;
        Ok(())
    }

    fn and(register_storage: &mut RegisterStorage, instr: u16) -> (r: Result<(), InstructionSetError>) {
        proof {
            lemma_register_fields(instr);
        }
        let r0 = (instr >> 9u16) & 0x7u16;
        let r1 = (instr >> 6u16) & 0x7u16;
        let imm_flag = (instr >> 5u16) & 0x1u16;

        let operand = if imm_flag == 1 {
            Self::sign_extend(instr & 0x1Fu16, 5)?
        } else {
            register_storage.load(instr & 0x7u16)?
        };
        let value = register_storage.load(r1)? & operand;
        register_storage.store(value, r0)?;
        register_storage.update_flags(r0)?;
        Ok(())
    }
    fn ldi<M: MemomryTrait>(register_storage: &mut RegisterStorage, memory: &M, instr: u16) -> (r:
        Result<(), InstructionSetError>) {
        proof {
            lemma_register_fields(instr);
        }
        /* destination register (DR) */
        let r0 = (instr >> 9u16) & 0x7u16;
        /* PCoffset9: Extract and sign-extend the immediate value */
        let pc_offset = Self::sign_extend(instr & 0x1FFu16, 9)?;
        let current_pc = register_storage.load(Registers::PC.index())?;
        /* Calculate the memory address */
        let mem_address = current_pc.wrapping_add(pc_offset);
        let value = memory.read(memory.read(mem_address));
        register_storage.store(value, r0)?;
        register_storage.update_flags(r0)?;
        Ok(())
    }

    fn not(register_storage: &mut RegisterStorage, instr: u16) -> (r: Result<(), InstructionSetError>) {
        proof {
            lemma_register_fields(instr);
        }
        let r0 = (instr >> 9u16) & 0x7u16;
        let r1 = (instr >> 6u16) & 0x7u16;
        let value = !register_storage.load(r1)?;
        register_storage.store(value, r0)?;
        register_storage.update_flags(r0)?;
        Ok(())
    }

    fn branch(register_storage: &mut RegisterStorage, instr: u16) -> (r: Result<(), InstructionSetError>) {
        /* PCoffset9: Extract and sign-extend the immediate value */
        let pc_offset = Self::sign_extend(instr & 0x1FFu16, 9)?;
        let cond_flag = (instr >> 9u16) & 0x7u16;
        if cond_flag & register_storage.load(Registers::COND.index())? != 0 {
            let pc = register_storage.load(Registers::PC.index())?;
            register_storage.store(pc.wrapping_add(pc_offset), Registers::PC.index())?;
        }
        Ok(())
    }

    fn jump(register_storage: &mut RegisterStorage, instr: u16) -> (r: Result<(), InstructionSetError>) {
        proof {
            lemma_register_fields(instr);
        }
        let r1 = (instr >> 6u16) & 0x7u16;
        let target = register_storage.load(r1)?;
        register_storage.store(target, Registers::PC.index())?;
        Ok(())
    }

    fn jump_register(register_storage: &mut RegisterStorage, instr: u16) -> (r: Result<
        (),
        InstructionSetError,
    >) {
        proof {
            lemma_register_fields(instr);
        }
        let pc = register_storage.load(Registers::PC.index())?;
        register_storage.store(pc, Registers::R7.index())?;
        if (instr >> 11u16) & 1u16 == 1 {
            /* JSR */
            let pc_offset = Self::sign_extend(instr & 0x7FFu16, 11)?;
            register_storage.store(pc.wrapping_add(pc_offset), Registers::PC.index())?;
        } else {
            /* JSRR */
            let r1 = (instr >> 6u16) & 0x7u16;
            let target = register_storage.load(r1)?;
            register_storage.store(target, Registers::PC.index())?;
        }
        Ok(())
    }

    fn load<M: MemomryTrait>(register_storage: &mut RegisterStorage, memory: &M, instr: u16) -> (r:
        Result<(), InstructionSetError>) {
        proof {
            lemma_register_fields(instr);
        }
        let r0 = (instr >> 9u16) & 0x7u16;
        let pc_offset = Self::sign_extend(instr & 0x1FFu16, 9)?;
        let memory_addr = register_storage.load(Registers::PC.index())?.wrapping_add(pc_offset);
        register_storage.store(memory.read(memory_addr), r0)?;
        register_storage.update_flags(r0)?;
        Ok(())
    }

    fn load_register<M: MemomryTrait>(
        register_storage: &mut RegisterStorage,
        memory: &M,
        instr: u16,
    ) -> (r: Result<(), InstructionSetError>) {
        proof {
            lemma_register_fields(instr);
        }
        let r0 = (instr >> 9u16) & 0x7u16;
        let r1 = (instr >> 6u16) & 0x7u16;
        let offset = Self::sign_extend(instr & 0x3Fu16, 6)?;
        let memory_addr = register_storage.load(r1)?.wrapping_add(offset);
        register_storage.store(memory.read(memory_addr), r0)?;
        register_storage.update_flags(r0)?;
        Ok(())
    }

    fn load_effective_address(register_storage: &mut RegisterStorage, instr: u16) -> (r: Result<
        (),
        InstructionSetError,
    >) {
        proof {
            lemma_register_fields(instr);
        }
        let r0 = (instr >> 9u16) & 0x7u16;
        let pc_offset = Self::sign_extend(instr & 0x1FFu16, 9)?;
        let address = register_storage.load(Registers::PC.index())?.wrapping_add(pc_offset);
        register_storage.store(address, r0)?;
        register_storage.update_flags(r0)?;
        Ok(())
    }

    fn store(register_storage: &mut RegisterStorage, memory: &mut Memory, instr: u16) -> (r: Result<
        (),
        InstructionSetError,
    >) {
        proof {
            lemma_register_fields(instr);
        }
        let r0 = (instr >> 9u16) & 0x7u16;
        let pc_offset = Self::sign_extend(instr & 0x1FFu16, 9)?;
        let memory_addr = register_storage.load(Registers::PC.index())?.wrapping_add(pc_offset);
        memory.write(memory_addr, register_storage.load(r0)?);
        Ok(())
    }

    fn store_indirect(register_storage: &mut RegisterStorage, memory: &mut Memory, instr: u16) -> (r:
        Result<(), InstructionSetError>) {
        proof {
            lemma_register_fields(instr);
        }
        let r0 = (instr >> 9u16) & 0x7u16;
        let pc_offset = Self::sign_extend(instr & 0x1FFu16, 9)?;
        let memory_addr = register_storage.load(Registers::PC.index())?.wrapping_add(pc_offset);
        let target = memory.read(memory_addr);
        memory.write(target, register_storage.load(r0)?);
        Ok(())
    }

    fn store_register(register_storage: &mut RegisterStorage, memory: &mut Memory, instr: u16) -> (r:
        Result<(), InstructionSetError>) {
        proof {
            lemma_register_fields(instr);
        }
        let r0 = (instr >> 9u16) & 0x7u16;
        let r1 = (instr >> 6u16) & 0x7u16;
        let offset = Self::sign_extend(instr & 0x3Fu16, 6)?;
        let memory_addr = register_storage.load(r1)?.wrapping_add(offset);
        memory.write(memory_addr, register_storage.load(r0)?);
        Ok(())
    }

    fn return_from_subroutine(register_storage: &mut RegisterStorage) -> (r: Result<
        (),
        InstructionSetError,
    >) {
        let target = register_storage.load(Registers::R7.index())?;
        register_storage.store(target, Registers::PC.index())?;
        Ok(())
    }
    fn trap<M: MemomryTrait>(register_storage: &mut RegisterStorage, memory: &M, instr: u16) -> (r:
        Result<StepAction, InstructionSetError>) {
        let pc = register_storage.load(Registers::PC.index())?;
        register_storage.store(pc, Registers::R7.index())?;
        Trap::execute_trap_instruction(register_storage, memory, instr)
    }
}

} // verus!
