use vstd::prelude::*;

use crate::libs::instructions::{
    after_add, after_and, after_branch, after_jump, after_jump_register, after_load,
    after_load_effective_address, after_load_indirect, after_load_register, after_not,
    after_store, after_store_indirect, after_store_register, base, base_relative,
    lemma_register_fields, pc_of, pc_relative, second_operand, wrap_add,
    InstructionSet, InstructionSetError, Instructions,
};
use crate::libs::trap::{trap_outcome, StepAction};
use crate::libs::types::{
    initial_registers, lemma_flag_for_valid, valid_cond, zeroed_memory, MemomryTrait, Memory, Opcodes, RegisterStorage,
    RegisterStorageTrait, Registers,
};

verus! {

/// The opcode field: bits 15..12.
pub open spec fn opcode(instr: u16) -> u16 {
    instr >> 12u16
}

/// The register file once the fetch step has advanced PC past the instruction.
pub open spec fn after_fetch(regs: Seq<u16>) -> Seq<u16> {
    regs.update(Registers::PC.spec_index() as int, wrap_add(pc_of(regs), 1))
}

/// RTI and RES have no defined behaviour here: decoding them is fatal.
pub open spec fn is_illegal(instr: u16) -> bool {
    Opcodes::spec_from_code(opcode(instr)) == Some(Opcodes::RTI)
        || Opcodes::spec_from_code(opcode(instr)) == Some(Opcodes::RES)
}

/// The register file after `instr` ran on `regs` (PC already advanced).
pub open spec fn next_registers(regs: Seq<u16>, mem: Seq<u16>, instr: u16) -> Seq<u16> {
    match Opcodes::spec_from_code(opcode(instr)) {
        Some(Opcodes::BR) => after_branch(regs, instr),
        Some(Opcodes::ADD) => after_add(regs, instr),
        Some(Opcodes::LD) => after_load(regs, mem, instr),
        Some(Opcodes::JSR) => after_jump_register(regs, instr),
        Some(Opcodes::AND) => after_and(regs, instr),
        Some(Opcodes::LDR) => after_load_register(regs, mem, instr),
        Some(Opcodes::NOT) => after_not(regs, instr),
        Some(Opcodes::LDI) => after_load_indirect(regs, mem, instr),
        Some(Opcodes::JMP) => after_jump(regs, instr),
        Some(Opcodes::LEA) => after_load_effective_address(regs, instr),
        Some(Opcodes::TRAP) => regs.update(Registers::R7.spec_index() as int, pc_of(regs)),
        _ => regs,
    }
}

/// The memory after `instr` ran on `regs` (PC already advanced).
pub open spec fn next_memory(regs: Seq<u16>, mem: Seq<u16>, instr: u16) -> Seq<u16> {
    match Opcodes::spec_from_code(opcode(instr)) {
        Some(Opcodes::ST) => after_store(regs, mem, instr),
        Some(Opcodes::STI) => after_store_indirect(regs, mem, instr),
        Some(Opcodes::STR) => after_store_register(regs, mem, instr),
        _ => mem,
    }
}

/// COND holds exactly one flag at power-on, and every instruction keeps it so:
/// an instruction either leaves COND alone or sets it from the value it wrote.
pub proof fn lemma_cond_stays_valid(regs: Seq<u16>, mem: Seq<u16>, instr: u16)
    requires
        regs.len() == 10,
        valid_cond(regs[Registers::COND.spec_index() as int]),
    ensures
        valid_cond(initial_registers()[Registers::COND.spec_index() as int]),
        valid_cond(
            next_registers(after_fetch(regs), mem, instr)[Registers::COND.spec_index() as int],
        ),
{
    lemma_register_fields(instr);
    let fetched = after_fetch(regs);
    let next = next_registers(fetched, mem, instr);
    let c = Registers::COND.spec_index() as int;
    match Opcodes::spec_from_code(opcode(instr)) {
        Some(Opcodes::ADD) => lemma_flag_for_valid(
            wrap_add(fetched[base(instr) as int], second_operand(fetched, instr)),
        ),
        Some(Opcodes::AND) => lemma_flag_for_valid(
            fetched[base(instr) as int] & second_operand(fetched, instr),
        ),
        Some(Opcodes::NOT) => lemma_flag_for_valid(!fetched[base(instr) as int]),
        Some(Opcodes::LD) => lemma_flag_for_valid(mem[pc_relative(fetched, instr) as int]),
        Some(Opcodes::LDI) => lemma_flag_for_valid(
            mem[mem[pc_relative(fetched, instr) as int] as int],
        ),
        Some(Opcodes::LDR) => lemma_flag_for_valid(mem[base_relative(fetched, instr) as int]),
        Some(Opcodes::LEA) => lemma_flag_for_valid(pc_relative(fetched, instr)),
        _ => {},
    }
}

/// The machine: a register file and a memory, owned together.
#[derive(Debug)]
pub struct Machine {
    pub registers: RegisterStorage,
    pub memory: Memory,
}

impl Machine {
    /// A machine at power-on: zero memory, PC at the start address, COND at zero.
    pub fn new() -> (r: Self)
        ensures
            r.registers@ == initial_registers(),
            r.memory@ == zeroed_memory(),
    {
        Machine { registers: RegisterStorage::new(), memory: Memory::new() }
    }

    /// One fetch-decode-execute cycle: reads the word at PC, advances PC, and runs
    /// the instruction. RTI and RES end in `IllegalOpcode` with the address of the
    /// instruction; TRAP hands back what the trap routine asks of the host; every
    /// other opcode gives `Continue`.
    pub fn step(&mut self) -> (r: Result<StepAction, InstructionSetError>)
        ensures
            ({
                let regs = old(self).registers@;
                let mem = old(self).memory@;
                let instr = mem[pc_of(regs) as int];
                let fetched = after_fetch(regs);
                &&& final(self).registers@ == next_registers(fetched, mem, instr)
                &&& final(self).memory@ == next_memory(fetched, mem, instr)
                &&& is_illegal(instr) ==> r == Err::<StepAction, InstructionSetError>(
                    InstructionSetError::IllegalOpcode { pc: pc_of(regs), opcode: opcode(instr) },
                )
                &&& Opcodes::spec_from_code(opcode(instr)) == Some(Opcodes::TRAP) ==> trap_outcome(
                    final(self).registers@,
                    mem,
                    instr & 0xFFu16,
                    r,
                )
                &&& !is_illegal(instr) && Opcodes::spec_from_code(opcode(instr)) != Some(
                    Opcodes::TRAP,
                ) ==> r == Ok::<StepAction, InstructionSetError>(StepAction::Continue)
            }),
    {
        /* FETCH: the word at the address in PC */
        let pc = self.registers.load(Registers::PC.index())?;
        let instr = self.memory.read(pc);
        /* INCREMENT PC before the handler runs */
        self.registers.store(pc.wrapping_add(1), Registers::PC.index())?;

        let op = instr >> 12u16;
        assert(instr >> 12u16 < 16) by (bit_vector);
        match Opcodes::from_u16(op) {
            Some(Opcodes::BR) => {
                Instructions::branch(&mut self.registers, instr)?;
                Ok(StepAction::Continue)
            },
            Some(Opcodes::ADD) => {
                Instructions::add(&mut self.registers, instr)?;
                Ok(StepAction::Continue)
            },
            Some(Opcodes::LD) => {
                Instructions::load(&mut self.registers, &self.memory, instr)?;
                Ok(StepAction::Continue)
            },
            Some(Opcodes::ST) => {
                Instructions::store(&mut self.registers, &mut self.memory, instr)?;
                Ok(StepAction::Continue)
            },
            Some(Opcodes::JSR) => {
                Instructions::jump_register(&mut self.registers, instr)?;
                Ok(StepAction::Continue)
            },
            Some(Opcodes::AND) => {
                Instructions::and(&mut self.registers, instr)?;
                Ok(StepAction::Continue)
            },
            Some(Opcodes::LDR) => {
                Instructions::load_register(&mut self.registers, &self.memory, instr)?;
                Ok(StepAction::Continue)
            },
            Some(Opcodes::STR) => {
                Instructions::store_register(&mut self.registers, &mut self.memory, instr)?;
                Ok(StepAction::Continue)
            },
            Some(Opcodes::NOT) => {
                Instructions::not(&mut self.registers, instr)?;
                Ok(StepAction::Continue)
            },
            Some(Opcodes::LDI) => {
                Instructions::ldi(&mut self.registers, &self.memory, instr)?;
                Ok(StepAction::Continue)
            },
            Some(Opcodes::STI) => {
                Instructions::store_indirect(&mut self.registers, &mut self.memory, instr)?;
                Ok(StepAction::Continue)
            },
            Some(Opcodes::JMP) => {
                Instructions::jump(&mut self.registers, instr)?;
                Ok(StepAction::Continue)
            },
            Some(Opcodes::LEA) => {
                Instructions::load_effective_address(&mut self.registers, instr)?;
                Ok(StepAction::Continue)
            },
            Some(Opcodes::TRAP) => Instructions::trap(&mut self.registers, &self.memory, instr),
            _ => Err(InstructionSetError::IllegalOpcode { pc, opcode: op }),
        }
    }
}

} // verus!
