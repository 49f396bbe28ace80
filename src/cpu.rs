//! The processor: a register file, the opcode table, and the single-step dispatcher.
use vstd::prelude::*;
use crate::instruction::{
    behavior_of, data_of, executed, instruction_set, is_instruction_table, Behavior, Instruction,
};
use crate::memory::Memory;
use crate::registers::{RegisterState, Registers};

verus! {

/// Why a step failed.
#[derive(Clone, Copy, Debug, PartialEq, Eq, Structural)]
pub enum StepError {
    /// The fetched opcode has no behavior yet; `pc` is where it was fetched from.
    UnimplementedOpcode { opcode: u8, pc: u16 },
}

/// The opcode that a step starting from `regs` fetches from `mem`.
pub open spec fn opcode_at(regs: RegisterState, mem: Seq<u8>) -> u8 {
    mem[regs.pc as int]
}

/// A processor: register file and the table of instruction descriptors, built once.
pub struct CPU {
    registers: Registers,
    instructions: Vec<Instruction>,
}

impl CPU {
    /// The register file's state.
    pub closed spec fn regs(&self) -> RegisterState {
        self.registers@
    }

    /// The instruction table.
    pub closed spec fn table(&self) -> Seq<Instruction> {
        self.instructions@
    }

    /// The table holds the descriptor of every opcode at that opcode's index.
    pub open spec fn wf(&self) -> bool {
        is_instruction_table(self.table())
    }

    /// A processor with a zeroed register file, interrupts disabled, and the full table.
    pub fn new() -> (r: CPU)
        ensures
            r.wf(),
            r.regs() == RegisterState::zeroed(),
    {
        CPU { registers: Registers::new(), instructions: CPU::instructions() }
    }

    /// Builds the instruction table.
    fn instructions() -> (r: Vec<Instruction>)
        ensures
            is_instruction_table(r@),
    {
        instruction_set()
    }

    /// The register file.
    pub fn registers(&self) -> (r: &Registers)
        ensures
            r@ == self.regs(),
    {
        &self.registers
    }

    /// Executes exactly one instruction: fetches the opcode at the program counter, looks up its
    /// descriptor and runs its behavior, which moves the program counter and counts the cycles.
    /// Returns the machine cycles taken. On an opcode without a behavior it fails with that opcode
    /// and the program counter it was fetched from, and changes nothing.
    pub fn step(&mut self, memory: &mut Memory) -> (r: Result<u8, StepError>)
        requires
            old(self).wf(),
            old(memory).wf(),
        ensures
            final(self).wf(),
            final(self).table() == old(self).table(),
            final(memory)@ == old(memory)@,
            behavior_of(opcode_at(old(self).regs(), old(memory)@)) == Behavior::Unimplemented ==> {
                &&& r == Err::<u8, StepError>(
                    StepError::UnimplementedOpcode {
                        opcode: opcode_at(old(self).regs(), old(memory)@),
                        pc: old(self).regs().pc,
                    },
                )
                &&& final(self).regs() == old(self).regs()
            },
            behavior_of(opcode_at(old(self).regs(), old(memory)@)) != Behavior::Unimplemented ==> {
                &&& r == Ok::<u8, StepError>(
                    data_of(opcode_at(old(self).regs(), old(memory)@)).cycles,
                )
                &&& final(self).regs() == executed(
                    old(self).regs(),
                    behavior_of(opcode_at(old(self).regs(), old(memory)@)),
                    data_of(opcode_at(old(self).regs(), old(memory)@)),
                )
            },
    {
        let pc = self.registers.pc();
        let opcode = memory.read_u8(pc);
        let inst = &self.instructions[opcode as usize];
        if inst.execute == Behavior::Unimplemented {
            return Err(StepError::UnimplementedOpcode { opcode, pc });
        }
        let cycles = inst.execute.run(&mut self.registers, memory, &inst.data);
        Ok(cycles)
    }
}

/// Every opcode value 0 to 255 indexes a descriptor of the table, and it is that opcode's
/// descriptor.
pub proof fn lemma_total_dispatch(cpu: CPU)
    requires
        cpu.wf(),
    ensures
        forall|op: u8|
            (op as int) < cpu.table().len() && #[trigger] cpu.table()[op as int].execute
                == behavior_of(op) && cpu.table()[op as int].data == data_of(op),
{
}

} // verus!
