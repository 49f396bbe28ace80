//! The opcode table: one descriptor for each of the 256 opcode values, and what each behavior does.
use vstd::prelude::*;
use crate::memory::Memory;
use crate::registers::{clock_after, RegisterState, Registers, WideRegister};

verus! {

/// Number of opcode values, and so of descriptors in the table.
pub const OPCODE_COUNT: usize = 256;

/// What executing an instruction does.
#[derive(Clone, Copy, Debug, PartialEq, Eq, Structural)]
pub enum Behavior {
    /// A placeholder: the opcode has no behavior yet, and stepping onto it fails.
    Unimplemented,
    /// Does nothing but advance past itself and consume its cycles.
    Nop,
    /// Disables interrupts.
    DisableInterrupts,
    /// Enables interrupts.
    EnableInterrupts,
}

/// Operand metadata of an instruction.
#[derive(Clone, Copy, Debug, PartialEq, Eq, Structural)]
pub struct InstructionData {
    /// Length of the instruction in bytes, opcode included.
    pub length: u8,
    /// Machine cycles the instruction takes.
    pub cycles: u8,
}

/// Descriptor of one opcode: display text, operand metadata and behavior.
#[derive(Clone, Copy, Debug)]
pub struct Instruction {
    pub text: &'static str,
    pub data: InstructionData,
    pub execute: Behavior,
}

/// The behavior of opcode `op`.
pub open spec fn behavior_of(op: u8) -> Behavior {
    if op == 0x00 {
        Behavior::Nop
    } else if op == 0xF3 {
        Behavior::DisableInterrupts
    } else if op == 0xFB {
        Behavior::EnableInterrupts
    } else {
        Behavior::Unimplemented
    }
}

/// The operand metadata of opcode `op`.
pub open spec fn data_of(op: u8) -> InstructionData {
    match behavior_of(op) {
        Behavior::Unimplemented => InstructionData { length: 1, cycles: 0 },
        _ => InstructionData { length: 1, cycles: 1 },
    }
}

/// The register file after an instruction with behavior `b` and metadata `data` has run on `before`:
/// the program counter moves past the instruction (wrapping), the clock counts its cycles, and
/// the interrupt flag changes where the behavior says so.
pub open spec fn executed(before: RegisterState, b: Behavior, data: InstructionData) -> RegisterState {
    let advanced = RegisterState {
        pc: ((before.pc as int + data.length as int) % 65536) as u16,
        clock: clock_after(before.clock, data.cycles),
        ..before
    };
    match b {
        Behavior::DisableInterrupts => RegisterState { interrupts_enabled: false, ..advanced },
        Behavior::EnableInterrupts => RegisterState { interrupts_enabled: true, ..advanced },
        _ => advanced,
    }
}

impl Behavior {
    /// Runs this behavior on the register file and memory, and returns the machine cycles it took.
    pub fn run(self, registers: &mut Registers, memory: &mut Memory, data: &InstructionData) -> (r: u8)
        requires
            self != Behavior::Unimplemented,
        ensures
            r == data.cycles,
            final(registers)@ == executed(old(registers)@, self, *data),
            final(memory)@ == old(memory)@,
    {
        match self {
            Behavior::DisableInterrupts => registers.set_interrupts_enabled(false),
            Behavior::EnableInterrupts => registers.set_interrupts_enabled(true),
            _ => {},
        }
        registers.inc_pc(data.length as u16);
        registers.tick(data.cycles);
        data.cycles
    }
}

/// The descriptor of opcode `op`.
pub fn descriptor(op: u8) -> (r: Instruction)
    ensures
        r.execute == behavior_of(op),
        r.data == data_of(op),
{
    let implemented = InstructionData { length: 1, cycles: 1 };
    if op == 0x00 {
        Instruction { text: "NOP", data: implemented, execute: Behavior::Nop }
    } else if op == 0xF3 {
        Instruction { text: "DI", data: implemented, execute: Behavior::DisableInterrupts }
    } else if op == 0xFB {
        Instruction { text: "EI", data: implemented, execute: Behavior::EnableInterrupts }
    } else {
        Instruction {
            text: "UNIMPLEMENTED",
            data: InstructionData { length: 1, cycles: 0 },
            execute: Behavior::Unimplemented,
        }
    }
}

/// The whole table holds exactly the descriptor of each opcode, at that opcode's index.
pub open spec fn is_instruction_table(t: Seq<Instruction>) -> bool {
    &&& t.len() == OPCODE_COUNT
    &&& forall|i: int|
        0 <= i < OPCODE_COUNT ==> (#[trigger] t[i]).execute == behavior_of(i as u8) && t[i].data
            == data_of(i as u8)
}

/// Builds the table of all 256 descriptors, indexed by opcode.
pub fn instruction_set() -> (r: Vec<Instruction>)
    ensures
        is_instruction_table(r@),
{
    let mut table: Vec<Instruction> = Vec::with_capacity(OPCODE_COUNT);
    let mut op: usize = 0;
    while op < OPCODE_COUNT
        invariant
            op <= OPCODE_COUNT,
            table@.len() == op,
            forall|i: int|
                0 <= i < op ==> (#[trigger] table@[i]).execute == behavior_of(i as u8)
                    && table@[i].data == data_of(i as u8),
        decreases OPCODE_COUNT - op,
    {
        table.push(descriptor(op as u8));
        op = op + 1;
    }
    table
}

} // verus!
