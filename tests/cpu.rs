use gb_cpu::instruction::{descriptor, instruction_set};
use gb_cpu::{Behavior, InstructionData, Memory, SmallWidthRegister, StepError, WideRegister, CPU};

#[test]
fn fresh_cpu_is_zeroed() {
    let cpu = CPU::new();
    let regs = cpu.registers();
    assert_eq!(regs.pc(), 0);
    assert_eq!(regs.sp(), 0);
    for reg in [WideRegister::BC, WideRegister::AF, WideRegister::DE, WideRegister::HL] {
        assert_eq!(regs.read_r16(reg), 0);
    }
    assert_eq!(regs.read_r8(SmallWidthRegister::F), 0);
    assert!(!regs.interrupts_enabled());
    assert_eq!(regs.clock().machine_cycles(), 0);
    assert_eq!(regs.clock().clock_ticks(), 0);
}

#[test]
fn table_covers_every_opcode() {
    let table = instruction_set();
    assert_eq!(table.len(), 256);
    for op in 0..=u8::MAX {
        let d = descriptor(op);
        assert_eq!(table[op as usize].execute, d.execute);
        assert_eq!(table[op as usize].data, d.data);
        assert_eq!(table[op as usize].text, d.text);
        assert!(!table[op as usize].text.is_empty());
    }
}

#[test]
fn known_descriptors() {
    let nop = descriptor(0x00);
    assert_eq!(nop.execute, Behavior::Nop);
    assert_eq!(nop.text, "NOP");
    assert_eq!(nop.data, InstructionData { length: 1, cycles: 1 });
    assert_eq!(descriptor(0xF3).execute, Behavior::DisableInterrupts);
    assert_eq!(descriptor(0xFB).execute, Behavior::EnableInterrupts);
    assert_eq!(descriptor(0xD3).execute, Behavior::Unimplemented);
    assert_eq!(descriptor(0xFF).execute, Behavior::Unimplemented);
}

#[test]
fn memory_reads_what_was_written() {
    let mut mem = Memory::new();
    assert_eq!(mem.read_u8(0xFFFF), 0);
    mem.write_u8(0xFFFF, 0x42);
    mem.write_u8(0x0000, 0x24);
    assert_eq!(mem.read_u8(0xFFFF), 0x42);
    assert_eq!(mem.read_u8(0x0000), 0x24);
    assert_eq!(mem.read_u8(0x0001), 0);
}

#[test]
fn step_runs_nop() {
    let mut cpu = CPU::new();
    let mut mem = Memory::new();
    assert_eq!(cpu.step(&mut mem), Ok(1));
    assert_eq!(cpu.registers().pc(), 1);
    assert_eq!(cpu.registers().clock().machine_cycles(), 1);
    assert_eq!(cpu.registers().clock().clock_ticks(), 4);
    assert_eq!(cpu.step(&mut mem), Ok(1));
    assert_eq!(cpu.registers().pc(), 2);
    assert_eq!(cpu.registers().clock().machine_cycles(), 2);
}

#[test]
fn step_toggles_interrupts() {
    let mut cpu = CPU::new();
    let mut mem = Memory::new();
    mem.write_u8(0, 0xFB);
    mem.write_u8(1, 0xF3);
    assert_eq!(cpu.step(&mut mem), Ok(1));
    assert!(cpu.registers().interrupts_enabled());
    assert_eq!(cpu.registers().pc(), 1);
    assert_eq!(cpu.step(&mut mem), Ok(1));
    assert!(!cpu.registers().interrupts_enabled());
    assert_eq!(cpu.registers().pc(), 2);
}

#[test]
fn step_on_unimplemented_opcode_fails_and_changes_nothing() {
    let mut cpu = CPU::new();
    let mut mem = Memory::new();
    mem.write_u8(0, 0xFB);
    mem.write_u8(1, 0xD3);
    assert_eq!(cpu.step(&mut mem), Ok(1));
    let result = cpu.step(&mut mem);
    assert_eq!(result, Err(StepError::UnimplementedOpcode { opcode: 0xD3, pc: 1 }));
    let regs = cpu.registers();
    assert_eq!(regs.pc(), 1);
    assert!(regs.interrupts_enabled());
    assert_eq!(regs.clock().machine_cycles(), 1);
    assert_eq!(regs.clock().clock_ticks(), 4);
    assert_eq!(mem.read_u8(1), 0xD3);
    assert_eq!(cpu.step(&mut mem), Err(StepError::UnimplementedOpcode { opcode: 0xD3, pc: 1 }));
}

#[test]
fn step_wraps_program_counter() {
    let mut cpu = CPU::new();
    let mut mem = Memory::new();
    for _ in 0..0xFFFF {
        assert_eq!(cpu.step(&mut mem), Ok(1));
    }
    assert_eq!(cpu.registers().pc(), 0xFFFF);
    mem.write_u8(0, 0xFF);
    assert_eq!(cpu.step(&mut mem), Ok(1));
    assert_eq!(cpu.registers().pc(), 0);
    assert_eq!(cpu.step(&mut mem), Err(StepError::UnimplementedOpcode { opcode: 0xFF, pc: 0 }));
}
