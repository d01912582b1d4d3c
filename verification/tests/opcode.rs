use nes_emulator::bus::Bus;
use nes_emulator::cpu::{try_trace, AddressingMode, CycleCalcMode, Decoded, CPU};
use nes_emulator::opcode::{call, cpu_ops_codes, op_code};

fn cpu_at(pc: u16, program: &[u8]) -> CPU {
    let mut bus = Bus::new();
    for (i, b) in program.iter().enumerate() {
        bus.memory[pc as usize + i] = *b;
    }
    let mut cpu = CPU::new(bus);
    cpu.program_counter = pc;
    cpu
}

/// Runs `n` instructions from the table, panicking on a fault.
fn run(cpu: &mut CPU, n: usize) {
    let ops = cpu_ops_codes();
    for _ in 0..n {
        match cpu.begin_instruction(&ops) {
            Decoded::Fault => panic!("counter at the end of memory"),
            Decoded::Unknown => {}
            Decoded::Entry(i) => assert!(cpu.end_instruction(&ops[i])),
        }
    }
}

#[test]
fn table_is_indexed_by_code() {
    let ops = cpu_ops_codes();
    assert_eq!(ops.len(), 256);
    for (i, op) in ops.iter().enumerate() {
        assert_eq!(op.code as usize, i);
    }
    let lda = op_code(0xA9);
    assert_eq!(lda.name, "LDA");
    assert_eq!(lda.bytes, 2);
    assert_eq!(lda.cycles, 2);
    assert_eq!(lda.addressing_mode, AddressingMode::Immediate);
    let lax = op_code(0xBF);
    assert_eq!(lax.name, "*LAX");
    assert_eq!(lax.cycle_calc_mode, CycleCalcMode::Page);
    assert_eq!(op_code(0xD0).cycle_calc_mode, CycleCalcMode::Branch);
}

#[test]
fn call_steps_over_operand() {
    // LDA #$42 with the counter on the operand, as after the fetch
    let mut cpu = cpu_at(0x0600, &[0xA9, 0x42]);
    cpu.program_counter = 0x0601;
    assert!(call(&mut cpu, &op_code(0xA9)));
    assert_eq!(cpu.register_a, 0x42);
    assert_eq!(cpu.program_counter, 0x0602);
}

#[test]
fn call_jumps() {
    let mut cpu = cpu_at(0x0600, &[0x4C, 0x34, 0x12]);
    cpu.program_counter = 0x0601;
    assert!(call(&mut cpu, &op_code(0x4C)));
    assert_eq!(cpu.program_counter, 0x1234);
    // a jump below $0002 faults
    let mut cpu = cpu_at(0x0600, &[0x4C, 0x01, 0x00]);
    cpu.program_counter = 0x0601;
    assert!(!call(&mut cpu, &op_code(0x4C)));
}

#[test]
fn subroutine_round_trip() {
    // JSR $0700 ; (at $0700) RTS
    let mut cpu = cpu_at(0x0600, &[0x20, 0x00, 0x07]);
    cpu.bus.memory[0x0700] = 0x60;
    run(&mut cpu, 1);
    assert_eq!(cpu.program_counter, 0x0700);
    assert_eq!(cpu.stack_pointer, 0xFB);
    run(&mut cpu, 1);
    assert_eq!(cpu.program_counter, 0x0603);
    assert_eq!(cpu.stack_pointer, 0xFD);
}

#[test]
fn counting_loop() {
    // LDX #$05 ; LDA #$00 ; loop: CLC ; ADC #$03 ; DEX ; BNE loop ; BRK-free end
    let program = [0xA2, 0x05, 0xA9, 0x00, 0x18, 0x69, 0x03, 0xCA, 0xD0, 0xFA];
    let mut cpu = cpu_at(0x0600, &program);
    run(&mut cpu, 2 + 4 * 5);
    assert_eq!(cpu.register_a, 15);
    assert_eq!(cpu.register_x, 0);
    assert_eq!(cpu.program_counter, 0x060A);
}

#[test]
fn cycles_are_counted() {
    // LDA $00FF,X with X = 1 crosses a page: 4 + 1 cycles
    let mut cpu = cpu_at(0x0600, &[0xBD, 0xFF, 0x00]);
    cpu.register_x = 1;
    let before = cpu.bus.cycles;
    run(&mut cpu, 1);
    assert_eq!(cpu.bus.cycles, before + 5);
    // STA $00FF,X crosses too but has a fixed count of 5
    let mut cpu = cpu_at(0x0600, &[0x9D, 0xFF, 0x00]);
    cpu.register_x = 1;
    let before = cpu.bus.cycles;
    run(&mut cpu, 1);
    assert_eq!(cpu.bus.cycles, before + 5);
    // a taken branch adds one cycle
    let mut cpu = cpu_at(0x0600, &[0xD0, 0x02]);
    let before = cpu.bus.cycles;
    run(&mut cpu, 1);
    assert_eq!(cpu.program_counter, 0x0604);
    assert_eq!(cpu.bus.cycles, before + 3);
}

#[test]
fn undocumented_read_modify_write() {
    // *DCP $10: M = M - 1, then compare A with M
    let mut cpu = cpu_at(0x0600, &[0xC7, 0x10]);
    cpu.bus.memory[0x10] = 0x06;
    cpu.register_a = 0x05;
    run(&mut cpu, 1);
    assert_eq!(cpu.bus.memory[0x10], 0x05);
    assert_eq!(cpu.status & 0x03, 0x03);
    assert_eq!(cpu.program_counter, 0x0602);
}

#[test]
fn unknown_opcode_is_skipped() {
    let mut cpu = cpu_at(0x0600, &[0xA9]);
    let ops = Vec::new();
    assert!(matches!(cpu.begin_instruction(&ops), Decoded::Unknown));
    assert_eq!(cpu.program_counter, 0x0601);
    assert!(try_trace(&cpu, &ops).is_none());
    let mut cpu = cpu_at(0x0600, &[]);
    cpu.program_counter = 0xFFFF;
    assert!(matches!(cpu.begin_instruction(&ops), Decoded::Fault));
}

#[test]
fn trace_of_table_entry() {
    let mut cpu = cpu_at(0x0064, &[0xA2, 0x01]);
    cpu.program_counter = 0x0065;
    cpu.register_a = 1;
    cpu.register_x = 2;
    cpu.register_y = 3;
    assert_eq!(
        try_trace(&cpu, &cpu_ops_codes()).unwrap(),
        "0064  A2 01     LDX #$01                        A:01 X:02 Y:03 P:24 SP:FD"
    );
}
