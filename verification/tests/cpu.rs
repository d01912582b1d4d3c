use nes_emulator::bus::Bus;
use nes_emulator::cpu::{trace, AddressingMode, CycleCalcMode, OpCode, CPU};

const C: u8 = 0x01;
const Z: u8 = 0x02;
const I: u8 = 0x04;
const V: u8 = 0x40;
const N: u8 = 0x80;

fn cpu_with(program: &[(u16, u8)]) -> CPU {
    let mut bus = Bus::new();
    for &(addr, v) in program {
        bus.memory[addr as usize] = v;
    }
    CPU::new(bus)
}

#[test]
fn new_cpu_registers() {
    let cpu = cpu_with(&[]);
    assert_eq!(cpu.register_a, 0);
    assert_eq!(cpu.status, 0x24);
    assert_eq!(cpu.stack_pointer, 0xFD);
    assert_eq!(cpu.program_counter, 0);
}

#[test]
fn reset_reads_vector() {
    let mut cpu = cpu_with(&[(0xFFFC, 0x00), (0xFFFD, 0x80)]);
    cpu.register_a = 9;
    cpu.reset();
    assert_eq!(cpu.program_counter, 0x8000);
    assert_eq!(cpu.register_a, 0);
    assert_eq!(cpu.stack_pointer, 0xFD);
}

#[test]
fn lda_immediate_sets_flags() {
    let mut cpu = cpu_with(&[(0x10, 0x00), (0x11, 0x80)]);
    cpu.program_counter = 0x10;
    cpu.lda(&AddressingMode::Immediate);
    assert_eq!(cpu.register_a, 0);
    assert!(cpu.status & Z != 0);
    cpu.program_counter = 0x11;
    cpu.lda(&AddressingMode::Immediate);
    assert_eq!(cpu.register_a, 0x80);
    assert!(cpu.status & N != 0);
    assert!(cpu.status & Z == 0);
}

#[test]
fn addressing_modes() {
    // operand bytes at $0200
    let mut cpu = cpu_with(&[
        (0x0200, 0x10),
        (0x0201, 0x30),
        (0x0010, 0x77),
        (0x0015, 0x55),
        (0x3010, 0x99),
        (0x3015, 0x66),
        (0x0011, 0x40),
        (0x4000, 0x12),
        (0x4005, 0x34),
    ]);
    cpu.program_counter = 0x0200;
    cpu.register_x = 5;
    cpu.register_y = 5;
    cpu.lda(&AddressingMode::ZeroPage);
    assert_eq!(cpu.register_a, 0x77);
    cpu.lda(&AddressingMode::ZeroPage_X);
    assert_eq!(cpu.register_a, 0x55);
    cpu.lda(&AddressingMode::Absolute);
    assert_eq!(cpu.register_a, 0x99);
    cpu.lda(&AddressingMode::Absolute_X);
    assert_eq!(cpu.register_a, 0x66);
    // ($10),Y: word at $10 is $4077? low $77 high $40
    cpu.lda(&AddressingMode::Indirect_Y);
    assert_eq!(cpu.register_a, cpu.bus.memory[0x407C]);
}

#[test]
fn zero_page_x_wraps() {
    let mut cpu = cpu_with(&[(0x0300, 0xFF), (0x0000, 0x31)]);
    cpu.program_counter = 0x0300;
    cpu.register_x = 1;
    cpu.ldy(&AddressingMode::ZeroPage_X);
    assert_eq!(cpu.register_y, 0x31);
}

#[test]
fn adc_carry_and_overflow() {
    let mut cpu = cpu_with(&[(0x0400, 0x50)]);
    cpu.program_counter = 0x0400;
    cpu.register_a = 0x50;
    cpu.status = 0;
    cpu.adc(&AddressingMode::Immediate);
    assert_eq!(cpu.register_a, 0xA0);
    assert!(cpu.status & V != 0);
    assert!(cpu.status & C == 0);
    assert!(cpu.status & N != 0);

    let mut cpu = cpu_with(&[(0x0400, 0x01)]);
    cpu.program_counter = 0x0400;
    cpu.register_a = 0xFF;
    cpu.status = C;
    cpu.adc(&AddressingMode::Immediate);
    assert_eq!(cpu.register_a, 0x01);
    assert!(cpu.status & C != 0);
    assert!(cpu.status & V == 0);
}

#[test]
fn sbc_borrow() {
    let mut cpu = cpu_with(&[(0x0400, 0x01)]);
    cpu.program_counter = 0x0400;
    cpu.register_a = 0x00;
    cpu.status = C;
    cpu.sbc(&AddressingMode::Immediate);
    assert_eq!(cpu.register_a, 0xFF);
    assert!(cpu.status & C == 0);

    let mut cpu = cpu_with(&[(0x0400, 0x10)]);
    cpu.program_counter = 0x0400;
    cpu.register_a = 0x50;
    cpu.status = 0;
    cpu.sbc(&AddressingMode::Immediate);
    assert_eq!(cpu.register_a, 0x3F);
    assert!(cpu.status & C != 0);
}

#[test]
fn compare_flags() {
    let mut cpu = cpu_with(&[(0x0400, 0x20)]);
    cpu.program_counter = 0x0400;
    cpu.register_x = 0x20;
    cpu.cpx(&AddressingMode::Immediate);
    assert!(cpu.status & C != 0);
    assert!(cpu.status & Z != 0);
    cpu.register_y = 0x10;
    cpu.cpy(&AddressingMode::Immediate);
    assert!(cpu.status & C == 0);
    assert!(cpu.status & N != 0);
}

#[test]
fn stack_round_trips() {
    let mut cpu = cpu_with(&[]);
    cpu._push(0x42);
    assert_eq!(cpu.stack_pointer, 0xFC);
    assert_eq!(cpu.bus.memory[0x01FD], 0x42);
    assert_eq!(cpu._pop(), 0x42);
    assert_eq!(cpu.stack_pointer, 0xFD);
    cpu._push_u16(0xBEEF);
    assert_eq!(cpu._pop_u16(), 0xBEEF);
    assert_eq!(cpu.stack_pointer, 0xFD);
}

#[test]
fn php_plp() {
    let mut cpu = cpu_with(&[]);
    cpu.status = 0xC3;
    cpu.php(&AddressingMode::Implied);
    assert_eq!(cpu.bus.memory[0x01FD], 0xF3);
    cpu.status = 0;
    cpu.plp(&AddressingMode::Implied);
    assert_eq!(cpu.status, 0xE3);
}

#[test]
fn jsr_then_rts() {
    let mut cpu = cpu_with(&[(0x8001, 0x00), (0x8002, 0x90)]);
    cpu.program_counter = 0x8001;
    cpu.jsr(&AddressingMode::Absolute);
    assert_eq!(cpu.program_counter, 0x9000 - 2);
    assert_eq!(cpu.stack_pointer, 0xFB);
    cpu.rts(&AddressingMode::Implied);
    assert_eq!(cpu.program_counter, 0x8003);
    assert_eq!(cpu.stack_pointer, 0xFD);
}

#[test]
fn jmp_indirect_page_wrap() {
    // JMP ($00FF) takes the high byte from $0000
    let mut cpu = cpu_with(&[(0x0600, 0xFF), (0x0601, 0x00), (0x00FF, 0x34), (0x0000, 0x12), (0x0100, 0x56)]);
    cpu.program_counter = 0x0600;
    cpu.jmp(&AddressingMode::Indirect);
    assert_eq!(cpu.program_counter, 0x1234 - 2);
}

#[test]
fn branch_taken_and_not() {
    let mut cpu = cpu_with(&[(0x0610, 0x05), (0x0620, 0xF0)]);
    cpu.program_counter = 0x0610;
    cpu.status = 0;
    cpu.bne(&AddressingMode::Relative);
    assert_eq!(cpu.program_counter, 0x0615);
    cpu.program_counter = 0x0620;
    cpu.beq(&AddressingMode::Relative);
    assert_eq!(cpu.program_counter, 0x0620);
    cpu.status = Z;
    cpu.beq(&AddressingMode::Relative);
    assert_eq!(cpu.program_counter, 0x0610);
}

#[test]
fn shifts_and_rotations() {
    let mut cpu = cpu_with(&[]);
    cpu.status = 0;
    cpu.register_a = 0x81;
    cpu.asl(&AddressingMode::Accumulator);
    assert_eq!(cpu.register_a, 0x02);
    assert!(cpu.status & C != 0);
    cpu.rol(&AddressingMode::Accumulator);
    assert_eq!(cpu.register_a, 0x05);
    assert!(cpu.status & C == 0);
    cpu.lsr(&AddressingMode::Accumulator);
    assert_eq!(cpu.register_a, 0x02);
    assert!(cpu.status & C != 0);
    cpu.ror(&AddressingMode::Accumulator);
    assert_eq!(cpu.register_a, 0x81);
    assert!(cpu.status & C == 0);

    let mut cpu = cpu_with(&[(0x0700, 0x10), (0x0010, 0x40)]);
    cpu.program_counter = 0x0700;
    cpu.status = 0;
    cpu.asl(&AddressingMode::ZeroPage);
    assert_eq!(cpu.bus.memory[0x10], 0x80);
    assert!(cpu.status & N != 0);
}

#[test]
fn increments_wrap() {
    let mut cpu = cpu_with(&[(0x0700, 0x10), (0x0010, 0xFF)]);
    cpu.register_x = 0xFF;
    cpu.inx(&AddressingMode::Implied);
    assert_eq!(cpu.register_x, 0);
    assert!(cpu.status & Z != 0);
    cpu.dex(&AddressingMode::Implied);
    assert_eq!(cpu.register_x, 0xFF);
    cpu.program_counter = 0x0700;
    cpu.inc(&AddressingMode::ZeroPage);
    assert_eq!(cpu.bus.memory[0x10], 0);
    cpu.dec(&AddressingMode::ZeroPage);
    assert_eq!(cpu.bus.memory[0x10], 0xFF);
}

#[test]
fn transfers_and_flags() {
    let mut cpu = cpu_with(&[]);
    cpu.register_a = 0x80;
    cpu.tax(&AddressingMode::Implied);
    assert_eq!(cpu.register_x, 0x80);
    cpu.tay(&AddressingMode::Implied);
    assert_eq!(cpu.register_y, 0x80);
    cpu.register_a = 0;
    cpu.txa(&AddressingMode::Implied);
    assert_eq!(cpu.register_a, 0x80);
    cpu.txs(&AddressingMode::Implied);
    assert_eq!(cpu.stack_pointer, 0x80);
    cpu.sec(&AddressingMode::Implied);
    cpu.sed(&AddressingMode::Implied);
    cpu.sei(&AddressingMode::Implied);
    assert_eq!(cpu.status & 0x0D, 0x0D);
    cpu.clc(&AddressingMode::Implied);
    cpu.cld(&AddressingMode::Implied);
    cpu.cli(&AddressingMode::Implied);
    assert_eq!(cpu.status & 0x0D, 0);
}

#[test]
fn bit_copies_flags() {
    let mut cpu = cpu_with(&[(0x0700, 0x10), (0x0010, 0xC0)]);
    cpu.program_counter = 0x0700;
    cpu.register_a = 0x01;
    cpu.status = 0;
    cpu.bit(&AddressingMode::ZeroPage);
    assert_eq!(cpu.status, N | V | Z);
}

#[test]
fn brk_pushes_and_vectors() {
    let mut cpu = cpu_with(&[(0xFFFE, 0x00), (0xFFFF, 0xC0)]);
    cpu.program_counter = 0x1234;
    cpu.status = 0;
    cpu.brk(&AddressingMode::Implied);
    assert_eq!(cpu.program_counter, 0xC000);
    assert_eq!(cpu.status & 0x10, 0x10);
    assert_eq!(cpu.bus.memory[0x01FD], 0x12);
    assert_eq!(cpu.bus.memory[0x01FC], 0x34);
    // with B set nothing happens
    cpu.brk(&AddressingMode::Implied);
    assert_eq!(cpu.program_counter, 0xC000);
}

#[test]
fn nmi_is_serviced() {
    let mut cpu = cpu_with(&[(0xFFFA, 0x00), (0xFFFB, 0x90)]);
    cpu.program_counter = 0x8000;
    cpu.status = 0x10;
    cpu.bus.nmi_interrupt = Some(1);
    cpu.service_interrupts();
    assert_eq!(cpu.program_counter, 0x9000);
    assert!(cpu.bus.nmi_interrupt.is_none());
    assert_eq!(cpu.bus.memory[0x01FB], 0x20);
    assert_eq!(cpu.status & I, I);
    assert_eq!(cpu.bus.cycles, 2);
}

#[test]
fn irq_masked_by_interrupt_flag() {
    let mut cpu = cpu_with(&[(0xFFFE, 0x00), (0xFFFF, 0xA0)]);
    cpu.program_counter = 0x8000;
    cpu.status = I;
    cpu.bus.apu_irq = true;
    cpu.service_interrupts();
    assert_eq!(cpu.program_counter, 0x8000);
    cpu.status = 0;
    cpu.service_interrupts();
    assert_eq!(cpu.program_counter, 0xA000);
}

#[test]
fn instruction_cycle() {
    let mut cpu = cpu_with(&[(0x8000, 0xA9)]);
    cpu.program_counter = 0x8000;
    let code = cpu.fetch_opcode();
    assert_eq!(code, 0xA9);
    assert_eq!(cpu.program_counter, 0x8001);
    let table = vec![
        OpCode::new(0xEA, "NOP", 1, 2, CycleCalcMode::Fixed, AddressingMode::Implied),
        OpCode::new(0xA9, "LDA", 2, 2, CycleCalcMode::Fixed, AddressingMode::Immediate),
    ];
    assert_eq!(CPU::find_ops(&table, code), Some(1));
    assert_eq!(CPU::find_ops(&table, 0x02), None);
    cpu.start_op();
    cpu.lda(&table[1].addressing_mode);
    cpu.finish_op(&table[1]);
    assert_eq!(cpu.bus.cycles, 2);
    assert_eq!(table[1].name, "LDA");
}

#[test]
fn page_cross_costs_a_cycle() {
    let mut cpu = cpu_with(&[(0x0300, 0xFF), (0x0301, 0x10)]);
    cpu.program_counter = 0x0300;
    cpu.register_x = 1;
    cpu.start_op();
    cpu.lda(&AddressingMode::Absolute_X);
    let op = OpCode::new(0xBD, "LDA", 3, 4, CycleCalcMode::Page, AddressingMode::Absolute_X);
    cpu.finish_op(&op);
    assert_eq!(cpu.bus.cycles, 5);
}

#[test]
fn undocumented_combinations() {
    let mut cpu = cpu_with(&[(0x0700, 0x10), (0x0010, 0x03)]);
    cpu.program_counter = 0x0700;
    cpu.register_a = 0x01;
    cpu.status = 0;
    cpu.lax(&AddressingMode::ZeroPage);
    assert_eq!(cpu.register_a, 0x03);
    assert_eq!(cpu.register_x, 0x03);
    cpu.register_a = 0x0F;
    cpu.register_x = 0xF3;
    cpu.sax(&AddressingMode::ZeroPage);
    assert_eq!(cpu.bus.memory[0x10], 0x03);
    cpu.dcp(&AddressingMode::ZeroPage);
    assert_eq!(cpu.bus.memory[0x10], 0x02);
    cpu.isb(&AddressingMode::ZeroPage);
    assert_eq!(cpu.bus.memory[0x10], 0x03);
}

#[test]
fn jam_stays() {
    let mut cpu = cpu_with(&[]);
    cpu.program_counter = 0x0701;
    cpu.jam(&AddressingMode::Implied);
    assert_eq!(cpu.program_counter, 0x0700);
}

#[test]
fn word_write_read() {
    let mut cpu = cpu_with(&[]);
    cpu.mem_write_u16(0x0400, 0xA1B2);
    assert_eq!(cpu.bus.memory[0x0400], 0xB2);
    assert_eq!(cpu.bus.memory[0x0401], 0xA1);
    assert_eq!(cpu.mem_read_u16(0x0400), 0xA1B2);
}

fn trace_table() -> Vec<OpCode> {
    vec![
        OpCode::new(0xA2, "LDX", 2, 2, CycleCalcMode::Fixed, AddressingMode::Immediate),
        OpCode::new(0xCA, "DEX", 1, 2, CycleCalcMode::Fixed, AddressingMode::Implied),
        OpCode::new(0x8D, "STA", 3, 4, CycleCalcMode::Fixed, AddressingMode::Absolute),
        OpCode::new(0x11, "ORA", 2, 5, CycleCalcMode::Page, AddressingMode::Indirect_Y),
        OpCode::new(0xD0, "BNE", 2, 2, CycleCalcMode::Branch, AddressingMode::Relative),
        OpCode::new(0x6C, "JMP", 3, 5, CycleCalcMode::Fixed, AddressingMode::Indirect),
        OpCode::new(0x04, "*NOP", 2, 3, CycleCalcMode::Fixed, AddressingMode::ZeroPage),
    ]
}

#[test]
fn trace_immediate_line() {
    let mut cpu = cpu_with(&[(0x64, 0xA2), (0x65, 0x01)]);
    cpu.program_counter = 0x65;
    cpu.register_a = 1;
    cpu.register_x = 2;
    cpu.register_y = 3;
    assert_eq!(
        trace(&cpu, &trace_table()),
        "0064  A2 01     LDX #$01                        A:01 X:02 Y:03 P:24 SP:FD"
    );
}

#[test]
fn trace_implied_and_absolute_lines() {
    let mut cpu = cpu_with(&[(0x8000, 0xCA), (0x8001, 0x8D), (0x8002, 0x00), (0x8003, 0x02), (0x0200, 0x7F)]);
    cpu.program_counter = 0x8001;
    assert_eq!(
        trace(&cpu, &trace_table()),
        "8000  CA        DEX                             A:00 X:00 Y:00 P:24 SP:FD"
    );
    cpu.program_counter = 0x8002;
    assert_eq!(
        trace(&cpu, &trace_table()),
        "8001  8D 00 02  STA $0200 = 7F                  A:00 X:00 Y:00 P:24 SP:FD"
    );
}

#[test]
fn trace_indirect_and_branch_lines() {
    let mut cpu = cpu_with(&[
        (0x0C00, 0x11),
        (0x0C01, 0x33),
        (0x0033, 0x00),
        (0x0034, 0x04),
        (0x0404, 0x55),
        (0x0C10, 0xD0),
        (0x0C11, 0xFC),
        (0x0C20, 0x6C),
        (0x0C21, 0x00),
        (0x0C22, 0x03),
        (0x0300, 0x34),
        (0x0301, 0x12),
        (0x0C30, 0x04),
        (0x0C31, 0x10),
        (0x0010, 0xAB),
    ]);
    cpu.register_y = 4;
    cpu.program_counter = 0x0C01;
    assert_eq!(
        trace(&cpu, &trace_table()),
        "0C00  11 33     ORA ($33),Y = 0400 @ 0404 = 55  A:00 X:00 Y:04 P:24 SP:FD"
    );
    cpu.program_counter = 0x0C11;
    assert_eq!(
        trace(&cpu, &trace_table()),
        "0C10  D0 FC     BNE $0C0E                       A:00 X:00 Y:04 P:24 SP:FD"
    );
    cpu.program_counter = 0x0C21;
    assert_eq!(
        trace(&cpu, &trace_table()),
        "0C20  6C 00 03  JMP ($0300) = 1234              A:00 X:00 Y:04 P:24 SP:FD"
    );
    cpu.program_counter = 0x0C31;
    assert_eq!(
        trace(&cpu, &trace_table()),
        "0C30  04 10    *NOP $10 = AB                    A:00 X:00 Y:04 P:24 SP:FD"
    );
}

#[test]
fn nmi_then_rti_resumes() {
    let mut cpu = cpu_with(&[(0xFFFA, 0x00), (0xFFFB, 0x90)]);
    cpu.program_counter = 0x8123;
    cpu.status = 0x91;
    cpu.bus.nmi_interrupt = Some(1);
    cpu.service_interrupts();
    assert_eq!(cpu.program_counter, 0x9000);
    cpu.rti(&AddressingMode::Implied);
    assert_eq!(cpu.program_counter, 0x8123);
    assert_eq!(cpu.stack_pointer, 0xFD);
    assert_eq!(cpu.status, 0xA1);
}

#[test]
fn sbx_lae_shs() {
    // SBX #$03 with A = $0F, X = $F5: X = ($0F & $F5) - 3 = 2, C set, V kept
    let mut cpu = cpu_with(&[(0x10, 0x03)]);
    cpu.program_counter = 0x10;
    cpu.register_a = 0x0F;
    cpu.register_x = 0xF5;
    cpu.status = 0x40;
    cpu.sbx(&AddressingMode::Immediate);
    assert_eq!(cpu.register_x, 0x02);
    assert_eq!(cpu.status, 0x41);
    // a borrow clears C
    let mut cpu = cpu_with(&[(0x10, 0x10)]);
    cpu.program_counter = 0x10;
    cpu.register_a = 0x0F;
    cpu.register_x = 0x0F;
    cpu.status = 0x01;
    cpu.sbx(&AddressingMode::Immediate);
    assert_eq!(cpu.register_x, 0xFF);
    assert_eq!(cpu.status, 0x80);
    // LAE $0200: A = X = S = M & S
    let mut cpu = cpu_with(&[(0x10, 0x00), (0x11, 0x02), (0x0200, 0x3C)]);
    cpu.program_counter = 0x10;
    cpu.stack_pointer = 0xF0;
    cpu.lae(&AddressingMode::Absolute);
    assert_eq!(cpu.register_a, 0x30);
    assert_eq!(cpu.register_x, 0x30);
    assert_eq!(cpu.stack_pointer, 0x30);
    // SHS $0200,Y: S = A & X, M = A & X & H
    let mut cpu = cpu_with(&[(0x10, 0x00), (0x11, 0x02)]);
    cpu.program_counter = 0x10;
    cpu.register_a = 0xFF;
    cpu.register_x = 0x0E;
    cpu.register_y = 0x01;
    cpu.shs(&AddressingMode::Absolute_Y);
    assert_eq!(cpu.stack_pointer, 0x0E);
    assert_eq!(cpu.bus.memory[0x0201], 0x02);
}

#[test]
fn bne_and_beq_take_opposite_paths() {
    for &status in &[0u8, Z, C | N, Z | C] {
        let mut ne = cpu_with(&[(0x0700, 0x10)]);
        ne.program_counter = 0x0700;
        ne.status = status;
        ne.register_a = 0x11;
        ne.register_x = 0x22;
        ne.register_y = 0x33;
        let mut eq = cpu_with(&[(0x0700, 0x10)]);
        eq.program_counter = 0x0700;
        eq.status = status;
        eq.register_a = 0x11;
        eq.register_x = 0x22;
        eq.register_y = 0x33;
        ne.bne(&AddressingMode::Relative);
        eq.beq(&AddressingMode::Relative);
        if status & Z == 0 {
            assert_eq!(ne.program_counter, 0x0710);
            assert_eq!(eq.program_counter, 0x0700);
        } else {
            assert_eq!(ne.program_counter, 0x0700);
            assert_eq!(eq.program_counter, 0x0710);
        }
        for cpu in [&ne, &eq] {
            assert_eq!(cpu.status, status);
            assert_eq!((cpu.register_a, cpu.register_x, cpu.register_y), (0x11, 0x22, 0x33));
            assert_eq!(cpu.stack_pointer, 0xFD);
        }
    }
}
