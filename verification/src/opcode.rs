//! The instruction table of the 6502 and the dispatch of an instruction to
//! the CPU method that carries it out.
use vstd::prelude::*;
pub use crate::cpu::call;
use crate::cpu::{
    AddressingMode, CycleCalcMode, OpCode, FLAG_CARRY, FLAG_DECIMAL, FLAG_INTERRRUPT, FLAG_NEGATIVE,
    FLAG_OVERFLOW, FLAG_ZERO,
};
use crate::cpu_model::{
    adc_next, and_next, args_needed, bit_next, branch_next, branch_ok, brk_next, compare_next,
    dex_next, dey_next, eor_next, flag_next, inx_next, iny_next, jmp_next, jmp_ok, jsr_next, jsr_ok,
    lae_next, lda_next, ldx_next, ldy_next, operand_ok, ora_next, pha_next, php_next, pla_next,
    plp_next, rti_next, rts_next, rts_ok, sbc_next, sbx_next, sh_next, shift_next, shift_ok,
    shs_next, shs_ok, step_memory_next, store_next, tax_next, tay_next, tsx_next, txa_next,
    txs_next, tya_next, CpuState, Shift,
};

verus! {

/// The mnemonic of an instruction name: undocumented instructions carry a
/// leading `*`, which is not part of the mnemonic.
pub open spec fn mnemonic(name: Seq<char>) -> Seq<char> {
    if name.len() > 0 && name[0] == '*' {
        name.skip(1)
    } else {
        name
    }
}

/// Whether `m` is one of ADC, ANC, AND, ANE, ARR, ASL, ASR, BCC, BCS, BEQ.
pub open spec fn in_group_0(m: Seq<char>) -> bool {
    ||| m == "ADC"@
    ||| m == "ANC"@
    ||| m == "AND"@
    ||| m == "ANE"@
    ||| m == "ARR"@
    ||| m == "ASL"@
    ||| m == "ASR"@
    ||| m == "BCC"@
    ||| m == "BCS"@
    ||| m == "BEQ"@
}

/// Whether an instruction of group 0 can run without a fault.
#[verifier::opaque]
pub open spec fn group_0_ok(s: CpuState, m: Seq<char>, mode: AddressingMode) -> bool {
    if m == "ADC"@ {
        operand_ok(s, mode)
    } else if m == "ANC"@ {
        true
    } else if m == "AND"@ {
        operand_ok(s, mode)
    } else if m == "ANE"@ {
        operand_ok(txa_next(s), mode)
    } else if m == "ARR"@ {
        true
    } else if m == "ASL"@ {
        shift_ok(s, mode)
    } else if m == "ASR"@ {
        true
    } else if m == "BCC"@ {
        branch_ok(s, mode, FLAG_CARRY, false)
    } else if m == "BCS"@ {
        branch_ok(s, mode, FLAG_CARRY, true)
    } else if m == "BEQ"@ {
        branch_ok(s, mode, FLAG_ZERO, true)
    } else {
        true
    }
}

/// The state after an instruction of group 0 has run.
#[verifier::opaque]
pub open spec fn group_0_next(s: CpuState, m: Seq<char>, mode: AddressingMode) -> CpuState {
    if m == "ADC"@ {
        adc_next(s, mode)
    } else if m == "ANC"@ {
        s
    } else if m == "AND"@ {
        and_next(s, mode)
    } else if m == "ANE"@ {
        and_next(txa_next(s), mode)
    } else if m == "ARR"@ {
        s
    } else if m == "ASL"@ {
        shift_next(s, mode, Shift::Asl)
    } else if m == "ASR"@ {
        s
    } else if m == "BCC"@ {
        branch_next(s, mode, FLAG_CARRY, false)
    } else if m == "BCS"@ {
        branch_next(s, mode, FLAG_CARRY, true)
    } else if m == "BEQ"@ {
        branch_next(s, mode, FLAG_ZERO, true)
    } else {
        s
    }
}

/// Whether `m` is one of BIT, BMI, BNE, BPL, BRK, BVC, BVS, CLC, CLD, CLI.
pub open spec fn in_group_1(m: Seq<char>) -> bool {
    ||| m == "BIT"@
    ||| m == "BMI"@
    ||| m == "BNE"@
    ||| m == "BPL"@
    ||| m == "BRK"@
    ||| m == "BVC"@
    ||| m == "BVS"@
    ||| m == "CLC"@
    ||| m == "CLD"@
    ||| m == "CLI"@
}

/// Whether an instruction of group 1 can run without a fault.
#[verifier::opaque]
pub open spec fn group_1_ok(s: CpuState, m: Seq<char>, mode: AddressingMode) -> bool {
    if m == "BIT"@ {
        operand_ok(s, mode)
    } else if m == "BMI"@ {
        branch_ok(s, mode, FLAG_NEGATIVE, true)
    } else if m == "BNE"@ {
        branch_ok(s, mode, FLAG_ZERO, false)
    } else if m == "BPL"@ {
        branch_ok(s, mode, FLAG_NEGATIVE, false)
    } else if m == "BRK"@ {
        true
    } else if m == "BVC"@ {
        branch_ok(s, mode, FLAG_OVERFLOW, false)
    } else if m == "BVS"@ {
        branch_ok(s, mode, FLAG_OVERFLOW, true)
    } else if m == "CLC"@ {
        true
    } else if m == "CLD"@ {
        true
    } else if m == "CLI"@ {
        true
    } else {
        true
    }
}

/// The state after an instruction of group 1 has run.
#[verifier::opaque]
pub open spec fn group_1_next(s: CpuState, m: Seq<char>, mode: AddressingMode) -> CpuState {
    if m == "BIT"@ {
        bit_next(s, mode)
    } else if m == "BMI"@ {
        branch_next(s, mode, FLAG_NEGATIVE, true)
    } else if m == "BNE"@ {
        branch_next(s, mode, FLAG_ZERO, false)
    } else if m == "BPL"@ {
        branch_next(s, mode, FLAG_NEGATIVE, false)
    } else if m == "BRK"@ {
        brk_next(s)
    } else if m == "BVC"@ {
        branch_next(s, mode, FLAG_OVERFLOW, false)
    } else if m == "BVS"@ {
        branch_next(s, mode, FLAG_OVERFLOW, true)
    } else if m == "CLC"@ {
        flag_next(s, FLAG_CARRY, false)
    } else if m == "CLD"@ {
        flag_next(s, FLAG_DECIMAL, false)
    } else if m == "CLI"@ {
        flag_next(s, FLAG_INTERRRUPT, false)
    } else {
        s
    }
}

/// Whether `m` is one of CLV, CMP, CPX, CPY, DCP, DEC, DEX, DEY, EOR, INC.
pub open spec fn in_group_2(m: Seq<char>) -> bool {
    ||| m == "CLV"@
    ||| m == "CMP"@
    ||| m == "CPX"@
    ||| m == "CPY"@
    ||| m == "DCP"@
    ||| m == "DEC"@
    ||| m == "DEX"@
    ||| m == "DEY"@
    ||| m == "EOR"@
    ||| m == "INC"@
}

/// Whether an instruction of group 2 can run without a fault.
#[verifier::opaque]
pub open spec fn group_2_ok(s: CpuState, m: Seq<char>, mode: AddressingMode) -> bool {
    if m == "CLV"@ {
        true
    } else if m == "CMP"@ {
        operand_ok(s, mode)
    } else if m == "CPX"@ {
        operand_ok(s, mode)
    } else if m == "CPY"@ {
        operand_ok(s, mode)
    } else if m == "DCP"@ {
        operand_ok(s, mode) && operand_ok(step_memory_next(s, mode, -1), mode)
    } else if m == "DEC"@ {
        operand_ok(s, mode)
    } else if m == "DEX"@ {
        true
    } else if m == "DEY"@ {
        true
    } else if m == "EOR"@ {
        operand_ok(s, mode)
    } else if m == "INC"@ {
        operand_ok(s, mode)
    } else {
        true
    }
}

/// The state after an instruction of group 2 has run.
#[verifier::opaque]
pub open spec fn group_2_next(s: CpuState, m: Seq<char>, mode: AddressingMode) -> CpuState {
    if m == "CLV"@ {
        flag_next(s, FLAG_OVERFLOW, false)
    } else if m == "CMP"@ {
        compare_next(s, mode, s.a)
    } else if m == "CPX"@ {
        compare_next(s, mode, s.x)
    } else if m == "CPY"@ {
        compare_next(s, mode, s.y)
    } else if m == "DCP"@ {
        { let t = step_memory_next(s, mode, -1); compare_next(t, mode, t.a) }
    } else if m == "DEC"@ {
        step_memory_next(s, mode, -1)
    } else if m == "DEX"@ {
        dex_next(s)
    } else if m == "DEY"@ {
        dey_next(s)
    } else if m == "EOR"@ {
        eor_next(s, mode)
    } else if m == "INC"@ {
        step_memory_next(s, mode, 1)
    } else {
        s
    }
}

/// Whether `m` is one of INX, INY, ISB, JAM, JMP, JSR, LAE, LAX, LDA, LDX.
pub open spec fn in_group_3(m: Seq<char>) -> bool {
    ||| m == "INX"@
    ||| m == "INY"@
    ||| m == "ISB"@
    ||| m == "JAM"@
    ||| m == "JMP"@
    ||| m == "JSR"@
    ||| m == "LAE"@
    ||| m == "LAX"@
    ||| m == "LDA"@
    ||| m == "LDX"@
}

/// Whether an instruction of group 3 can run without a fault.
#[verifier::opaque]
pub open spec fn group_3_ok(s: CpuState, m: Seq<char>, mode: AddressingMode) -> bool {
    if m == "INX"@ {
        true
    } else if m == "INY"@ {
        true
    } else if m == "ISB"@ {
        operand_ok(s, mode) && operand_ok(step_memory_next(s, mode, 1), mode)
    } else if m == "JAM"@ {
        s.pc >= 1
    } else if m == "JMP"@ {
        jmp_ok(s, mode)
    } else if m == "JSR"@ {
        jsr_ok(s, mode)
    } else if m == "LAE"@ {
        operand_ok(s, mode)
    } else if m == "LAX"@ {
        operand_ok(s, mode)
    } else if m == "LDA"@ {
        operand_ok(s, mode)
    } else if m == "LDX"@ {
        operand_ok(s, mode)
    } else {
        true
    }
}

/// The state after an instruction of group 3 has run.
#[verifier::opaque]
pub open spec fn group_3_next(s: CpuState, m: Seq<char>, mode: AddressingMode) -> CpuState {
    if m == "INX"@ {
        inx_next(s)
    } else if m == "INY"@ {
        iny_next(s)
    } else if m == "ISB"@ {
        sbc_next(step_memory_next(s, mode, 1), mode)
    } else if m == "JAM"@ {
        CpuState { pc: (s.pc - 1) as u16, ..s }
    } else if m == "JMP"@ {
        jmp_next(s, mode)
    } else if m == "JSR"@ {
        jsr_next(s, mode)
    } else if m == "LAE"@ {
        lae_next(s, mode)
    } else if m == "LAX"@ {
        tax_next(lda_next(s, mode))
    } else if m == "LDA"@ {
        lda_next(s, mode)
    } else if m == "LDX"@ {
        ldx_next(s, mode)
    } else {
        s
    }
}

/// Whether `m` is one of LDY, LSR, LXA, NOP, ORA, PHA, PHP, PLA, PLP, RLA.
pub open spec fn in_group_4(m: Seq<char>) -> bool {
    ||| m == "LDY"@
    ||| m == "LSR"@
    ||| m == "LXA"@
    ||| m == "NOP"@
    ||| m == "ORA"@
    ||| m == "PHA"@
    ||| m == "PHP"@
    ||| m == "PLA"@
    ||| m == "PLP"@
    ||| m == "RLA"@
}

/// Whether an instruction of group 4 can run without a fault.
#[verifier::opaque]
pub open spec fn group_4_ok(s: CpuState, m: Seq<char>, mode: AddressingMode) -> bool {
    if m == "LDY"@ {
        operand_ok(s, mode)
    } else if m == "LSR"@ {
        shift_ok(s, mode)
    } else if m == "LXA"@ {
        true
    } else if m == "NOP"@ {
        true
    } else if m == "ORA"@ {
        operand_ok(s, mode)
    } else if m == "PHA"@ {
        true
    } else if m == "PHP"@ {
        true
    } else if m == "PLA"@ {
        true
    } else if m == "PLP"@ {
        true
    } else if m == "RLA"@ {
        shift_ok(s, mode) && operand_ok(shift_next(s, mode, Shift::Rol), mode)
    } else {
        true
    }
}

/// The state after an instruction of group 4 has run.
#[verifier::opaque]
pub open spec fn group_4_next(s: CpuState, m: Seq<char>, mode: AddressingMode) -> CpuState {
    if m == "LDY"@ {
        ldy_next(s, mode)
    } else if m == "LSR"@ {
        shift_next(s, mode, Shift::Lsr)
    } else if m == "LXA"@ {
        s
    } else if m == "NOP"@ {
        s
    } else if m == "ORA"@ {
        ora_next(s, mode)
    } else if m == "PHA"@ {
        pha_next(s)
    } else if m == "PHP"@ {
        php_next(s)
    } else if m == "PLA"@ {
        pla_next(s)
    } else if m == "PLP"@ {
        plp_next(s)
    } else if m == "RLA"@ {
        and_next(shift_next(s, mode, Shift::Rol), mode)
    } else {
        s
    }
}

/// Whether `m` is one of ROL, ROR, RRA, RTI, RTS, SAX, SBC, SBX, SEC, SED.
pub open spec fn in_group_5(m: Seq<char>) -> bool {
    ||| m == "ROL"@
    ||| m == "ROR"@
    ||| m == "RRA"@
    ||| m == "RTI"@
    ||| m == "RTS"@
    ||| m == "SAX"@
    ||| m == "SBC"@
    ||| m == "SBX"@
    ||| m == "SEC"@
    ||| m == "SED"@
}

/// Whether an instruction of group 5 can run without a fault.
#[verifier::opaque]
pub open spec fn group_5_ok(s: CpuState, m: Seq<char>, mode: AddressingMode) -> bool {
    if m == "ROL"@ {
        shift_ok(s, mode)
    } else if m == "ROR"@ {
        shift_ok(s, mode)
    } else if m == "RRA"@ {
        shift_ok(s, mode) && operand_ok(shift_next(s, mode, Shift::Ror), mode)
    } else if m == "RTI"@ {
        true
    } else if m == "RTS"@ {
        rts_ok(s)
    } else if m == "SAX"@ {
        operand_ok(s, mode)
    } else if m == "SBC"@ {
        operand_ok(s, mode)
    } else if m == "SBX"@ {
        operand_ok(s, mode)
    } else if m == "SEC"@ {
        true
    } else if m == "SED"@ {
        true
    } else {
        true
    }
}

/// The state after an instruction of group 5 has run.
#[verifier::opaque]
pub open spec fn group_5_next(s: CpuState, m: Seq<char>, mode: AddressingMode) -> CpuState {
    if m == "ROL"@ {
        shift_next(s, mode, Shift::Rol)
    } else if m == "ROR"@ {
        shift_next(s, mode, Shift::Ror)
    } else if m == "RRA"@ {
        adc_next(shift_next(s, mode, Shift::Ror), mode)
    } else if m == "RTI"@ {
        rti_next(s)
    } else if m == "RTS"@ {
        rts_next(s)
    } else if m == "SAX"@ {
        store_next(s, mode, s.a & s.x)
    } else if m == "SBC"@ {
        sbc_next(s, mode)
    } else if m == "SBX"@ {
        sbx_next(s, mode)
    } else if m == "SEC"@ {
        flag_next(s, FLAG_CARRY, true)
    } else if m == "SED"@ {
        flag_next(s, FLAG_DECIMAL, true)
    } else {
        s
    }
}

/// Whether `m` is one of SEI, SHA, SHS, SHX, SHY, SLO, SRE, STA, STX, STY.
pub open spec fn in_group_6(m: Seq<char>) -> bool {
    ||| m == "SEI"@
    ||| m == "SHA"@
    ||| m == "SHS"@
    ||| m == "SHX"@
    ||| m == "SHY"@
    ||| m == "SLO"@
    ||| m == "SRE"@
    ||| m == "STA"@
    ||| m == "STX"@
    ||| m == "STY"@
}

/// Whether an instruction of group 6 can run without a fault.
#[verifier::opaque]
pub open spec fn group_6_ok(s: CpuState, m: Seq<char>, mode: AddressingMode) -> bool {
    if m == "SEI"@ {
        true
    } else if m == "SHA"@ {
        true
    } else if m == "SHS"@ {
        shs_ok(s, mode)
    } else if m == "SHX"@ {
        operand_ok(s, mode)
    } else if m == "SHY"@ {
        operand_ok(s, mode)
    } else if m == "SLO"@ {
        shift_ok(s, mode) && operand_ok(shift_next(s, mode, Shift::Asl), mode)
    } else if m == "SRE"@ {
        shift_ok(s, mode) && operand_ok(shift_next(s, mode, Shift::Lsr), mode)
    } else if m == "STA"@ {
        operand_ok(s, mode)
    } else if m == "STX"@ {
        operand_ok(s, mode)
    } else if m == "STY"@ {
        operand_ok(s, mode)
    } else {
        true
    }
}

/// The state after an instruction of group 6 has run.
#[verifier::opaque]
pub open spec fn group_6_next(s: CpuState, m: Seq<char>, mode: AddressingMode) -> CpuState {
    if m == "SEI"@ {
        flag_next(s, FLAG_INTERRRUPT, true)
    } else if m == "SHA"@ {
        s
    } else if m == "SHS"@ {
        shs_next(s, mode)
    } else if m == "SHX"@ {
        sh_next(s, mode, s.x)
    } else if m == "SHY"@ {
        sh_next(s, mode, s.y)
    } else if m == "SLO"@ {
        ora_next(shift_next(s, mode, Shift::Asl), mode)
    } else if m == "SRE"@ {
        eor_next(shift_next(s, mode, Shift::Lsr), mode)
    } else if m == "STA"@ {
        store_next(s, mode, s.a)
    } else if m == "STX"@ {
        store_next(s, mode, s.x)
    } else if m == "STY"@ {
        store_next(s, mode, s.y)
    } else {
        s
    }
}

/// Whether `m` is one of TAX, TAY, TSX, TXA, TXS, TYA.
pub open spec fn in_group_7(m: Seq<char>) -> bool {
    ||| m == "TAX"@
    ||| m == "TAY"@
    ||| m == "TSX"@
    ||| m == "TXA"@
    ||| m == "TXS"@
    ||| m == "TYA"@
}

/// Whether an instruction of group 7 can run without a fault.
#[verifier::opaque]
pub open spec fn group_7_ok(s: CpuState, m: Seq<char>, mode: AddressingMode) -> bool {
    if m == "TAX"@ {
        true
    } else if m == "TAY"@ {
        true
    } else if m == "TSX"@ {
        true
    } else if m == "TXA"@ {
        true
    } else if m == "TXS"@ {
        true
    } else if m == "TYA"@ {
        true
    } else {
        true
    }
}

/// The state after an instruction of group 7 has run.
#[verifier::opaque]
pub open spec fn group_7_next(s: CpuState, m: Seq<char>, mode: AddressingMode) -> CpuState {
    if m == "TAX"@ {
        tax_next(s)
    } else if m == "TAY"@ {
        tay_next(s)
    } else if m == "TSX"@ {
        tsx_next(s)
    } else if m == "TXA"@ {
        txa_next(s)
    } else if m == "TXS"@ {
        txs_next(s)
    } else if m == "TYA"@ {
        tya_next(s)
    } else {
        s
    }
}

/// The instruction `m` in `mode` can run from `s` without a fault.  An
/// unknown mnemonic does nothing and always can.
pub open spec fn instruction_ok(s: CpuState, m: Seq<char>, mode: AddressingMode) -> bool {
    if in_group_0(m) {
        group_0_ok(s, m, mode)
    } else if in_group_1(m) {
        group_1_ok(s, m, mode)
    } else if in_group_2(m) {
        group_2_ok(s, m, mode)
    } else if in_group_3(m) {
        group_3_ok(s, m, mode)
    } else if in_group_4(m) {
        group_4_ok(s, m, mode)
    } else if in_group_5(m) {
        group_5_ok(s, m, mode)
    } else if in_group_6(m) {
        group_6_ok(s, m, mode)
    } else if in_group_7(m) {
        group_7_ok(s, m, mode)
    } else {
        true
    }
}

/// The state after the instruction `m` in `mode` has run from `s`, before the
/// counter steps over its operand bytes.
pub open spec fn instruction_next(s: CpuState, m: Seq<char>, mode: AddressingMode) -> CpuState {
    if in_group_0(m) {
        group_0_next(s, m, mode)
    } else if in_group_1(m) {
        group_1_next(s, m, mode)
    } else if in_group_2(m) {
        group_2_next(s, m, mode)
    } else if in_group_3(m) {
        group_3_next(s, m, mode)
    } else if in_group_4(m) {
        group_4_next(s, m, mode)
    } else if in_group_5(m) {
        group_5_next(s, m, mode)
    } else if in_group_6(m) {
        group_6_next(s, m, mode)
    } else if in_group_7(m) {
        group_7_next(s, m, mode)
    } else {
        s
    }
}

/// The table entry `op` can be carried out from `s` without a fault: its
/// instruction can run and the counter can step over the operand bytes.
pub open spec fn call_ok(s: CpuState, op: OpCode) -> bool {
    &&& instruction_ok(s, mnemonic(op.name@), op.addressing_mode)
    &&& op.bytes >= 1
    &&& instruction_next(s, mnemonic(op.name@), op.addressing_mode).pc + op.bytes - 1 <= 0xFFFF
}

/// The state after the table entry `op` has been carried out from `s`: the
/// instruction runs, then the counter steps over the operand bytes.
pub open spec fn call_next(s: CpuState, op: OpCode) -> CpuState {
    let t = instruction_next(s, mnemonic(op.name@), op.addressing_mode);
    CpuState { pc: (t.pc + op.bytes - 1) as u16, ..t }
}

/// The mnemonic of `name` as characters.
pub(crate) fn mnemonic_of(name: &String) -> (r: Vec<char>)
    ensures
        r@ == mnemonic(name@),
{
    let t = name.as_str();
    let n = t.unicode_len();
    let start: usize = if n > 0 && t.get_char(0) == '*' {
        1
    } else {
        0
    };
    let mut r: Vec<char> = Vec::new();
    let mut i: usize = start;
    while i < n
        invariant
            start <= i <= n,
            n == name@.len(),
            t@ == name@,
            start == (if name@.len() > 0 && name@[0] == '*' { 1usize } else { 0usize }),
            r@ == name@.subrange(start as int, i as int),
        decreases n - i,
    {
        r.push(t.get_char(i));
        i += 1;
        assert(r@ =~= name@.subrange(start as int, i as int));
    }
    assert(mnemonic(name@) =~= name@.subrange(start as int, n as int));
    r
}

/// One line of the instruction table: name, length in bytes, base cycles,
/// how extra cycles are counted, and the addressing mode.
pub type OpEntry = (Seq<char>, u16, u8, CycleCalcMode, AddressingMode);

/// The table entry of every opcode.
pub open spec fn op_table_entry(code: u8) -> OpEntry {
    if code < 0x40 {
        op_table_row_0(code)
    } else if code < 0x80 {
        op_table_row_1(code)
    } else if code < 0xC0 {
        op_table_row_2(code)
    } else {
        op_table_row_3(code)
    }
}

/// `o` is the table entry of `code`.
pub open spec fn op_entry_ok(o: OpCode, code: u8) -> bool {
    let e = op_table_entry(code);
    &&& o.code == code
    &&& o.name@ == e.0
    &&& o.bytes == e.1
    &&& o.cycles == e.2
    &&& o.cycle_calc_mode == e.3
    &&& o.addressing_mode == e.4
}

/// The table entries of opcodes $00-$3F.
pub open spec fn op_table_row_0(code: u8) -> OpEntry {
    match code {
        0x00 => ("BRK"@, 1, 7, CycleCalcMode::Fixed, AddressingMode::Implied),
        0x01 => ("ORA"@, 2, 6, CycleCalcMode::Fixed, AddressingMode::Indirect_X),
        0x02 => ("*JAM"@, 1, 2, CycleCalcMode::Fixed, AddressingMode::Implied),
        0x03 => ("*SLO"@, 2, 8, CycleCalcMode::Fixed, AddressingMode::Indirect_X),
        0x04 => ("*NOP"@, 2, 3, CycleCalcMode::Fixed, AddressingMode::ZeroPage),
        0x05 => ("ORA"@, 2, 3, CycleCalcMode::Fixed, AddressingMode::ZeroPage),
        0x06 => ("ASL"@, 2, 5, CycleCalcMode::Fixed, AddressingMode::ZeroPage),
        0x07 => ("*SLO"@, 2, 5, CycleCalcMode::Fixed, AddressingMode::ZeroPage),
        0x08 => ("PHP"@, 1, 3, CycleCalcMode::Fixed, AddressingMode::Implied),
        0x09 => ("ORA"@, 2, 2, CycleCalcMode::Fixed, AddressingMode::Immediate),
        0x0A => ("ASL"@, 1, 2, CycleCalcMode::Fixed, AddressingMode::Accumulator),
        0x0B => ("*ANC"@, 2, 2, CycleCalcMode::Fixed, AddressingMode::Immediate),
        0x0C => ("*NOP"@, 3, 4, CycleCalcMode::Fixed, AddressingMode::Absolute),
        0x0D => ("ORA"@, 3, 4, CycleCalcMode::Fixed, AddressingMode::Absolute),
        0x0E => ("ASL"@, 3, 6, CycleCalcMode::Fixed, AddressingMode::Absolute),
        0x0F => ("*SLO"@, 3, 6, CycleCalcMode::Fixed, AddressingMode::Absolute),
        0x10 => ("BPL"@, 2, 2, CycleCalcMode::Branch, AddressingMode::Relative),
        0x11 => ("ORA"@, 2, 5, CycleCalcMode::Page, AddressingMode::Indirect_Y),
        0x12 => ("*JAM"@, 1, 2, CycleCalcMode::Fixed, AddressingMode::Implied),
        0x13 => ("*SLO"@, 2, 8, CycleCalcMode::Fixed, AddressingMode::Indirect_Y),
        0x14 => ("*NOP"@, 2, 4, CycleCalcMode::Fixed, AddressingMode::ZeroPage_X),
        0x15 => ("ORA"@, 2, 4, CycleCalcMode::Fixed, AddressingMode::ZeroPage_X),
        0x16 => ("ASL"@, 2, 6, CycleCalcMode::Fixed, AddressingMode::ZeroPage_X),
        0x17 => ("*SLO"@, 2, 6, CycleCalcMode::Fixed, AddressingMode::ZeroPage_X),
        0x18 => ("CLC"@, 1, 2, CycleCalcMode::Fixed, AddressingMode::Implied),
        0x19 => ("ORA"@, 3, 4, CycleCalcMode::Page, AddressingMode::Absolute_Y),
        0x1A => ("*NOP"@, 1, 2, CycleCalcMode::Fixed, AddressingMode::Implied),
        0x1B => ("*SLO"@, 3, 7, CycleCalcMode::Fixed, AddressingMode::Absolute_Y),
        0x1C => ("*NOP"@, 3, 4, CycleCalcMode::Page, AddressingMode::Absolute_X),
        0x1D => ("ORA"@, 3, 4, CycleCalcMode::Page, AddressingMode::Absolute_X),
        0x1E => ("ASL"@, 3, 7, CycleCalcMode::Fixed, AddressingMode::Absolute_X),
        0x1F => ("*SLO"@, 3, 7, CycleCalcMode::Fixed, AddressingMode::Absolute_X),
        0x20 => ("JSR"@, 3, 6, CycleCalcMode::Fixed, AddressingMode::Absolute),
        0x21 => ("AND"@, 2, 6, CycleCalcMode::Fixed, AddressingMode::Indirect_X),
        0x22 => ("*JAM"@, 1, 2, CycleCalcMode::Fixed, AddressingMode::Implied),
        0x23 => ("*RLA"@, 2, 8, CycleCalcMode::Fixed, AddressingMode::Indirect_X),
        0x24 => ("BIT"@, 2, 3, CycleCalcMode::Fixed, AddressingMode::ZeroPage),
        0x25 => ("AND"@, 2, 3, CycleCalcMode::Fixed, AddressingMode::ZeroPage),
        0x26 => ("ROL"@, 2, 5, CycleCalcMode::Fixed, AddressingMode::ZeroPage),
        0x27 => ("*RLA"@, 2, 5, CycleCalcMode::Fixed, AddressingMode::ZeroPage),
        0x28 => ("PLP"@, 1, 4, CycleCalcMode::Fixed, AddressingMode::Implied),
        0x29 => ("AND"@, 2, 2, CycleCalcMode::Fixed, AddressingMode::Immediate),
        0x2A => ("ROL"@, 1, 2, CycleCalcMode::Fixed, AddressingMode::Accumulator),
        0x2B => ("*ANC"@, 2, 2, CycleCalcMode::Fixed, AddressingMode::Immediate),
        0x2C => ("BIT"@, 3, 4, CycleCalcMode::Fixed, AddressingMode::Absolute),
        0x2D => ("AND"@, 3, 4, CycleCalcMode::Fixed, AddressingMode::Absolute),
        0x2E => ("ROL"@, 3, 6, CycleCalcMode::Fixed, AddressingMode::Absolute),
        0x2F => ("*RLA"@, 3, 6, CycleCalcMode::Fixed, AddressingMode::Absolute),
        0x30 => ("BMI"@, 2, 2, CycleCalcMode::Branch, AddressingMode::Relative),
        0x31 => ("AND"@, 2, 5, CycleCalcMode::Page, AddressingMode::Indirect_Y),
        0x32 => ("*JAM"@, 1, 2, CycleCalcMode::Fixed, AddressingMode::Implied),
        0x33 => ("*RLA"@, 2, 8, CycleCalcMode::Fixed, AddressingMode::Indirect_Y),
        0x34 => ("*NOP"@, 2, 4, CycleCalcMode::Fixed, AddressingMode::ZeroPage_X),
        0x35 => ("AND"@, 2, 4, CycleCalcMode::Fixed, AddressingMode::ZeroPage_X),
        0x36 => ("ROL"@, 2, 6, CycleCalcMode::Fixed, AddressingMode::ZeroPage_X),
        0x37 => ("*RLA"@, 2, 6, CycleCalcMode::Fixed, AddressingMode::ZeroPage_X),
        0x38 => ("SEC"@, 1, 2, CycleCalcMode::Fixed, AddressingMode::Implied),
        0x39 => ("AND"@, 3, 4, CycleCalcMode::Page, AddressingMode::Absolute_Y),
        0x3A => ("*NOP"@, 1, 2, CycleCalcMode::Fixed, AddressingMode::Implied),
        0x3B => ("*RLA"@, 3, 7, CycleCalcMode::Fixed, AddressingMode::Absolute_Y),
        0x3C => ("*NOP"@, 3, 4, CycleCalcMode::Page, AddressingMode::Absolute_X),
        0x3D => ("AND"@, 3, 4, CycleCalcMode::Page, AddressingMode::Absolute_X),
        0x3E => ("ROL"@, 3, 7, CycleCalcMode::Fixed, AddressingMode::Absolute_X),
        0x3F => ("*RLA"@, 3, 7, CycleCalcMode::Fixed, AddressingMode::Absolute_X),
        _ => ("*JAM"@, 1, 2, CycleCalcMode::Fixed, AddressingMode::Implied),
    }
}

/// The table entries of opcodes $40-$7F.
pub open spec fn op_table_row_1(code: u8) -> OpEntry {
    match code {
        0x40 => ("RTI"@, 1, 6, CycleCalcMode::Fixed, AddressingMode::Implied),
        0x41 => ("EOR"@, 2, 6, CycleCalcMode::Fixed, AddressingMode::Indirect_X),
        0x42 => ("*JAM"@, 1, 2, CycleCalcMode::Fixed, AddressingMode::Implied),
        0x43 => ("*SRE"@, 2, 8, CycleCalcMode::Fixed, AddressingMode::Indirect_X),
        0x44 => ("*NOP"@, 2, 3, CycleCalcMode::Fixed, AddressingMode::ZeroPage),
        0x45 => ("EOR"@, 2, 3, CycleCalcMode::Fixed, AddressingMode::ZeroPage),
        0x46 => ("LSR"@, 2, 5, CycleCalcMode::Fixed, AddressingMode::ZeroPage),
        0x47 => ("*SRE"@, 2, 5, CycleCalcMode::Fixed, AddressingMode::ZeroPage),
        0x48 => ("PHA"@, 1, 3, CycleCalcMode::Fixed, AddressingMode::Implied),
        0x49 => ("EOR"@, 2, 2, CycleCalcMode::Fixed, AddressingMode::Immediate),
        0x4A => ("LSR"@, 1, 2, CycleCalcMode::Fixed, AddressingMode::Accumulator),
        0x4B => ("*ASR"@, 2, 2, CycleCalcMode::Fixed, AddressingMode::Immediate),
        0x4C => ("JMP"@, 3, 3, CycleCalcMode::Fixed, AddressingMode::Absolute),
        0x4D => ("EOR"@, 3, 4, CycleCalcMode::Fixed, AddressingMode::Absolute),
        0x4E => ("LSR"@, 3, 6, CycleCalcMode::Fixed, AddressingMode::Absolute),
        0x4F => ("*SRE"@, 3, 6, CycleCalcMode::Fixed, AddressingMode::Absolute),
        0x50 => ("BVC"@, 2, 2, CycleCalcMode::Branch, AddressingMode::Relative),
        0x51 => ("EOR"@, 2, 5, CycleCalcMode::Page, AddressingMode::Indirect_Y),
        0x52 => ("*JAM"@, 1, 2, CycleCalcMode::Fixed, AddressingMode::Implied),
        0x53 => ("*SRE"@, 2, 8, CycleCalcMode::Fixed, AddressingMode::Indirect_Y),
        0x54 => ("*NOP"@, 2, 4, CycleCalcMode::Fixed, AddressingMode::ZeroPage_X),
        0x55 => ("EOR"@, 2, 4, CycleCalcMode::Fixed, AddressingMode::ZeroPage_X),
        0x56 => ("LSR"@, 2, 6, CycleCalcMode::Fixed, AddressingMode::ZeroPage_X),
        0x57 => ("*SRE"@, 2, 6, CycleCalcMode::Fixed, AddressingMode::ZeroPage_X),
        0x58 => ("CLI"@, 1, 2, CycleCalcMode::Fixed, AddressingMode::Implied),
        0x59 => ("EOR"@, 3, 4, CycleCalcMode::Page, AddressingMode::Absolute_Y),
        0x5A => ("*NOP"@, 1, 2, CycleCalcMode::Fixed, AddressingMode::Implied),
        0x5B => ("*SRE"@, 3, 7, CycleCalcMode::Fixed, AddressingMode::Absolute_Y),
        0x5C => ("*NOP"@, 3, 4, CycleCalcMode::Page, AddressingMode::Absolute_X),
        0x5D => ("EOR"@, 3, 4, CycleCalcMode::Page, AddressingMode::Absolute_X),
        0x5E => ("LSR"@, 3, 7, CycleCalcMode::Fixed, AddressingMode::Absolute_X),
        0x5F => ("*SRE"@, 3, 7, CycleCalcMode::Fixed, AddressingMode::Absolute_X),
        0x60 => ("RTS"@, 1, 6, CycleCalcMode::Fixed, AddressingMode::Implied),
        0x61 => ("ADC"@, 2, 6, CycleCalcMode::Fixed, AddressingMode::Indirect_X),
        0x62 => ("*JAM"@, 1, 2, CycleCalcMode::Fixed, AddressingMode::Implied),
        0x63 => ("*RRA"@, 2, 8, CycleCalcMode::Fixed, AddressingMode::Indirect_X),
        0x64 => ("*NOP"@, 2, 3, CycleCalcMode::Fixed, AddressingMode::ZeroPage),
        0x65 => ("ADC"@, 2, 3, CycleCalcMode::Fixed, AddressingMode::ZeroPage),
        0x66 => ("ROR"@, 2, 5, CycleCalcMode::Fixed, AddressingMode::ZeroPage),
        0x67 => ("*RRA"@, 2, 5, CycleCalcMode::Fixed, AddressingMode::ZeroPage),
        0x68 => ("PLA"@, 1, 4, CycleCalcMode::Fixed, AddressingMode::Implied),
        0x69 => ("ADC"@, 2, 2, CycleCalcMode::Fixed, AddressingMode::Immediate),
        0x6A => ("ROR"@, 1, 2, CycleCalcMode::Fixed, AddressingMode::Accumulator),
        0x6B => ("*ARR"@, 2, 2, CycleCalcMode::Fixed, AddressingMode::Immediate),
        0x6C => ("JMP"@, 3, 5, CycleCalcMode::Fixed, AddressingMode::Indirect),
        0x6D => ("ADC"@, 3, 4, CycleCalcMode::Fixed, AddressingMode::Absolute),
        0x6E => ("ROR"@, 3, 6, CycleCalcMode::Fixed, AddressingMode::Absolute),
        0x6F => ("*RRA"@, 3, 6, CycleCalcMode::Fixed, AddressingMode::Absolute),
        0x70 => ("BVS"@, 2, 2, CycleCalcMode::Branch, AddressingMode::Relative),
        0x71 => ("ADC"@, 2, 5, CycleCalcMode::Page, AddressingMode::Indirect_Y),
        0x72 => ("*JAM"@, 1, 2, CycleCalcMode::Fixed, AddressingMode::Implied),
        0x73 => ("*RRA"@, 2, 8, CycleCalcMode::Fixed, AddressingMode::Indirect_Y),
        0x74 => ("*NOP"@, 2, 4, CycleCalcMode::Fixed, AddressingMode::ZeroPage_X),
        0x75 => ("ADC"@, 2, 4, CycleCalcMode::Fixed, AddressingMode::ZeroPage_X),
        0x76 => ("ROR"@, 2, 6, CycleCalcMode::Fixed, AddressingMode::ZeroPage_X),
        0x77 => ("*RRA"@, 2, 6, CycleCalcMode::Fixed, AddressingMode::ZeroPage_X),
        0x78 => ("SEI"@, 1, 2, CycleCalcMode::Fixed, AddressingMode::Implied),
        0x79 => ("ADC"@, 3, 4, CycleCalcMode::Page, AddressingMode::Absolute_Y),
        0x7A => ("*NOP"@, 1, 2, CycleCalcMode::Fixed, AddressingMode::Implied),
        0x7B => ("*RRA"@, 3, 7, CycleCalcMode::Fixed, AddressingMode::Absolute_Y),
        0x7C => ("*NOP"@, 3, 4, CycleCalcMode::Page, AddressingMode::Absolute_X),
        0x7D => ("ADC"@, 3, 4, CycleCalcMode::Page, AddressingMode::Absolute_X),
        0x7E => ("ROR"@, 3, 7, CycleCalcMode::Fixed, AddressingMode::Absolute_X),
        0x7F => ("*RRA"@, 3, 7, CycleCalcMode::Fixed, AddressingMode::Absolute_X),
        _ => ("*JAM"@, 1, 2, CycleCalcMode::Fixed, AddressingMode::Implied),
    }
}

/// The table entries of opcodes $80-$BF.
pub open spec fn op_table_row_2(code: u8) -> OpEntry {
    match code {
        0x80 => ("*NOP"@, 2, 2, CycleCalcMode::Fixed, AddressingMode::Immediate),
        0x81 => ("STA"@, 2, 6, CycleCalcMode::Fixed, AddressingMode::Indirect_X),
        0x82 => ("*NOP"@, 2, 2, CycleCalcMode::Fixed, AddressingMode::Immediate),
        0x83 => ("*SAX"@, 2, 6, CycleCalcMode::Fixed, AddressingMode::Indirect_X),
        0x84 => ("STY"@, 2, 3, CycleCalcMode::Fixed, AddressingMode::ZeroPage),
        0x85 => ("STA"@, 2, 3, CycleCalcMode::Fixed, AddressingMode::ZeroPage),
        0x86 => ("STX"@, 2, 3, CycleCalcMode::Fixed, AddressingMode::ZeroPage),
        0x87 => ("*SAX"@, 2, 3, CycleCalcMode::Fixed, AddressingMode::ZeroPage),
        0x88 => ("DEY"@, 1, 2, CycleCalcMode::Fixed, AddressingMode::Implied),
        0x89 => ("*NOP"@, 2, 2, CycleCalcMode::Fixed, AddressingMode::Immediate),
        0x8A => ("TXA"@, 1, 2, CycleCalcMode::Fixed, AddressingMode::Implied),
        0x8B => ("*ANE"@, 2, 2, CycleCalcMode::Fixed, AddressingMode::Immediate),
        0x8C => ("STY"@, 3, 4, CycleCalcMode::Fixed, AddressingMode::Absolute),
        0x8D => ("STA"@, 3, 4, CycleCalcMode::Fixed, AddressingMode::Absolute),
        0x8E => ("STX"@, 3, 4, CycleCalcMode::Fixed, AddressingMode::Absolute),
        0x8F => ("*SAX"@, 3, 4, CycleCalcMode::Fixed, AddressingMode::Absolute),
        0x90 => ("BCC"@, 2, 2, CycleCalcMode::Branch, AddressingMode::Relative),
        0x91 => ("STA"@, 2, 6, CycleCalcMode::Fixed, AddressingMode::Indirect_Y),
        0x92 => ("*JAM"@, 1, 2, CycleCalcMode::Fixed, AddressingMode::Implied),
        0x93 => ("*SHA"@, 2, 6, CycleCalcMode::Fixed, AddressingMode::Indirect_Y),
        0x94 => ("STY"@, 2, 4, CycleCalcMode::Fixed, AddressingMode::ZeroPage_X),
        0x95 => ("STA"@, 2, 4, CycleCalcMode::Fixed, AddressingMode::ZeroPage_X),
        0x96 => ("STX"@, 2, 4, CycleCalcMode::Fixed, AddressingMode::ZeroPage_Y),
        0x97 => ("*SAX"@, 2, 4, CycleCalcMode::Fixed, AddressingMode::ZeroPage_Y),
        0x98 => ("TYA"@, 1, 2, CycleCalcMode::Fixed, AddressingMode::Implied),
        0x99 => ("STA"@, 3, 5, CycleCalcMode::Fixed, AddressingMode::Absolute_Y),
        0x9A => ("TXS"@, 1, 2, CycleCalcMode::Fixed, AddressingMode::Implied),
        0x9B => ("*SHS"@, 3, 5, CycleCalcMode::Fixed, AddressingMode::Absolute_Y),
        0x9C => ("*SHY"@, 3, 5, CycleCalcMode::Fixed, AddressingMode::Absolute_X),
        0x9D => ("STA"@, 3, 5, CycleCalcMode::Fixed, AddressingMode::Absolute_X),
        0x9E => ("*SHX"@, 3, 5, CycleCalcMode::Fixed, AddressingMode::Absolute_Y),
        0x9F => ("*SHA"@, 3, 5, CycleCalcMode::Fixed, AddressingMode::Absolute_Y),
        0xA0 => ("LDY"@, 2, 2, CycleCalcMode::Fixed, AddressingMode::Immediate),
        0xA1 => ("LDA"@, 2, 6, CycleCalcMode::Fixed, AddressingMode::Indirect_X),
        0xA2 => ("LDX"@, 2, 2, CycleCalcMode::Fixed, AddressingMode::Immediate),
        0xA3 => ("*LAX"@, 2, 6, CycleCalcMode::Fixed, AddressingMode::Indirect_X),
        0xA4 => ("LDY"@, 2, 3, CycleCalcMode::Fixed, AddressingMode::ZeroPage),
        0xA5 => ("LDA"@, 2, 3, CycleCalcMode::Fixed, AddressingMode::ZeroPage),
        0xA6 => ("LDX"@, 2, 3, CycleCalcMode::Fixed, AddressingMode::ZeroPage),
        0xA7 => ("*LAX"@, 2, 3, CycleCalcMode::Fixed, AddressingMode::ZeroPage),
        0xA8 => ("TAY"@, 1, 2, CycleCalcMode::Fixed, AddressingMode::Implied),
        0xA9 => ("LDA"@, 2, 2, CycleCalcMode::Fixed, AddressingMode::Immediate),
        0xAA => ("TAX"@, 1, 2, CycleCalcMode::Fixed, AddressingMode::Implied),
        0xAB => ("*LXA"@, 2, 2, CycleCalcMode::Fixed, AddressingMode::Immediate),
        0xAC => ("LDY"@, 3, 4, CycleCalcMode::Fixed, AddressingMode::Absolute),
        0xAD => ("LDA"@, 3, 4, CycleCalcMode::Fixed, AddressingMode::Absolute),
        0xAE => ("LDX"@, 3, 4, CycleCalcMode::Fixed, AddressingMode::Absolute),
        0xAF => ("*LAX"@, 3, 4, CycleCalcMode::Fixed, AddressingMode::Absolute),
        0xB0 => ("BCS"@, 2, 2, CycleCalcMode::Branch, AddressingMode::Relative),
        0xB1 => ("LDA"@, 2, 5, CycleCalcMode::Page, AddressingMode::Indirect_Y),
        0xB2 => ("*JAM"@, 1, 2, CycleCalcMode::Fixed, AddressingMode::Implied),
        0xB3 => ("*LAX"@, 2, 5, CycleCalcMode::Page, AddressingMode::Indirect_Y),
        0xB4 => ("LDY"@, 2, 4, CycleCalcMode::Fixed, AddressingMode::ZeroPage_X),
        0xB5 => ("LDA"@, 2, 4, CycleCalcMode::Fixed, AddressingMode::ZeroPage_X),
        0xB6 => ("LDX"@, 2, 4, CycleCalcMode::Fixed, AddressingMode::ZeroPage_Y),
        0xB7 => ("*LAX"@, 2, 4, CycleCalcMode::Fixed, AddressingMode::ZeroPage_Y),
        0xB8 => ("CLV"@, 1, 2, CycleCalcMode::Fixed, AddressingMode::Implied),
        0xB9 => ("LDA"@, 3, 4, CycleCalcMode::Page, AddressingMode::Absolute_Y),
        0xBA => ("TSX"@, 1, 2, CycleCalcMode::Fixed, AddressingMode::Implied),
        0xBB => ("*LAE"@, 3, 4, CycleCalcMode::Page, AddressingMode::Absolute_Y),
        0xBC => ("LDY"@, 3, 4, CycleCalcMode::Page, AddressingMode::Absolute_X),
        0xBD => ("LDA"@, 3, 4, CycleCalcMode::Page, AddressingMode::Absolute_X),
        0xBE => ("LDX"@, 3, 4, CycleCalcMode::Page, AddressingMode::Absolute_Y),
        0xBF => ("*LAX"@, 3, 4, CycleCalcMode::Page, AddressingMode::Absolute_Y),
        _ => ("*JAM"@, 1, 2, CycleCalcMode::Fixed, AddressingMode::Implied),
    }
}

/// The table entries of opcodes $C0-$FF.
pub open spec fn op_table_row_3(code: u8) -> OpEntry {
    match code {
        0xC0 => ("CPY"@, 2, 2, CycleCalcMode::Fixed, AddressingMode::Immediate),
        0xC1 => ("CMP"@, 2, 6, CycleCalcMode::Fixed, AddressingMode::Indirect_X),
        0xC2 => ("*NOP"@, 2, 2, CycleCalcMode::Fixed, AddressingMode::Immediate),
        0xC3 => ("*DCP"@, 2, 8, CycleCalcMode::Fixed, AddressingMode::Indirect_X),
        0xC4 => ("CPY"@, 2, 3, CycleCalcMode::Fixed, AddressingMode::ZeroPage),
        0xC5 => ("CMP"@, 2, 3, CycleCalcMode::Fixed, AddressingMode::ZeroPage),
        0xC6 => ("DEC"@, 2, 5, CycleCalcMode::Fixed, AddressingMode::ZeroPage),
        0xC7 => ("*DCP"@, 2, 5, CycleCalcMode::Fixed, AddressingMode::ZeroPage),
        0xC8 => ("INY"@, 1, 2, CycleCalcMode::Fixed, AddressingMode::Implied),
        0xC9 => ("CMP"@, 2, 2, CycleCalcMode::Fixed, AddressingMode::Immediate),
        0xCA => ("DEX"@, 1, 2, CycleCalcMode::Fixed, AddressingMode::Implied),
        0xCB => ("*SBX"@, 2, 2, CycleCalcMode::Fixed, AddressingMode::Immediate),
        0xCC => ("CPY"@, 3, 4, CycleCalcMode::Fixed, AddressingMode::Absolute),
        0xCD => ("CMP"@, 3, 4, CycleCalcMode::Fixed, AddressingMode::Absolute),
        0xCE => ("DEC"@, 3, 6, CycleCalcMode::Fixed, AddressingMode::Absolute),
        0xCF => ("*DCP"@, 3, 6, CycleCalcMode::Fixed, AddressingMode::Absolute),
        0xD0 => ("BNE"@, 2, 2, CycleCalcMode::Branch, AddressingMode::Relative),
        0xD1 => ("CMP"@, 2, 5, CycleCalcMode::Page, AddressingMode::Indirect_Y),
        0xD2 => ("*JAM"@, 1, 2, CycleCalcMode::Fixed, AddressingMode::Implied),
        0xD3 => ("*DCP"@, 2, 8, CycleCalcMode::Fixed, AddressingMode::Indirect_Y),
        0xD4 => ("*NOP"@, 2, 4, CycleCalcMode::Fixed, AddressingMode::ZeroPage_X),
        0xD5 => ("CMP"@, 2, 4, CycleCalcMode::Fixed, AddressingMode::ZeroPage_X),
        0xD6 => ("DEC"@, 2, 6, CycleCalcMode::Fixed, AddressingMode::ZeroPage_X),
        0xD7 => ("*DCP"@, 2, 6, CycleCalcMode::Fixed, AddressingMode::ZeroPage_X),
        0xD8 => ("CLD"@, 1, 2, CycleCalcMode::Fixed, AddressingMode::Implied),
        0xD9 => ("CMP"@, 3, 4, CycleCalcMode::Page, AddressingMode::Absolute_Y),
        0xDA => ("*NOP"@, 1, 2, CycleCalcMode::Fixed, AddressingMode::Implied),
        0xDB => ("*DCP"@, 3, 7, CycleCalcMode::Fixed, AddressingMode::Absolute_Y),
        0xDC => ("*NOP"@, 3, 4, CycleCalcMode::Page, AddressingMode::Absolute_X),
        0xDD => ("CMP"@, 3, 4, CycleCalcMode::Page, AddressingMode::Absolute_X),
        0xDE => ("DEC"@, 3, 7, CycleCalcMode::Fixed, AddressingMode::Absolute_X),
        0xDF => ("*DCP"@, 3, 7, CycleCalcMode::Fixed, AddressingMode::Absolute_X),
        0xE0 => ("CPX"@, 2, 2, CycleCalcMode::Fixed, AddressingMode::Immediate),
        0xE1 => ("SBC"@, 2, 6, CycleCalcMode::Fixed, AddressingMode::Indirect_X),
        0xE2 => ("*NOP"@, 2, 2, CycleCalcMode::Fixed, AddressingMode::Immediate),
        0xE3 => ("*ISB"@, 2, 8, CycleCalcMode::Fixed, AddressingMode::Indirect_X),
        0xE4 => ("CPX"@, 2, 3, CycleCalcMode::Fixed, AddressingMode::ZeroPage),
        0xE5 => ("SBC"@, 2, 3, CycleCalcMode::Fixed, AddressingMode::ZeroPage),
        0xE6 => ("INC"@, 2, 5, CycleCalcMode::Fixed, AddressingMode::ZeroPage),
        0xE7 => ("*ISB"@, 2, 5, CycleCalcMode::Fixed, AddressingMode::ZeroPage),
        0xE8 => ("INX"@, 1, 2, CycleCalcMode::Fixed, AddressingMode::Implied),
        0xE9 => ("SBC"@, 2, 2, CycleCalcMode::Fixed, AddressingMode::Immediate),
        0xEA => ("NOP"@, 1, 2, CycleCalcMode::Fixed, AddressingMode::Implied),
        0xEB => ("*SBC"@, 2, 2, CycleCalcMode::Fixed, AddressingMode::Immediate),
        0xEC => ("CPX"@, 3, 4, CycleCalcMode::Fixed, AddressingMode::Absolute),
        0xED => ("SBC"@, 3, 4, CycleCalcMode::Fixed, AddressingMode::Absolute),
        0xEE => ("INC"@, 3, 6, CycleCalcMode::Fixed, AddressingMode::Absolute),
        0xEF => ("*ISB"@, 3, 6, CycleCalcMode::Fixed, AddressingMode::Absolute),
        0xF0 => ("BEQ"@, 2, 2, CycleCalcMode::Branch, AddressingMode::Relative),
        0xF1 => ("SBC"@, 2, 5, CycleCalcMode::Page, AddressingMode::Indirect_Y),
        0xF2 => ("*JAM"@, 1, 2, CycleCalcMode::Fixed, AddressingMode::Implied),
        0xF3 => ("*ISB"@, 2, 8, CycleCalcMode::Fixed, AddressingMode::Indirect_Y),
        0xF4 => ("*NOP"@, 2, 4, CycleCalcMode::Fixed, AddressingMode::ZeroPage_X),
        0xF5 => ("SBC"@, 2, 4, CycleCalcMode::Fixed, AddressingMode::ZeroPage_X),
        0xF6 => ("INC"@, 2, 6, CycleCalcMode::Fixed, AddressingMode::ZeroPage_X),
        0xF7 => ("*ISB"@, 2, 6, CycleCalcMode::Fixed, AddressingMode::ZeroPage_X),
        0xF8 => ("SED"@, 1, 2, CycleCalcMode::Fixed, AddressingMode::Implied),
        0xF9 => ("SBC"@, 3, 4, CycleCalcMode::Page, AddressingMode::Absolute_Y),
        0xFA => ("*NOP"@, 1, 2, CycleCalcMode::Fixed, AddressingMode::Implied),
        0xFB => ("*ISB"@, 3, 7, CycleCalcMode::Fixed, AddressingMode::Absolute_Y),
        0xFC => ("*NOP"@, 3, 4, CycleCalcMode::Page, AddressingMode::Absolute_X),
        0xFD => ("SBC"@, 3, 4, CycleCalcMode::Page, AddressingMode::Absolute_X),
        0xFE => ("INC"@, 3, 7, CycleCalcMode::Fixed, AddressingMode::Absolute_X),
        0xFF => ("*ISB"@, 3, 7, CycleCalcMode::Fixed, AddressingMode::Absolute_X),
        _ => ("*JAM"@, 1, 2, CycleCalcMode::Fixed, AddressingMode::Implied),
    }
}

/// The table entry of the opcode `code`: its mnemonic, length, cycle count,
/// how extra cycles are counted and its addressing mode.
pub fn op_code(code: u8) -> (r: OpCode)
    ensures
        op_entry_ok(r, code),
        r.code == code,
        r.bytes == 1 + args_needed(r.addressing_mode),
        !(r.addressing_mode is NoneAddressing),
{
    if code < 0x40 {
        op_code_row_0(code)
    } else if code < 0x80 {
        op_code_row_1(code)
    } else if code < 0xC0 {
        op_code_row_2(code)
    } else {
        op_code_row_3(code)
    }
}

/// The entries of the opcodes $00 to $3F.
fn op_code_row_0(code: u8) -> (r: OpCode)
    requires
        0x00 <= code <= 0x3F,
    ensures
        op_entry_ok(r, code),
        r.code == code,
        r.bytes == 1 + args_needed(r.addressing_mode),
        !(r.addressing_mode is NoneAddressing),
{
    match code {
        0x00 => OpCode::new(0x00, "BRK", 1, 7, CycleCalcMode::Fixed, AddressingMode::Implied),
        0x01 => OpCode::new(0x01, "ORA", 2, 6, CycleCalcMode::Fixed, AddressingMode::Indirect_X),
        0x02 => OpCode::new(0x02, "*JAM", 1, 2, CycleCalcMode::Fixed, AddressingMode::Implied),
        0x03 => OpCode::new(0x03, "*SLO", 2, 8, CycleCalcMode::Fixed, AddressingMode::Indirect_X),
        0x04 => OpCode::new(0x04, "*NOP", 2, 3, CycleCalcMode::Fixed, AddressingMode::ZeroPage),
        0x05 => OpCode::new(0x05, "ORA", 2, 3, CycleCalcMode::Fixed, AddressingMode::ZeroPage),
        0x06 => OpCode::new(0x06, "ASL", 2, 5, CycleCalcMode::Fixed, AddressingMode::ZeroPage),
        0x07 => OpCode::new(0x07, "*SLO", 2, 5, CycleCalcMode::Fixed, AddressingMode::ZeroPage),
        0x08 => OpCode::new(0x08, "PHP", 1, 3, CycleCalcMode::Fixed, AddressingMode::Implied),
        0x09 => OpCode::new(0x09, "ORA", 2, 2, CycleCalcMode::Fixed, AddressingMode::Immediate),
        0x0A => OpCode::new(0x0A, "ASL", 1, 2, CycleCalcMode::Fixed, AddressingMode::Accumulator),
        0x0B => OpCode::new(0x0B, "*ANC", 2, 2, CycleCalcMode::Fixed, AddressingMode::Immediate),
        0x0C => OpCode::new(0x0C, "*NOP", 3, 4, CycleCalcMode::Fixed, AddressingMode::Absolute),
        0x0D => OpCode::new(0x0D, "ORA", 3, 4, CycleCalcMode::Fixed, AddressingMode::Absolute),
        0x0E => OpCode::new(0x0E, "ASL", 3, 6, CycleCalcMode::Fixed, AddressingMode::Absolute),
        0x0F => OpCode::new(0x0F, "*SLO", 3, 6, CycleCalcMode::Fixed, AddressingMode::Absolute),
        0x10 => OpCode::new(0x10, "BPL", 2, 2, CycleCalcMode::Branch, AddressingMode::Relative),
        0x11 => OpCode::new(0x11, "ORA", 2, 5, CycleCalcMode::Page, AddressingMode::Indirect_Y),
        0x12 => OpCode::new(0x12, "*JAM", 1, 2, CycleCalcMode::Fixed, AddressingMode::Implied),
        0x13 => OpCode::new(0x13, "*SLO", 2, 8, CycleCalcMode::Fixed, AddressingMode::Indirect_Y),
        0x14 => OpCode::new(0x14, "*NOP", 2, 4, CycleCalcMode::Fixed, AddressingMode::ZeroPage_X),
        0x15 => OpCode::new(0x15, "ORA", 2, 4, CycleCalcMode::Fixed, AddressingMode::ZeroPage_X),
        0x16 => OpCode::new(0x16, "ASL", 2, 6, CycleCalcMode::Fixed, AddressingMode::ZeroPage_X),
        0x17 => OpCode::new(0x17, "*SLO", 2, 6, CycleCalcMode::Fixed, AddressingMode::ZeroPage_X),
        0x18 => OpCode::new(0x18, "CLC", 1, 2, CycleCalcMode::Fixed, AddressingMode::Implied),
        0x19 => OpCode::new(0x19, "ORA", 3, 4, CycleCalcMode::Page, AddressingMode::Absolute_Y),
        0x1A => OpCode::new(0x1A, "*NOP", 1, 2, CycleCalcMode::Fixed, AddressingMode::Implied),
        0x1B => OpCode::new(0x1B, "*SLO", 3, 7, CycleCalcMode::Fixed, AddressingMode::Absolute_Y),
        0x1C => OpCode::new(0x1C, "*NOP", 3, 4, CycleCalcMode::Page, AddressingMode::Absolute_X),
        0x1D => OpCode::new(0x1D, "ORA", 3, 4, CycleCalcMode::Page, AddressingMode::Absolute_X),
        0x1E => OpCode::new(0x1E, "ASL", 3, 7, CycleCalcMode::Fixed, AddressingMode::Absolute_X),
        0x1F => OpCode::new(0x1F, "*SLO", 3, 7, CycleCalcMode::Fixed, AddressingMode::Absolute_X),
        0x20 => OpCode::new(0x20, "JSR", 3, 6, CycleCalcMode::Fixed, AddressingMode::Absolute),
        0x21 => OpCode::new(0x21, "AND", 2, 6, CycleCalcMode::Fixed, AddressingMode::Indirect_X),
        0x22 => OpCode::new(0x22, "*JAM", 1, 2, CycleCalcMode::Fixed, AddressingMode::Implied),
        0x23 => OpCode::new(0x23, "*RLA", 2, 8, CycleCalcMode::Fixed, AddressingMode::Indirect_X),
        0x24 => OpCode::new(0x24, "BIT", 2, 3, CycleCalcMode::Fixed, AddressingMode::ZeroPage),
        0x25 => OpCode::new(0x25, "AND", 2, 3, CycleCalcMode::Fixed, AddressingMode::ZeroPage),
        0x26 => OpCode::new(0x26, "ROL", 2, 5, CycleCalcMode::Fixed, AddressingMode::ZeroPage),
        0x27 => OpCode::new(0x27, "*RLA", 2, 5, CycleCalcMode::Fixed, AddressingMode::ZeroPage),
        0x28 => OpCode::new(0x28, "PLP", 1, 4, CycleCalcMode::Fixed, AddressingMode::Implied),
        0x29 => OpCode::new(0x29, "AND", 2, 2, CycleCalcMode::Fixed, AddressingMode::Immediate),
        0x2A => OpCode::new(0x2A, "ROL", 1, 2, CycleCalcMode::Fixed, AddressingMode::Accumulator),
        0x2B => OpCode::new(0x2B, "*ANC", 2, 2, CycleCalcMode::Fixed, AddressingMode::Immediate),
        0x2C => OpCode::new(0x2C, "BIT", 3, 4, CycleCalcMode::Fixed, AddressingMode::Absolute),
        0x2D => OpCode::new(0x2D, "AND", 3, 4, CycleCalcMode::Fixed, AddressingMode::Absolute),
        0x2E => OpCode::new(0x2E, "ROL", 3, 6, CycleCalcMode::Fixed, AddressingMode::Absolute),
        0x2F => OpCode::new(0x2F, "*RLA", 3, 6, CycleCalcMode::Fixed, AddressingMode::Absolute),
        0x30 => OpCode::new(0x30, "BMI", 2, 2, CycleCalcMode::Branch, AddressingMode::Relative),
        0x31 => OpCode::new(0x31, "AND", 2, 5, CycleCalcMode::Page, AddressingMode::Indirect_Y),
        0x32 => OpCode::new(0x32, "*JAM", 1, 2, CycleCalcMode::Fixed, AddressingMode::Implied),
        0x33 => OpCode::new(0x33, "*RLA", 2, 8, CycleCalcMode::Fixed, AddressingMode::Indirect_Y),
        0x34 => OpCode::new(0x34, "*NOP", 2, 4, CycleCalcMode::Fixed, AddressingMode::ZeroPage_X),
        0x35 => OpCode::new(0x35, "AND", 2, 4, CycleCalcMode::Fixed, AddressingMode::ZeroPage_X),
        0x36 => OpCode::new(0x36, "ROL", 2, 6, CycleCalcMode::Fixed, AddressingMode::ZeroPage_X),
        0x37 => OpCode::new(0x37, "*RLA", 2, 6, CycleCalcMode::Fixed, AddressingMode::ZeroPage_X),
        0x38 => OpCode::new(0x38, "SEC", 1, 2, CycleCalcMode::Fixed, AddressingMode::Implied),
        0x39 => OpCode::new(0x39, "AND", 3, 4, CycleCalcMode::Page, AddressingMode::Absolute_Y),
        0x3A => OpCode::new(0x3A, "*NOP", 1, 2, CycleCalcMode::Fixed, AddressingMode::Implied),
        0x3B => OpCode::new(0x3B, "*RLA", 3, 7, CycleCalcMode::Fixed, AddressingMode::Absolute_Y),
        0x3C => OpCode::new(0x3C, "*NOP", 3, 4, CycleCalcMode::Page, AddressingMode::Absolute_X),
        0x3D => OpCode::new(0x3D, "AND", 3, 4, CycleCalcMode::Page, AddressingMode::Absolute_X),
        0x3E => OpCode::new(0x3E, "ROL", 3, 7, CycleCalcMode::Fixed, AddressingMode::Absolute_X),
        0x3F => OpCode::new(0x3F, "*RLA", 3, 7, CycleCalcMode::Fixed, AddressingMode::Absolute_X),
        _ => OpCode::new(code, "*JAM", 1, 2, CycleCalcMode::Fixed, AddressingMode::Implied),
    }
}

/// The entries of the opcodes $40 to $7F.
fn op_code_row_1(code: u8) -> (r: OpCode)
    requires
        0x40 <= code <= 0x7F,
    ensures
        op_entry_ok(r, code),
        r.code == code,
        r.bytes == 1 + args_needed(r.addressing_mode),
        !(r.addressing_mode is NoneAddressing),
{
    match code {
        0x40 => OpCode::new(0x40, "RTI", 1, 6, CycleCalcMode::Fixed, AddressingMode::Implied),
        0x41 => OpCode::new(0x41, "EOR", 2, 6, CycleCalcMode::Fixed, AddressingMode::Indirect_X),
        0x42 => OpCode::new(0x42, "*JAM", 1, 2, CycleCalcMode::Fixed, AddressingMode::Implied),
        0x43 => OpCode::new(0x43, "*SRE", 2, 8, CycleCalcMode::Fixed, AddressingMode::Indirect_X),
        0x44 => OpCode::new(0x44, "*NOP", 2, 3, CycleCalcMode::Fixed, AddressingMode::ZeroPage),
        0x45 => OpCode::new(0x45, "EOR", 2, 3, CycleCalcMode::Fixed, AddressingMode::ZeroPage),
        0x46 => OpCode::new(0x46, "LSR", 2, 5, CycleCalcMode::Fixed, AddressingMode::ZeroPage),
        0x47 => OpCode::new(0x47, "*SRE", 2, 5, CycleCalcMode::Fixed, AddressingMode::ZeroPage),
        0x48 => OpCode::new(0x48, "PHA", 1, 3, CycleCalcMode::Fixed, AddressingMode::Implied),
        0x49 => OpCode::new(0x49, "EOR", 2, 2, CycleCalcMode::Fixed, AddressingMode::Immediate),
        0x4A => OpCode::new(0x4A, "LSR", 1, 2, CycleCalcMode::Fixed, AddressingMode::Accumulator),
        0x4B => OpCode::new(0x4B, "*ASR", 2, 2, CycleCalcMode::Fixed, AddressingMode::Immediate),
        0x4C => OpCode::new(0x4C, "JMP", 3, 3, CycleCalcMode::Fixed, AddressingMode::Absolute),
        0x4D => OpCode::new(0x4D, "EOR", 3, 4, CycleCalcMode::Fixed, AddressingMode::Absolute),
        0x4E => OpCode::new(0x4E, "LSR", 3, 6, CycleCalcMode::Fixed, AddressingMode::Absolute),
        0x4F => OpCode::new(0x4F, "*SRE", 3, 6, CycleCalcMode::Fixed, AddressingMode::Absolute),
        0x50 => OpCode::new(0x50, "BVC", 2, 2, CycleCalcMode::Branch, AddressingMode::Relative),
        0x51 => OpCode::new(0x51, "EOR", 2, 5, CycleCalcMode::Page, AddressingMode::Indirect_Y),
        0x52 => OpCode::new(0x52, "*JAM", 1, 2, CycleCalcMode::Fixed, AddressingMode::Implied),
        0x53 => OpCode::new(0x53, "*SRE", 2, 8, CycleCalcMode::Fixed, AddressingMode::Indirect_Y),
        0x54 => OpCode::new(0x54, "*NOP", 2, 4, CycleCalcMode::Fixed, AddressingMode::ZeroPage_X),
        0x55 => OpCode::new(0x55, "EOR", 2, 4, CycleCalcMode::Fixed, AddressingMode::ZeroPage_X),
        0x56 => OpCode::new(0x56, "LSR", 2, 6, CycleCalcMode::Fixed, AddressingMode::ZeroPage_X),
        0x57 => OpCode::new(0x57, "*SRE", 2, 6, CycleCalcMode::Fixed, AddressingMode::ZeroPage_X),
        0x58 => OpCode::new(0x58, "CLI", 1, 2, CycleCalcMode::Fixed, AddressingMode::Implied),
        0x59 => OpCode::new(0x59, "EOR", 3, 4, CycleCalcMode::Page, AddressingMode::Absolute_Y),
        0x5A => OpCode::new(0x5A, "*NOP", 1, 2, CycleCalcMode::Fixed, AddressingMode::Implied),
        0x5B => OpCode::new(0x5B, "*SRE", 3, 7, CycleCalcMode::Fixed, AddressingMode::Absolute_Y),
        0x5C => OpCode::new(0x5C, "*NOP", 3, 4, CycleCalcMode::Page, AddressingMode::Absolute_X),
        0x5D => OpCode::new(0x5D, "EOR", 3, 4, CycleCalcMode::Page, AddressingMode::Absolute_X),
        0x5E => OpCode::new(0x5E, "LSR", 3, 7, CycleCalcMode::Fixed, AddressingMode::Absolute_X),
        0x5F => OpCode::new(0x5F, "*SRE", 3, 7, CycleCalcMode::Fixed, AddressingMode::Absolute_X),
        0x60 => OpCode::new(0x60, "RTS", 1, 6, CycleCalcMode::Fixed, AddressingMode::Implied),
        0x61 => OpCode::new(0x61, "ADC", 2, 6, CycleCalcMode::Fixed, AddressingMode::Indirect_X),
        0x62 => OpCode::new(0x62, "*JAM", 1, 2, CycleCalcMode::Fixed, AddressingMode::Implied),
        0x63 => OpCode::new(0x63, "*RRA", 2, 8, CycleCalcMode::Fixed, AddressingMode::Indirect_X),
        0x64 => OpCode::new(0x64, "*NOP", 2, 3, CycleCalcMode::Fixed, AddressingMode::ZeroPage),
        0x65 => OpCode::new(0x65, "ADC", 2, 3, CycleCalcMode::Fixed, AddressingMode::ZeroPage),
        0x66 => OpCode::new(0x66, "ROR", 2, 5, CycleCalcMode::Fixed, AddressingMode::ZeroPage),
        0x67 => OpCode::new(0x67, "*RRA", 2, 5, CycleCalcMode::Fixed, AddressingMode::ZeroPage),
        0x68 => OpCode::new(0x68, "PLA", 1, 4, CycleCalcMode::Fixed, AddressingMode::Implied),
        0x69 => OpCode::new(0x69, "ADC", 2, 2, CycleCalcMode::Fixed, AddressingMode::Immediate),
        0x6A => OpCode::new(0x6A, "ROR", 1, 2, CycleCalcMode::Fixed, AddressingMode::Accumulator),
        0x6B => OpCode::new(0x6B, "*ARR", 2, 2, CycleCalcMode::Fixed, AddressingMode::Immediate),
        0x6C => OpCode::new(0x6C, "JMP", 3, 5, CycleCalcMode::Fixed, AddressingMode::Indirect),
        0x6D => OpCode::new(0x6D, "ADC", 3, 4, CycleCalcMode::Fixed, AddressingMode::Absolute),
        0x6E => OpCode::new(0x6E, "ROR", 3, 6, CycleCalcMode::Fixed, AddressingMode::Absolute),
        0x6F => OpCode::new(0x6F, "*RRA", 3, 6, CycleCalcMode::Fixed, AddressingMode::Absolute),
        0x70 => OpCode::new(0x70, "BVS", 2, 2, CycleCalcMode::Branch, AddressingMode::Relative),
        0x71 => OpCode::new(0x71, "ADC", 2, 5, CycleCalcMode::Page, AddressingMode::Indirect_Y),
        0x72 => OpCode::new(0x72, "*JAM", 1, 2, CycleCalcMode::Fixed, AddressingMode::Implied),
        0x73 => OpCode::new(0x73, "*RRA", 2, 8, CycleCalcMode::Fixed, AddressingMode::Indirect_Y),
        0x74 => OpCode::new(0x74, "*NOP", 2, 4, CycleCalcMode::Fixed, AddressingMode::ZeroPage_X),
        0x75 => OpCode::new(0x75, "ADC", 2, 4, CycleCalcMode::Fixed, AddressingMode::ZeroPage_X),
        0x76 => OpCode::new(0x76, "ROR", 2, 6, CycleCalcMode::Fixed, AddressingMode::ZeroPage_X),
        0x77 => OpCode::new(0x77, "*RRA", 2, 6, CycleCalcMode::Fixed, AddressingMode::ZeroPage_X),
        0x78 => OpCode::new(0x78, "SEI", 1, 2, CycleCalcMode::Fixed, AddressingMode::Implied),
        0x79 => OpCode::new(0x79, "ADC", 3, 4, CycleCalcMode::Page, AddressingMode::Absolute_Y),
        0x7A => OpCode::new(0x7A, "*NOP", 1, 2, CycleCalcMode::Fixed, AddressingMode::Implied),
        0x7B => OpCode::new(0x7B, "*RRA", 3, 7, CycleCalcMode::Fixed, AddressingMode::Absolute_Y),
        0x7C => OpCode::new(0x7C, "*NOP", 3, 4, CycleCalcMode::Page, AddressingMode::Absolute_X),
        0x7D => OpCode::new(0x7D, "ADC", 3, 4, CycleCalcMode::Page, AddressingMode::Absolute_X),
        0x7E => OpCode::new(0x7E, "ROR", 3, 7, CycleCalcMode::Fixed, AddressingMode::Absolute_X),
        0x7F => OpCode::new(0x7F, "*RRA", 3, 7, CycleCalcMode::Fixed, AddressingMode::Absolute_X),
        _ => OpCode::new(code, "*JAM", 1, 2, CycleCalcMode::Fixed, AddressingMode::Implied),
    }
}

/// The entries of the opcodes $80 to $BF.
fn op_code_row_2(code: u8) -> (r: OpCode)
    requires
        0x80 <= code <= 0xBF,
    ensures
        op_entry_ok(r, code),
        r.code == code,
        r.bytes == 1 + args_needed(r.addressing_mode),
        !(r.addressing_mode is NoneAddressing),
{
    match code {
        0x80 => OpCode::new(0x80, "*NOP", 2, 2, CycleCalcMode::Fixed, AddressingMode::Immediate),
        0x81 => OpCode::new(0x81, "STA", 2, 6, CycleCalcMode::Fixed, AddressingMode::Indirect_X),
        0x82 => OpCode::new(0x82, "*NOP", 2, 2, CycleCalcMode::Fixed, AddressingMode::Immediate),
        0x83 => OpCode::new(0x83, "*SAX", 2, 6, CycleCalcMode::Fixed, AddressingMode::Indirect_X),
        0x84 => OpCode::new(0x84, "STY", 2, 3, CycleCalcMode::Fixed, AddressingMode::ZeroPage),
        0x85 => OpCode::new(0x85, "STA", 2, 3, CycleCalcMode::Fixed, AddressingMode::ZeroPage),
        0x86 => OpCode::new(0x86, "STX", 2, 3, CycleCalcMode::Fixed, AddressingMode::ZeroPage),
        0x87 => OpCode::new(0x87, "*SAX", 2, 3, CycleCalcMode::Fixed, AddressingMode::ZeroPage),
        0x88 => OpCode::new(0x88, "DEY", 1, 2, CycleCalcMode::Fixed, AddressingMode::Implied),
        0x89 => OpCode::new(0x89, "*NOP", 2, 2, CycleCalcMode::Fixed, AddressingMode::Immediate),
        0x8A => OpCode::new(0x8A, "TXA", 1, 2, CycleCalcMode::Fixed, AddressingMode::Implied),
        0x8B => OpCode::new(0x8B, "*ANE", 2, 2, CycleCalcMode::Fixed, AddressingMode::Immediate),
        0x8C => OpCode::new(0x8C, "STY", 3, 4, CycleCalcMode::Fixed, AddressingMode::Absolute),
        0x8D => OpCode::new(0x8D, "STA", 3, 4, CycleCalcMode::Fixed, AddressingMode::Absolute),
        0x8E => OpCode::new(0x8E, "STX", 3, 4, CycleCalcMode::Fixed, AddressingMode::Absolute),
        0x8F => OpCode::new(0x8F, "*SAX", 3, 4, CycleCalcMode::Fixed, AddressingMode::Absolute),
        0x90 => OpCode::new(0x90, "BCC", 2, 2, CycleCalcMode::Branch, AddressingMode::Relative),
        0x91 => OpCode::new(0x91, "STA", 2, 6, CycleCalcMode::Fixed, AddressingMode::Indirect_Y),
        0x92 => OpCode::new(0x92, "*JAM", 1, 2, CycleCalcMode::Fixed, AddressingMode::Implied),
        0x93 => OpCode::new(0x93, "*SHA", 2, 6, CycleCalcMode::Fixed, AddressingMode::Indirect_Y),
        0x94 => OpCode::new(0x94, "STY", 2, 4, CycleCalcMode::Fixed, AddressingMode::ZeroPage_X),
        0x95 => OpCode::new(0x95, "STA", 2, 4, CycleCalcMode::Fixed, AddressingMode::ZeroPage_X),
        0x96 => OpCode::new(0x96, "STX", 2, 4, CycleCalcMode::Fixed, AddressingMode::ZeroPage_Y),
        0x97 => OpCode::new(0x97, "*SAX", 2, 4, CycleCalcMode::Fixed, AddressingMode::ZeroPage_Y),
        0x98 => OpCode::new(0x98, "TYA", 1, 2, CycleCalcMode::Fixed, AddressingMode::Implied),
        0x99 => OpCode::new(0x99, "STA", 3, 5, CycleCalcMode::Fixed, AddressingMode::Absolute_Y),
        0x9A => OpCode::new(0x9A, "TXS", 1, 2, CycleCalcMode::Fixed, AddressingMode::Implied),
        0x9B => OpCode::new(0x9B, "*SHS", 3, 5, CycleCalcMode::Fixed, AddressingMode::Absolute_Y),
        0x9C => OpCode::new(0x9C, "*SHY", 3, 5, CycleCalcMode::Fixed, AddressingMode::Absolute_X),
        0x9D => OpCode::new(0x9D, "STA", 3, 5, CycleCalcMode::Fixed, AddressingMode::Absolute_X),
        0x9E => OpCode::new(0x9E, "*SHX", 3, 5, CycleCalcMode::Fixed, AddressingMode::Absolute_Y),
        0x9F => OpCode::new(0x9F, "*SHA", 3, 5, CycleCalcMode::Fixed, AddressingMode::Absolute_Y),
        0xA0 => OpCode::new(0xA0, "LDY", 2, 2, CycleCalcMode::Fixed, AddressingMode::Immediate),
        0xA1 => OpCode::new(0xA1, "LDA", 2, 6, CycleCalcMode::Fixed, AddressingMode::Indirect_X),
        0xA2 => OpCode::new(0xA2, "LDX", 2, 2, CycleCalcMode::Fixed, AddressingMode::Immediate),
        0xA3 => OpCode::new(0xA3, "*LAX", 2, 6, CycleCalcMode::Fixed, AddressingMode::Indirect_X),
        0xA4 => OpCode::new(0xA4, "LDY", 2, 3, CycleCalcMode::Fixed, AddressingMode::ZeroPage),
        0xA5 => OpCode::new(0xA5, "LDA", 2, 3, CycleCalcMode::Fixed, AddressingMode::ZeroPage),
        0xA6 => OpCode::new(0xA6, "LDX", 2, 3, CycleCalcMode::Fixed, AddressingMode::ZeroPage),
        0xA7 => OpCode::new(0xA7, "*LAX", 2, 3, CycleCalcMode::Fixed, AddressingMode::ZeroPage),
        0xA8 => OpCode::new(0xA8, "TAY", 1, 2, CycleCalcMode::Fixed, AddressingMode::Implied),
        0xA9 => OpCode::new(0xA9, "LDA", 2, 2, CycleCalcMode::Fixed, AddressingMode::Immediate),
        0xAA => OpCode::new(0xAA, "TAX", 1, 2, CycleCalcMode::Fixed, AddressingMode::Implied),
        0xAB => OpCode::new(0xAB, "*LXA", 2, 2, CycleCalcMode::Fixed, AddressingMode::Immediate),
        0xAC => OpCode::new(0xAC, "LDY", 3, 4, CycleCalcMode::Fixed, AddressingMode::Absolute),
        0xAD => OpCode::new(0xAD, "LDA", 3, 4, CycleCalcMode::Fixed, AddressingMode::Absolute),
        0xAE => OpCode::new(0xAE, "LDX", 3, 4, CycleCalcMode::Fixed, AddressingMode::Absolute),
        0xAF => OpCode::new(0xAF, "*LAX", 3, 4, CycleCalcMode::Fixed, AddressingMode::Absolute),
        0xB0 => OpCode::new(0xB0, "BCS", 2, 2, CycleCalcMode::Branch, AddressingMode::Relative),
        0xB1 => OpCode::new(0xB1, "LDA", 2, 5, CycleCalcMode::Page, AddressingMode::Indirect_Y),
        0xB2 => OpCode::new(0xB2, "*JAM", 1, 2, CycleCalcMode::Fixed, AddressingMode::Implied),
        0xB3 => OpCode::new(0xB3, "*LAX", 2, 5, CycleCalcMode::Page, AddressingMode::Indirect_Y),
        0xB4 => OpCode::new(0xB4, "LDY", 2, 4, CycleCalcMode::Fixed, AddressingMode::ZeroPage_X),
        0xB5 => OpCode::new(0xB5, "LDA", 2, 4, CycleCalcMode::Fixed, AddressingMode::ZeroPage_X),
        0xB6 => OpCode::new(0xB6, "LDX", 2, 4, CycleCalcMode::Fixed, AddressingMode::ZeroPage_Y),
        0xB7 => OpCode::new(0xB7, "*LAX", 2, 4, CycleCalcMode::Fixed, AddressingMode::ZeroPage_Y),
        0xB8 => OpCode::new(0xB8, "CLV", 1, 2, CycleCalcMode::Fixed, AddressingMode::Implied),
        0xB9 => OpCode::new(0xB9, "LDA", 3, 4, CycleCalcMode::Page, AddressingMode::Absolute_Y),
        0xBA => OpCode::new(0xBA, "TSX", 1, 2, CycleCalcMode::Fixed, AddressingMode::Implied),
        0xBB => OpCode::new(0xBB, "*LAE", 3, 4, CycleCalcMode::Page, AddressingMode::Absolute_Y),
        0xBC => OpCode::new(0xBC, "LDY", 3, 4, CycleCalcMode::Page, AddressingMode::Absolute_X),
        0xBD => OpCode::new(0xBD, "LDA", 3, 4, CycleCalcMode::Page, AddressingMode::Absolute_X),
        0xBE => OpCode::new(0xBE, "LDX", 3, 4, CycleCalcMode::Page, AddressingMode::Absolute_Y),
        0xBF => OpCode::new(0xBF, "*LAX", 3, 4, CycleCalcMode::Page, AddressingMode::Absolute_Y),
        _ => OpCode::new(code, "*JAM", 1, 2, CycleCalcMode::Fixed, AddressingMode::Implied),
    }
}

/// The entries of the opcodes $C0 to $FF.
fn op_code_row_3(code: u8) -> (r: OpCode)
    requires
        0xC0 <= code <= 0xFF,
    ensures
        op_entry_ok(r, code),
        r.code == code,
        r.bytes == 1 + args_needed(r.addressing_mode),
        !(r.addressing_mode is NoneAddressing),
{
    match code {
        0xC0 => OpCode::new(0xC0, "CPY", 2, 2, CycleCalcMode::Fixed, AddressingMode::Immediate),
        0xC1 => OpCode::new(0xC1, "CMP", 2, 6, CycleCalcMode::Fixed, AddressingMode::Indirect_X),
        0xC2 => OpCode::new(0xC2, "*NOP", 2, 2, CycleCalcMode::Fixed, AddressingMode::Immediate),
        0xC3 => OpCode::new(0xC3, "*DCP", 2, 8, CycleCalcMode::Fixed, AddressingMode::Indirect_X),
        0xC4 => OpCode::new(0xC4, "CPY", 2, 3, CycleCalcMode::Fixed, AddressingMode::ZeroPage),
        0xC5 => OpCode::new(0xC5, "CMP", 2, 3, CycleCalcMode::Fixed, AddressingMode::ZeroPage),
        0xC6 => OpCode::new(0xC6, "DEC", 2, 5, CycleCalcMode::Fixed, AddressingMode::ZeroPage),
        0xC7 => OpCode::new(0xC7, "*DCP", 2, 5, CycleCalcMode::Fixed, AddressingMode::ZeroPage),
        0xC8 => OpCode::new(0xC8, "INY", 1, 2, CycleCalcMode::Fixed, AddressingMode::Implied),
        0xC9 => OpCode::new(0xC9, "CMP", 2, 2, CycleCalcMode::Fixed, AddressingMode::Immediate),
        0xCA => OpCode::new(0xCA, "DEX", 1, 2, CycleCalcMode::Fixed, AddressingMode::Implied),
        0xCB => OpCode::new(0xCB, "*SBX", 2, 2, CycleCalcMode::Fixed, AddressingMode::Immediate),
        0xCC => OpCode::new(0xCC, "CPY", 3, 4, CycleCalcMode::Fixed, AddressingMode::Absolute),
        0xCD => OpCode::new(0xCD, "CMP", 3, 4, CycleCalcMode::Fixed, AddressingMode::Absolute),
        0xCE => OpCode::new(0xCE, "DEC", 3, 6, CycleCalcMode::Fixed, AddressingMode::Absolute),
        0xCF => OpCode::new(0xCF, "*DCP", 3, 6, CycleCalcMode::Fixed, AddressingMode::Absolute),
        0xD0 => OpCode::new(0xD0, "BNE", 2, 2, CycleCalcMode::Branch, AddressingMode::Relative),
        0xD1 => OpCode::new(0xD1, "CMP", 2, 5, CycleCalcMode::Page, AddressingMode::Indirect_Y),
        0xD2 => OpCode::new(0xD2, "*JAM", 1, 2, CycleCalcMode::Fixed, AddressingMode::Implied),
        0xD3 => OpCode::new(0xD3, "*DCP", 2, 8, CycleCalcMode::Fixed, AddressingMode::Indirect_Y),
        0xD4 => OpCode::new(0xD4, "*NOP", 2, 4, CycleCalcMode::Fixed, AddressingMode::ZeroPage_X),
        0xD5 => OpCode::new(0xD5, "CMP", 2, 4, CycleCalcMode::Fixed, AddressingMode::ZeroPage_X),
        0xD6 => OpCode::new(0xD6, "DEC", 2, 6, CycleCalcMode::Fixed, AddressingMode::ZeroPage_X),
        0xD7 => OpCode::new(0xD7, "*DCP", 2, 6, CycleCalcMode::Fixed, AddressingMode::ZeroPage_X),
        0xD8 => OpCode::new(0xD8, "CLD", 1, 2, CycleCalcMode::Fixed, AddressingMode::Implied),
        0xD9 => OpCode::new(0xD9, "CMP", 3, 4, CycleCalcMode::Page, AddressingMode::Absolute_Y),
        0xDA => OpCode::new(0xDA, "*NOP", 1, 2, CycleCalcMode::Fixed, AddressingMode::Implied),
        0xDB => OpCode::new(0xDB, "*DCP", 3, 7, CycleCalcMode::Fixed, AddressingMode::Absolute_Y),
        0xDC => OpCode::new(0xDC, "*NOP", 3, 4, CycleCalcMode::Page, AddressingMode::Absolute_X),
        0xDD => OpCode::new(0xDD, "CMP", 3, 4, CycleCalcMode::Page, AddressingMode::Absolute_X),
        0xDE => OpCode::new(0xDE, "DEC", 3, 7, CycleCalcMode::Fixed, AddressingMode::Absolute_X),
        0xDF => OpCode::new(0xDF, "*DCP", 3, 7, CycleCalcMode::Fixed, AddressingMode::Absolute_X),
        0xE0 => OpCode::new(0xE0, "CPX", 2, 2, CycleCalcMode::Fixed, AddressingMode::Immediate),
        0xE1 => OpCode::new(0xE1, "SBC", 2, 6, CycleCalcMode::Fixed, AddressingMode::Indirect_X),
        0xE2 => OpCode::new(0xE2, "*NOP", 2, 2, CycleCalcMode::Fixed, AddressingMode::Immediate),
        0xE3 => OpCode::new(0xE3, "*ISB", 2, 8, CycleCalcMode::Fixed, AddressingMode::Indirect_X),
        0xE4 => OpCode::new(0xE4, "CPX", 2, 3, CycleCalcMode::Fixed, AddressingMode::ZeroPage),
        0xE5 => OpCode::new(0xE5, "SBC", 2, 3, CycleCalcMode::Fixed, AddressingMode::ZeroPage),
        0xE6 => OpCode::new(0xE6, "INC", 2, 5, CycleCalcMode::Fixed, AddressingMode::ZeroPage),
        0xE7 => OpCode::new(0xE7, "*ISB", 2, 5, CycleCalcMode::Fixed, AddressingMode::ZeroPage),
        0xE8 => OpCode::new(0xE8, "INX", 1, 2, CycleCalcMode::Fixed, AddressingMode::Implied),
        0xE9 => OpCode::new(0xE9, "SBC", 2, 2, CycleCalcMode::Fixed, AddressingMode::Immediate),
        0xEA => OpCode::new(0xEA, "NOP", 1, 2, CycleCalcMode::Fixed, AddressingMode::Implied),
        0xEB => OpCode::new(0xEB, "*SBC", 2, 2, CycleCalcMode::Fixed, AddressingMode::Immediate),
        0xEC => OpCode::new(0xEC, "CPX", 3, 4, CycleCalcMode::Fixed, AddressingMode::Absolute),
        0xED => OpCode::new(0xED, "SBC", 3, 4, CycleCalcMode::Fixed, AddressingMode::Absolute),
        0xEE => OpCode::new(0xEE, "INC", 3, 6, CycleCalcMode::Fixed, AddressingMode::Absolute),
        0xEF => OpCode::new(0xEF, "*ISB", 3, 6, CycleCalcMode::Fixed, AddressingMode::Absolute),
        0xF0 => OpCode::new(0xF0, "BEQ", 2, 2, CycleCalcMode::Branch, AddressingMode::Relative),
        0xF1 => OpCode::new(0xF1, "SBC", 2, 5, CycleCalcMode::Page, AddressingMode::Indirect_Y),
        0xF2 => OpCode::new(0xF2, "*JAM", 1, 2, CycleCalcMode::Fixed, AddressingMode::Implied),
        0xF3 => OpCode::new(0xF3, "*ISB", 2, 8, CycleCalcMode::Fixed, AddressingMode::Indirect_Y),
        0xF4 => OpCode::new(0xF4, "*NOP", 2, 4, CycleCalcMode::Fixed, AddressingMode::ZeroPage_X),
        0xF5 => OpCode::new(0xF5, "SBC", 2, 4, CycleCalcMode::Fixed, AddressingMode::ZeroPage_X),
        0xF6 => OpCode::new(0xF6, "INC", 2, 6, CycleCalcMode::Fixed, AddressingMode::ZeroPage_X),
        0xF7 => OpCode::new(0xF7, "*ISB", 2, 6, CycleCalcMode::Fixed, AddressingMode::ZeroPage_X),
        0xF8 => OpCode::new(0xF8, "SED", 1, 2, CycleCalcMode::Fixed, AddressingMode::Implied),
        0xF9 => OpCode::new(0xF9, "SBC", 3, 4, CycleCalcMode::Page, AddressingMode::Absolute_Y),
        0xFA => OpCode::new(0xFA, "*NOP", 1, 2, CycleCalcMode::Fixed, AddressingMode::Implied),
        0xFB => OpCode::new(0xFB, "*ISB", 3, 7, CycleCalcMode::Fixed, AddressingMode::Absolute_Y),
        0xFC => OpCode::new(0xFC, "*NOP", 3, 4, CycleCalcMode::Page, AddressingMode::Absolute_X),
        0xFD => OpCode::new(0xFD, "SBC", 3, 4, CycleCalcMode::Page, AddressingMode::Absolute_X),
        0xFE => OpCode::new(0xFE, "INC", 3, 7, CycleCalcMode::Fixed, AddressingMode::Absolute_X),
        0xFF => OpCode::new(0xFF, "*ISB", 3, 7, CycleCalcMode::Fixed, AddressingMode::Absolute_X),
        _ => OpCode::new(code, "*JAM", 1, 2, CycleCalcMode::Fixed, AddressingMode::Implied),
    }
}

/// The instruction table: the entry of each opcode, in the order of the codes.
pub fn cpu_ops_codes() -> (r: Vec<OpCode>)
    ensures
        r@.len() == 256,
        forall|i: int| 0 <= i < 256 ==> op_entry_ok(#[trigger] r@[i], i as u8),
        forall|i: int| 0 <= i < 256 ==> (#[trigger] r@[i]).code == i,
        forall|i: int|
            0 <= i < 256 ==> (#[trigger] r@[i]).bytes == 1 + args_needed(r@[i].addressing_mode),
{
    let mut r: Vec<OpCode> = Vec::new();
    let mut code: u16 = 0;
    while code < 256
        invariant
            code <= 256,
            r@.len() == code,
            forall|i: int| 0 <= i < code ==> op_entry_ok(#[trigger] r@[i], i as u8),
            forall|i: int| 0 <= i < code ==> (#[trigger] r@[i]).code == i,
            forall|i: int|
                0 <= i < code ==> (#[trigger] r@[i]).bytes == 1 + args_needed(
                    r@[i].addressing_mode,
                ),
        decreases 256 - code,
    {
        r.push(op_code(code as u8));
        code += 1;
    }
    r
}

/// The letters of the mnemonics, so that any two of them can be told apart.
proof fn lemma_mnemonic_letters()
    ensures
        "ADC"@[0] == 'A' && "ADC"@[1] == 'D' && "ADC"@[2] == 'C',
        "ANC"@[0] == 'A' && "ANC"@[1] == 'N' && "ANC"@[2] == 'C',
        "AND"@[0] == 'A' && "AND"@[1] == 'N' && "AND"@[2] == 'D',
        "ANE"@[0] == 'A' && "ANE"@[1] == 'N' && "ANE"@[2] == 'E',
        "ARR"@[0] == 'A' && "ARR"@[1] == 'R' && "ARR"@[2] == 'R',
        "ASL"@[0] == 'A' && "ASL"@[1] == 'S' && "ASL"@[2] == 'L',
        "ASR"@[0] == 'A' && "ASR"@[1] == 'S' && "ASR"@[2] == 'R',
        "BCC"@[0] == 'B' && "BCC"@[1] == 'C' && "BCC"@[2] == 'C',
        "BCS"@[0] == 'B' && "BCS"@[1] == 'C' && "BCS"@[2] == 'S',
        "BEQ"@[0] == 'B' && "BEQ"@[1] == 'E' && "BEQ"@[2] == 'Q',
        "BIT"@[0] == 'B' && "BIT"@[1] == 'I' && "BIT"@[2] == 'T',
        "BMI"@[0] == 'B' && "BMI"@[1] == 'M' && "BMI"@[2] == 'I',
        "BNE"@[0] == 'B' && "BNE"@[1] == 'N' && "BNE"@[2] == 'E',
        "BPL"@[0] == 'B' && "BPL"@[1] == 'P' && "BPL"@[2] == 'L',
        "BRK"@[0] == 'B' && "BRK"@[1] == 'R' && "BRK"@[2] == 'K',
        "BVC"@[0] == 'B' && "BVC"@[1] == 'V' && "BVC"@[2] == 'C',
        "BVS"@[0] == 'B' && "BVS"@[1] == 'V' && "BVS"@[2] == 'S',
        "CLC"@[0] == 'C' && "CLC"@[1] == 'L' && "CLC"@[2] == 'C',
        "CLD"@[0] == 'C' && "CLD"@[1] == 'L' && "CLD"@[2] == 'D',
        "CLI"@[0] == 'C' && "CLI"@[1] == 'L' && "CLI"@[2] == 'I',
        "CLV"@[0] == 'C' && "CLV"@[1] == 'L' && "CLV"@[2] == 'V',
        "CMP"@[0] == 'C' && "CMP"@[1] == 'M' && "CMP"@[2] == 'P',
        "CPX"@[0] == 'C' && "CPX"@[1] == 'P' && "CPX"@[2] == 'X',
        "CPY"@[0] == 'C' && "CPY"@[1] == 'P' && "CPY"@[2] == 'Y',
        "DCP"@[0] == 'D' && "DCP"@[1] == 'C' && "DCP"@[2] == 'P',
        "DEC"@[0] == 'D' && "DEC"@[1] == 'E' && "DEC"@[2] == 'C',
        "DEX"@[0] == 'D' && "DEX"@[1] == 'E' && "DEX"@[2] == 'X',
        "DEY"@[0] == 'D' && "DEY"@[1] == 'E' && "DEY"@[2] == 'Y',
        "EOR"@[0] == 'E' && "EOR"@[1] == 'O' && "EOR"@[2] == 'R',
        "INC"@[0] == 'I' && "INC"@[1] == 'N' && "INC"@[2] == 'C',
        "INX"@[0] == 'I' && "INX"@[1] == 'N' && "INX"@[2] == 'X',
        "INY"@[0] == 'I' && "INY"@[1] == 'N' && "INY"@[2] == 'Y',
        "ISB"@[0] == 'I' && "ISB"@[1] == 'S' && "ISB"@[2] == 'B',
        "JAM"@[0] == 'J' && "JAM"@[1] == 'A' && "JAM"@[2] == 'M',
        "JMP"@[0] == 'J' && "JMP"@[1] == 'M' && "JMP"@[2] == 'P',
        "JSR"@[0] == 'J' && "JSR"@[1] == 'S' && "JSR"@[2] == 'R',
        "LAE"@[0] == 'L' && "LAE"@[1] == 'A' && "LAE"@[2] == 'E',
        "LAX"@[0] == 'L' && "LAX"@[1] == 'A' && "LAX"@[2] == 'X',
        "LDA"@[0] == 'L' && "LDA"@[1] == 'D' && "LDA"@[2] == 'A',
        "LDX"@[0] == 'L' && "LDX"@[1] == 'D' && "LDX"@[2] == 'X',
        "LDY"@[0] == 'L' && "LDY"@[1] == 'D' && "LDY"@[2] == 'Y',
        "LSR"@[0] == 'L' && "LSR"@[1] == 'S' && "LSR"@[2] == 'R',
        "LXA"@[0] == 'L' && "LXA"@[1] == 'X' && "LXA"@[2] == 'A',
        "NOP"@[0] == 'N' && "NOP"@[1] == 'O' && "NOP"@[2] == 'P',
        "ORA"@[0] == 'O' && "ORA"@[1] == 'R' && "ORA"@[2] == 'A',
        "PHA"@[0] == 'P' && "PHA"@[1] == 'H' && "PHA"@[2] == 'A',
        "PHP"@[0] == 'P' && "PHP"@[1] == 'H' && "PHP"@[2] == 'P',
        "PLA"@[0] == 'P' && "PLA"@[1] == 'L' && "PLA"@[2] == 'A',
        "PLP"@[0] == 'P' && "PLP"@[1] == 'L' && "PLP"@[2] == 'P',
        "RLA"@[0] == 'R' && "RLA"@[1] == 'L' && "RLA"@[2] == 'A',
        "ROL"@[0] == 'R' && "ROL"@[1] == 'O' && "ROL"@[2] == 'L',
        "ROR"@[0] == 'R' && "ROR"@[1] == 'O' && "ROR"@[2] == 'R',
        "RRA"@[0] == 'R' && "RRA"@[1] == 'R' && "RRA"@[2] == 'A',
        "RTI"@[0] == 'R' && "RTI"@[1] == 'T' && "RTI"@[2] == 'I',
        "RTS"@[0] == 'R' && "RTS"@[1] == 'T' && "RTS"@[2] == 'S',
        "SAX"@[0] == 'S' && "SAX"@[1] == 'A' && "SAX"@[2] == 'X',
        "SBC"@[0] == 'S' && "SBC"@[1] == 'B' && "SBC"@[2] == 'C',
        "SBX"@[0] == 'S' && "SBX"@[1] == 'B' && "SBX"@[2] == 'X',
        "SEC"@[0] == 'S' && "SEC"@[1] == 'E' && "SEC"@[2] == 'C',
        "SED"@[0] == 'S' && "SED"@[1] == 'E' && "SED"@[2] == 'D',
        "SEI"@[0] == 'S' && "SEI"@[1] == 'E' && "SEI"@[2] == 'I',
        "SHA"@[0] == 'S' && "SHA"@[1] == 'H' && "SHA"@[2] == 'A',
        "SHS"@[0] == 'S' && "SHS"@[1] == 'H' && "SHS"@[2] == 'S',
        "SHX"@[0] == 'S' && "SHX"@[1] == 'H' && "SHX"@[2] == 'X',
        "SHY"@[0] == 'S' && "SHY"@[1] == 'H' && "SHY"@[2] == 'Y',
        "SLO"@[0] == 'S' && "SLO"@[1] == 'L' && "SLO"@[2] == 'O',
        "SRE"@[0] == 'S' && "SRE"@[1] == 'R' && "SRE"@[2] == 'E',
        "STA"@[0] == 'S' && "STA"@[1] == 'T' && "STA"@[2] == 'A',
        "STX"@[0] == 'S' && "STX"@[1] == 'T' && "STX"@[2] == 'X',
        "STY"@[0] == 'S' && "STY"@[1] == 'T' && "STY"@[2] == 'Y',
        "TAX"@[0] == 'T' && "TAX"@[1] == 'A' && "TAX"@[2] == 'X',
        "TAY"@[0] == 'T' && "TAY"@[1] == 'A' && "TAY"@[2] == 'Y',
        "TSX"@[0] == 'T' && "TSX"@[1] == 'S' && "TSX"@[2] == 'X',
        "TXA"@[0] == 'T' && "TXA"@[1] == 'X' && "TXA"@[2] == 'A',
        "TXS"@[0] == 'T' && "TXS"@[1] == 'X' && "TXS"@[2] == 'S',
        "TYA"@[0] == 'T' && "TYA"@[1] == 'Y' && "TYA"@[2] == 'A',
{
    reveal_strlit("ADC");
    reveal_strlit("ANC");
    reveal_strlit("AND");
    reveal_strlit("ANE");
    reveal_strlit("ARR");
    reveal_strlit("ASL");
    reveal_strlit("ASR");
    reveal_strlit("BCC");
    reveal_strlit("BCS");
    reveal_strlit("BEQ");
    reveal_strlit("BIT");
    reveal_strlit("BMI");
    reveal_strlit("BNE");
    reveal_strlit("BPL");
    reveal_strlit("BRK");
    reveal_strlit("BVC");
    reveal_strlit("BVS");
    reveal_strlit("CLC");
    reveal_strlit("CLD");
    reveal_strlit("CLI");
    reveal_strlit("CLV");
    reveal_strlit("CMP");
    reveal_strlit("CPX");
    reveal_strlit("CPY");
    reveal_strlit("DCP");
    reveal_strlit("DEC");
    reveal_strlit("DEX");
    reveal_strlit("DEY");
    reveal_strlit("EOR");
    reveal_strlit("INC");
    reveal_strlit("INX");
    reveal_strlit("INY");
    reveal_strlit("ISB");
    reveal_strlit("JAM");
    reveal_strlit("JMP");
    reveal_strlit("JSR");
    reveal_strlit("LAE");
    reveal_strlit("LAX");
    reveal_strlit("LDA");
    reveal_strlit("LDX");
    reveal_strlit("LDY");
    reveal_strlit("LSR");
    reveal_strlit("LXA");
    reveal_strlit("NOP");
    reveal_strlit("ORA");
    reveal_strlit("PHA");
    reveal_strlit("PHP");
    reveal_strlit("PLA");
    reveal_strlit("PLP");
    reveal_strlit("RLA");
    reveal_strlit("ROL");
    reveal_strlit("ROR");
    reveal_strlit("RRA");
    reveal_strlit("RTI");
    reveal_strlit("RTS");
    reveal_strlit("SAX");
    reveal_strlit("SBC");
    reveal_strlit("SBX");
    reveal_strlit("SEC");
    reveal_strlit("SED");
    reveal_strlit("SEI");
    reveal_strlit("SHA");
    reveal_strlit("SHS");
    reveal_strlit("SHX");
    reveal_strlit("SHY");
    reveal_strlit("SLO");
    reveal_strlit("SRE");
    reveal_strlit("STA");
    reveal_strlit("STX");
    reveal_strlit("STY");
    reveal_strlit("TAX");
    reveal_strlit("TAY");
    reveal_strlit("TSX");
    reveal_strlit("TXA");
    reveal_strlit("TXS");
    reveal_strlit("TYA");
}

/// The instructions ADC, ANC, AND, ANE, ARR, ASL, ASR, BCC, BCS, BEQ, by name.
pub proof fn law_dispatch_group_0(s: CpuState, mode: AddressingMode)
    ensures
        instruction_next(s, "ADC"@, mode) == adc_next(s, mode),
        instruction_next(s, "ANC"@, mode) == s,
        instruction_next(s, "AND"@, mode) == and_next(s, mode),
        instruction_next(s, "ANE"@, mode) == and_next(txa_next(s), mode),
        instruction_next(s, "ARR"@, mode) == s,
        instruction_next(s, "ASL"@, mode) == shift_next(s, mode, Shift::Asl),
        instruction_next(s, "ASR"@, mode) == s,
        instruction_next(s, "BCC"@, mode) == branch_next(s, mode, FLAG_CARRY, false),
        instruction_next(s, "BCS"@, mode) == branch_next(s, mode, FLAG_CARRY, true),
        instruction_next(s, "BEQ"@, mode) == branch_next(s, mode, FLAG_ZERO, true),
{
    reveal(group_0_next);
    lemma_mnemonic_letters();
}

/// The instructions BIT, BMI, BNE, BPL, BRK, BVC, BVS, CLC, CLD, CLI, by name.
pub proof fn law_dispatch_group_1(s: CpuState, mode: AddressingMode)
    ensures
        instruction_next(s, "BIT"@, mode) == bit_next(s, mode),
        instruction_next(s, "BMI"@, mode) == branch_next(s, mode, FLAG_NEGATIVE, true),
        instruction_next(s, "BNE"@, mode) == branch_next(s, mode, FLAG_ZERO, false),
        instruction_next(s, "BPL"@, mode) == branch_next(s, mode, FLAG_NEGATIVE, false),
        instruction_next(s, "BRK"@, mode) == brk_next(s),
        instruction_next(s, "BVC"@, mode) == branch_next(s, mode, FLAG_OVERFLOW, false),
        instruction_next(s, "BVS"@, mode) == branch_next(s, mode, FLAG_OVERFLOW, true),
        instruction_next(s, "CLC"@, mode) == flag_next(s, FLAG_CARRY, false),
        instruction_next(s, "CLD"@, mode) == flag_next(s, FLAG_DECIMAL, false),
        instruction_next(s, "CLI"@, mode) == flag_next(s, FLAG_INTERRRUPT, false),
{
    reveal(group_1_next);
    lemma_mnemonic_letters();
}

/// The instructions CLV, CMP, CPX, CPY, DCP, DEC, DEX, DEY, EOR, INC, by name.
pub proof fn law_dispatch_group_2(s: CpuState, mode: AddressingMode)
    ensures
        instruction_next(s, "CLV"@, mode) == flag_next(s, FLAG_OVERFLOW, false),
        instruction_next(s, "CMP"@, mode) == compare_next(s, mode, s.a),
        instruction_next(s, "CPX"@, mode) == compare_next(s, mode, s.x),
        instruction_next(s, "CPY"@, mode) == compare_next(s, mode, s.y),
        instruction_next(s, "DCP"@, mode) == { let t = step_memory_next(s, mode, -1); compare_next(t, mode, t.a) },
        instruction_next(s, "DEC"@, mode) == step_memory_next(s, mode, -1),
        instruction_next(s, "DEX"@, mode) == dex_next(s),
        instruction_next(s, "DEY"@, mode) == dey_next(s),
        instruction_next(s, "EOR"@, mode) == eor_next(s, mode),
        instruction_next(s, "INC"@, mode) == step_memory_next(s, mode, 1),
{
    reveal(group_2_next);
    lemma_mnemonic_letters();
}

/// The instructions INX, INY, ISB, JAM, JMP, JSR, LAE, LAX, LDA, LDX, by name.
pub proof fn law_dispatch_group_3(s: CpuState, mode: AddressingMode)
    ensures
        instruction_next(s, "INX"@, mode) == inx_next(s),
        instruction_next(s, "INY"@, mode) == iny_next(s),
        instruction_next(s, "ISB"@, mode) == sbc_next(step_memory_next(s, mode, 1), mode),
        instruction_next(s, "JAM"@, mode) == (CpuState { pc: (s.pc - 1) as u16, ..s }),
        instruction_next(s, "JMP"@, mode) == jmp_next(s, mode),
        instruction_next(s, "JSR"@, mode) == jsr_next(s, mode),
        instruction_next(s, "LAE"@, mode) == lae_next(s, mode),
        instruction_next(s, "LAX"@, mode) == tax_next(lda_next(s, mode)),
        instruction_next(s, "LDA"@, mode) == lda_next(s, mode),
        instruction_next(s, "LDX"@, mode) == ldx_next(s, mode),
{
    reveal(group_3_next);
    lemma_mnemonic_letters();
}

/// The instructions LDY, LSR, LXA, NOP, ORA, PHA, PHP, PLA, PLP, RLA, by name.
pub proof fn law_dispatch_group_4(s: CpuState, mode: AddressingMode)
    ensures
        instruction_next(s, "LDY"@, mode) == ldy_next(s, mode),
        instruction_next(s, "LSR"@, mode) == shift_next(s, mode, Shift::Lsr),
        instruction_next(s, "LXA"@, mode) == s,
        instruction_next(s, "NOP"@, mode) == s,
        instruction_next(s, "ORA"@, mode) == ora_next(s, mode),
        instruction_next(s, "PHA"@, mode) == pha_next(s),
        instruction_next(s, "PHP"@, mode) == php_next(s),
        instruction_next(s, "PLA"@, mode) == pla_next(s),
        instruction_next(s, "PLP"@, mode) == plp_next(s),
        instruction_next(s, "RLA"@, mode) == and_next(shift_next(s, mode, Shift::Rol), mode),
{
    reveal(group_4_next);
    lemma_mnemonic_letters();
}

/// The instructions ROL, ROR, RRA, RTI, RTS, SAX, SBC, SBX, SEC, SED, by name.
pub proof fn law_dispatch_group_5(s: CpuState, mode: AddressingMode)
    ensures
        instruction_next(s, "ROL"@, mode) == shift_next(s, mode, Shift::Rol),
        instruction_next(s, "ROR"@, mode) == shift_next(s, mode, Shift::Ror),
        instruction_next(s, "RRA"@, mode) == adc_next(shift_next(s, mode, Shift::Ror), mode),
        instruction_next(s, "RTI"@, mode) == rti_next(s),
        instruction_next(s, "RTS"@, mode) == rts_next(s),
        instruction_next(s, "SAX"@, mode) == store_next(s, mode, s.a & s.x),
        instruction_next(s, "SBC"@, mode) == sbc_next(s, mode),
        instruction_next(s, "SBX"@, mode) == sbx_next(s, mode),
        instruction_next(s, "SEC"@, mode) == flag_next(s, FLAG_CARRY, true),
        instruction_next(s, "SED"@, mode) == flag_next(s, FLAG_DECIMAL, true),
{
    reveal(group_5_next);
    lemma_mnemonic_letters();
}

/// The instructions SEI, SHA, SHS, SHX, SHY, SLO, SRE, STA, STX, STY, by name.
pub proof fn law_dispatch_group_6(s: CpuState, mode: AddressingMode)
    ensures
        instruction_next(s, "SEI"@, mode) == flag_next(s, FLAG_INTERRRUPT, true),
        instruction_next(s, "SHA"@, mode) == s,
        instruction_next(s, "SHS"@, mode) == shs_next(s, mode),
        instruction_next(s, "SHX"@, mode) == sh_next(s, mode, s.x),
        instruction_next(s, "SHY"@, mode) == sh_next(s, mode, s.y),
        instruction_next(s, "SLO"@, mode) == ora_next(shift_next(s, mode, Shift::Asl), mode),
        instruction_next(s, "SRE"@, mode) == eor_next(shift_next(s, mode, Shift::Lsr), mode),
        instruction_next(s, "STA"@, mode) == store_next(s, mode, s.a),
        instruction_next(s, "STX"@, mode) == store_next(s, mode, s.x),
        instruction_next(s, "STY"@, mode) == store_next(s, mode, s.y),
{
    reveal(group_6_next);
    lemma_mnemonic_letters();
}

/// The instructions TAX, TAY, TSX, TXA, TXS, TYA, by name.
pub proof fn law_dispatch_group_7(s: CpuState, mode: AddressingMode)
    ensures
        instruction_next(s, "TAX"@, mode) == tax_next(s),
        instruction_next(s, "TAY"@, mode) == tay_next(s),
        instruction_next(s, "TSX"@, mode) == tsx_next(s),
        instruction_next(s, "TXA"@, mode) == txa_next(s),
        instruction_next(s, "TXS"@, mode) == txs_next(s),
        instruction_next(s, "TYA"@, mode) == tya_next(s),
{
    reveal(group_7_next);
    lemma_mnemonic_letters();
}

} // verus!
