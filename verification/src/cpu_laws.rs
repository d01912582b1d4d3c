//! Properties of the instruction set that span instructions or explain what
//! the bit-level definitions compute.
use vstd::prelude::*;
use crate::cpu::{
    lemma_carry_bit,
    CycleCalcMode,
    lemma_op_index, op_index_from, OpCode, AddressingMode, FLAG_BREAK, FLAG_BREAK2, FLAG_CARRY,
    FLAG_NEGATIVE, FLAG_OVERFLOW, FLAG_ZERO,
};
use crate::cpu_model::{
    adc_next, add16, add8, branch_next, branch_taken, compare_next, dex_next, dey_next, inx_next,
    iny_next, jsr_next, jsr_ok, nmi_next, rti_next, operand, operand_address, pha_next, php_next,
    pla_next, plp_next, pop, pop_u16, pop_u16_value, pop_value, pulled_status, push, push_u16,
    read_u16, rts_next, rts_ok, sbc_next, set_flag, shift_next, signed8, tax_next, txa_next, word, wr, zn_flags,
    CpuState, Shift,
};
use crate::opcode::{
    op_table_entry,
    call_next, call_ok, instruction_next, instruction_ok, mnemonic, in_group_0, in_group_1,
    in_group_2, in_group_3, group_3_ok, group_3_next, in_group_4, in_group_5, group_5_ok,
    group_5_next,
};

verus! {

/// Z is set exactly for a zero result and N exactly for a result with bit 7
/// set; the other status bits are kept.
pub proof fn law_zn_flags(status: u8, v: u8)
    ensures
        (zn_flags(status, v) & FLAG_ZERO != 0) == (v == 0),
        (zn_flags(status, v) & FLAG_NEGATIVE != 0) == (v >= 128),
        zn_flags(status, v) & 0x7D == status & 0x7D,
{
    let z = v == 0;
    let n = v & 0x80 != 0;
    assert((v & 0x80 != 0) == (v >= 128)) by (bit_vector);
    let s1 = set_flag(status, FLAG_ZERO, z);
    let s2 = set_flag(s1, FLAG_NEGATIVE, n);
    assert(s1 == (if z { status | 2 } else { status & !2u8 }));
    assert(s2 == (if n { s1 | 0x80 } else { s1 & !0x80u8 }));
    assert((s2 & 2 != 0) == z && s2 & 0x7D == status & 0x7D) by (bit_vector)
        requires
            s1 == (if z { status | 2 } else { status & !2u8 }),
            s2 == (if n { s1 | 0x80 } else { s1 & !0x80u8 }),
    ;
    assert((s2 & 0x80 != 0) == n) by (bit_vector)
        requires
            s2 == (if n { s1 | 0x80 } else { s1 & !0x80u8 }),
    ;
}

/// Two bytes that agree on the bits kept by `zn_flags` agree on C and V.
proof fn lemma_kept_bits(x: u8, y: u8)
    requires
        x & 0x7D == y & 0x7D,
    ensures
        (x & FLAG_CARRY != 0) == (y & FLAG_CARRY != 0),
        (x & FLAG_OVERFLOW != 0) == (y & FLAG_OVERFLOW != 0),
{
    assert((x & 1 != 0) == (y & 1 != 0) && (x & 0x40 != 0) == (y & 0x40 != 0)) by (bit_vector)
        requires
            x & 0x7D == y & 0x7D,
    ;
}

/// A pulled byte is the byte pushed last, and pulling restores the stack pointer.
pub proof fn law_push_pop(s: CpuState, v: u8)
    requires
        s.mem.len() == 0x10000,
    ensures
        pop_value(push(s, v)) == v,
        pop(push(s, v)) == (CpuState { mem: s.mem.update(0x100 + s.sp, v), ..s }),
{
}

/// A pulled word is the word pushed last, and pulling restores the stack pointer.
pub proof fn law_push_pop_u16(s: CpuState, v: u16)
    requires
        s.mem.len() == 0x10000,
    ensures
        pop_u16_value(push_u16(s, v)) == v,
        pop_u16(push_u16(s, v)).sp == s.sp,
{
    let hi = (v / 256) as u8;
    let lo = (v % 256) as u8;
    let t = push(s, hi);
    law_push_pop(s, hi);
    law_push_pop(t, lo);
    assert(pop_value(push(t, lo)) == lo);
    assert(pop(push(t, lo)).sp == t.sp);
    let u = pop(push(t, lo));
    assert(u.mem[0x100 + add8(u.sp, 1)] == hi);
}

/// A word written at `pos` reads back unchanged, except at $00FF and $02FF
/// where reads wrap within the page.
pub proof fn law_word_write_read(s: CpuState, pos: u16, data: u16)
    requires
        s.mem.len() == 0x10000,
        pos != 0xFFFF,
        pos != 0x00FF,
        pos != 0x02FF,
    ensures
        read_u16(
            wr(wr(s, pos, (data % 256) as u8), (pos + 1) as u16, (data / 256) as u8).mem,
            pos,
        ) == data,
{
}

/// PHP then PLP gives back the status with B cleared and bit 5 set, and the
/// stack pointer where it was.
pub proof fn law_php_plp(s: CpuState)
    requires
        s.mem.len() == 0x10000,
    ensures
        plp_next(php_next(s)).status == pulled_status(s.status),
        plp_next(php_next(s)).sp == s.sp,
{
    let v = s.status | FLAG_BREAK | FLAG_BREAK2;
    law_push_pop(s, v);
    let st = s.status;
    assert(((st | 0x10 | 0x20) & !0x10u8) | 0x20 == (st & !0x10u8) | 0x20) by (bit_vector);
}

/// PHA then PLA gives back the accumulator and the stack pointer.
pub proof fn law_pha_pla(s: CpuState)
    requires
        s.mem.len() == 0x10000,
    ensures
        pla_next(pha_next(s)).a == s.a,
        pla_next(pha_next(s)).sp == s.sp,
{
    law_push_pop(s, s.a);
}

/// RTS after JSR continues after the JSR's two operand bytes.
pub proof fn law_jsr_rts(s: CpuState, mode: AddressingMode)
    requires
        s.mem.len() == 0x10000,
        jsr_ok(s, mode),
    ensures
        rts_ok(jsr_next(s, mode)),
        rts_next(jsr_next(s, mode)).pc == s.pc + 2,
        rts_next(jsr_next(s, mode)).sp == s.sp,
{
    let t = jsr_next(s, mode);
    let ret = (s.pc + 1) as u16;
    let before = crate::cpu_model::after_operand(s, mode);
    law_push_pop_u16(before, ret);
    assert(pop_u16_value(t) == pop_u16_value(push_u16(before, ret)));
}

/// Returning with RTI straight from the NMI sequence resumes at the
/// interrupted instruction with the stack pointer back where it was; the
/// status comes back with B cleared and bit 5 set.
pub proof fn law_nmi_rti(s: CpuState)
    requires
        s.mem.len() == 0x10000,
    ensures
        rti_next(nmi_next(s)).pc == s.pc,
        rti_next(nmi_next(s)).sp == s.sp,
        rti_next(nmi_next(s)).status == pulled_status(s.status),
{
    let st = (s.status & !FLAG_BREAK) | FLAG_BREAK2;
    let w = push_u16(s, s.pc);
    let t = push(w, st);
    law_push_pop_u16(s, s.pc);
    law_push_pop(w, st);
    let n = nmi_next(s);
    assert(pop_value(n) == st);
    let after_status = CpuState { status: pulled_status(pop_value(n)), ..pop(n) };
    assert(after_status.mem == w.mem.update(0x100 + w.sp, st));
    assert(after_status.sp == w.sp);
    assert(pop_u16_value(after_status) == pop_u16_value(CpuState { mem: w.mem.update(
        0x100 + w.sp,
        st,
    ), ..w }));
    let x = s.status;
    assert(((((x & !0x10u8) | 0x20u8) & !0x10u8) | 0x20u8) == ((x & !0x10u8) | 0x20u8))
        by (bit_vector);
}

/// ROR on the accumulator undoes ROL on the accumulator: A and the carry
/// come back as they were.
pub proof fn law_rol_ror(s: CpuState)
    ensures
        ({
            let t = shift_next(shift_next(s, AddressingMode::Accumulator, Shift::Rol),
                AddressingMode::Accumulator, Shift::Ror);
            &&& t.a == s.a
            &&& t.status & FLAG_CARRY == s.status & FLAG_CARRY
        }),
{
    let a = s.a;
    let st = s.status;
    let c = st & 1;
    let r = add8(0, a as int * 2) | c;
    assert(add8(0, a as int * 2) == ((a as int * 2) % 256) as u8);
    let st1 = set_flag(st, FLAG_CARRY, a >= 128);
    law_zn_flags(st1, r);
    let u = zn_flags(st1, r);
    let c2 = u & 1;
    let r2 = (r / 2) | (c2 << 7u8);
    let st2 = set_flag(u, FLAG_CARRY, r & 0x01 == 1);
    law_zn_flags(st2, r2);
    assert(r2 == a && (st2 & 1) == c) by (bit_vector)
        requires
            c == st & 1,
            r == (((a as u16) * 2) % 256) as u8 | c,
            st1 == (if a >= 128 { st | 1 } else { st & !1u8 }),
            u & 0x7D == st1 & 0x7D,
            c2 == u & 1,
            r2 == (r / 2) | (c2 << 7u8),
            st2 == (if r & 0x01 == 1 { u | 1 } else { u & !1u8 }),
    ;
    let fin = zn_flags(st2, r2);
    assert(fin & 1 == st2 & 1) by (bit_vector)
        requires
            fin & 0x7D == st2 & 0x7D,
    ;
    let t1 = shift_next(s, AddressingMode::Accumulator, Shift::Rol);
    assert(t1.a == r && t1.status == u);
    let t2 = shift_next(t1, AddressingMode::Accumulator, Shift::Ror);
    assert(t2.a == r2 && t2.status == fin);
}

/// INX and DEX undo each other on X (and likewise INY and DEY on Y).
pub proof fn law_inc_dec_inverse(s: CpuState)
    ensures
        dex_next(inx_next(s)).x == s.x,
        inx_next(dex_next(s)).x == s.x,
        dey_next(iny_next(s)).y == s.y,
        iny_next(dey_next(s)).y == s.y,
{
}

/// TXA after TAX leaves A as it was.
pub proof fn law_tax_txa(s: CpuState)
    ensures
        txa_next(tax_next(s)).a == s.a,
        tax_next(s).x == s.a,
{
}

/// ADC adds the operand and the carry modulo 256; C tells whether the
/// unsigned sum exceeds a byte, V whether the signed sum leaves -128..127.
pub proof fn law_adc_sum(s: CpuState, mode: AddressingMode)
    ensures
        ({
            let v = operand(s, mode);
            let c = s.status & FLAG_CARRY;
            let sum = s.a as int + v as int + c as int;
            let ssum = signed8(s.a) + signed8(v) + c as int;
            let t = adc_next(s, mode);
            &&& t.a == sum % 256
            &&& (t.status & FLAG_CARRY != 0) == (sum > 255)
            &&& (t.status & FLAG_OVERFLOW != 0) == (ssum < -128 || ssum > 127)
        }),
{
    let v = operand(s, mode);
    let a = s.a;
    let st = s.status;
    let c = st & 1;
    lemma_carry_bit(st);
    let rhs = add8(v, c as int);
    let n = add8(a, rhs as int);
    let c1 = v as int + c as int > 255;
    let c2 = a as int + rhs as int > 255;
    let ov = (a & 0x80) == (v & 0x80) && (v & 0x80) != (n & 0x80);
    if v as int + c as int > 255 {
        assert(rhs as int == v as int + c as int - 256);
    } else {
        assert(rhs as int == v as int + c as int);
    }
    assert(n as int == (a as int + v as int + c as int) % 256);
    assert((c1 || c2) == (a as int + v as int + c as int > 255));
    // the sign test on the bytes is the signed range test
    let ssum = signed8(a) + signed8(v) + (c as int);
    assert(ov == (ssum < -128 || ssum > 127)) by {
        assert({
            &&& (a & 0x80 != 0) == (a >= 128)
            &&& (v & 0x80 != 0) == (v >= 128)
            &&& (n & 0x80 != 0) == (n >= 128)
            &&& ((a & 0x80) == (v & 0x80)) == ((a >= 128) == (v >= 128))
            &&& ((v & 0x80) != (n & 0x80)) == ((v >= 128) != (n >= 128))
        }) by (bit_vector);
    }
    let s1 = set_flag(st, FLAG_CARRY, c1 || c2);
    let s2 = set_flag(s1, FLAG_OVERFLOW, ov);
    law_zn_flags(s2, n);
    lemma_kept_bits(zn_flags(s2, n), s2);
    assert((s2 & 1 != 0) == (c1 || c2) && (s2 & 0x40 != 0) == ov) by (bit_vector)
        requires
            s1 == (if c1 || c2 { st | 1 } else { st & !1u8 }),
            s2 == (if ov { s1 | 0x40 } else { s1 & !0x40u8 }),
    ;
}

/// SBC subtracts the operand and the borrow (1 - C) modulo 256; C is set
/// exactly when no borrow occurred, V exactly when the signed difference
/// leaves -128..127.
pub proof fn law_sbc_difference(s: CpuState, mode: AddressingMode)
    ensures
        ({
            let v = operand(s, mode);
            let c = s.status & FLAG_CARRY;
            let diff = s.a as int - v as int - (1 - c as int);
            let sdiff = signed8(s.a) - signed8(v) - (1 - c as int);
            let t = sbc_next(s, mode);
            &&& t.a == diff % 256
            &&& (t.status & FLAG_CARRY != 0) == (diff >= 0)
            &&& (t.status & FLAG_OVERFLOW != 0) == (sdiff < -128 || sdiff > 127)
        }),
{
    let v = operand(s, mode);
    let a = s.a;
    let st = s.status;
    let c = st & 1;
    lemma_carry_bit(st);
    let v1 = add8(a, -(v as int));
    let borrow = 1 - c;
    let n = add8(v1, -borrow);
    let c1 = a < v;
    let c2 = (v1 as int) < borrow;
    let ov = (a & 0x80) != (v & 0x80) && (a & 0x80) != (n & 0x80);
    assert((!c1 && !c2) == (a as int - v as int - borrow >= 0));
    let s1 = set_flag(st, FLAG_CARRY, !c1 && !c2);
    let s2 = set_flag(s1, FLAG_OVERFLOW, ov);
    law_zn_flags(s2, n);
    lemma_kept_bits(zn_flags(s2, n), s2);
    if (v1 as int) < borrow {
        assert(n as int == v1 as int - borrow + 256);
    }
    assert(n as int == (a as int - v as int - borrow) % 256);
    // the sign test on the bytes is the signed range test
    let sdiff = signed8(a) - signed8(v) - borrow;
    assert(ov == (sdiff < -128 || sdiff > 127)) by {
        assert({
            &&& (a & 0x80 != 0) == (a >= 128)
            &&& (v & 0x80 != 0) == (v >= 128)
            &&& (n & 0x80 != 0) == (n >= 128)
            &&& ((a & 0x80) != (v & 0x80)) == ((a >= 128) != (v >= 128))
            &&& ((a & 0x80) != (n & 0x80)) == ((a >= 128) != (n >= 128))
        }) by (bit_vector);
    }
    assert((s2 & 1 != 0) == (!c1 && !c2) && (s2 & 0x40 != 0) == ov) by (bit_vector)
        requires
            s1 == (if !c1 && !c2 { st | 1 } else { st & !1u8 }),
            s2 == (if ov { s1 | 0x40 } else { s1 & !0x40u8 }),
    ;
}

/// A comparison sets C when the register is at least the operand and Z when
/// they are equal.
pub proof fn law_compare(s: CpuState, mode: AddressingMode, target: u8)
    ensures
        (compare_next(s, mode, target).status & FLAG_CARRY != 0) == (target >= operand(s, mode)),
        (compare_next(s, mode, target).status & FLAG_ZERO != 0) == (target == operand(s, mode)),
{
    let v = operand(s, mode);
    let st = s.status;
    let b = target >= v;
    let s1 = set_flag(st, FLAG_CARRY, b);
    let r = add8(target, -(v as int));
    law_zn_flags(s1, r);
    lemma_kept_bits(zn_flags(s1, r), s1);
    assert((s1 & 1 != 0) == b) by (bit_vector)
        requires
            s1 == (if b { st | 1 } else { st & !1u8 }),
    ;
}

/// A taken branch continues at the operand address, otherwise the counter is kept.
pub proof fn law_branch_target(s: CpuState, mode: AddressingMode, flag: u8, nonzero: bool)
    ensures
        branch_next(s, mode, flag, nonzero).pc == (if branch_taken(s, flag, nonzero) {
            operand_address(s, mode)
        } else {
            s.pc
        }),
{
}

/// The two branches on one flag (BNE and BEQ on Z, BCC and BCS on C, ...)
/// split every state between them: exactly one of them jumps to the operand
/// address, BNE's when the flag is clear, and the other keeps the counter.
/// Neither changes the registers, the status or memory.
pub proof fn law_branch_pair_complementary(s: CpuState, mode: AddressingMode, flag: u8)
    ensures
        ({
            let clear = branch_next(s, mode, flag, false);
            let set = branch_next(s, mode, flag, true);
            &&& branch_taken(s, flag, false) != branch_taken(s, flag, true)
            &&& branch_taken(s, flag, false) <==> s.status & flag == 0
            &&& clear.pc == (if s.status & flag == 0 { operand_address(s, mode) } else { s.pc })
            &&& set.pc == (if s.status & flag == 0 { s.pc } else { operand_address(s, mode) })
            &&& clear.a == s.a && clear.x == s.x && clear.y == s.y && clear.sp == s.sp
            &&& set.a == s.a && set.x == s.x && set.y == s.y && set.sp == s.sp
            &&& clear.status == s.status && set.status == s.status
            &&& clear.mem == s.mem && set.mem == s.mem
        }),
{
}

/// A relative operand moves the counter by the signed offset, wrapping around
/// the address space.
pub proof fn law_relative_target(s: CpuState)
    ensures
        operand_address(s, AddressingMode::Relative) == add16(s.pc, signed8(s.mem[s.pc as int])),
{
}

/// In the instruction table every opcode is found at its own position.
pub proof fn law_table_lookup(ops: Seq<OpCode>, code: u8)
    requires
        ops.len() == 256,
        forall|i: int| 0 <= i < 256 ==> (#[trigger] ops[i]).code == i,
    ensures
        op_index_from(ops, code, 0) == Some(code as int),
{
    lemma_op_index(ops, code, 0);
    assert(ops[code as int].code == code);
}

/// Calling a subroutine through the table entry of JSR and returning through
/// the entry of RTS (fetched at the subroutine's address) resumes just after
/// the three bytes of the JSR, with the stack pointer restored.
pub proof fn law_call_jsr_rts(s: CpuState, jsr: OpCode, rts: OpCode)
    requires
        s.mem.len() == 0x10000,
        jsr.name@ == "JSR"@,
        jsr.bytes == 3,
        rts.name@ == "RTS"@,
        rts.bytes == 1,
        call_ok(s, jsr),
        call_next(s, jsr).pc != 0xFFFF,
    ensures
        ({
            let t = call_next(s, jsr);
            let u = CpuState { pc: (t.pc + 1) as u16, ..t };
            &&& call_ok(u, rts)
            &&& call_next(u, rts).pc == s.pc + 2
            &&& call_next(u, rts).sp == s.sp
        }),
{
    let mode = jsr.addressing_mode;
    assert(mnemonic(jsr.name@) == "JSR"@) by {
        reveal_strlit("JSR");
    }
    assert(mnemonic(rts.name@) == "RTS"@) by {
        reveal_strlit("RTS");
    }
    lemma_dispatch_jsr(s, mode);
    let t = call_next(s, jsr);
    let u = CpuState { pc: (t.pc + 1) as u16, ..t };
    lemma_dispatch_rts(u, rts.addressing_mode);
    law_jsr_rts(s, mode);
    assert(pop_u16_value(u) == pop_u16_value(jsr_next(s, mode)));
}

/// Two mnemonics that differ in one letter differ.
proof fn lemma_mnemonics_differ(a: Seq<char>, b: Seq<char>, i: int)
    requires
        0 <= i < a.len(),
        i < b.len(),
        a[i] != b[i],
    ensures
        a != b,
{
}

/// The table dispatches the mnemonic JSR to its instruction.
proof fn lemma_dispatch_jsr(s: CpuState, mode: AddressingMode)
    ensures
        instruction_ok(s, "JSR"@, mode) == jsr_ok(s, mode),
        instruction_next(s, "JSR"@, mode) == jsr_next(s, mode),
{
    assert(!in_group_0("JSR"@)) by {
        reveal_strlit("JSR");
        reveal_strlit("ADC");
        lemma_mnemonics_differ("JSR"@, "ADC"@, 0);
        reveal_strlit("ANC");
        lemma_mnemonics_differ("JSR"@, "ANC"@, 0);
        reveal_strlit("AND");
        lemma_mnemonics_differ("JSR"@, "AND"@, 0);
        reveal_strlit("ANE");
        lemma_mnemonics_differ("JSR"@, "ANE"@, 0);
        reveal_strlit("ARR");
        lemma_mnemonics_differ("JSR"@, "ARR"@, 0);
        reveal_strlit("ASL");
        lemma_mnemonics_differ("JSR"@, "ASL"@, 0);
        reveal_strlit("ASR");
        lemma_mnemonics_differ("JSR"@, "ASR"@, 0);
        reveal_strlit("BCC");
        lemma_mnemonics_differ("JSR"@, "BCC"@, 0);
        reveal_strlit("BCS");
        lemma_mnemonics_differ("JSR"@, "BCS"@, 0);
        reveal_strlit("BEQ");
        lemma_mnemonics_differ("JSR"@, "BEQ"@, 0);
    }
    assert(!in_group_1("JSR"@)) by {
        reveal_strlit("JSR");
        reveal_strlit("BIT");
        lemma_mnemonics_differ("JSR"@, "BIT"@, 0);
        reveal_strlit("BMI");
        lemma_mnemonics_differ("JSR"@, "BMI"@, 0);
        reveal_strlit("BNE");
        lemma_mnemonics_differ("JSR"@, "BNE"@, 0);
        reveal_strlit("BPL");
        lemma_mnemonics_differ("JSR"@, "BPL"@, 0);
        reveal_strlit("BRK");
        lemma_mnemonics_differ("JSR"@, "BRK"@, 0);
        reveal_strlit("BVC");
        lemma_mnemonics_differ("JSR"@, "BVC"@, 0);
        reveal_strlit("BVS");
        lemma_mnemonics_differ("JSR"@, "BVS"@, 0);
        reveal_strlit("CLC");
        lemma_mnemonics_differ("JSR"@, "CLC"@, 0);
        reveal_strlit("CLD");
        lemma_mnemonics_differ("JSR"@, "CLD"@, 0);
        reveal_strlit("CLI");
        lemma_mnemonics_differ("JSR"@, "CLI"@, 0);
    }
    assert(!in_group_2("JSR"@)) by {
        reveal_strlit("JSR");
        reveal_strlit("CLV");
        lemma_mnemonics_differ("JSR"@, "CLV"@, 0);
        reveal_strlit("CMP");
        lemma_mnemonics_differ("JSR"@, "CMP"@, 0);
        reveal_strlit("CPX");
        lemma_mnemonics_differ("JSR"@, "CPX"@, 0);
        reveal_strlit("CPY");
        lemma_mnemonics_differ("JSR"@, "CPY"@, 0);
        reveal_strlit("DCP");
        lemma_mnemonics_differ("JSR"@, "DCP"@, 0);
        reveal_strlit("DEC");
        lemma_mnemonics_differ("JSR"@, "DEC"@, 0);
        reveal_strlit("DEX");
        lemma_mnemonics_differ("JSR"@, "DEX"@, 0);
        reveal_strlit("DEY");
        lemma_mnemonics_differ("JSR"@, "DEY"@, 0);
        reveal_strlit("EOR");
        lemma_mnemonics_differ("JSR"@, "EOR"@, 0);
        reveal_strlit("INC");
        lemma_mnemonics_differ("JSR"@, "INC"@, 0);
    }
    assert(in_group_3("JSR"@));
    assert(group_3_ok(s, "JSR"@, mode) == jsr_ok(s, mode) && group_3_next(s, "JSR"@, mode)
        == jsr_next(s, mode)) by {
        reveal(group_3_ok);
        reveal(group_3_next);
        reveal_strlit("JSR");
        reveal_strlit("INX");
        lemma_mnemonics_differ("JSR"@, "INX"@, 0);
        reveal_strlit("INY");
        lemma_mnemonics_differ("JSR"@, "INY"@, 0);
        reveal_strlit("ISB");
        lemma_mnemonics_differ("JSR"@, "ISB"@, 0);
        reveal_strlit("JAM");
        lemma_mnemonics_differ("JSR"@, "JAM"@, 1);
        reveal_strlit("JMP");
        lemma_mnemonics_differ("JSR"@, "JMP"@, 1);
    }
}

/// The table dispatches the mnemonic RTS to its instruction.
proof fn lemma_dispatch_rts(s: CpuState, mode: AddressingMode)
    ensures
        instruction_ok(s, "RTS"@, mode) == rts_ok(s),
        instruction_next(s, "RTS"@, mode) == rts_next(s),
{
    assert(!in_group_0("RTS"@)) by {
        reveal_strlit("RTS");
        reveal_strlit("ADC");
        lemma_mnemonics_differ("RTS"@, "ADC"@, 0);
        reveal_strlit("ANC");
        lemma_mnemonics_differ("RTS"@, "ANC"@, 0);
        reveal_strlit("AND");
        lemma_mnemonics_differ("RTS"@, "AND"@, 0);
        reveal_strlit("ANE");
        lemma_mnemonics_differ("RTS"@, "ANE"@, 0);
        reveal_strlit("ARR");
        lemma_mnemonics_differ("RTS"@, "ARR"@, 0);
        reveal_strlit("ASL");
        lemma_mnemonics_differ("RTS"@, "ASL"@, 0);
        reveal_strlit("ASR");
        lemma_mnemonics_differ("RTS"@, "ASR"@, 0);
        reveal_strlit("BCC");
        lemma_mnemonics_differ("RTS"@, "BCC"@, 0);
        reveal_strlit("BCS");
        lemma_mnemonics_differ("RTS"@, "BCS"@, 0);
        reveal_strlit("BEQ");
        lemma_mnemonics_differ("RTS"@, "BEQ"@, 0);
    }
    assert(!in_group_1("RTS"@)) by {
        reveal_strlit("RTS");
        reveal_strlit("BIT");
        lemma_mnemonics_differ("RTS"@, "BIT"@, 0);
        reveal_strlit("BMI");
        lemma_mnemonics_differ("RTS"@, "BMI"@, 0);
        reveal_strlit("BNE");
        lemma_mnemonics_differ("RTS"@, "BNE"@, 0);
        reveal_strlit("BPL");
        lemma_mnemonics_differ("RTS"@, "BPL"@, 0);
        reveal_strlit("BRK");
        lemma_mnemonics_differ("RTS"@, "BRK"@, 0);
        reveal_strlit("BVC");
        lemma_mnemonics_differ("RTS"@, "BVC"@, 0);
        reveal_strlit("BVS");
        lemma_mnemonics_differ("RTS"@, "BVS"@, 0);
        reveal_strlit("CLC");
        lemma_mnemonics_differ("RTS"@, "CLC"@, 0);
        reveal_strlit("CLD");
        lemma_mnemonics_differ("RTS"@, "CLD"@, 0);
        reveal_strlit("CLI");
        lemma_mnemonics_differ("RTS"@, "CLI"@, 0);
    }
    assert(!in_group_2("RTS"@)) by {
        reveal_strlit("RTS");
        reveal_strlit("CLV");
        lemma_mnemonics_differ("RTS"@, "CLV"@, 0);
        reveal_strlit("CMP");
        lemma_mnemonics_differ("RTS"@, "CMP"@, 0);
        reveal_strlit("CPX");
        lemma_mnemonics_differ("RTS"@, "CPX"@, 0);
        reveal_strlit("CPY");
        lemma_mnemonics_differ("RTS"@, "CPY"@, 0);
        reveal_strlit("DCP");
        lemma_mnemonics_differ("RTS"@, "DCP"@, 0);
        reveal_strlit("DEC");
        lemma_mnemonics_differ("RTS"@, "DEC"@, 0);
        reveal_strlit("DEX");
        lemma_mnemonics_differ("RTS"@, "DEX"@, 0);
        reveal_strlit("DEY");
        lemma_mnemonics_differ("RTS"@, "DEY"@, 0);
        reveal_strlit("EOR");
        lemma_mnemonics_differ("RTS"@, "EOR"@, 0);
        reveal_strlit("INC");
        lemma_mnemonics_differ("RTS"@, "INC"@, 0);
    }
    assert(!in_group_3("RTS"@)) by {
        reveal_strlit("RTS");
        reveal_strlit("INX");
        lemma_mnemonics_differ("RTS"@, "INX"@, 0);
        reveal_strlit("INY");
        lemma_mnemonics_differ("RTS"@, "INY"@, 0);
        reveal_strlit("ISB");
        lemma_mnemonics_differ("RTS"@, "ISB"@, 0);
        reveal_strlit("JAM");
        lemma_mnemonics_differ("RTS"@, "JAM"@, 0);
        reveal_strlit("JMP");
        lemma_mnemonics_differ("RTS"@, "JMP"@, 0);
        reveal_strlit("JSR");
        lemma_mnemonics_differ("RTS"@, "JSR"@, 0);
        reveal_strlit("LAE");
        lemma_mnemonics_differ("RTS"@, "LAE"@, 0);
        reveal_strlit("LAX");
        lemma_mnemonics_differ("RTS"@, "LAX"@, 0);
        reveal_strlit("LDA");
        lemma_mnemonics_differ("RTS"@, "LDA"@, 0);
        reveal_strlit("LDX");
        lemma_mnemonics_differ("RTS"@, "LDX"@, 0);
    }
    assert(!in_group_4("RTS"@)) by {
        reveal_strlit("RTS");
        reveal_strlit("LDY");
        lemma_mnemonics_differ("RTS"@, "LDY"@, 0);
        reveal_strlit("LSR");
        lemma_mnemonics_differ("RTS"@, "LSR"@, 0);
        reveal_strlit("LXA");
        lemma_mnemonics_differ("RTS"@, "LXA"@, 0);
        reveal_strlit("NOP");
        lemma_mnemonics_differ("RTS"@, "NOP"@, 0);
        reveal_strlit("ORA");
        lemma_mnemonics_differ("RTS"@, "ORA"@, 0);
        reveal_strlit("PHA");
        lemma_mnemonics_differ("RTS"@, "PHA"@, 0);
        reveal_strlit("PHP");
        lemma_mnemonics_differ("RTS"@, "PHP"@, 0);
        reveal_strlit("PLA");
        lemma_mnemonics_differ("RTS"@, "PLA"@, 0);
        reveal_strlit("PLP");
        lemma_mnemonics_differ("RTS"@, "PLP"@, 0);
        reveal_strlit("RLA");
        lemma_mnemonics_differ("RTS"@, "RLA"@, 1);
    }
    assert(in_group_5("RTS"@));
    assert(group_5_ok(s, "RTS"@, mode) == rts_ok(s) && group_5_next(s, "RTS"@, mode)
        == rts_next(s)) by {
        reveal(group_5_ok);
        reveal(group_5_next);
        reveal_strlit("RTS");
        reveal_strlit("ROL");
        lemma_mnemonics_differ("RTS"@, "ROL"@, 1);
        reveal_strlit("ROR");
        lemma_mnemonics_differ("RTS"@, "ROR"@, 1);
        reveal_strlit("RRA");
        lemma_mnemonics_differ("RTS"@, "RRA"@, 1);
        reveal_strlit("RTI");
        lemma_mnemonics_differ("RTS"@, "RTI"@, 2);
    }
}

// ---------------------------------------------------------------------------
// The opcode map
// ---------------------------------------------------------------------------

/// The addressing mode follows the layout of the 6502 opcode map. An opcode
/// `aaabbbcc` has its mode from the column `bbb` within its group `cc`:
/// in groups 01 and 11 (X,ind), zp, #imm, abs, (ind),Y, zp,X, abs,Y, abs,X,
/// indexing by Y in place of X for the stores and loads of X (`aaa` 100 and
/// 101) of group 11; in group 10 #imm (implied for the jams), zp, A (implied
/// from `aaa` 100 on), abs, implied, zp,X, implied, abs,X, by Y again for
/// `aaa` 100 and 101; in group 00 the interrupt and subroutine opcodes,
/// #imm, zp, implied, abs (JMP indirect), relative branches, zp,X, implied,
/// abs,X.
pub proof fn law_opcode_addressing_modes(code: u8)
    ensures
        ({
            let cc = code % 4;
            let bbb = (code / 4) % 8;
            let aaa = code / 32;
            let by_y = aaa == 4 || aaa == 5;
            op_table_entry(code).4 == if cc == 1 || cc == 3 {
                if bbb == 0 {
                    AddressingMode::Indirect_X
                } else if bbb == 1 {
                    AddressingMode::ZeroPage
                } else if bbb == 2 {
                    AddressingMode::Immediate
                } else if bbb == 3 {
                    AddressingMode::Absolute
                } else if bbb == 4 {
                    AddressingMode::Indirect_Y
                } else if bbb == 5 {
                    if cc == 3 && by_y { AddressingMode::ZeroPage_Y } else { AddressingMode::ZeroPage_X }
                } else if bbb == 6 {
                    AddressingMode::Absolute_Y
                } else {
                    if cc == 3 && by_y { AddressingMode::Absolute_Y } else { AddressingMode::Absolute_X }
                }
            } else if cc == 2 {
                if bbb == 0 {
                    if aaa >= 4 { AddressingMode::Immediate } else { AddressingMode::Implied }
                } else if bbb == 1 {
                    AddressingMode::ZeroPage
                } else if bbb == 2 {
                    if aaa < 4 { AddressingMode::Accumulator } else { AddressingMode::Implied }
                } else if bbb == 3 {
                    AddressingMode::Absolute
                } else if bbb == 5 {
                    if by_y { AddressingMode::ZeroPage_Y } else { AddressingMode::ZeroPage_X }
                } else if bbb == 7 {
                    if by_y { AddressingMode::Absolute_Y } else { AddressingMode::Absolute_X }
                } else {
                    AddressingMode::Implied
                }
            } else {
                if bbb == 0 {
                    if aaa == 1 {
                        AddressingMode::Absolute
                    } else if aaa < 4 {
                        AddressingMode::Implied
                    } else {
                        AddressingMode::Immediate
                    }
                } else if bbb == 1 {
                    AddressingMode::ZeroPage
                } else if bbb == 3 {
                    if aaa == 3 { AddressingMode::Indirect } else { AddressingMode::Absolute }
                } else if bbb == 4 {
                    AddressingMode::Relative
                } else if bbb == 5 {
                    AddressingMode::ZeroPage_X
                } else if bbb == 7 {
                    AddressingMode::Absolute_X
                } else {
                    AddressingMode::Implied
                }
            }
        }),
{
}

/// The only zero-page indexing by Y is that of STX, LDX and their
/// undocumented neighbours SAX and LAX.
pub proof fn law_opcode_zero_page_y(code: u8)
    ensures
        (op_table_entry(code).4 == AddressingMode::ZeroPage_Y) <==> (code == 0x96 || code == 0x97
            || code == 0xB6 || code == 0xB7),
{
    law_opcode_addressing_modes(code);
}

/// The mnemonics follow the rows of the opcode map: in group 01 the
/// operation is ORA, AND, EOR, ADC, STA, LDA, CMP, SBC by `aaa` (but for the
/// NOP at $89); in the odd columns of group 10 ASL, ROL, LSR, ROR, STX, LDX,
/// DEC, INC (but for SHX at $9E); in group 11, apart from the immediate
/// column and the SHA, SHS and LAE opcodes, the undocumented combinations
/// SLO, RLA, SRE, RRA, SAX, LAX, DCP, ISB; and column 100 of group 00 holds
/// the branches BPL, BMI, BVC, BVS, BCC, BCS, BNE, BEQ.
pub proof fn law_opcode_mnemonics(code: u8)
    ensures
        ({
            let cc = code % 4;
            let bbb = (code / 4) % 8;
            let aaa = code / 32;
            let name = op_table_entry(code).0;
            &&& cc == 1 && code != 0x89 ==> name == seq![
                "ORA"@,
                "AND"@,
                "EOR"@,
                "ADC"@,
                "STA"@,
                "LDA"@,
                "CMP"@,
                "SBC"@,
            ][aaa as int]
            &&& cc == 2 && bbb % 2 == 1 && code != 0x9E ==> name == seq![
                "ASL"@,
                "ROL"@,
                "LSR"@,
                "ROR"@,
                "STX"@,
                "LDX"@,
                "DEC"@,
                "INC"@,
            ][aaa as int]
            &&& cc == 3 && bbb != 2 && !(aaa == 4 && (bbb == 4 || bbb == 6 || bbb == 7)) && code
                != 0xBB ==> name == seq![
                "*SLO"@,
                "*RLA"@,
                "*SRE"@,
                "*RRA"@,
                "*SAX"@,
                "*LAX"@,
                "*DCP"@,
                "*ISB"@,
            ][aaa as int]
            &&& cc == 0 && bbb == 4 ==> name == seq![
                "BPL"@,
                "BMI"@,
                "BVC"@,
                "BVS"@,
                "BCC"@,
                "BCS"@,
                "BNE"@,
                "BEQ"@,
            ][aaa as int]
        }),
{
}

/// The cycle counts of the regular columns: the group 01 operations take
/// 6, 3, 2, 4, 5, 4, 4, 4 cycles by column, one more on a page crossing for
/// (ind),Y, abs,Y and abs,X, while STA always takes 6, 3, 4, 6, 4, 5, 5; the
/// read-modify-write operations of group 10 take 5, 6, 6, 7 for zp, abs,
/// zp,X, abs,X and those of group 11 8, 5, 6, 8, 6, 7, 7; a branch takes 2
/// cycles plus what a taken branch adds.
pub proof fn law_opcode_cycles(code: u8)
    ensures
        ({
            let cc = code % 4;
            let bbb = (code / 4) % 8;
            let aaa = code / 32;
            let e = op_table_entry(code);
            &&& cc == 1 && aaa != 4 ==> e.2 == seq![6u8, 3, 2, 4, 5, 4, 4, 4][bbb as int] && e.3
                == if bbb == 4 || bbb == 6 || bbb == 7 {
                CycleCalcMode::Page
            } else {
                CycleCalcMode::Fixed
            }
            &&& cc == 1 && aaa == 4 && bbb != 2 ==> e.2 == seq![6u8, 3, 2, 4, 6, 4, 5, 5][bbb as int]
                && e.3 == CycleCalcMode::Fixed
            &&& cc == 2 && bbb % 2 == 1 && aaa != 4 && aaa != 5 ==> e.2 == seq![
                0u8,
                5,
                0,
                6,
                0,
                6,
                0,
                7,
            ][bbb as int] && e.3 == CycleCalcMode::Fixed
            &&& cc == 3 && bbb != 2 && aaa != 4 && aaa != 5 ==> e.2 == seq![
                8u8,
                5,
                0,
                6,
                8,
                6,
                7,
                7,
            ][bbb as int] && e.3 == CycleCalcMode::Fixed
            &&& cc == 0 && bbb == 4 ==> e.1 == 2 && e.2 == 2 && e.3 == CycleCalcMode::Branch
        }),
{
}

} // verus!
