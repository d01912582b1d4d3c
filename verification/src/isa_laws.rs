//! What the instructions compute, stated bit by bit and number by number,
//! apart from how the state functions of `cpu_model` are written.
use vstd::prelude::*;
use crate::cpu::{finish_next, lemma_carry_bit, AddressingMode, CycleCalcMode, OpCode};
use crate::cpu_laws::law_zn_flags;
use crate::opcode::{
    instruction_next, law_dispatch_group_1, law_dispatch_group_2, law_dispatch_group_5,
    law_dispatch_group_6,
};
use crate::cpu_model::{
    adc_next, brk_next, sbc_next, and_next, bit_next, compare_next, dex_next, dey_next, eor_next, inx_next, iny_next, lda_next,
    ldx_next, ldy_next, operand, operand_address, operand_page_crossed, ora_next, read_u16, shift_next, step_memory_next,
    set_flag, shifted, shifted_out, store_next, tax_next, tay_next, tsx_next, txa_next, txs_next,
    tya_next, zn_flags, CpuState, Shift,
};

verus! {

/// 2 to the power `k`.
pub open spec fn two_to(k: int) -> int
    decreases k,
{
    if k <= 0 {
        1
    } else {
        2 * two_to(k - 1)
    }
}

/// Bit `k` of `v`.
pub open spec fn bit_of(v: u8, k: int) -> bool {
    (v as int / two_to(k)) % 2 == 1
}

/// The status reports the result `r`: Z (bit 1) tells whether it is zero,
/// N (bit 7) whether it is 128 or more.
pub open spec fn reports(st: u8, r: u8) -> bool {
    &&& bit_of(st, 1) == (r == 0)
    &&& bit_of(st, 7) == (r >= 128)
}

/// The status keeps the bits of `old` but for Z and N.
pub open spec fn keeps_but_zn(st: u8, old: u8) -> bool {
    &&& bit_of(st, 0) == bit_of(old, 0)
    &&& bit_of(st, 2) == bit_of(old, 2)
    &&& bit_of(st, 3) == bit_of(old, 3)
    &&& bit_of(st, 4) == bit_of(old, 4)
    &&& bit_of(st, 5) == bit_of(old, 5)
    &&& bit_of(st, 6) == bit_of(old, 6)
}

proof fn lemma_two_to()
    ensures
        two_to(0) == 1,
        two_to(1) == 2,
        two_to(2) == 4,
        two_to(3) == 8,
        two_to(4) == 16,
        two_to(5) == 32,
        two_to(6) == 64,
        two_to(7) == 128,
{
    reveal_with_fuel(two_to, 8);
}

/// The bitwise operations on bytes, bit by bit.
proof fn lemma_bits(a: u8, m: u8)
    by (bit_vector)
    ensures
        ((a & m) / 1 % 2 == 1) == (a / 1 % 2 == 1 && m / 1 % 2 == 1),
        ((a & m) / 2 % 2 == 1) == (a / 2 % 2 == 1 && m / 2 % 2 == 1),
        ((a & m) / 4 % 2 == 1) == (a / 4 % 2 == 1 && m / 4 % 2 == 1),
        ((a & m) / 8 % 2 == 1) == (a / 8 % 2 == 1 && m / 8 % 2 == 1),
        ((a & m) / 16 % 2 == 1) == (a / 16 % 2 == 1 && m / 16 % 2 == 1),
        ((a & m) / 32 % 2 == 1) == (a / 32 % 2 == 1 && m / 32 % 2 == 1),
        ((a & m) / 64 % 2 == 1) == (a / 64 % 2 == 1 && m / 64 % 2 == 1),
        ((a & m) / 128 % 2 == 1) == (a / 128 % 2 == 1 && m / 128 % 2 == 1),
        ((a | m) / 1 % 2 == 1) == (a / 1 % 2 == 1 || m / 1 % 2 == 1),
        ((a | m) / 2 % 2 == 1) == (a / 2 % 2 == 1 || m / 2 % 2 == 1),
        ((a | m) / 4 % 2 == 1) == (a / 4 % 2 == 1 || m / 4 % 2 == 1),
        ((a | m) / 8 % 2 == 1) == (a / 8 % 2 == 1 || m / 8 % 2 == 1),
        ((a | m) / 16 % 2 == 1) == (a / 16 % 2 == 1 || m / 16 % 2 == 1),
        ((a | m) / 32 % 2 == 1) == (a / 32 % 2 == 1 || m / 32 % 2 == 1),
        ((a | m) / 64 % 2 == 1) == (a / 64 % 2 == 1 || m / 64 % 2 == 1),
        ((a | m) / 128 % 2 == 1) == (a / 128 % 2 == 1 || m / 128 % 2 == 1),
        ((a ^ m) / 1 % 2 == 1) == (a / 1 % 2 != m / 1 % 2),
        ((a ^ m) / 2 % 2 == 1) == (a / 2 % 2 != m / 2 % 2),
        ((a ^ m) / 4 % 2 == 1) == (a / 4 % 2 != m / 4 % 2),
        ((a ^ m) / 8 % 2 == 1) == (a / 8 % 2 != m / 8 % 2),
        ((a ^ m) / 16 % 2 == 1) == (a / 16 % 2 != m / 16 % 2),
        ((a ^ m) / 32 % 2 == 1) == (a / 32 % 2 != m / 32 % 2),
        ((a ^ m) / 64 % 2 == 1) == (a / 64 % 2 != m / 64 % 2),
        ((a ^ m) / 128 % 2 == 1) == (a / 128 % 2 != m / 128 % 2),
        (a & 0x01 != 0) == (a / 1 % 2 == 1),
        (a & 0x02 != 0) == (a / 2 % 2 == 1),
        (a & 0x40 != 0) == (a / 64 % 2 == 1),
        (a & 0x80 != 0) == (a / 128 % 2 == 1),
        (a & 0x10 != 0) == (a / 16 % 2 == 1),
        (a | 0x10) / 16 % 2 == 1,
        a & 0x7D == m & 0x7D ==> a / 1 % 2 == m / 1 % 2 && a / 4 % 2 == m / 4 % 2 && a / 8 % 2
            == m / 8 % 2 && a / 16 % 2 == m / 16 % 2 && a / 32 % 2 == m / 32 % 2 && a / 64 % 2
            == m / 64 % 2,
        a & 0x3D == m & 0x3D ==> a / 1 % 2 == m / 1 % 2 && a / 4 % 2 == m / 4 % 2 && a / 8 % 2
            == m / 8 % 2 && a / 16 % 2 == m / 16 % 2 && a / 32 % 2 == m / 32 % 2,
{
}

/// The flags set from a result report it and keep the other bits.
proof fn lemma_reports(status: u8, r: u8)
    ensures
        reports(zn_flags(status, r), r),
        keeps_but_zn(zn_flags(status, r), status),
{
    law_zn_flags(status, r);
    let z = zn_flags(status, r);
    lemma_bits(z, status);
    lemma_two_to();
}

/// Loads copy the operand into the register; transfers copy one register
/// into another (TXS alone leaves the status alone); both report the value
/// in Z and N and keep the other flags.
pub proof fn law_loads_and_transfers(s: CpuState, mode: AddressingMode)
    ensures
        lda_next(s, mode).a == operand(s, mode),
        ldx_next(s, mode).x == operand(s, mode),
        ldy_next(s, mode).y == operand(s, mode),
        tax_next(s).x == s.a,
        tay_next(s).y == s.a,
        txa_next(s).a == s.x,
        tya_next(s).a == s.y,
        tsx_next(s).x == s.sp,
        txs_next(s).sp == s.x && txs_next(s).status == s.status,
        reports(lda_next(s, mode).status, operand(s, mode)),
        reports(ldx_next(s, mode).status, operand(s, mode)),
        reports(ldy_next(s, mode).status, operand(s, mode)),
        reports(tax_next(s).status, s.a) && reports(tay_next(s).status, s.a),
        reports(txa_next(s).status, s.x) && reports(tya_next(s).status, s.y),
        reports(tsx_next(s).status, s.sp),
        keeps_but_zn(lda_next(s, mode).status, s.status),
        keeps_but_zn(tax_next(s).status, s.status),
        keeps_but_zn(txa_next(s).status, s.status),
{
    lemma_reports(s.status, operand(s, mode));
    lemma_reports(s.status, s.a);
    lemma_reports(s.status, s.x);
    lemma_reports(s.status, s.y);
    lemma_reports(s.status, s.sp);
}

/// INX, INY, DEX, DEY count the register up or down by one, wrapping
/// around, and report the new value in Z and N.
#[verifier::spinoff_prover]
#[verifier::rlimit(60)]
pub proof fn law_register_steps(s: CpuState)
    ensures
        inx_next(s).x == (s.x as int + 1) % 256,
        iny_next(s).y == (s.y as int + 1) % 256,
        dex_next(s).x == (s.x as int + 255) % 256,
        dey_next(s).y == (s.y as int + 255) % 256,
        reports(inx_next(s).status, inx_next(s).x) && reports(iny_next(s).status, iny_next(s).y),
        reports(dex_next(s).status, dex_next(s).x) && reports(dey_next(s).status, dey_next(s).y),
{
    lemma_reports(s.status, inx_next(s).x);
    lemma_reports(s.status, iny_next(s).y);
    lemma_reports(s.status, dex_next(s).x);
    lemma_reports(s.status, dey_next(s).y);
}

/// INC and DEC count the byte at the operand address up or down by one,
/// wrapping around, and report the new value in Z and N.
pub proof fn law_memory_steps(s: CpuState, mode: AddressingMode)
    requires
        s.mem.len() == 0x10000,
    ensures
        ({
            let addr = operand_address(s, mode) as int;
            let v = operand(s, mode) as int;
            let inc = step_memory_next(s, mode, 1);
            let dec = step_memory_next(s, mode, -1);
            &&& inc.mem[addr] == (v + 1) % 256
            &&& dec.mem[addr] == (v + 255) % 256
            &&& reports(inc.status, inc.mem[addr])
            &&& reports(dec.status, dec.mem[addr])
        }),
{
    let v = operand(s, mode) as int;
    let up = ((v + 1) % 256) as u8;
    let down = ((v - 1) % 256) as u8;
    assert((v - 1) % 256 == (v + 255) % 256);
    lemma_reports(step_memory_next(s, mode, 1).status, up);
    lemma_reports(step_memory_next(s, mode, -1).status, down);
    lemma_reports(store_next(s, mode, up).status, up);
    lemma_reports(store_next(s, mode, down).status, down);
}

/// AND, ORA and EOR combine A with the operand bit by bit (both, either,
/// exactly one), and report the result in Z and N.
pub proof fn law_logic_bits(s: CpuState, mode: AddressingMode)
    ensures
        forall|k: int|
            #![trigger bit_of(s.a, k)]
            0 <= k < 8 ==> {
                let m = operand(s, mode);
                &&& bit_of(and_next(s, mode).a, k) == (bit_of(s.a, k) && bit_of(m, k))
                &&& bit_of(ora_next(s, mode).a, k) == (bit_of(s.a, k) || bit_of(m, k))
                &&& bit_of(eor_next(s, mode).a, k) == (bit_of(s.a, k) != bit_of(m, k))
            },
        reports(and_next(s, mode).status, and_next(s, mode).a),
        reports(ora_next(s, mode).status, ora_next(s, mode).a),
        reports(eor_next(s, mode).status, eor_next(s, mode).a),
{
    let m = operand(s, mode);
    lemma_bits(s.a, m);
    lemma_two_to();
    lemma_reports(s.status, s.a & m);
    lemma_reports(s.status, s.a | m);
    lemma_reports(s.status, s.a ^ m);
}

/// BIT sets Z exactly when A and the operand share no set bit, copies bits 7
/// and 6 of the operand into N and V, and keeps A and the other flags.
pub proof fn law_bit_test(s: CpuState, mode: AddressingMode)
    ensures
        ({
            let m = operand(s, mode);
            let st = bit_next(s, mode).status;
            &&& bit_of(st, 1) == (forall|k: int|
                0 <= k < 8 ==> !(#[trigger] bit_of(s.a, k) && bit_of(m, k)))
            &&& bit_of(st, 7) == bit_of(m, 7)
            &&& bit_of(st, 6) == bit_of(m, 6)
            &&& bit_of(st, 0) == bit_of(s.status, 0)
            &&& bit_of(st, 2) == bit_of(s.status, 2)
            &&& bit_of(st, 3) == bit_of(s.status, 3)
            &&& bit_of(st, 4) == bit_of(s.status, 4)
            &&& bit_of(st, 5) == bit_of(s.status, 5)
            &&& bit_next(s, mode).a == s.a
        }),
{
    let m = operand(s, mode);
    let old = s.status;
    let st = bit_next(s, mode).status;
    lemma_two_to();
    let a = s.a;
    lemma_bits(a, m);
    let st0 = if a & m == 0 { old | 2u8 } else { old & !2u8 };
    assert(st == (st0 & !(0x80u8 | 0x40u8)) | (m & (0x80u8 | 0x40u8)));
    assert({
        &&& ((a & m) == 0) == ((a & m) / 1 % 2 == 0 && (a & m) / 2 % 2 == 0 && (a & m) / 4 % 2
            == 0 && (a & m) / 8 % 2 == 0 && (a & m) / 16 % 2 == 0 && (a & m) / 32 % 2 == 0 && (a
            & m) / 64 % 2 == 0 && (a & m) / 128 % 2 == 0)
        &&& (st / 2 % 2 == 1) == (a & m == 0)
        &&& st / 128 % 2 == m / 128 % 2 && st / 64 % 2 == m / 64 % 2
        &&& st / 1 % 2 == old / 1 % 2 && st / 4 % 2 == old / 4 % 2 && st / 8 % 2 == old / 8 % 2
        &&& st / 16 % 2 == old / 16 % 2 && st / 32 % 2 == old / 32 % 2
    }) by (bit_vector)
        requires
            st0 == (if a & m == 0 { old | 2u8 } else { old & !2u8 }),
            st == (st0 & !(0x80u8 | 0x40u8)) | (m & (0x80u8 | 0x40u8)),
    ;
    let none = forall|k: int| 0 <= k < 8 ==> !(#[trigger] bit_of(s.a, k) && bit_of(m, k));
    if !none {
        let k = choose|k: int| 0 <= k < 8 && (#[trigger] bit_of(s.a, k) && bit_of(m, k));
        assert(k == 0 || k == 1 || k == 2 || k == 3 || k == 4 || k == 5 || k == 6 || k == 7);
    } else {
        assert(!(bit_of(s.a, 0) && bit_of(m, 0)));
        assert(!(bit_of(s.a, 1) && bit_of(m, 1)));
        assert(!(bit_of(s.a, 2) && bit_of(m, 2)));
        assert(!(bit_of(s.a, 3) && bit_of(m, 3)));
        assert(!(bit_of(s.a, 4) && bit_of(m, 4)));
        assert(!(bit_of(s.a, 5) && bit_of(m, 5)));
        assert(!(bit_of(s.a, 6) && bit_of(m, 6)));
        assert(!(bit_of(s.a, 7) && bit_of(m, 7)));
    }
}

/// The facts about shifts of a byte, the carry bit and a set or cleared
/// flag that the shift law rests on.
proof fn lemma_shift_bits(v: u8, c: u8, st: u8, b: bool)
    by (bit_vector)
    requires
        c <= 1,
    ensures
        (v / 2) | (c << 7u8) == v / 2 + c * 128,
        (v & 0x01 == 1) == (v % 2 == 1),
        (st & 0x01 == 1) == (st / 1 % 2 == 1),
        ((if b { st | 1 } else { st & !1u8 }) / 1 % 2 == 1) == b,
        (if b { st | 1 } else { st & !1u8 }) & 0x7C == st & 0x7C,
        st & 0x7C == v & 0x7C ==> st / 4 % 2 == v / 4 % 2 && st / 8 % 2 == v / 8 % 2 && st / 16
            % 2 == v / 16 % 2 && st / 32 % 2 == v / 32 % 2 && st / 64 % 2 == v / 64 % 2,
{
}

/// Doubling a byte and adding a carry bit.
proof fn lemma_double_bits(v: u8, c: u8)
    by (bit_vector)
    requires
        c <= 1,
    ensures
        v << 1u8 == (v * 2) % 256,
        (v << 1u8) | c == (v << 1u8) + c,
{
}

/// The byte a shift or rotation gives from `v`, with the old carry `c`:
/// ASL doubles, LSR halves, ROL doubles and adds the carry, ROR halves and
/// adds 128 for the carry, all modulo 256.
pub open spec fn shift_result(kind: Shift, v: u8, c: int) -> int {
    match kind {
        Shift::Asl => (v as int * 2) % 256,
        Shift::Lsr => v as int / 2,
        Shift::Rol => (v as int * 2 + c) % 256,
        Shift::Ror => v as int / 2 + 128 * c,
    }
}

/// The bit a shift or rotation moves into the carry: bit 7 to the left,
/// bit 0 to the right.
pub open spec fn shift_carry(kind: Shift, v: u8) -> bool {
    match kind {
        Shift::Asl | Shift::Rol => v >= 128,
        Shift::Lsr | Shift::Ror => v % 2 == 1,
    }
}

/// One shift or rotation of the byte `v` under the status `st`.
#[verifier::spinoff_prover]
#[verifier::rlimit(60)]
proof fn lemma_shift_byte(kind: Shift, v: u8, st: u8)
    ensures
        ({
            let c = if bit_of(st, 0) { 1int } else { 0int };
            let st1 = set_flag(st, 1, shifted_out(kind, v));
            let r = shifted(kind, v, st & 1);
            &&& r == shift_result(kind, v, c)
            &&& bit_of(zn_flags(st1, r), 0) == shift_carry(kind, v)
            &&& reports(zn_flags(st1, r), r)
            &&& bit_of(zn_flags(st1, r), 2) == bit_of(st, 2)
            &&& bit_of(zn_flags(st1, r), 3) == bit_of(st, 3)
            &&& bit_of(zn_flags(st1, r), 6) == bit_of(st, 6)
        }),
{
    let c = st & 1;
    lemma_carry_bit(st);
    lemma_two_to();
    let b = shifted_out(kind, v);
    let st1 = set_flag(st, 1, b);
    lemma_shift_bits(v, c, st1, b);
    lemma_shift_bits(st1, c, st, b);
    lemma_double_bits(v, c);
    let r = shifted(kind, v, c);
    lemma_reports(st1, r);
}

/// ASL, LSR, ROL and ROR on A or on the byte at the operand address: the new
/// byte is the shifted one, C receives the bit shifted out, Z and N report
/// the new byte and the other flags are kept.
pub proof fn law_shifts(s: CpuState, mode: AddressingMode, kind: Shift)
    requires
        s.mem.len() == 0x10000,
    ensures
        ({
            let c = if bit_of(s.status, 0) { 1int } else { 0int };
            let t = shift_next(s, mode, kind);
            let v = if mode is Accumulator { s.a } else { operand(s, mode) };
            let r = if mode is Accumulator { t.a } else { t.mem[operand_address(s, mode) as int] };
            &&& r == shift_result(kind, v, c)
            &&& bit_of(t.status, 0) == shift_carry(kind, v)
            &&& reports(t.status, r)
            &&& bit_of(t.status, 2) == bit_of(s.status, 2)
            &&& bit_of(t.status, 3) == bit_of(s.status, 3)
            &&& bit_of(t.status, 6) == bit_of(s.status, 6)
        }),
{
    let v = if mode is Accumulator { s.a } else { operand(s, mode) };
    lemma_shift_byte(kind, v, s.status);
}

/// Every status made by `zn_flags` reports its result.
proof fn lemma_reports_all()
    ensures
        forall|st: u8, r: u8| #[trigger] reports(zn_flags(st, r), r),
{
    assert forall|st: u8, r: u8| #[trigger] reports(zn_flags(st, r), r) by {
        lemma_reports(st, r);
    }
}

/// ADC and SBC report the new A in Z and N.
pub proof fn law_arith_zn(s: CpuState, mode: AddressingMode)
    ensures
        reports(adc_next(s, mode).status, adc_next(s, mode).a),
        reports(sbc_next(s, mode).status, sbc_next(s, mode).a),
{
    lemma_reports_all();
}

/// A comparison reports the difference of the register and the operand,
/// modulo 256, in Z and N.
pub proof fn law_compare_zn(s: CpuState, mode: AddressingMode, target: u8)
    ensures
        reports(
            compare_next(s, mode, target).status,
            ((target as int - operand(s, mode) as int + 256) % 256) as u8,
        ),
{
    let v = operand(s, mode);
    assert((target as int - v as int + 256) % 256 == (target as int - v as int) % 256);
    lemma_reports_all();
}

/// A word is read little-endian: the low byte at `pos`, the high byte after
/// it (the two page-end addresses $00FF and $02FF take their high byte from
/// the start of the page instead).
pub proof fn law_word_read(mem: Seq<u8>, pos: u16)
    requires
        pos < 0xFFFF,
        pos != 0x00FF,
        pos != 0x02FF,
    ensures
        read_u16(mem, pos) == mem[pos as int] + 256 * mem[pos + 1],
{
}

/// The address each addressing mode computes from the operand bytes at the
/// program counter: zero-page indexing wraps within page zero, absolute and
/// indirect-indexed addresses wrap around the address space.
pub proof fn law_operand_addresses(s: CpuState)
    ensures
        ({
            let b = s.mem[s.pc as int] as int;
            let base = read_u16(s.mem, s.pc) as int;
            let ind = read_u16(s.mem, b as u16) as int;
            &&& operand_address(s, AddressingMode::Immediate) == s.pc
            &&& operand_address(s, AddressingMode::ZeroPage) == b
            &&& operand_address(s, AddressingMode::ZeroPage_X) == (b + s.x) % 256
            &&& operand_address(s, AddressingMode::ZeroPage_Y) == (b + s.y) % 256
            &&& operand_address(s, AddressingMode::Absolute) == base
            &&& operand_address(s, AddressingMode::Absolute_X) == (base + s.x) % 0x10000
            &&& operand_address(s, AddressingMode::Absolute_Y) == (base + s.y) % 0x10000
            &&& operand_address(s, AddressingMode::Indirect) == read_u16(s.mem, base as u16)
            &&& operand_address(s, AddressingMode::Indirect_X) == read_u16(
                s.mem,
                ((b + s.x) % 256) as u16,
            )
            &&& operand_address(s, AddressingMode::Indirect_Y) == (ind + s.y) % 0x10000
        }),
{
}

/// A relative operand is a signed offset from the counter, wrapping around
/// the address space.
pub proof fn law_relative_offset(s: CpuState)
    ensures
        ({
            let b = s.mem[s.pc as int] as int;
            operand_address(s, AddressingMode::Relative) == (s.pc + b - (if b >= 128 {
                256int
            } else {
                0
            }) + 0x10000) % 0x10000
        }),
{
    let b = s.mem[s.pc as int] as int;
    let r = if b >= 128 { 256int } else { 0 };
    assert((s.pc + b - r) % 0x10000 == (s.pc + b - r + 0x10000) % 0x10000);
}

/// An index leaves the page of the base exactly when the low byte carries.
proof fn lemma_index_page(base: u16, idx: u8)
    ensures
        !crate::cpu_model::same_page(base, crate::cpu_model::add16(base, idx as int)) == (base
            % 256 + idx >= 256),
{
    let t = (base as int + idx as int) % 0x10000;
    if base as int + idx as int >= 0x10000 {
        assert(t == base as int + idx as int - 0x10000);
    }
}

/// Indexing adds a cycle exactly when the low byte of the base plus the
/// index carries into the next page; the other modes add none.
pub proof fn law_page_crossing(s: CpuState)
    ensures
        ({
            let b = s.mem[s.pc as int] as int;
            let base = read_u16(s.mem, s.pc) as int;
            let ind = read_u16(s.mem, b as u16) as int;
            &&& operand_page_crossed(s, AddressingMode::Absolute_X) == (base % 256 + s.x >= 256)
            &&& operand_page_crossed(s, AddressingMode::Absolute_Y) == (base % 256 + s.y >= 256)
            &&& operand_page_crossed(s, AddressingMode::Indirect_Y) == (ind % 256 + s.y >= 256)
            &&& !operand_page_crossed(s, AddressingMode::ZeroPage_X)
            &&& !operand_page_crossed(s, AddressingMode::Absolute)
        }),
{
    let base = read_u16(s.mem, s.pc);
    let ind = read_u16(s.mem, s.mem[s.pc as int] as u16);
    lemma_index_page(base, s.x);
    lemma_index_page(base, s.y);
    lemma_index_page(ind, s.y);
}

/// Setting and clearing the flag bits 0, 2, 3 and 6 of a status byte.
proof fn lemma_flag_arith(st: u8)
    by (bit_vector)
    ensures
        (st | 1) as int == st as int + if st % 2 == 1 { 0int } else { 1int },
        (st & !1u8) as int == st as int - st as int % 2,
        (st | 4) as int == st as int + if st / 4 % 2 == 1 { 0int } else { 4int },
        (st & !4u8) as int == st as int - 4 * (st as int / 4 % 2),
        (st | 8) as int == st as int + if st / 8 % 2 == 1 { 0int } else { 8int },
        (st & !8u8) as int == st as int - 8 * (st as int / 8 % 2),
        (st | 64) as int == st as int + if st / 64 % 2 == 1 { 0int } else { 64int },
        (st & !64u8) as int == st as int - 64 * (st as int / 64 % 2),
{
}

/// The flag instructions add or take away one status bit and change nothing
/// else: SEC/CLC bit 0 (C), SEI/CLI bit 2 (I), SED/CLD bit 3 (D), CLV bit 6
/// (V).
pub proof fn law_flag_instructions(s: CpuState, mode: AddressingMode)
    ensures
        ({
            let st = s.status as int;
            let set = |k: int| st + if (st / two_to(k)) % 2 == 1 { 0int } else { two_to(k) };
            let clear = |k: int| st - two_to(k) * ((st / two_to(k)) % 2);
            &&& instruction_next(s, "SEC"@, mode) == (CpuState { status: set(0) as u8, ..s })
            &&& instruction_next(s, "CLC"@, mode) == (CpuState { status: clear(0) as u8, ..s })
            &&& instruction_next(s, "SEI"@, mode) == (CpuState { status: set(2) as u8, ..s })
            &&& instruction_next(s, "CLI"@, mode) == (CpuState { status: clear(2) as u8, ..s })
            &&& instruction_next(s, "SED"@, mode) == (CpuState { status: set(3) as u8, ..s })
            &&& instruction_next(s, "CLD"@, mode) == (CpuState { status: clear(3) as u8, ..s })
            &&& instruction_next(s, "CLV"@, mode) == (CpuState { status: clear(6) as u8, ..s })
        }),
{
    law_dispatch_group_1(s, mode);
    law_dispatch_group_2(s, mode);
    law_dispatch_group_5(s, mode);
    law_dispatch_group_6(s, mode);
    lemma_flag_arith(s.status);
    reveal_with_fuel(two_to, 8);
}

/// BRK (when the break flag is clear) pushes the counter, high byte first,
/// and then the status, moving the stack pointer down by three within page
/// one; it continues at the address held at $FFFE-$FFFF and sets the break
/// flag (bit 4). With the break flag already set it does nothing.
pub proof fn law_brk(s: CpuState)
    requires
        s.mem.len() == 0x10000,
    ensures
        ({
            let t = brk_next(s);
            let sp = s.sp as int;
            &&& !bit_of(s.status, 4) ==> {
                &&& t.mem[0x100 + sp] == s.pc as int / 256
                &&& t.mem[0x100 + (sp + 255) % 256] == s.pc as int % 256
                &&& t.mem[0x100 + (sp + 254) % 256] == s.status
                &&& t.sp == (sp + 253) % 256
                &&& t.pc == s.mem[0xFFFE] + 256 * s.mem[0xFFFF]
                &&& bit_of(t.status, 4)
                &&& t.a == s.a && t.x == s.x && t.y == s.y
            }
            &&& bit_of(s.status, 4) ==> t == s
        }),
{
    let st = s.status;
    lemma_bits(st, st);
    lemma_two_to();
}

/// Settling the cycles of an instruction adds its base count to the cycle
/// counter, plus the extra cycles (page crossings, taken branches) when the
/// instruction counts them; an instruction with a fixed count adds none.
pub proof fn law_instruction_cycles(s: CpuState, op: OpCode)
    requires
        s.cycles + op.cycles + s.extra <= usize::MAX,
    ensures
        finish_next(s, op).cycles == s.cycles + op.cycles + if op.cycle_calc_mode
            == CycleCalcMode::Fixed {
            0
        } else {
            s.extra as int
        },
        finish_next(s, op).a == s.a && finish_next(s, op).pc == s.pc && finish_next(s, op).mem
            == s.mem,
{
}

} // verus!
