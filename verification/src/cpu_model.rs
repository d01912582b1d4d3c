//! The mathematical model of the 6502 core: the machine state as plain values,
//! and one state transformer per instruction.  The executable instructions in
//! `cpu.rs` are proved to compute exactly these transformers.
use vstd::prelude::*;
use crate::text::{hex2, hex4, lemma_hex_len, pad_right};
use crate::cpu::{
    AddressingMode, FLAG_BREAK, FLAG_BREAK2, FLAG_CARRY, FLAG_NEGATIVE, FLAG_OVERFLOW, FLAG_ZERO,
    SIGN_BIT,
};

verus! {

/// The whole observable state of the CPU together with its bus.
#[verifier::ext_equal]
pub struct CpuState {
    pub a: u8,
    pub x: u8,
    pub y: u8,
    pub status: u8,
    pub pc: u16,
    pub sp: u8,
    /// Cycles added to the current instruction (page crossings, taken branches).
    pub extra: u8,
    /// The 64 KiB address space seen by the CPU.
    pub mem: Seq<u8>,
    /// Cycle counter of the bus.
    pub cycles: usize,
    /// A pending non-maskable interrupt.
    pub nmi: Option<u8>,
    /// The APU interrupt line.
    pub irq: bool,
}

// ---------------------------------------------------------------------------
// Arithmetic on bytes and words
// ---------------------------------------------------------------------------

/// `a + b` taken modulo 256.
pub open spec fn add8(a: u8, b: int) -> u8 {
    ((a as int + b) % 256) as u8
}

/// `a + b` taken modulo 65536.
pub open spec fn add16(a: u16, b: int) -> u16 {
    ((a as int + b) % 0x10000) as u16
}

/// The byte read as a two's complement number.
pub open spec fn signed8(b: u8) -> int {
    if b < 128 {
        b as int
    } else {
        b as int - 256
    }
}

/// The word whose high byte is `hi` and whose low byte is `lo`.
pub open spec fn word(hi: u8, lo: u8) -> u16 {
    (hi as int * 256 + lo as int) as u16
}

/// Whether two addresses lie in the same 256-byte page.
pub open spec fn same_page(a: u16, b: u16) -> bool {
    a / 256 == b / 256
}

/// `status` with the bits of `flag` set when `on` holds and cleared otherwise.
pub open spec fn set_flag(status: u8, flag: u8, on: bool) -> u8 {
    if on {
        status | flag
    } else {
        status & !flag
    }
}

/// The status after a result `v`: Z tells whether `v` is zero, N copies bit 7 of `v`.
pub open spec fn zn_flags(status: u8, v: u8) -> u8 {
    set_flag(set_flag(status, FLAG_ZERO, v == 0), FLAG_NEGATIVE, v & 0x80 != 0)
}

// ---------------------------------------------------------------------------
// Memory
// ---------------------------------------------------------------------------

pub open spec fn rd(s: CpuState, addr: u16) -> u8 {
    s.mem[addr as int]
}

pub open spec fn wr(s: CpuState, addr: u16, v: u8) -> CpuState {
    CpuState { mem: s.mem.update(addr as int, v), ..s }
}

/// Little-endian word at `pos`.  At $00FF and $02FF the high byte comes from the
/// start of the same page.
pub open spec fn read_u16(mem: Seq<u8>, pos: u16) -> u16 {
    if pos == 0x00FF || pos == 0x02FF {
        word(mem[(pos & 0xFF00) as int], mem[pos as int])
    } else {
        word(mem[pos + 1], mem[pos as int])
    }
}

// ---------------------------------------------------------------------------
// Stack
// ---------------------------------------------------------------------------

pub open spec fn push(s: CpuState, v: u8) -> CpuState {
    CpuState { mem: s.mem.update(0x100 + s.sp, v), sp: add8(s.sp, -1), ..s }
}

pub open spec fn pop_value(s: CpuState) -> u8 {
    s.mem[0x100 + add8(s.sp, 1)]
}

pub open spec fn pop(s: CpuState) -> CpuState {
    CpuState { sp: add8(s.sp, 1), ..s }
}

pub open spec fn push_u16(s: CpuState, v: u16) -> CpuState {
    push(push(s, (v / 256) as u8), (v % 256) as u8)
}

pub open spec fn pop_u16_value(s: CpuState) -> u16 {
    word(pop_value(pop(s)), pop_value(s))
}

pub open spec fn pop_u16(s: CpuState) -> CpuState {
    pop(pop(s))
}

// ---------------------------------------------------------------------------
// Addressing
// ---------------------------------------------------------------------------

/// The address that an instruction in `mode` operates on; the operand bytes start at `pc`.
pub open spec fn operand_address(s: CpuState, mode: AddressingMode) -> u16 {
    match mode {
        AddressingMode::Immediate => s.pc,
        AddressingMode::ZeroPage => rd(s, s.pc) as u16,
        AddressingMode::Absolute => read_u16(s.mem, s.pc),
        AddressingMode::ZeroPage_X => add8(rd(s, s.pc), s.x as int) as u16,
        AddressingMode::ZeroPage_Y => add8(rd(s, s.pc), s.y as int) as u16,
        AddressingMode::Absolute_X => add16(read_u16(s.mem, s.pc), s.x as int),
        AddressingMode::Absolute_Y => add16(read_u16(s.mem, s.pc), s.y as int),
        AddressingMode::Indirect => read_u16(s.mem, read_u16(s.mem, s.pc)),
        AddressingMode::Indirect_X => read_u16(s.mem, add8(rd(s, s.pc), s.x as int) as u16),
        AddressingMode::Indirect_Y => add16(read_u16(s.mem, rd(s, s.pc) as u16), s.y as int),
        AddressingMode::Relative => add16(s.pc, signed8(rd(s, s.pc))),
        _ => 0,
    }
}

/// Whether indexing moved the address into another page (one extra cycle).
pub open spec fn operand_page_crossed(s: CpuState, mode: AddressingMode) -> bool {
    match mode {
        AddressingMode::Absolute_X | AddressingMode::Absolute_Y => !same_page(
            read_u16(s.mem, s.pc),
            operand_address(s, mode),
        ),
        AddressingMode::Indirect_Y => !same_page(
            read_u16(s.mem, rd(s, s.pc) as u16),
            operand_address(s, mode),
        ),
        _ => false,
    }
}

/// The modes that name a memory operand.
pub open spec fn addresses_memory(mode: AddressingMode) -> bool {
    !(mode is Implied || mode is Accumulator || mode is NoneAddressing)
}

/// The operand address can be read: the mode names memory and no word is read
/// across the end of the address space.
pub open spec fn operand_readable(s: CpuState, mode: AddressingMode) -> bool {
    &&& addresses_memory(mode)
    &&& (mode is Absolute || mode is Absolute_X || mode is Absolute_Y || mode is Indirect)
        ==> s.pc != 0xFFFF
    &&& mode is Indirect ==> read_u16(s.mem, s.pc) != 0xFFFF
}

/// The operand address can be computed without a fault: it can be read and the
/// extra cycle counter does not overflow.
pub open spec fn operand_ok(s: CpuState, mode: AddressingMode) -> bool {
    &&& operand_readable(s, mode)
    &&& operand_page_crossed(s, mode) ==> s.extra < 255
}

/// The state after the operand address has been computed.
pub open spec fn after_operand(s: CpuState, mode: AddressingMode) -> CpuState {
    if operand_page_crossed(s, mode) {
        CpuState { extra: (s.extra + 1) as u8, ..s }
    } else {
        s
    }
}

/// The byte that the instruction operates on.
pub open spec fn operand(s: CpuState, mode: AddressingMode) -> u8 {
    rd(s, operand_address(s, mode))
}

// ---------------------------------------------------------------------------
// Loads, stores and transfers
// ---------------------------------------------------------------------------

pub open spec fn lda_next(s: CpuState, mode: AddressingMode) -> CpuState {
    let v = operand(s, mode);
    CpuState { a: v, status: zn_flags(s.status, v), ..after_operand(s, mode) }
}

pub open spec fn ldx_next(s: CpuState, mode: AddressingMode) -> CpuState {
    let v = operand(s, mode);
    CpuState { x: v, status: zn_flags(s.status, v), ..after_operand(s, mode) }
}

pub open spec fn ldy_next(s: CpuState, mode: AddressingMode) -> CpuState {
    let v = operand(s, mode);
    CpuState { y: v, status: zn_flags(s.status, v), ..after_operand(s, mode) }
}

/// Writes `v` to the operand address.
pub open spec fn store_next(s: CpuState, mode: AddressingMode, v: u8) -> CpuState {
    wr(after_operand(s, mode), operand_address(s, mode), v)
}

pub open spec fn tax_next(s: CpuState) -> CpuState {
    CpuState { x: s.a, status: zn_flags(s.status, s.a), ..s }
}

pub open spec fn tay_next(s: CpuState) -> CpuState {
    CpuState { y: s.a, status: zn_flags(s.status, s.a), ..s }
}

pub open spec fn txa_next(s: CpuState) -> CpuState {
    CpuState { a: s.x, status: zn_flags(s.status, s.x), ..s }
}

pub open spec fn tya_next(s: CpuState) -> CpuState {
    CpuState { a: s.y, status: zn_flags(s.status, s.y), ..s }
}

pub open spec fn tsx_next(s: CpuState) -> CpuState {
    CpuState { x: s.sp, status: zn_flags(s.status, s.sp), ..s }
}

pub open spec fn txs_next(s: CpuState) -> CpuState {
    CpuState { sp: s.x, ..s }
}

// ---------------------------------------------------------------------------
// Increments and decrements
// ---------------------------------------------------------------------------

pub open spec fn inx_next(s: CpuState) -> CpuState {
    let v = add8(s.x, 1);
    CpuState { x: v, status: zn_flags(s.status, v), ..s }
}

pub open spec fn iny_next(s: CpuState) -> CpuState {
    let v = add8(s.y, 1);
    CpuState { y: v, status: zn_flags(s.status, v), ..s }
}

pub open spec fn dex_next(s: CpuState) -> CpuState {
    let v = add8(s.x, -1);
    CpuState { x: v, status: zn_flags(s.status, v), ..s }
}

pub open spec fn dey_next(s: CpuState) -> CpuState {
    let v = add8(s.y, -1);
    CpuState { y: v, status: zn_flags(s.status, v), ..s }
}

/// Adds `delta` to the operand in memory and sets Z and N from the new value.
pub open spec fn step_memory_next(s: CpuState, mode: AddressingMode, delta: int) -> CpuState {
    let v = add8(operand(s, mode), delta);
    let t = store_next(s, mode, v);
    CpuState { status: zn_flags(t.status, v), ..t }
}

// ---------------------------------------------------------------------------
// Flags
// ---------------------------------------------------------------------------

pub open spec fn flag_next(s: CpuState, flag: u8, on: bool) -> CpuState {
    CpuState { status: set_flag(s.status, flag, on), ..s }
}

// ---------------------------------------------------------------------------
// Comparisons and logic
// ---------------------------------------------------------------------------

/// CMP/CPX/CPY: C tells whether `target >= M`, Z and N come from `target - M`.
pub open spec fn compare_next(s: CpuState, mode: AddressingMode, target: u8) -> CpuState {
    let v = operand(s, mode);
    let st = set_flag(s.status, FLAG_CARRY, target >= v);
    CpuState { status: zn_flags(st, add8(target, -(v as int))), ..after_operand(s, mode) }
}

pub open spec fn and_next(s: CpuState, mode: AddressingMode) -> CpuState {
    let v = s.a & operand(s, mode);
    CpuState { a: v, status: zn_flags(s.status, v), ..after_operand(s, mode) }
}

pub open spec fn ora_next(s: CpuState, mode: AddressingMode) -> CpuState {
    let v = s.a | operand(s, mode);
    CpuState { a: v, status: zn_flags(s.status, v), ..after_operand(s, mode) }
}

pub open spec fn eor_next(s: CpuState, mode: AddressingMode) -> CpuState {
    let v = s.a ^ operand(s, mode);
    CpuState { a: v, status: zn_flags(s.status, v), ..after_operand(s, mode) }
}

/// BIT: Z tells whether `A & M` is zero; N and V are copied from bits 7 and 6 of M.
pub open spec fn bit_next(s: CpuState, mode: AddressingMode) -> CpuState {
    let v = operand(s, mode);
    let st = set_flag(s.status, FLAG_ZERO, s.a & v == 0);
    let flags = FLAG_NEGATIVE | FLAG_OVERFLOW;
    CpuState { status: (st & !flags) | (v & flags), ..after_operand(s, mode) }
}

// ---------------------------------------------------------------------------
// Arithmetic
// ---------------------------------------------------------------------------

pub open spec fn adc_next(s: CpuState, mode: AddressingMode) -> CpuState {
    let v = operand(s, mode);
    let carry = s.status & FLAG_CARRY;
    let rhs = add8(v, carry as int);
    let c1 = v as int + carry as int > 255;
    let n = add8(s.a, rhs as int);
    let c2 = s.a as int + rhs as int > 255;
    let overflow = (s.a & SIGN_BIT) == (v & SIGN_BIT) && (v & SIGN_BIT) != (n & SIGN_BIT);
    let st = set_flag(set_flag(s.status, FLAG_CARRY, c1 || c2), FLAG_OVERFLOW, overflow);
    CpuState { a: n, status: zn_flags(st, n), ..after_operand(s, mode) }
}

pub open spec fn sbc_next(s: CpuState, mode: AddressingMode) -> CpuState {
    let v = operand(s, mode);
    let carry = s.status & FLAG_CARRY;
    let v1 = add8(s.a, -(v as int));
    let c1 = s.a < v;
    let borrow = 1 - carry;
    let n = add8(v1, -borrow);
    let c2 = (v1 as int) < borrow;
    let overflow = (s.a & SIGN_BIT) != (v & SIGN_BIT) && (s.a & SIGN_BIT) != (n & SIGN_BIT);
    let st = set_flag(set_flag(s.status, FLAG_CARRY, !c1 && !c2), FLAG_OVERFLOW, overflow);
    CpuState { a: n, status: zn_flags(st, n), ..after_operand(s, mode) }
}

// ---------------------------------------------------------------------------
// Shifts and rotations
// ---------------------------------------------------------------------------

/// The kind of a shift or rotation.
pub enum Shift {
    Asl,
    Lsr,
    Rol,
    Ror,
}

/// The shifted value, given the old carry flag `c` (0 or 1).
pub open spec fn shifted(kind: Shift, v: u8, c: u8) -> u8 {
    match kind {
        Shift::Asl => add8(0, v as int * 2),
        Shift::Lsr => v / 2,
        Shift::Rol => add8(0, v as int * 2) | c,
        Shift::Ror => (v / 2) | (c << 7u8),
    }
}

/// The bit shifted out.
pub open spec fn shifted_out(kind: Shift, v: u8) -> bool {
    match kind {
        Shift::Asl | Shift::Rol => v >= 128,
        Shift::Lsr | Shift::Ror => v & 0x01 == 1,
    }
}

pub open spec fn shift_ok(s: CpuState, mode: AddressingMode) -> bool {
    mode is Accumulator || operand_ok(s, mode)
}

pub open spec fn shift_next(s: CpuState, mode: AddressingMode, kind: Shift) -> CpuState {
    let c = s.status & FLAG_CARRY;
    if mode is Accumulator {
        let r = shifted(kind, s.a, c);
        let st = set_flag(s.status, FLAG_CARRY, shifted_out(kind, s.a));
        CpuState { a: r, status: zn_flags(st, r), ..s }
    } else {
        let v = operand(s, mode);
        let r = shifted(kind, v, c);
        let t = store_next(s, mode, r);
        let st = set_flag(s.status, FLAG_CARRY, shifted_out(kind, v));
        CpuState { status: zn_flags(st, r), ..t }
    }
}

// ---------------------------------------------------------------------------
// Branches and jumps
// ---------------------------------------------------------------------------

/// Whether a branch on `flag` is taken.
pub open spec fn branch_taken(s: CpuState, flag: u8, nonzero: bool) -> bool {
    if nonzero {
        s.status & flag != 0
    } else {
        s.status & flag == 0
    }
}

/// The cycles that a taken branch adds: one, and one more into another page.
pub open spec fn branch_cycles(s: CpuState, mode: AddressingMode) -> int {
    if same_page(s.pc, operand_address(s, mode)) {
        1
    } else {
        2
    }
}

pub open spec fn branch_ok(s: CpuState, mode: AddressingMode, flag: u8, nonzero: bool) -> bool {
    &&& operand_ok(s, mode)
    &&& branch_taken(s, flag, nonzero) ==> after_operand(s, mode).extra + branch_cycles(s, mode)
        <= 255
}

/// A branch jumps to the operand address when taken.
pub open spec fn branch_next(
    s: CpuState,
    mode: AddressingMode,
    flag: u8,
    nonzero: bool,
) -> CpuState {
    let t = after_operand(s, mode);
    if branch_taken(s, flag, nonzero) {
        CpuState {
            extra: (t.extra + branch_cycles(s, mode)) as u8,
            pc: operand_address(s, mode),
            ..t
        }
    } else {
        t
    }
}

pub open spec fn jmp_ok(s: CpuState, mode: AddressingMode) -> bool {
    operand_ok(s, mode) && operand_address(s, mode) >= 2
}

/// JMP leaves the counter two bytes before the target; the caller steps over the operand.
pub open spec fn jmp_next(s: CpuState, mode: AddressingMode) -> CpuState {
    CpuState { pc: (operand_address(s, mode) - 2) as u16, ..after_operand(s, mode) }
}

pub open spec fn jsr_ok(s: CpuState, mode: AddressingMode) -> bool {
    operand_ok(s, mode) && s.pc <= 0xFFFD
}

/// JSR pushes the address of its last byte and, like JMP, stops two bytes before the target.
pub open spec fn jsr_next(s: CpuState, mode: AddressingMode) -> CpuState {
    let t = push_u16(after_operand(s, mode), (s.pc + 1) as u16);
    CpuState { pc: add16(operand_address(s, mode), -2), ..t }
}

pub open spec fn rts_ok(s: CpuState) -> bool {
    pop_u16_value(s) != 0xFFFF
}

pub open spec fn rts_next(s: CpuState) -> CpuState {
    CpuState { pc: (pop_u16_value(s) + 1) as u16, ..pop_u16(s) }
}

/// The status as pulled from the stack: B cleared, bit 5 set.
pub open spec fn pulled_status(v: u8) -> u8 {
    (v & !FLAG_BREAK) | FLAG_BREAK2
}

pub open spec fn rti_next(s: CpuState) -> CpuState {
    let t = CpuState { status: pulled_status(pop_value(s)), ..pop(s) };
    CpuState { pc: pop_u16_value(t), ..pop_u16(t) }
}

pub open spec fn brk_next(s: CpuState) -> CpuState {
    if s.status & FLAG_BREAK != 0 {
        s
    } else {
        let t = push(push_u16(s, s.pc), s.status);
        CpuState { pc: read_u16(t.mem, 0xFFFE), status: t.status | FLAG_BREAK, ..t }
    }
}

// ---------------------------------------------------------------------------
// Stack instructions
// ---------------------------------------------------------------------------

pub open spec fn pha_next(s: CpuState) -> CpuState {
    push(s, s.a)
}

pub open spec fn php_next(s: CpuState) -> CpuState {
    push(s, s.status | FLAG_BREAK | FLAG_BREAK2)
}

pub open spec fn pla_next(s: CpuState) -> CpuState {
    let v = pop_value(s);
    CpuState { a: v, status: zn_flags(s.status, v), ..pop(s) }
}

pub open spec fn plp_next(s: CpuState) -> CpuState {
    CpuState { status: pulled_status(pop_value(s)), ..pop(s) }
}

// ---------------------------------------------------------------------------
// Undocumented instructions
// ---------------------------------------------------------------------------

/// SBX: X = (A & X) - M without borrow; N and Z from the result, C set when
/// no borrow occurred.
pub open spec fn sbx_next(s: CpuState, mode: AddressingMode) -> CpuState {
    let v = operand(s, mode);
    let ax = s.a & s.x;
    let r = add8(ax, -(v as int));
    CpuState {
        x: r,
        status: set_flag(zn_flags(s.status, r), FLAG_CARRY, ax >= v),
        ..after_operand(s, mode)
    }
}

/// LAE: A = X = S = M & S; N and Z from the result.
pub open spec fn lae_next(s: CpuState, mode: AddressingMode) -> CpuState {
    let r = operand(s, mode) & s.sp;
    let t = after_operand(s, mode);
    CpuState { a: r, x: r, sp: r, status: zn_flags(t.status, r), ..t }
}

/// SHX/SHY: M = (reg & H) + 1 where H is the high byte of the address.
pub open spec fn sh_next(s: CpuState, mode: AddressingMode, reg: u8) -> CpuState {
    let addr = operand_address(s, mode);
    store_next(s, mode, add8(reg & ((addr / 256) as u8), 1))
}

/// The state of SHS once S holds A & X.
pub open spec fn shs_stack(s: CpuState) -> CpuState {
    CpuState { sp: s.a & s.x, ..s }
}

pub open spec fn shs_ok(s: CpuState, mode: AddressingMode) -> bool {
    operand_ok(shs_stack(s), mode)
}

/// SHS: S = A & X, then M = A & X & H, H being the high byte of the address.
pub open spec fn shs_next(s: CpuState, mode: AddressingMode) -> CpuState {
    let t = shs_stack(s);
    let addr = operand_address(t, mode);
    store_next(t, mode, s.a & s.x & ((addr / 256) as u8))
}

// ---------------------------------------------------------------------------
// Interrupts
// ---------------------------------------------------------------------------

/// NMI: pushes the counter and the status (B cleared, bit 5 set), sets I,
/// spends two cycles and jumps through $FFFA.
pub open spec fn nmi_next(s: CpuState) -> CpuState {
    let t = push(push_u16(s, s.pc), (s.status & !FLAG_BREAK) | FLAG_BREAK2);
    let u = CpuState {
        status: s.status | crate::cpu::FLAG_INTERRRUPT,
        cycles: add_usize(t.cycles, 2),
        ..t
    };
    CpuState { pc: read_u16(u.mem, 0xFFFA), ..u }
}

/// IRQ from the APU: ignored while I is set, else pushes the counter and the
/// status, jumps through $FFFE, sets B and spends two cycles.
pub open spec fn irq_next(s: CpuState) -> CpuState {
    if s.status & crate::cpu::FLAG_INTERRRUPT != 0 {
        s
    } else {
        let t = push(push_u16(s, s.pc), s.status);
        CpuState {
            pc: read_u16(t.mem, 0xFFFE),
            status: t.status | FLAG_BREAK,
            cycles: add_usize(t.cycles, 2),
            ..t
        }
    }
}

/// `a + b` wrapping at the width of `usize`.
pub open spec fn add_usize(a: usize, b: int) -> usize {
    if a + b > usize::MAX {
        (a + b - (usize::MAX + 1)) as usize
    } else {
        (a + b) as usize
    }
}

/// The interrupt lines serviced at the start of an instruction: a pending NMI
/// is taken (and cleared), then the APU line is looked at.
pub open spec fn interrupts_next(s: CpuState) -> CpuState {
    let cleared = CpuState { nmi: None, ..s };
    let t = if s.nmi is Some {
        nmi_next(cleared)
    } else {
        cleared
    };
    if t.irq {
        irq_next(t)
    } else {
        t
    }
}

// ---------------------------------------------------------------------------
// Trace lines
// ---------------------------------------------------------------------------

/// The argument bytes of an instruction, each after a space, in hexadecimal.
pub open spec fn args_text(args: Seq<u8>) -> Seq<char>
    decreases args.len(),
{
    if args.len() == 0 {
        Seq::empty()
    } else {
        args_text(args.drop_last()) + seq![' '] + hex2(args.last())
    }
}

/// The bytes of an instruction in hexadecimal, separated by spaces.
pub open spec fn binary_text(op: u8, args: Seq<u8>) -> Seq<char> {
    hex2(op) + args_text(args)
}

/// How many argument bytes the operand text of `mode` reads.
pub open spec fn args_needed(mode: AddressingMode) -> nat {
    match mode {
        AddressingMode::Implied | AddressingMode::Accumulator | AddressingMode::NoneAddressing => 0,
        AddressingMode::Absolute | AddressingMode::Absolute_X | AddressingMode::Absolute_Y
        | AddressingMode::Indirect => 2,
        _ => 1,
    }
}

/// The target of a relative branch as the disassembly shows it: two past the
/// operand address.
pub open spec fn relative_target(pc: u16, arg: u8) -> int {
    add16(pc, signed8(arg)) + 2
}

/// The operand text can be formed: the mode is one that is disassembled, the
/// argument bytes are there, and a branch target stays below $10000.
pub open spec fn address_ok(pc: u16, mode: AddressingMode, args: Seq<u8>) -> bool {
    &&& !(mode is NoneAddressing)
    &&& args.len() >= args_needed(mode)
    &&& mode is Relative ==> relative_target(pc, args[0]) <= 0xFFFF
}

/// The operand in assembler syntax.
pub open spec fn address_text(pc: u16, mode: AddressingMode, args: Seq<u8>) -> Seq<char> {
    match mode {
        AddressingMode::Implied => Seq::empty(),
        AddressingMode::Accumulator => "A"@,
        AddressingMode::Immediate => "#$"@ + hex2(args[0]),
        AddressingMode::ZeroPage => "$"@ + hex2(args[0]),
        AddressingMode::Absolute => "$"@ + hex2(args[1]) + hex2(args[0]),
        AddressingMode::ZeroPage_X => "$"@ + hex2(args[0]) + ",X"@,
        AddressingMode::ZeroPage_Y => "$"@ + hex2(args[0]) + ",Y"@,
        AddressingMode::Absolute_X => "$"@ + hex2(args[1]) + hex2(args[0]) + ",X"@,
        AddressingMode::Absolute_Y => "$"@ + hex2(args[1]) + hex2(args[0]) + ",Y"@,
        AddressingMode::Indirect => "($"@ + hex2(args[1]) + hex2(args[0]) + ")"@,
        AddressingMode::Indirect_X => "($"@ + hex2(args[0]) + ",X)"@,
        AddressingMode::Indirect_Y => "($"@ + hex2(args[0]) + "),Y"@,
        AddressingMode::Relative => "$"@ + hex4(relative_target(pc, args[0]) as u16),
        AddressingMode::NoneAddressing => Seq::empty(),
    }
}

/// The instruction in assembler syntax; undocumented mnemonics start with `*`
/// and are not indented.
pub open spec fn disasm_text(
    pc: u16,
    name: Seq<char>,
    mode: AddressingMode,
    args: Seq<u8>,
) -> Seq<char> {
    let prefix = if name.len() > 0 && name[0] == '*' {
        Seq::empty()
    } else {
        " "@
    };
    prefix + name + " "@ + address_text(pc, mode, args)
}

/// The memory the instruction touches can be shown: the argument bytes are
/// there, and no word is read across $FFFF.
pub open spec fn memory_access_ok(name: Seq<char>, mode: AddressingMode, args: Seq<u8>) -> bool {
    if name.len() > 0 && name[0] == 'J' {
        mode is Indirect ==> args.len() >= 2 && word(args[1], args[0]) != 0xFFFF
    } else {
        args.len() >= (match mode {
            AddressingMode::ZeroPage | AddressingMode::ZeroPage_X | AddressingMode::ZeroPage_Y
            | AddressingMode::Indirect_X | AddressingMode::Indirect_Y => 1nat,
            AddressingMode::Absolute | AddressingMode::Absolute_X | AddressingMode::Absolute_Y => 2nat,
            _ => 0nat,
        })
    }
}

/// The memory the instruction touches: effective addresses and the values there.
pub open spec fn memory_access_text(
    s: CpuState,
    name: Seq<char>,
    mode: AddressingMode,
    args: Seq<u8>,
) -> Seq<char> {
    if name.len() > 0 && name[0] == 'J' {
        jump_access_text(s, mode, args)
    } else {
        operand_access_text(s, mode, args)
    }
}

/// What a jump reads: the target word of an indirect jump, nothing otherwise.
pub open spec fn jump_access_text(s: CpuState, mode: AddressingMode, args: Seq<u8>) -> Seq<
    char,
> {
    if mode is Indirect {
        "= "@ + hex4(read_u16(s.mem, word(args[1], args[0])))
    } else {
        Seq::empty()
    }
}

/// The effective address of a memory operand and the value there.
pub open spec fn operand_access_text(s: CpuState, mode: AddressingMode, args: Seq<u8>) -> Seq<
    char,
> {
    match mode {
        AddressingMode::ZeroPage => "= "@ + hex2(rd(s, args[0] as u16)),
        AddressingMode::ZeroPage_X => {
            let addr = add8(args[0], s.x as int);
            "@ "@ + hex2(addr) + " = "@ + hex2(rd(s, addr as u16))
        },
        AddressingMode::ZeroPage_Y => {
            let addr = add8(args[0], s.y as int);
            "@ "@ + hex2(addr) + " = "@ + hex2(rd(s, addr as u16))
        },
        AddressingMode::Absolute => "= "@ + hex2(rd(s, word(args[1], args[0]))),
        AddressingMode::Absolute_X => {
            let addr = add16(word(args[1], args[0]), s.x as int);
            "@ "@ + hex4(addr) + " = "@ + hex2(rd(s, addr))
        },
        AddressingMode::Absolute_Y => {
            let addr = add16(word(args[1], args[0]), s.y as int);
            "@ "@ + hex4(addr) + " = "@ + hex2(rd(s, addr))
        },
        AddressingMode::Indirect_X => {
            let ptr = add8(args[0], s.x as int);
            let addr = read_u16(s.mem, ptr as u16);
            "@ "@ + hex2(ptr) + " = "@ + hex4(addr) + " = "@ + hex2(rd(s, addr))
        },
        AddressingMode::Indirect_Y => {
            let deref_base = read_u16(s.mem, args[0] as u16);
            let deref = add16(deref_base, s.y as int);
            "= "@ + hex4(deref_base) + " @ "@ + hex4(deref) + " = "@ + hex2(rd(s, deref))
        },
        _ => Seq::empty(),
    }
}

/// Each argument byte takes three characters of the binary column.
pub proof fn lemma_args_text_len(args: Seq<u8>)
    ensures
        args_text(args).len() == 3 * args.len(),
    decreases args.len(),
{
    if args.len() > 0 {
        lemma_args_text_len(args.drop_last());
        lemma_hex_len(args.last(), 0);
    }
}

/// The registers as the trace shows them.
pub open spec fn registers_text(s: CpuState) -> Seq<char> {
    "A:"@ + hex2(s.a) + " X:"@ + hex2(s.x) + " Y:"@ + hex2(s.y) + " P:"@ + hex2(s.status)
        + " SP:"@ + hex2(s.sp)
}

/// A trace line: the address, the bytes and the disassembly of an
/// instruction, the memory it touches and the registers, in columns.
pub open spec fn trace_line(
    pc: u16,
    op: u8,
    args: Seq<u8>,
    name: Seq<char>,
    mode: AddressingMode,
    s: CpuState,
) -> Seq<char> {
    pad_right(hex4(pc), 6) + pad_right(binary_text(op, args), 9) + pad_right(
        disasm_text(pc, name, mode, args) + " "@ + memory_access_text(s, name, mode, args),
        33,
    ) + registers_text(s)
}

} // verus!
