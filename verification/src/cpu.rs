//! The 6502 core of the emulator: registers, addressing modes and the instruction set.
use vstd::prelude::*;
use crate::bus::Bus;
use crate::cpu_model::{
    adc_next, add8, add16, after_operand, and_next, bit_next, branch_next, branch_ok, brk_next,
    compare_next, dex_next, interrupts_next, add_usize, dey_next, eor_next, flag_next, inx_next,
    iny_next, irq_next, jmp_next, jmp_ok, jsr_next, jsr_ok, lae_next, lda_next, ldx_next, ldy_next,
    nmi_next, operand, operand_address, operand_ok, operand_page_crossed, operand_readable,
    ora_next, pha_next, php_next, pla_next, plp_next, pop, pop_u16, pop_u16_value, pop_value, push,
    push_u16, rd, read_u16, rti_next, rts_next, rts_ok, same_page, sbc_next, sbx_next, sh_next,
    shift_next, shift_ok, shifted, shifted_out, shs_next, shs_ok, step_memory_next, store_next,
    tax_next, tay_next, tsx_next, txa_next, txs_next, tya_next, word, wr, zn_flags, CpuState, Shift,
    address_ok, address_text, args_text, binary_text, disasm_text, memory_access_ok,
    memory_access_text, args_needed, registers_text, jump_access_text, operand_access_text,
    lemma_args_text_len, trace_line,
};
use crate::opcode::{
    call_next, call_ok, instruction_next, instruction_ok, mnemonic_of, in_group_0, group_0_ok,
    group_0_next, in_group_1, group_1_ok, group_1_next, in_group_2, group_2_ok, group_2_next,
    in_group_3, group_3_ok, group_3_next, in_group_4, group_4_ok, group_4_next, in_group_5,
    group_5_ok, group_5_next, in_group_6, group_6_ok, group_6_next, in_group_7, group_7_ok,
    group_7_next,
};
use crate::text::{
    char_count, chars_eq, hex2, hex4, lemma_hex_len, pad_right, pad_to, push_hex2, push_hex4,
    push_str,
};

verus! {

pub const FLAG_CARRY: u8 = 0x01;
pub const FLAG_ZERO: u8 = 0x02;
pub const FLAG_INTERRRUPT: u8 = 0x04;
pub const FLAG_DECIMAL: u8 = 0x08;
pub const FLAG_BREAK: u8 = 0x10;
/// Bit 5 of the status, unused by the 6502.
pub const FLAG_BREAK2: u8 = 0x20;
pub const FLAG_OVERFLOW: u8 = 0x40;
pub const FLAG_NEGATIVE: u8 = 0x80;

pub const SIGN_BIT: u8 = 0x80;

/// Address of the reset vector.
pub const ADDR_VEC_TBL_RST: u16 = 0xFFFC;

#[allow(non_camel_case_types)]
#[derive(Debug, Clone, Copy, PartialEq, Eq, Structural)]
pub enum AddressingMode {
    Accumulator,
    Immediate,
    ZeroPage,
    ZeroPage_X,
    ZeroPage_Y,
    Absolute,
    Absolute_X,
    Absolute_Y,
    Indirect,
    Indirect_X,
    Indirect_Y,
    Relative,
    Implied,
    NoneAddressing,
}

#[allow(non_camel_case_types)]
#[derive(Debug, Clone, Copy, PartialEq, Eq, Structural)]
pub enum CycleCalcMode {
    Fixed,
    Page,
    Branch,
}

/// One entry of an opcode table.
#[derive(Debug)]
pub struct OpCode {
    pub code: u8,
    pub name: String,
    pub bytes: u16,
    pub cycles: u8,
    pub cycle_calc_mode: CycleCalcMode,
    pub addressing_mode: AddressingMode,
}

impl OpCode {
    pub fn new(
        code: u8,
        name: &str,
        bytes: u16,
        cycles: u8,
        cycle_calc_mode: CycleCalcMode,
        addressing_mode: AddressingMode,
    ) -> (r: Self)
        ensures
            r.code == code,
            r.name@ == name@,
            r.bytes == bytes,
            r.cycles == cycles,
            r.cycle_calc_mode == cycle_calc_mode,
            r.addressing_mode == addressing_mode,
    {
        OpCode {
            code: code,
            name: name.to_owned(),
            bytes: bytes,
            cycles: cycles,
            cycle_calc_mode: cycle_calc_mode,
            addressing_mode: addressing_mode,
        }
    }
}

pub struct CPU {
    pub register_a: u8,
    pub register_x: u8,
    pub register_y: u8,
    pub status: u8,
    pub program_counter: u16,
    pub stack_pointer: u8,
    pub bus: Bus,
    /// Cycles that the instruction being executed adds to its base count.
    pub add_cycles: u8,
}

/// The cycles of `op` can be settled from `s` without a fault: an instruction
/// counted by pages has at most one extra cycle, and the total fits in a byte.
pub open spec fn finish_ok(s: CpuState, op: OpCode) -> bool {
    &&& op.cycle_calc_mode is Page ==> s.extra <= 1
    &&& op.cycles + (if op.cycle_calc_mode is Fixed {
        0
    } else {
        s.extra
    }) <= 255
}

/// The state after the cycles of `op` have been settled: an instruction with
/// a fixed count drops its extra cycles, and the bus counts the cycles spent.
pub open spec fn finish_next(s: CpuState, op: OpCode) -> CpuState {
    let e: u8 = if op.cycle_calc_mode is Fixed {
        0
    } else {
        s.extra
    };
    CpuState { extra: e, cycles: add_usize(s.cycles, op.cycles + e), ..s }
}

/// How the start of an instruction went: the counter could not step past the
/// opcode, the opcode is not in the table (it is skipped), or the position of
/// its table entry.
pub enum Decoded {
    Fault,
    Unknown,
    Entry(usize),
}

impl View for CPU {
    type V = CpuState;

    open spec fn view(&self) -> CpuState {
        CpuState {
            a: self.register_a,
            x: self.register_x,
            y: self.register_y,
            status: self.status,
            pc: self.program_counter,
            sp: self.stack_pointer,
            extra: self.add_cycles,
            mem: self.bus.memory@,
            cycles: self.bus.cycles,
            nmi: self.bus.nmi_interrupt,
            irq: self.bus.apu_irq,
        }
    }
}

/// `(hi << 8) | lo` is the word of the two bytes.
proof fn lemma_word(hi: u8, lo: u8)
    ensures
        ((hi as u16) << 8u16) | (lo as u16) == word(hi, lo),
{
    let h = hi as u16;
    let l = lo as u16;
    assert((h << 8u16) | l == h * 256 + l) by (bit_vector)
        requires
            h < 256,
            l < 256,
    ;
}

/// Comparing the high bytes by mask is comparing the pages.
proof fn lemma_page(a: u16, b: u16)
    ensures
        ((a & 0xFF00) == (b & 0xFF00)) == same_page(a, b),
        (a & 0xFF00) >> 8u16 == a / 256,
{
    assert(((a & 0xFF00) == (b & 0xFF00)) == (a / 256 == b / 256) && (a & 0xFF00) >> 8u16 == a
        / 256) by (bit_vector);
}

/// `base + index` for the indexed modes, and whether it left the page of `base`.
fn indexed_address(base: u16, index: u8) -> (r: (u16, bool))
    ensures
        r.0 == add16(base, index as int),
        r.1 == !same_page(base, r.0),
{
    let addr = base.wrapping_add(index as u16);
    proof {
        lemma_page(base, addr);
    }
    (addr, base & 0xFF00 != addr & 0xFF00)
}

impl CPU {
    pub fn new(bus: Bus) -> (r: CPU)
        ensures
            r@ == (CpuState {
                a: 0,
                x: 0,
                y: 0,
                status: FLAG_INTERRRUPT | FLAG_BREAK2,
                pc: 0,
                sp: 0xFD,
                extra: 0,
                mem: bus.memory@,
                cycles: bus.cycles,
                nmi: bus.nmi_interrupt,
                irq: bus.apu_irq,
            }),
    {
        CPU {
            register_a: 0,
            register_x: 0,
            register_y: 0,
            status: FLAG_INTERRRUPT | FLAG_BREAK2,
            program_counter: 0,
            stack_pointer: 0xFD,
            bus: bus,
            add_cycles: 0,
        }
    }

    fn mem_read(&self, addr: u16) -> (r: u8)
        ensures
            r == rd(self@, addr),
    {
        self.bus.mem_read(addr)
    }

    fn mem_write(&mut self, addr: u16, data: u8)
        ensures
            final(self)@ == wr(old(self)@, addr, data),
    {
        self.bus.mem_write(addr, data)
    }

    /// Reads the little-endian word at `pos`.  As the 6502 does for indirect
    /// jumps, at $00FF and $02FF the high byte comes from the start of the page.
    pub fn mem_read_u16(&self, pos: u16) -> (r: u16)
        requires
            pos != 0xFFFF,
        ensures
            r == read_u16(self@.mem, pos),
    {
        if pos == 0x00FF || pos == 0x02FF {
            let lo = self.mem_read(pos);
            let hi = self.mem_read(pos & 0xFF00);
            proof {
                lemma_word(hi, lo);
            }
            return ((hi as u16) << 8) | (lo as u16);
        }
        let lo = self.mem_read(pos);
        let hi = self.mem_read(pos + 1);
        proof {
            lemma_word(hi, lo);
        }
        ((hi as u16) << 8) | (lo as u16)
    }

    /// Writes `data` little-endian at `pos` and `pos + 1`.
    pub fn mem_write_u16(&mut self, pos: u16, data: u16)
        requires
            pos != 0xFFFF,
        ensures
            final(self)@ == wr(
                wr(old(self)@, pos, (data % 256) as u8),
                (pos + 1) as u16,
                (data / 256) as u8,
            ),
    {
        let hi = (data >> 8) as u8;
        let lo = (data & 0x00FF) as u8;
        assert(hi == (data / 256) as u8 && lo == (data % 256) as u8) by (bit_vector)
            requires
                hi == (data >> 8) as u8,
                lo == (data & 0x00FF) as u8,
        ;
        self.mem_write(pos, lo);
        self.mem_write(pos + 1, hi);
    }

    /// Puts the registers in their power-on state and loads the counter from the reset vector.
    pub fn reset(&mut self)
        ensures
            final(self)@ == (CpuState {
                a: 0,
                x: 0,
                y: 0,
                status: FLAG_INTERRRUPT | FLAG_BREAK2,
                sp: 0xFD,
                pc: read_u16(old(self)@.mem, ADDR_VEC_TBL_RST),
                ..old(self)@
            }),
    {
        self.register_a = 0;
        self.register_x = 0;
        self.register_y = 0;
        self.status = FLAG_INTERRRUPT | FLAG_BREAK2;
        self.stack_pointer = 0xFD;
        self.program_counter = self.mem_read_u16(ADDR_VEC_TBL_RST);
    }

    /// Loading a program is left to whoever fills the bus; nothing to do here.
    pub fn load(&mut self)
        ensures
            final(self)@ == old(self)@,
    {
    }

    /// The operand address of `mode` and whether indexing crossed a page, read
    /// without counting anything.
    fn operand_peek(&self, mode: &AddressingMode) -> (r: (u16, bool))
        requires
            operand_readable(self@, *mode),
        ensures
            r.0 == operand_address(self@, *mode),
            r.1 == operand_page_crossed(self@, *mode),
    {
        let pc = self.program_counter;
        match mode {
            AddressingMode::Immediate => (pc, false),
            AddressingMode::ZeroPage => (self.mem_read(pc) as u16, false),
            AddressingMode::Absolute => (self.mem_read_u16(pc), false),
            AddressingMode::ZeroPage_X => {
                let pos = self.mem_read(pc);
                (pos.wrapping_add(self.register_x) as u16, false)
            },
            AddressingMode::ZeroPage_Y => {
                let pos = self.mem_read(pc);
                (pos.wrapping_add(self.register_y) as u16, false)
            },
            AddressingMode::Absolute_X => {
                let base = self.mem_read_u16(pc);
                indexed_address(base, self.register_x)
            },
            AddressingMode::Absolute_Y => {
                let base = self.mem_read_u16(pc);
                indexed_address(base, self.register_y)
            },
            AddressingMode::Indirect => {
                let base = self.mem_read_u16(pc);
                (self.mem_read_u16(base), false)
            },
            AddressingMode::Indirect_X => {
                let base = self.mem_read(pc);
                let ptr: u8 = base.wrapping_add(self.register_x);
                (self.mem_read_u16(ptr as u16), false)
            },
            AddressingMode::Indirect_Y => {
                let base = self.mem_read(pc);
                let deref_base = self.mem_read_u16(base as u16);
                indexed_address(deref_base, self.register_y)
            },
            AddressingMode::Relative => {
                let base = self.mem_read(pc);
                if base < 128 {
                    (pc.wrapping_add(base as u16), false)
                } else {
                    (pc.wrapping_sub(256 - base as u16), false)
                }
            },
            _ => {
                // operand_readable rules out the modes without a memory operand
                (0, false)
            },
        }
    }

    fn get_operand_address(&mut self, mode: &AddressingMode) -> (r: u16)
        requires
            operand_ok(old(self)@, *mode),
        ensures
            r == operand_address(old(self)@, *mode),
            final(self)@ == after_operand(old(self)@, *mode),
    {
        let (addr, crossed) = self.operand_peek(mode);
        if crossed {
            self.add_cycles += 1;
        }
        addr
    }

    /// Whether the operand of `mode` can be computed without a fault.
    pub(crate) fn operand_ok_check(&self, mode: &AddressingMode) -> (r: bool)
        ensures
            r == operand_ok(self@, *mode),
    {
        let readable = match mode {
            AddressingMode::Implied | AddressingMode::Accumulator
            | AddressingMode::NoneAddressing => false,
            AddressingMode::Absolute | AddressingMode::Absolute_X | AddressingMode::Absolute_Y => {
                self.program_counter != 0xFFFF
            },
            AddressingMode::Indirect => {
                self.program_counter != 0xFFFF && self.mem_read_u16(self.program_counter) != 0xFFFF
            },
            _ => true,
        };
        if !readable {
            return false;
        }
        let (_addr, crossed) = self.operand_peek(mode);
        !crossed || self.add_cycles < 255
    }

    /// Whether a shift of `mode` can run without a fault.
    pub(crate) fn shift_ok_check(&self, mode: &AddressingMode) -> (r: bool)
        ensures
            r == shift_ok(self@, *mode),
    {
        match mode {
            AddressingMode::Accumulator => true,
            _ => self.operand_ok_check(mode),
        }
    }

    /// Whether a branch on `flag` can run without a fault.
    pub(crate) fn branch_ok_check(&self, mode: &AddressingMode, flag: u8, nonzero: bool) -> (r:
        bool)
        ensures
            r == branch_ok(self@, *mode, flag, nonzero),
    {
        if !self.operand_ok_check(mode) {
            return false;
        }
        let taken = if nonzero {
            self.status & flag != 0
        } else {
            self.status & flag == 0
        };
        if !taken {
            return true;
        }
        let (addr, crossed) = self.operand_peek(mode);
        let extra: u16 = if crossed {
            self.add_cycles as u16 + 1
        } else {
            self.add_cycles as u16
        };
        let pc = self.program_counter;
        proof {
            lemma_page(pc, addr);
        }
        let cycles: u16 = if pc & 0xFF00 == addr & 0xFF00 {
            1
        } else {
            2
        };
        extra + cycles <= 255
    }

    /// Whether a jump of `mode` can run without a fault.
    pub(crate) fn jmp_ok_check(&self, mode: &AddressingMode) -> (r: bool)
        ensures
            r == jmp_ok(self@, *mode),
    {
        if !self.operand_ok_check(mode) {
            return false;
        }
        let (addr, _crossed) = self.operand_peek(mode);
        addr >= 2
    }

    /// Whether a subroutine call of `mode` can run without a fault.
    pub(crate) fn jsr_ok_check(&self, mode: &AddressingMode) -> (r: bool)
        ensures
            r == jsr_ok(self@, *mode),
    {
        self.operand_ok_check(mode) && self.program_counter <= 0xFFFD
    }

    /// Whether a return from subroutine can run without a fault.
    pub(crate) fn rts_ok_check(&self) -> (r: bool)
        ensures
            r == rts_ok(self@),
    {
        let sp1 = self.stack_pointer.wrapping_add(1);
        let sp2 = sp1.wrapping_add(1);
        let lo = self.mem_read(0x100 + sp1 as u16);
        let hi = self.mem_read(0x100 + sp2 as u16);
        proof {
            lemma_word(hi, lo);
        }
        (hi as u16) << 8 | lo as u16 != 0xFFFF
    }

    fn update_zero_and_negative_flags(&mut self, result: u8)
        ensures
            final(self)@ == (CpuState { status: zn_flags(old(self)@.status, result), ..old(self)@ }),
    {
        self.status = if result == 0 {
            self.status | FLAG_ZERO
        } else {
            self.status & !FLAG_ZERO
        };
        self.status = if result & 0x80 != 0 {
            self.status | FLAG_NEGATIVE
        } else {
            self.status & !FLAG_NEGATIVE
        }
    }
}

/// The carry flag taken from the status is 0 or 1.
pub proof fn lemma_carry_bit(st: u8)
    ensures
        st & FLAG_CARRY <= 1,
{
    assert(st & 1 <= 1) by (bit_vector);
}

/// Facts about the byte arithmetic that the instructions use.
proof fn lemma_byte_arith(a: u8, b: u8)
    ensures
        add8(a, b as int) == (if a as int + b as int > 255 {
            a as int + b as int - 256
        } else {
            a as int + b as int
        }),
        add8(a, -(b as int)) == (if (a as int) < (b as int) {
            a as int - b as int + 256
        } else {
            a as int - b as int
        }),
{
}

impl CPU {
    // -----------------------------------------------------------------------
    // Stack
    // -----------------------------------------------------------------------

    /// Pushes a byte onto the stack page $0100-$01FF.
    pub fn _push(&mut self, value: u8)
        ensures
            final(self)@ == push(old(self)@, value),
    {
        let addr = 0x0100 + self.stack_pointer as u16;
        self.mem_write(addr, value);
        self.stack_pointer = self.stack_pointer.wrapping_sub(1);
    }

    /// Pulls a byte from the stack.
    pub fn _pop(&mut self) -> (r: u8)
        ensures
            r == pop_value(old(self)@),
            final(self)@ == pop(old(self)@),
    {
        self.stack_pointer = self.stack_pointer.wrapping_add(1);
        let addr = 0x0100 + self.stack_pointer as u16;
        self.mem_read(addr)
    }

    /// Pushes a word, high byte first.
    pub fn _push_u16(&mut self, value: u16)
        ensures
            final(self)@ == push_u16(old(self)@, value),
    {
        let hi = (value >> 8) as u8;
        let lo = (value & 0x00FF) as u8;
        assert(hi == (value / 256) as u8 && lo == (value % 256) as u8) by (bit_vector)
            requires
                hi == (value >> 8) as u8,
                lo == (value & 0x00FF) as u8,
        ;
        self._push(hi);
        self._push(lo);
    }

    /// Pulls a word, low byte first.
    pub fn _pop_u16(&mut self) -> (r: u16)
        ensures
            r == pop_u16_value(old(self)@),
            final(self)@ == pop_u16(old(self)@),
    {
        let lo = self._pop();
        let hi = self._pop();
        proof {
            lemma_word(hi, lo);
        }
        ((hi as u16) << 8) | lo as u16
    }

    // -----------------------------------------------------------------------
    // Instructions the emulator leaves without effect
    // -----------------------------------------------------------------------

    pub fn anc(&mut self, _mode: &AddressingMode)
        ensures
            final(self)@ == old(self)@,
    {
    }

    pub fn arr(&mut self, _mode: &AddressingMode)
        ensures
            final(self)@ == old(self)@,
    {
    }

    pub fn asr(&mut self, _mode: &AddressingMode)
        ensures
            final(self)@ == old(self)@,
    {
    }

    pub fn lxa(&mut self, _mode: &AddressingMode)
        ensures
            final(self)@ == old(self)@,
    {
    }

    pub fn sha(&mut self, _mode: &AddressingMode)
        ensures
            final(self)@ == old(self)@,
    {
    }

    pub fn nop(&mut self, _mode: &AddressingMode)
        ensures
            final(self)@ == old(self)@,
    {
    }

    // -----------------------------------------------------------------------
    // Undocumented instructions
    // -----------------------------------------------------------------------

    /// X = (A & X) - M without borrow.
    pub fn sbx(&mut self, mode: &AddressingMode)
        requires
            operand_ok(old(self)@, *mode),
        ensures
            final(self)@ == sbx_next(old(self)@, *mode),
    {
        let addr = self.get_operand_address(mode);
        let value = self.mem_read(addr);
        let ax = self.register_a & self.register_x;
        let v = ax.wrapping_sub(value);
        proof {
            lemma_byte_arith(ax, value);
        }
        self.register_x = v;
        self.update_zero_and_negative_flags(v);
        self.status = if ax >= value {
            self.status | FLAG_CARRY
        } else {
            self.status & !FLAG_CARRY
        };
    }

    /// Locks the processor: the counter stays on the opcode.
    pub fn jam(&mut self, _mode: &AddressingMode)
        requires
            old(self)@.pc >= 1,
        ensures
            final(self)@ == (CpuState { pc: (old(self)@.pc - 1) as u16, ..old(self)@ }),
    {
        self.program_counter -= 1;
    }

    /// A = X = S = M & S.
    pub fn lae(&mut self, mode: &AddressingMode)
        requires
            operand_ok(old(self)@, *mode),
        ensures
            final(self)@ == lae_next(old(self)@, *mode),
    {
        let addr = self.get_operand_address(mode);
        let value = self.mem_read(addr);
        let r = value & self.stack_pointer;
        self.register_a = r;
        self.register_x = r;
        self.stack_pointer = r;
        self.update_zero_and_negative_flags(r);
    }

    /// M = (X & H) + 1, H being the high byte of the address.
    pub fn shx(&mut self, mode: &AddressingMode)
        requires
            operand_ok(old(self)@, *mode),
        ensures
            final(self)@ == sh_next(old(self)@, *mode, old(self)@.x),
    {
        let addr = self.get_operand_address(mode);
        proof {
            lemma_page(addr, addr);
        }
        let h = ((addr & 0xFF00) >> 8) as u8;
        let x = self.register_x;
        self.mem_write(addr, (x & h).wrapping_add(1));
    }

    /// M = (Y & H) + 1, H being the high byte of the address.
    pub fn shy(&mut self, mode: &AddressingMode)
        requires
            operand_ok(old(self)@, *mode),
        ensures
            final(self)@ == sh_next(old(self)@, *mode, old(self)@.y),
    {
        let addr = self.get_operand_address(mode);
        proof {
            lemma_page(addr, addr);
        }
        let h = ((addr & 0xFF00) >> 8) as u8;
        let y = self.register_y;
        self.mem_write(addr, (y & h).wrapping_add(1));
    }

    /// TXA followed by AND.
    pub fn ane(&mut self, mode: &AddressingMode)
        requires
            operand_ok(txa_next(old(self)@), *mode),
        ensures
            final(self)@ == and_next(txa_next(old(self)@), *mode),
    {
        self.txa(mode);
        self.and(mode);
    }

    /// Loads S with A & X, then stores A & X & H.
    pub fn shs(&mut self, mode: &AddressingMode)
        requires
            shs_ok(old(self)@, *mode),
        ensures
            final(self)@ == shs_next(old(self)@, *mode),
    {
        let ax = self.register_a & self.register_x;
        self.stack_pointer = ax;
        self.store_masked_by_high(mode, ax);
    }

    /// Stores `v & H` at the operand, H being the high byte of the operand address.
    pub(crate) fn store_masked_by_high(&mut self, mode: &AddressingMode, v: u8)
        requires
            operand_ok(old(self)@, *mode),
        ensures
            final(self)@ == store_next(
                old(self)@,
                *mode,
                v & ((operand_address(old(self)@, *mode) / 256) as u8),
            ),
    {
        let addr = self.get_operand_address(mode);
        proof {
            lemma_page(addr, addr);
        }
        let h = ((addr & 0xFF00) >> 8) as u8;
        self.mem_write(addr, v & h);
    }

    /// ROR followed by ADC.
    pub fn rra(&mut self, mode: &AddressingMode)
        requires
            shift_ok(old(self)@, *mode),
            operand_ok(shift_next(old(self)@, *mode, Shift::Ror), *mode),
        ensures
            final(self)@ == adc_next(shift_next(old(self)@, *mode, Shift::Ror), *mode),
    {
        self.ror(mode);
        self.adc(mode);
    }

    /// LSR followed by EOR.
    pub fn sre(&mut self, mode: &AddressingMode)
        requires
            shift_ok(old(self)@, *mode),
            operand_ok(shift_next(old(self)@, *mode, Shift::Lsr), *mode),
        ensures
            final(self)@ == eor_next(shift_next(old(self)@, *mode, Shift::Lsr), *mode),
    {
        self.lsr(mode);
        self.eor(mode);
    }

    /// ROL followed by AND.
    pub fn rla(&mut self, mode: &AddressingMode)
        requires
            shift_ok(old(self)@, *mode),
            operand_ok(shift_next(old(self)@, *mode, Shift::Rol), *mode),
        ensures
            final(self)@ == and_next(shift_next(old(self)@, *mode, Shift::Rol), *mode),
    {
        self.rol(mode);
        self.and(mode);
    }

    /// ASL followed by ORA.
    pub fn slo(&mut self, mode: &AddressingMode)
        requires
            shift_ok(old(self)@, *mode),
            operand_ok(shift_next(old(self)@, *mode, Shift::Asl), *mode),
        ensures
            final(self)@ == ora_next(shift_next(old(self)@, *mode, Shift::Asl), *mode),
    {
        self.asl(mode);
        self.ora(mode);
    }

    /// INC followed by SBC (also known as ISC).
    pub fn isb(&mut self, mode: &AddressingMode)
        requires
            operand_ok(old(self)@, *mode),
            operand_ok(step_memory_next(old(self)@, *mode, 1), *mode),
        ensures
            final(self)@ == sbc_next(step_memory_next(old(self)@, *mode, 1), *mode),
    {
        self.inc(mode);
        self.sbc(mode);
    }

    /// DEC followed by CMP.
    pub fn dcp(&mut self, mode: &AddressingMode)
        requires
            operand_ok(old(self)@, *mode),
            operand_ok(step_memory_next(old(self)@, *mode, -1), *mode),
        ensures
            final(self)@ == ({
                let t = step_memory_next(old(self)@, *mode, -1);
                compare_next(t, *mode, t.a)
            }),
    {
        self.dec(mode);
        self.cmp(mode);
    }

    /// M = A & X.
    pub fn sax(&mut self, mode: &AddressingMode)
        requires
            operand_ok(old(self)@, *mode),
        ensures
            final(self)@ == store_next(old(self)@, *mode, old(self)@.a & old(self)@.x),
    {
        let addr = self.get_operand_address(mode);
        let v = self.register_a & self.register_x;
        self.mem_write(addr, v);
    }

    /// LDA followed by TAX.
    pub fn lax(&mut self, mode: &AddressingMode)
        requires
            operand_ok(old(self)@, *mode),
        ensures
            final(self)@ == tax_next(lda_next(old(self)@, *mode)),
    {
        self.lda(mode);
        self.tax(mode);
    }

    // -----------------------------------------------------------------------
    // Transfers
    // -----------------------------------------------------------------------

    pub fn txs(&mut self, _mode: &AddressingMode)
        ensures
            final(self)@ == txs_next(old(self)@),
    {
        self.stack_pointer = self.register_x;
    }

    pub fn tsx(&mut self, _mode: &AddressingMode)
        ensures
            final(self)@ == tsx_next(old(self)@),
    {
        self.register_x = self.stack_pointer;
        let x = self.register_x;
        self.update_zero_and_negative_flags(x);
    }

    pub fn tya(&mut self, _mode: &AddressingMode)
        ensures
            final(self)@ == tya_next(old(self)@),
    {
        self.register_a = self.register_y;
        let a = self.register_a;
        self.update_zero_and_negative_flags(a);
    }

    pub fn tay(&mut self, _mode: &AddressingMode)
        ensures
            final(self)@ == tay_next(old(self)@),
    {
        self.register_y = self.register_a;
        let y = self.register_y;
        self.update_zero_and_negative_flags(y);
    }

    pub fn txa(&mut self, _mode: &AddressingMode)
        ensures
            final(self)@ == txa_next(old(self)@),
    {
        self.register_a = self.register_x;
        let a = self.register_a;
        self.update_zero_and_negative_flags(a);
    }

    pub fn tax(&mut self, _mode: &AddressingMode)
        ensures
            final(self)@ == tax_next(old(self)@),
    {
        self.register_x = self.register_a;
        let x = self.register_x;
        self.update_zero_and_negative_flags(x);
    }

    // -----------------------------------------------------------------------
    // Stores and loads
    // -----------------------------------------------------------------------

    pub fn sty(&mut self, mode: &AddressingMode)
        requires
            operand_ok(old(self)@, *mode),
        ensures
            final(self)@ == store_next(old(self)@, *mode, old(self)@.y),
    {
        let addr = self.get_operand_address(mode);
        let y = self.register_y;
        self.mem_write(addr, y);
    }

    pub fn stx(&mut self, mode: &AddressingMode)
        requires
            operand_ok(old(self)@, *mode),
        ensures
            final(self)@ == store_next(old(self)@, *mode, old(self)@.x),
    {
        let addr = self.get_operand_address(mode);
        let x = self.register_x;
        self.mem_write(addr, x);
    }

    pub fn sta(&mut self, mode: &AddressingMode)
        requires
            operand_ok(old(self)@, *mode),
        ensures
            final(self)@ == store_next(old(self)@, *mode, old(self)@.a),
    {
        let addr = self.get_operand_address(mode);
        let a = self.register_a;
        self.mem_write(addr, a);
    }

    pub fn ldy(&mut self, mode: &AddressingMode)
        requires
            operand_ok(old(self)@, *mode),
        ensures
            final(self)@ == ldy_next(old(self)@, *mode),
    {
        let addr = self.get_operand_address(mode);
        let value = self.mem_read(addr);
        self.register_y = value;
        self.update_zero_and_negative_flags(value);
    }

    pub fn ldx(&mut self, mode: &AddressingMode)
        requires
            operand_ok(old(self)@, *mode),
        ensures
            final(self)@ == ldx_next(old(self)@, *mode),
    {
        let addr = self.get_operand_address(mode);
        let value = self.mem_read(addr);
        self.register_x = value;
        self.update_zero_and_negative_flags(value);
    }

    pub fn lda(&mut self, mode: &AddressingMode)
        requires
            operand_ok(old(self)@, *mode),
        ensures
            final(self)@ == lda_next(old(self)@, *mode),
    {
        let addr = self.get_operand_address(mode);
        let value = self.mem_read(addr);
        self.register_a = value;
        self.update_zero_and_negative_flags(value);
    }

    // -----------------------------------------------------------------------
    // Stack instructions
    // -----------------------------------------------------------------------

    /// Pulls the status (B cleared, bit 5 set), then the counter.
    pub fn rti(&mut self, _mode: &AddressingMode)
        ensures
            final(self)@ == rti_next(old(self)@),
    {
        let v = self._pop();
        self.status = v & !FLAG_BREAK | FLAG_BREAK2;
        self.program_counter = self._pop_u16();
    }

    pub fn plp(&mut self, _mode: &AddressingMode)
        ensures
            final(self)@ == plp_next(old(self)@),
    {
        let v = self._pop();
        self.status = v & !FLAG_BREAK | FLAG_BREAK2;
    }

    /// Pushes the status with B and bit 5 set.
    pub fn php(&mut self, _mode: &AddressingMode)
        ensures
            final(self)@ == php_next(old(self)@),
    {
        let v = self.status | FLAG_BREAK | FLAG_BREAK2;
        self._push(v);
    }

    pub fn pla(&mut self, _mode: &AddressingMode)
        ensures
            final(self)@ == pla_next(old(self)@),
    {
        let v = self._pop();
        self.register_a = v;
        self.update_zero_and_negative_flags(v);
    }

    pub fn pha(&mut self, _mode: &AddressingMode)
        ensures
            final(self)@ == pha_next(old(self)@),
    {
        let a = self.register_a;
        self._push(a);
    }

    // -----------------------------------------------------------------------
    // Jumps and subroutines
    // -----------------------------------------------------------------------

    /// Returns to the pulled address plus one.
    pub fn rts(&mut self, _mode: &AddressingMode)
        requires
            rts_ok(old(self)@),
        ensures
            final(self)@ == rts_next(old(self)@),
    {
        let value = self._pop_u16() + 1;
        self.program_counter = value;
    }

    pub fn jsr(&mut self, mode: &AddressingMode)
        requires
            jsr_ok(old(self)@, *mode),
        ensures
            final(self)@ == jsr_next(old(self)@, *mode),
    {
        let addr = self.get_operand_address(mode);
        let ret = self.program_counter + 2 - 1;
        self._push_u16(ret);
        self.program_counter = addr;
        self.program_counter = self.program_counter.wrapping_sub(2);
    }

    pub fn jmp(&mut self, mode: &AddressingMode)
        requires
            jmp_ok(old(self)@, *mode),
        ensures
            final(self)@ == jmp_next(old(self)@, *mode),
    {
        let addr = self.get_operand_address(mode);
        self.program_counter = addr;
        self.program_counter -= 2;
    }

    // -----------------------------------------------------------------------
    // Increments and decrements
    // -----------------------------------------------------------------------

    pub fn iny(&mut self, _mode: &AddressingMode)
        ensures
            final(self)@ == iny_next(old(self)@),
    {
        proof {
            lemma_byte_arith(self.register_y, 1);
        }
        self.register_y = self.register_y.wrapping_add(1);
        let y = self.register_y;
        self.update_zero_and_negative_flags(y);
    }

    pub fn inx(&mut self, _mode: &AddressingMode)
        ensures
            final(self)@ == inx_next(old(self)@),
    {
        proof {
            lemma_byte_arith(self.register_x, 1);
        }
        self.register_x = self.register_x.wrapping_add(1);
        let x = self.register_x;
        self.update_zero_and_negative_flags(x);
    }

    pub fn inc(&mut self, mode: &AddressingMode)
        requires
            operand_ok(old(self)@, *mode),
        ensures
            final(self)@ == step_memory_next(old(self)@, *mode, 1),
    {
        let addr = self.get_operand_address(mode);
        let m = self.mem_read(addr);
        proof {
            lemma_byte_arith(m, 1);
        }
        let value = m.wrapping_add(1);
        self.mem_write(addr, value);
        self.update_zero_and_negative_flags(value);
    }

    pub fn dey(&mut self, _mode: &AddressingMode)
        ensures
            final(self)@ == dey_next(old(self)@),
    {
        proof {
            lemma_byte_arith(self.register_y, 1);
        }
        self.register_y = self.register_y.wrapping_sub(1);
        let y = self.register_y;
        self.update_zero_and_negative_flags(y);
    }

    pub fn dex(&mut self, _mode: &AddressingMode)
        ensures
            final(self)@ == dex_next(old(self)@),
    {
        proof {
            lemma_byte_arith(self.register_x, 1);
        }
        self.register_x = self.register_x.wrapping_sub(1);
        let x = self.register_x;
        self.update_zero_and_negative_flags(x);
    }

    pub fn dec(&mut self, mode: &AddressingMode)
        requires
            operand_ok(old(self)@, *mode),
        ensures
            final(self)@ == step_memory_next(old(self)@, *mode, -1),
    {
        let addr = self.get_operand_address(mode);
        let m = self.mem_read(addr);
        proof {
            lemma_byte_arith(m, 1);
        }
        let value = m.wrapping_sub(1);
        self.mem_write(addr, value);
        self.update_zero_and_negative_flags(value);
    }

    // -----------------------------------------------------------------------
    // Comparisons
    // -----------------------------------------------------------------------

    fn _cmp(&mut self, target: u8, mode: &AddressingMode)
        requires
            operand_ok(old(self)@, *mode),
        ensures
            final(self)@ == compare_next(old(self)@, *mode, target),
    {
        let addr = self.get_operand_address(mode);
        let value = self.mem_read(addr);
        if target >= value {
            self.status = self.status | FLAG_CARRY;
        } else {
            self.status = self.status & !FLAG_CARRY;
        }
        proof {
            lemma_byte_arith(target, value);
        }
        let value = target.wrapping_sub(value);
        self.update_zero_and_negative_flags(value);
    }

    pub fn cpy(&mut self, mode: &AddressingMode)
        requires
            operand_ok(old(self)@, *mode),
        ensures
            final(self)@ == compare_next(old(self)@, *mode, old(self)@.y),
    {
        let y = self.register_y;
        self._cmp(y, mode);
    }

    pub fn cpx(&mut self, mode: &AddressingMode)
        requires
            operand_ok(old(self)@, *mode),
        ensures
            final(self)@ == compare_next(old(self)@, *mode, old(self)@.x),
    {
        let x = self.register_x;
        self._cmp(x, mode);
    }

    pub fn cmp(&mut self, mode: &AddressingMode)
        requires
            operand_ok(old(self)@, *mode),
        ensures
            final(self)@ == compare_next(old(self)@, *mode, old(self)@.a),
    {
        let a = self.register_a;
        self._cmp(a, mode);
    }

    // -----------------------------------------------------------------------
    // Flags
    // -----------------------------------------------------------------------

    pub fn clv(&mut self, _mode: &AddressingMode)
        ensures
            final(self)@ == flag_next(old(self)@, FLAG_OVERFLOW, false),
    {
        self.status = self.status & !FLAG_OVERFLOW;
    }

    pub fn sei(&mut self, _mode: &AddressingMode)
        ensures
            final(self)@ == flag_next(old(self)@, FLAG_INTERRRUPT, true),
    {
        self.status = self.status | FLAG_INTERRRUPT;
    }

    pub fn cli(&mut self, _mode: &AddressingMode)
        ensures
            final(self)@ == flag_next(old(self)@, FLAG_INTERRRUPT, false),
    {
        self.status = self.status & !FLAG_INTERRRUPT;
    }

    pub fn sed(&mut self, _mode: &AddressingMode)
        ensures
            final(self)@ == flag_next(old(self)@, FLAG_DECIMAL, true),
    {
        self.status = self.status | FLAG_DECIMAL;
    }

    pub fn cld(&mut self, _mode: &AddressingMode)
        ensures
            final(self)@ == flag_next(old(self)@, FLAG_DECIMAL, false),
    {
        self.status = self.status & !FLAG_DECIMAL;
    }

    pub fn sec(&mut self, _mode: &AddressingMode)
        ensures
            final(self)@ == flag_next(old(self)@, FLAG_CARRY, true),
    {
        self.status = self.status | FLAG_CARRY;
    }

    pub fn clc(&mut self, _mode: &AddressingMode)
        ensures
            final(self)@ == flag_next(old(self)@, FLAG_CARRY, false),
    {
        self.status = self.status & !FLAG_CARRY;
    }

    // -----------------------------------------------------------------------
    // Branches
    // -----------------------------------------------------------------------

    fn _branch(&mut self, mode: &AddressingMode, flag: u8, nonzero: bool)
        requires
            branch_ok(old(self)@, *mode, flag, nonzero),
        ensures
            final(self)@ == branch_next(old(self)@, *mode, flag, nonzero),
    {
        let addr = self.get_operand_address(mode);
        let pc = self.program_counter;
        proof {
            lemma_page(pc, addr);
        }
        let taken = if nonzero {
            self.status & flag != 0
        } else {
            self.status & flag == 0
        };
        if taken {
            self.add_cycles += 1;
            if (self.program_counter & 0xFF00) != (addr & 0xFF00) {
                self.add_cycles += 1;
            }
            self.program_counter = addr
        }
    }

    pub fn bvs(&mut self, mode: &AddressingMode)
        requires
            branch_ok(old(self)@, *mode, FLAG_OVERFLOW, true),
        ensures
            final(self)@ == branch_next(old(self)@, *mode, FLAG_OVERFLOW, true),
    {
        self._branch(mode, FLAG_OVERFLOW, true);
    }

    pub fn bvc(&mut self, mode: &AddressingMode)
        requires
            branch_ok(old(self)@, *mode, FLAG_OVERFLOW, false),
        ensures
            final(self)@ == branch_next(old(self)@, *mode, FLAG_OVERFLOW, false),
    {
        self._branch(mode, FLAG_OVERFLOW, false);
    }

    pub fn bpl(&mut self, mode: &AddressingMode)
        requires
            branch_ok(old(self)@, *mode, FLAG_NEGATIVE, false),
        ensures
            final(self)@ == branch_next(old(self)@, *mode, FLAG_NEGATIVE, false),
    {
        self._branch(mode, FLAG_NEGATIVE, false);
    }

    pub fn bmi(&mut self, mode: &AddressingMode)
        requires
            branch_ok(old(self)@, *mode, FLAG_NEGATIVE, true),
        ensures
            final(self)@ == branch_next(old(self)@, *mode, FLAG_NEGATIVE, true),
    {
        self._branch(mode, FLAG_NEGATIVE, true);
    }

    pub fn bne(&mut self, mode: &AddressingMode)
        requires
            branch_ok(old(self)@, *mode, FLAG_ZERO, false),
        ensures
            final(self)@ == branch_next(old(self)@, *mode, FLAG_ZERO, false),
    {
        self._branch(mode, FLAG_ZERO, false);
    }

    pub fn beq(&mut self, mode: &AddressingMode)
        requires
            branch_ok(old(self)@, *mode, FLAG_ZERO, true),
        ensures
            final(self)@ == branch_next(old(self)@, *mode, FLAG_ZERO, true),
    {
        self._branch(mode, FLAG_ZERO, true);
    }

    pub fn bcc(&mut self, mode: &AddressingMode)
        requires
            branch_ok(old(self)@, *mode, FLAG_CARRY, false),
        ensures
            final(self)@ == branch_next(old(self)@, *mode, FLAG_CARRY, false),
    {
        self._branch(mode, FLAG_CARRY, false);
    }

    pub fn bcs(&mut self, mode: &AddressingMode)
        requires
            branch_ok(old(self)@, *mode, FLAG_CARRY, true),
        ensures
            final(self)@ == branch_next(old(self)@, *mode, FLAG_CARRY, true),
    {
        self._branch(mode, FLAG_CARRY, true);
    }

    /// Software interrupt: unless B is already set, pushes the counter and the
    /// status, jumps through $FFFE and sets B.
    pub fn brk(&mut self, _mode: &AddressingMode)
        ensures
            final(self)@ == brk_next(old(self)@),
    {
        if self.status & FLAG_BREAK != 0 {
            return;
        }
        let pc = self.program_counter;
        self._push_u16(pc);
        let st = self.status;
        self._push(st);
        self.program_counter = self.mem_read_u16(0xFFFE);
        self.status = self.status | FLAG_BREAK;
    }

    // -----------------------------------------------------------------------
    // Logic
    // -----------------------------------------------------------------------

    pub fn bit(&mut self, mode: &AddressingMode)
        requires
            operand_ok(old(self)@, *mode),
        ensures
            final(self)@ == bit_next(old(self)@, *mode),
    {
        let addr = self.get_operand_address(mode);
        let value = self.mem_read(addr);
        let zero = self.register_a & value;
        if zero == 0 {
            self.status = self.status | FLAG_ZERO;
        } else {
            self.status = self.status & !FLAG_ZERO;
        }
        let flags = FLAG_NEGATIVE | FLAG_OVERFLOW;
        self.status = (self.status & !flags) | (value & flags);
    }

    pub fn ora(&mut self, mode: &AddressingMode)
        requires
            operand_ok(old(self)@, *mode),
        ensures
            final(self)@ == ora_next(old(self)@, *mode),
    {
        let addr = self.get_operand_address(mode);
        let value = self.mem_read(addr);
        self.register_a = self.register_a | value;
        let a = self.register_a;
        self.update_zero_and_negative_flags(a);
    }

    pub fn eor(&mut self, mode: &AddressingMode)
        requires
            operand_ok(old(self)@, *mode),
        ensures
            final(self)@ == eor_next(old(self)@, *mode),
    {
        let addr = self.get_operand_address(mode);
        let value = self.mem_read(addr);
        self.register_a = self.register_a ^ value;
        let a = self.register_a;
        self.update_zero_and_negative_flags(a);
    }

    pub fn and(&mut self, mode: &AddressingMode)
        requires
            operand_ok(old(self)@, *mode),
        ensures
            final(self)@ == and_next(old(self)@, *mode),
    {
        let addr = self.get_operand_address(mode);
        let value = self.mem_read(addr);
        self.register_a = self.register_a & value;
        let a = self.register_a;
        self.update_zero_and_negative_flags(a);
    }

    // -----------------------------------------------------------------------
    // Arithmetic
    // -----------------------------------------------------------------------

    /// A - M - (1 - C).
    pub fn sbc(&mut self, mode: &AddressingMode)
        requires
            operand_ok(old(self)@, *mode),
        ensures
            final(self)@ == sbc_next(old(self)@, *mode),
    {
        let addr = self.get_operand_address(mode);
        let value = self.mem_read(addr);
        let a = self.register_a;
        let carry = self.status & FLAG_CARRY;
        proof {
            lemma_carry_bit(self.status);
        }
        let borrow = 1 - carry;
        proof {
            lemma_byte_arith(a, value);
        }
        let v1 = a.wrapping_sub(value);
        let carry_flag1 = a < value;
        proof {
            lemma_byte_arith(v1, borrow);
        }
        let n = v1.wrapping_sub(borrow);
        let carry_flag2 = v1 < borrow;
        let overflow = (a & SIGN_BIT) != (value & SIGN_BIT) && (a & SIGN_BIT) != (n & SIGN_BIT);
        self.register_a = n;
        self.status = if !carry_flag1 && !carry_flag2 {
            self.status | FLAG_CARRY
        } else {
            self.status & !FLAG_CARRY
        };
        self.status = if overflow {
            self.status | FLAG_OVERFLOW
        } else {
            self.status & !FLAG_OVERFLOW
        };
        self.update_zero_and_negative_flags(n)
    }

    /// A + M + C.
    pub fn adc(&mut self, mode: &AddressingMode)
        requires
            operand_ok(old(self)@, *mode),
        ensures
            final(self)@ == adc_next(old(self)@, *mode),
    {
        let addr = self.get_operand_address(mode);
        let value = self.mem_read(addr);
        let a = self.register_a;
        let carry = self.status & FLAG_CARRY;
        proof {
            lemma_byte_arith(value, carry);
        }
        let rhs = value.wrapping_add(carry);
        let carry_flag1 = value as u16 + carry as u16 > 255;
        proof {
            lemma_byte_arith(a, rhs);
        }
        let n = a.wrapping_add(rhs);
        let carry_flag2 = a as u16 + rhs as u16 > 255;
        let overflow = (a & SIGN_BIT) == (value & SIGN_BIT) && (value & SIGN_BIT) != (n & SIGN_BIT);
        self.register_a = n;
        self.status = if carry_flag1 || carry_flag2 {
            self.status | FLAG_CARRY
        } else {
            self.status & !FLAG_CARRY
        };
        self.status = if overflow {
            self.status | FLAG_OVERFLOW
        } else {
            self.status & !FLAG_OVERFLOW
        };
        self.update_zero_and_negative_flags(n)
    }

    // -----------------------------------------------------------------------
    // Shifts and rotations
    // -----------------------------------------------------------------------

    fn shift(&mut self, mode: &AddressingMode, kind: Shift)
        requires
            shift_ok(old(self)@, *mode),
        ensures
            final(self)@ == shift_next(old(self)@, *mode, kind),
    {
        let c = self.status & FLAG_CARRY;
        proof {
            lemma_carry_bit(self.status);
        }
        if let AddressingMode::Accumulator = mode {
            let v = self.register_a;
            let (r, out) = shift_byte(v, c, kind);
            self.register_a = r;
            self.status = if out {
                self.status | FLAG_CARRY
            } else {
                self.status & !FLAG_CARRY
            };
            self.update_zero_and_negative_flags(r);
        } else {
            let addr = self.get_operand_address(mode);
            let v = self.mem_read(addr);
            let (r, out) = shift_byte(v, c, kind);
            self.mem_write(addr, r);
            self.status = if out {
                self.status | FLAG_CARRY
            } else {
                self.status & !FLAG_CARRY
            };
            self.update_zero_and_negative_flags(r);
        }
    }

    pub fn ror(&mut self, mode: &AddressingMode)
        requires
            shift_ok(old(self)@, *mode),
        ensures
            final(self)@ == shift_next(old(self)@, *mode, Shift::Ror),
    {
        self.shift(mode, Shift::Ror);
    }

    pub fn rol(&mut self, mode: &AddressingMode)
        requires
            shift_ok(old(self)@, *mode),
        ensures
            final(self)@ == shift_next(old(self)@, *mode, Shift::Rol),
    {
        self.shift(mode, Shift::Rol);
    }

    pub fn lsr(&mut self, mode: &AddressingMode)
        requires
            shift_ok(old(self)@, *mode),
        ensures
            final(self)@ == shift_next(old(self)@, *mode, Shift::Lsr),
    {
        self.shift(mode, Shift::Lsr);
    }

    pub fn asl(&mut self, mode: &AddressingMode)
        requires
            shift_ok(old(self)@, *mode),
        ensures
            final(self)@ == shift_next(old(self)@, *mode, Shift::Asl),
    {
        self.shift(mode, Shift::Asl);
    }
}

impl CPU {
    // -----------------------------------------------------------------------
    // Interrupts and the instruction cycle
    // -----------------------------------------------------------------------

    fn interrupt_nmi(&mut self)
        ensures
            final(self)@ == nmi_next(old(self)@),
    {
        let pc = self.program_counter;
        self._push_u16(pc);
        let mut status = self.status;
        status &= !FLAG_BREAK;
        status |= FLAG_BREAK2;
        self._push(status);
        self.status |= FLAG_INTERRRUPT;
        self.bus.tick(2);
        self.program_counter = self.mem_read_u16(0xFFFA);
    }

    fn apu_irq(&mut self)
        ensures
            final(self)@ == irq_next(old(self)@),
    {
        if self.status & FLAG_INTERRRUPT != 0 {
            return;
        }
        let pc = self.program_counter;
        self._push_u16(pc);
        let st = self.status;
        self._push(st);
        self.program_counter = self.mem_read_u16(0xFFFE);
        self.status |= FLAG_BREAK;
        self.bus.tick(2);
    }

    /// Services the interrupt lines, as done before every instruction.
    pub fn service_interrupts(&mut self)
        ensures
            final(self)@ == interrupts_next(old(self)@),
    {
        if let Some(_nmi) = self.bus.poll_nmi_status() {
            self.interrupt_nmi();
        }
        if self.bus.poll_apu_irq() {
            self.apu_irq();
        }
    }

    /// Reads the opcode at the counter and steps past it.
    pub fn fetch_opcode(&mut self) -> (r: u8)
        requires
            old(self)@.pc != 0xFFFF,
        ensures
            r == rd(old(self)@, old(self)@.pc),
            final(self)@ == (CpuState { pc: (old(self)@.pc + 1) as u16, ..old(self)@ }),
    {
        let opscode = self.mem_read(self.program_counter);
        self.program_counter += 1;
        opscode
    }

    /// The position of the first entry of `ops` with the code `opscode`.
    pub fn find_ops(ops: &Vec<OpCode>, opscode: u8) -> (r: Option<usize>)
        ensures
            match r {
                Some(i) => i < ops.len() && ops[i as int].code == opscode && forall|j: int|
                    0 <= j < i ==> ops[j].code != opscode,
                None => forall|j: int| 0 <= j < ops.len() ==> ops[j].code != opscode,
            },
    {
        let mut i: usize = 0;
        while i < ops.len()
            invariant
                i <= ops.len(),
                forall|j: int| 0 <= j < i ==> ops[j].code != opscode,
            decreases ops.len() - i,
        {
            if ops[i].code == opscode {
                return Some(i);
            }
            i += 1;
        }
        None
    }

    /// Starts an instruction with no extra cycles.
    pub fn start_op(&mut self)
        ensures
            final(self)@ == (CpuState { extra: 0, ..old(self)@ }),
    {
        self.add_cycles = 0;
    }

    /// Whether `finish_op` can settle the cycles of `op` without a fault.
    pub fn finish_op_ok(&self, op: &OpCode) -> (r: bool)
        ensures
            r == finish_ok(self@, *op),
    {
        match op.cycle_calc_mode {
            CycleCalcMode::Fixed => op.cycles <= 255,
            CycleCalcMode::Page => self.add_cycles <= 1 && op.cycles as u16 + self.add_cycles as u16
                <= 255,
            CycleCalcMode::Branch => op.cycles as u16 + self.add_cycles as u16 <= 255,
        }
    }

    /// Ends an instruction: settles its extra cycles as its cycle mode says and
    /// lets the bus count the cycles spent.
    pub fn finish_op(&mut self, op: &OpCode)
        requires
            finish_ok(old(self)@, *op),
        ensures
            final(self)@ == finish_next(old(self)@, *op),
    {
        match op.cycle_calc_mode {
            CycleCalcMode::Fixed => {
                self.add_cycles = 0;
            },
            _ => {},
        }
        self.bus.tick(op.cycles + self.add_cycles);
    }

    /// Starts the next instruction: serves pending interrupts, fetches the
    /// opcode, looks it up in `ops` and clears the extra cycles of an entry
    /// that was found.
    pub fn begin_instruction(&mut self, ops: &Vec<OpCode>) -> (r: Decoded)
        ensures
            ({
                let s = interrupts_next(old(self)@);
                let code = rd(s, s.pc);
                let t = CpuState { pc: (s.pc + 1) as u16, ..s };
                match r {
                    Decoded::Fault => s.pc == 0xFFFF && final(self)@ == s,
                    Decoded::Unknown => s.pc != 0xFFFF && final(self)@ == t && forall|j: int|
                        0 <= j < ops.len() ==> ops[j].code != code,
                    Decoded::Entry(i) => s.pc != 0xFFFF && i < ops.len() && ops[i as int].code
                        == code && (forall|j: int| 0 <= j < i ==> ops[j].code != code)
                        && final(self)@ == (CpuState { extra: 0, ..t }),
                }
            }),
    {
        self.service_interrupts();
        if self.program_counter == 0xFFFF {
            return Decoded::Fault;
        }
        let code = self.fetch_opcode();
        match CPU::find_ops(ops, code) {
            Some(i) => {
                self.start_op();
                Decoded::Entry(i)
            },
            None => Decoded::Unknown,
        }
    }

    /// Ends an instruction that `begin_instruction` started: carries out the
    /// table entry `op` and settles its cycles.  False where that would fault
    /// (a counter overflow or a page-counted instruction with two extra
    /// cycles), and then the state is left where the fault struck.
    pub fn end_instruction(&mut self, op: &OpCode) -> (r: bool)
        ensures
            r == (call_ok(old(self)@, *op) && finish_ok(call_next(old(self)@, *op), *op)),
            r ==> final(self)@ == finish_next(call_next(old(self)@, *op), *op),
    {
        if !call(self, op) {
            return false;
        }
        if !self.finish_op_ok(op) {
            return false;
        }
        self.finish_op(op);
        true
    }
}

/// One shift or rotation of `v` with carry-in `c`: the result and the bit shifted out.
fn shift_byte(v: u8, c: u8, kind: Shift) -> (r: (u8, bool))
    requires
        c <= 1,
    ensures
        r.0 == shifted(kind, v, c),
        r.1 == shifted_out(kind, v),
{
    match kind {
        Shift::Asl => {
            if v >= 128 {
                ((v - 128) * 2, true)
            } else {
                (v * 2, false)
            }
        },
        Shift::Lsr => (v / 2, v & 0x01 == 1),
        Shift::Rol => {
            if v >= 128 {
                (((v - 128) * 2) | c, true)
            } else {
                ((v * 2) | c, false)
            }
        },
        Shift::Ror => ((v / 2) | (c << 7), v & 0x01 == 1),
    }
}

/// The position of the first entry of `ops` from `i` on with the code `code`, if any.
pub open spec fn op_index_from(ops: Seq<OpCode>, code: u8, i: int) -> Option<int>
    decreases ops.len() - i,
{
    if i < 0 || i >= ops.len() {
        None
    } else if ops[i].code == code {
        Some(i)
    } else {
        op_index_from(ops, code, i + 1)
    }
}

/// `op_index_from` is the first position from `i` on whose entry has the code.
pub proof fn lemma_op_index(ops: Seq<OpCode>, code: u8, i: int)
    requires
        0 <= i <= ops.len(),
    ensures
        match op_index_from(ops, code, i) {
            Some(k) => i <= k < ops.len() && ops[k].code == code && forall|j: int|
                i <= j < k ==> ops[j].code != code,
            None => forall|j: int| i <= j < ops.len() ==> ops[j].code != code,
        },
    decreases ops.len() - i,
{
    if i < ops.len() {
        lemma_op_index(ops, code, i + 1);
    }
}

/// The opcode at the byte before the counter, its table entry and its
/// argument bytes can be read, and its text can be formed.
pub open spec fn trace_ok(s: CpuState, ops: Seq<OpCode>) -> bool {
    &&& s.pc >= 1
    &&& op_index_from(ops, s.mem[s.pc - 1], 0) is Some
    &&& ({
        let o = ops[op_index_from(ops, s.mem[s.pc - 1], 0)->Some_0];
        let pc = (s.pc - 1) as u16;
        let args = s.mem.subrange(pc + 1, pc + (if o.bytes >= 1 { o.bytes as int } else { 1 }));
        &&& pc + o.bytes - 1 <= 0xFFFF
        &&& address_ok(pc, o.addressing_mode, args)
        &&& memory_access_ok(o.name@, o.addressing_mode, args)
    })
}

/// The trace line of the instruction whose opcode is the byte before the counter.
pub open spec fn trace_text(s: CpuState, ops: Seq<OpCode>) -> Seq<char> {
    let pc = (s.pc - 1) as u16;
    let op = s.mem[pc as int];
    let o = ops[op_index_from(ops, op, 0)->Some_0];
    let args = s.mem.subrange(pc + 1, pc + (if o.bytes >= 1 { o.bytes as int } else { 1 }));
    trace_line(pc, op, args, o.name@, o.addressing_mode, s)
}

/// Whether `s` starts with the character `c`.
fn starts_with_char(s: &String, c: char) -> (r: bool)
    ensures
        r == (s@.len() > 0 && s@[0] == c),
{
    let t = s.as_str();
    t.unicode_len() > 0 && t.get_char(0) == c
}

/// Appends the bytes of an instruction in hexadecimal, separated by spaces.
fn binary(out: &mut String, op: u8, args: &Vec<u8>)
    ensures
        final(out)@ == old(out)@ + binary_text(op, args@),
{
    push_hex2(out, op);
    let mut i: usize = 0;
    while i < args.len()
        invariant
            i <= args.len(),
            out@ == old(out)@ + hex2(op) + args_text(args@.subrange(0, i as int)),
        decreases args.len() - i,
    {
        push_str(out, " ");
        push_hex2(out, args[i]);
        proof {
            assert(args@.subrange(0, i + 1).drop_last() =~= args@.subrange(0, i as int));
            reveal_strlit(" ");
        }
        i += 1;
        assert(out@ =~= old(out)@ + hex2(op) + args_text(args@.subrange(0, i as int)));
    }
    assert(args@.subrange(0, args.len() as int) =~= args@);
}

/// Appends the operand of an instruction in assembler syntax.
#[verifier::rlimit(40)]
fn address(out: &mut String, program_counter: u16, ops: &OpCode, args: &Vec<u8>)
    requires
        address_ok(program_counter, ops.addressing_mode, args@),
    ensures
        final(out)@ == old(out)@ + address_text(program_counter, ops.addressing_mode, args@),
{
    match ops.addressing_mode {
        AddressingMode::Implied => {
            assert(out@ =~= old(out)@ + address_text(program_counter, ops.addressing_mode, args@));
        },
        AddressingMode::Accumulator => {
            push_str(out, "A");
            assert(out@ =~= old(out)@ + address_text(program_counter, ops.addressing_mode, args@));
        },
        AddressingMode::Immediate => {
            push_str(out, "#$");
            push_hex2(out, args[0]);
            assert(out@ =~= old(out)@ + address_text(program_counter, ops.addressing_mode, args@));
        },
        AddressingMode::ZeroPage => {
            push_str(out, "$");
            push_hex2(out, args[0]);
            assert(out@ =~= old(out)@ + address_text(program_counter, ops.addressing_mode, args@));
        },
        AddressingMode::Absolute => {
            push_str(out, "$");
            push_hex2(out, args[1]);
            push_hex2(out, args[0]);
            assert(out@ =~= old(out)@ + address_text(program_counter, ops.addressing_mode, args@));
        },
        AddressingMode::ZeroPage_X => {
            push_str(out, "$");
            push_hex2(out, args[0]);
            push_str(out, ",X");
            assert(out@ =~= old(out)@ + address_text(program_counter, ops.addressing_mode, args@));
        },
        AddressingMode::ZeroPage_Y => {
            push_str(out, "$");
            push_hex2(out, args[0]);
            push_str(out, ",Y");
            assert(out@ =~= old(out)@ + address_text(program_counter, ops.addressing_mode, args@));
        },
        AddressingMode::Absolute_X => {
            push_str(out, "$");
            push_hex2(out, args[1]);
            push_hex2(out, args[0]);
            push_str(out, ",X");
            assert(out@ =~= old(out)@ + address_text(program_counter, ops.addressing_mode, args@));
        },
        AddressingMode::Absolute_Y => {
            push_str(out, "$");
            push_hex2(out, args[1]);
            push_hex2(out, args[0]);
            push_str(out, ",Y");
            assert(out@ =~= old(out)@ + address_text(program_counter, ops.addressing_mode, args@));
        },
        AddressingMode::Indirect => {
            push_str(out, "($");
            push_hex2(out, args[1]);
            push_hex2(out, args[0]);
            push_str(out, ")");
            assert(out@ =~= old(out)@ + address_text(program_counter, ops.addressing_mode, args@));
        },
        AddressingMode::Indirect_X => {
            push_str(out, "($");
            push_hex2(out, args[0]);
            push_str(out, ",X)");
            assert(out@ =~= old(out)@ + address_text(program_counter, ops.addressing_mode, args@));
        },
        AddressingMode::Indirect_Y => {
            push_str(out, "($");
            push_hex2(out, args[0]);
            push_str(out, "),Y");
            assert(out@ =~= old(out)@ + address_text(program_counter, ops.addressing_mode, args@));
        },
        AddressingMode::Relative => {
            let base = args[0];
            let target = if base < 128 {
                program_counter.wrapping_add(base as u16)
            } else {
                program_counter.wrapping_sub(256 - base as u16)
            };
            push_str(out, "$");
            push_hex4(out, target + 2);
            assert(out@ =~= old(out)@ + address_text(program_counter, ops.addressing_mode, args@));
        },
        AddressingMode::NoneAddressing => {},
    }
}

/// Appends the instruction in assembler syntax.
fn disasm(out: &mut String, program_counter: u16, ops: &OpCode, args: &Vec<u8>)
    requires
        address_ok(program_counter, ops.addressing_mode, args@),
    ensures
        final(out)@ == old(out)@ + disasm_text(
            program_counter,
            ops.name@,
            ops.addressing_mode,
            args@,
        ),
{
    let ghost start = out@;
    if !starts_with_char(&ops.name, '*') {
        push_str(out, " ");
    }
    let ghost after_prefix = out@;
    push_str(out, ops.name.as_str());
    push_str(out, " ");
    address(out, program_counter, ops, args);
    proof {
        if ops.name@.len() > 0 && ops.name@[0] == '*' {
            assert(after_prefix =~= start + Seq::<char>::empty());
        }
    }
    assert(out@ =~= old(out)@ + disasm_text(
        program_counter,
        ops.name@,
        ops.addressing_mode,
        args@,
    ));
}

impl CPU {
    /// Appends the memory an instruction touches: effective addresses and the values there.
    fn memory_access(&self, out: &mut String, ops: &OpCode, args: &Vec<u8>)
        requires
            memory_access_ok(ops.name@, ops.addressing_mode, args@),
        ensures
            final(out)@ == old(out)@ + memory_access_text(
                self@,
                ops.name@,
                ops.addressing_mode,
                args@,
            ),
    {
        if starts_with_char(&ops.name, 'J') {
            self.jump_access(out, ops.addressing_mode, args);
        } else {
            self.operand_access(out, ops.addressing_mode, args);
        }
    }

    /// Appends the target word of an indirect jump.
    fn jump_access(&self, out: &mut String, mode: AddressingMode, args: &Vec<u8>)
        requires
            mode is Indirect ==> args.len() >= 2 && word(args[1], args[0]) != 0xFFFF,
        ensures
            final(out)@ == old(out)@ + jump_access_text(self@, mode, args@),
    {
        if let AddressingMode::Indirect = mode {
            let hi = args[1] as u16;
            let lo = args[0] as u16;
            proof {
                lemma_word(args[1], args[0]);
            }
            let addr = hi << 8 | lo;
            let value = self.mem_read_u16(addr);
            push_str(out, "= ");
            push_hex4(out, value);
        } else {
            assert(out@ =~= old(out)@ + Seq::<char>::empty());
        }
    }

    /// Appends the effective address of a memory operand and the value there.
    fn operand_access(&self, out: &mut String, mode: AddressingMode, args: &Vec<u8>)
        requires
            args.len() >= (match mode {
                AddressingMode::ZeroPage | AddressingMode::ZeroPage_X | AddressingMode::ZeroPage_Y
                | AddressingMode::Indirect_X | AddressingMode::Indirect_Y => 1nat,
                AddressingMode::Absolute | AddressingMode::Absolute_X
                | AddressingMode::Absolute_Y => 2nat,
                _ => 0nat,
            }),
        ensures
            final(out)@ == old(out)@ + operand_access_text(self@, mode, args@),
    {
        match mode {
            AddressingMode::Indirect_X | AddressingMode::Indirect_Y => {
                self.indirect_access(out, mode, args);
            },
            AddressingMode::ZeroPage | AddressingMode::ZeroPage_X | AddressingMode::ZeroPage_Y
            | AddressingMode::Absolute | AddressingMode::Absolute_X | AddressingMode::Absolute_Y => {
                self.direct_access(out, mode, args);
            },
            _ => {
                assert(out@ =~= old(out)@ + operand_access_text(self@, mode, args@));
            },
        }
    }

    /// `operand_access` for the zero page and absolute modes.
    #[verifier::rlimit(40)]
    fn direct_access(&self, out: &mut String, mode: AddressingMode, args: &Vec<u8>)
        requires
            args.len() >= (match mode {
                AddressingMode::ZeroPage | AddressingMode::ZeroPage_X | AddressingMode::ZeroPage_Y
                | AddressingMode::Indirect_X | AddressingMode::Indirect_Y => 1nat,
                AddressingMode::Absolute | AddressingMode::Absolute_X
                | AddressingMode::Absolute_Y => 2nat,
                _ => 0nat,
            }),
            mode is ZeroPage || mode is ZeroPage_X || mode is ZeroPage_Y || mode is Absolute
                || mode is Absolute_X || mode is Absolute_Y,
        ensures
            final(out)@ == old(out)@ + operand_access_text(self@, mode, args@),
    {
        match mode {
            AddressingMode::ZeroPage => {
                let value = self.mem_read(args[0] as u16);
                push_str(out, "= ");
                push_hex2(out, value);
                assert(out@ =~= old(out)@ + operand_access_text(self@, mode, args@));
            },
            AddressingMode::ZeroPage_X => {
                let addr = args[0].wrapping_add(self.register_x);
                let value = self.mem_read(addr as u16);
                push_str(out, "@ ");
                push_hex2(out, addr);
                push_str(out, " = ");
                push_hex2(out, value);
                assert(out@ =~= old(out)@ + operand_access_text(self@, mode, args@));
            },
            AddressingMode::ZeroPage_Y => {
                let addr = args[0].wrapping_add(self.register_y);
                let value = self.mem_read(addr as u16);
                push_str(out, "@ ");
                push_hex2(out, addr);
                push_str(out, " = ");
                push_hex2(out, value);
                assert(out@ =~= old(out)@ + operand_access_text(self@, mode, args@));
            },
            AddressingMode::Absolute => {
                proof {
                    lemma_word(args[1], args[0]);
                }
                let addr = (args[1] as u16) << 8 | args[0] as u16;
                let value = self.mem_read(addr);
                push_str(out, "= ");
                push_hex2(out, value);
                assert(out@ =~= old(out)@ + operand_access_text(self@, mode, args@));
            },
            AddressingMode::Absolute_X => {
                proof {
                    lemma_word(args[1], args[0]);
                }
                let base = (args[1] as u16) << 8 | args[0] as u16;
                let addr = base.wrapping_add(self.register_x as u16);
                let value = self.mem_read(addr);
                push_str(out, "@ ");
                push_hex4(out, addr);
                push_str(out, " = ");
                push_hex2(out, value);
                assert(out@ =~= old(out)@ + operand_access_text(self@, mode, args@));
            },
            AddressingMode::Absolute_Y => {
                proof {
                    lemma_word(args[1], args[0]);
                }
                let base = (args[1] as u16) << 8 | args[0] as u16;
                let addr = base.wrapping_add(self.register_y as u16);
                let value = self.mem_read(addr);
                push_str(out, "@ ");
                push_hex4(out, addr);
                push_str(out, " = ");
                push_hex2(out, value);
                assert(out@ =~= old(out)@ + operand_access_text(self@, mode, args@));
            },
            _ => {},
        }
    }

    /// `operand_access` for the indirect indexed modes.
    fn indirect_access(&self, out: &mut String, mode: AddressingMode, args: &Vec<u8>)
        requires
            args.len() >= (match mode {
                AddressingMode::ZeroPage | AddressingMode::ZeroPage_X | AddressingMode::ZeroPage_Y
                | AddressingMode::Indirect_X | AddressingMode::Indirect_Y => 1nat,
                AddressingMode::Absolute | AddressingMode::Absolute_X
                | AddressingMode::Absolute_Y => 2nat,
                _ => 0nat,
            }),
            mode is Indirect_X || mode is Indirect_Y,
        ensures
            final(out)@ == old(out)@ + operand_access_text(self@, mode, args@),
    {
        match mode {
            AddressingMode::Indirect_X => {
                let ptr: u8 = args[0].wrapping_add(self.register_x);
                let addr = self.mem_read_u16(ptr as u16);
                let value = self.mem_read(addr);
                push_str(out, "@ ");
                push_hex2(out, ptr);
                push_str(out, " = ");
                push_hex4(out, addr);
                push_str(out, " = ");
                push_hex2(out, value);
                assert(out@ =~= old(out)@ + operand_access_text(self@, mode, args@));
            },
            AddressingMode::Indirect_Y => {
                let deref_base = self.mem_read_u16(args[0] as u16);
                let deref = deref_base.wrapping_add(self.register_y as u16);
                let value = self.mem_read(deref);
                push_str(out, "= ");
                push_hex4(out, deref_base);
                push_str(out, " @ ");
                push_hex4(out, deref);
                push_str(out, " = ");
                push_hex2(out, value);
                assert(out@ =~= old(out)@ + operand_access_text(self@, mode, args@));
            },
            _ => {},
        }
    }

    /// Appends the registers as the trace shows them.
    fn cpu2str(&self, out: &mut String)
        ensures
            final(out)@ == old(out)@ + registers_text(self@),
    {
        push_str(out, "A:");
        push_hex2(out, self.register_a);
        push_str(out, " X:");
        push_hex2(out, self.register_x);
        push_str(out, " Y:");
        push_hex2(out, self.register_y);
        push_str(out, " P:");
        push_hex2(out, self.status);
        push_str(out, " SP:");
        push_hex2(out, self.stack_pointer);
        assert(out@ =~= old(out)@ + registers_text(self@));
    }
}

impl CPU {
    /// The `bytes - 1` argument bytes that follow the opcode at `program_counter`.
    fn instruction_args(&self, program_counter: u16, bytes: u16) -> (args: Vec<u8>)
        requires
            program_counter + bytes - 1 <= 0xFFFF,
        ensures
            args@ == self@.mem.subrange(
                program_counter + 1,
                program_counter + (if bytes >= 1 { bytes as int } else { 1 }),
            ),
    {
        assert(self@.mem.len() == 0x10000);
        let mut args: Vec<u8> = Vec::new();
        let mut n: u16 = 1;
        while n < bytes
            invariant
                1 <= n,
                bytes >= 1 ==> n <= bytes,
                bytes == 0 ==> n == 1,
                program_counter + bytes - 1 <= 0xFFFF,
                args@ == self@.mem.subrange(program_counter + 1, program_counter + n),
            decreases bytes - n,
        {
            let arg = self.mem_read(program_counter + n);
            args.push(arg);
            n += 1;
            assert(args@ =~= self@.mem.subrange(program_counter + 1, program_counter + n));
        }
        assert(bytes >= 1 ==> n == bytes);
        args
    }

    /// The trace line of the instruction `op` at `program_counter`, with its
    /// table entry `o` and its argument bytes.
    fn trace_line_of(&self, program_counter: u16, op: u8, o: &OpCode, args: &Vec<u8>) -> (r:
        String)
        requires
            args.len() <= 0xFFFF,
            address_ok(program_counter, o.addressing_mode, args@),
            memory_access_ok(o.name@, o.addressing_mode, args@),
        ensures
            r@ == trace_line(program_counter, op, args@, o.name@, o.addressing_mode, self@),
    {
        let ghost name = o.name@;
        let ghost mode = o.addressing_mode;
        let mut out = String::new();
        push_hex4(&mut out, program_counter);
        proof {
            lemma_hex_len(op, program_counter);
        }
        pad_to(&mut out, 0, 6);
        let ghost col1 = pad_right(hex4(program_counter), 6);
        assert(out@ =~= col1);
        let bin_start = char_count(&out);
        binary(&mut out, op, args);
        proof {
            lemma_args_text_len(args@);
            lemma_hex_len(op, program_counter);
        }
        pad_to(&mut out, bin_start, 9);
        let ghost col2 = pad_right(binary_text(op, args@), 9);
        assert(out@ =~= col1 + col2);
        let asm_start = char_count(&out);
        disasm(&mut out, program_counter, o, args);
        push_str(&mut out, " ");
        self.memory_access(&mut out, o, args);
        let ghost body = disasm_text(program_counter, name, mode, args@) + " "@
            + memory_access_text(self@, name, mode, args@);
        assert(out@ =~= col1 + col2 + body);
        pad_to(&mut out, asm_start, 33);
        let ghost col3 = pad_right(body, 33);
        assert(out@ =~= col1 + col2 + col3);
        self.cpu2str(&mut out);
        assert(out@ =~= trace_line(program_counter, op, args@, name, mode, self@));
        out
    }
}

/// The trace line of the instruction being executed (its opcode is the byte
/// before the counter), looked up in `ops`.
pub fn trace(cpu: &CPU, ops: &Vec<OpCode>) -> (r: String)
    requires
        trace_ok(cpu@, ops@),
    ensures
        r@ == trace_text(cpu@, ops@),
{
    match try_trace(cpu, ops) {
        Some(t) => t,
        None => {
            assert(false);
            String::new()
        },
    }
}

/// The number of argument bytes that the operand text of `mode` reads.
fn args_needed_of(mode: AddressingMode) -> (r: usize)
    ensures
        r == args_needed(mode),
{
    match mode {
        AddressingMode::Implied | AddressingMode::Accumulator | AddressingMode::NoneAddressing => 0,
        AddressingMode::Absolute | AddressingMode::Absolute_X | AddressingMode::Absolute_Y
        | AddressingMode::Indirect => 2,
        _ => 1,
    }
}

/// Whether the operand text of an instruction can be formed.
fn address_ok_check(program_counter: u16, mode: AddressingMode, args: &Vec<u8>) -> (r: bool)
    ensures
        r == address_ok(program_counter, mode, args@),
{
    if let AddressingMode::NoneAddressing = mode {
        return false;
    }
    if args.len() < args_needed_of(mode) {
        return false;
    }
    if let AddressingMode::Relative = mode {
        let base = args[0];
        let target = if base < 128 {
            program_counter.wrapping_add(base as u16)
        } else {
            program_counter.wrapping_sub(256 - base as u16)
        };
        target <= 0xFFFD
    } else {
        true
    }
}

/// Whether the memory an instruction touches can be shown.
fn memory_access_ok_check(name: &String, mode: AddressingMode, args: &Vec<u8>) -> (r: bool)
    ensures
        r == memory_access_ok(name@, mode, args@),
{
    if starts_with_char(name, 'J') {
        match mode {
            AddressingMode::Indirect => {
                if args.len() < 2 {
                    return false;
                }
                proof {
                    lemma_word(args[1], args[0]);
                }
                ((args[1] as u16) << 8 | args[0] as u16) != 0xFFFF
            },
            _ => true,
        }
    } else {
        let needed: usize = match mode {
            AddressingMode::ZeroPage | AddressingMode::ZeroPage_X | AddressingMode::ZeroPage_Y
            | AddressingMode::Indirect_X | AddressingMode::Indirect_Y => 1,
            AddressingMode::Absolute | AddressingMode::Absolute_X | AddressingMode::Absolute_Y => 2,
            _ => 0,
        };
        args.len() >= needed
    }
}

/// The trace line of the instruction being executed, as `trace` gives it;
/// `None` where it cannot be formed.
pub fn try_trace(cpu: &CPU, ops: &Vec<OpCode>) -> (r: Option<String>)
    ensures
        (r is Some) == trace_ok(cpu@, ops@),
        r matches Some(t) ==> t@ == trace_text(cpu@, ops@),
{
    if cpu.program_counter == 0 {
        return None;
    }
    let program_counter = cpu.program_counter - 1;
    let op = cpu.mem_read(program_counter);
    proof {
        lemma_op_index(ops@, op, 0);
    }
    let idx = match CPU::find_ops(ops, op) {
        Some(i) => i,
        None => {
            return None;
        },
    };
    proof {
        let k = op_index_from(ops@, op, 0)->Some_0;
        if k < idx {
            assert(ops@[k].code != op);
        } else if idx < k {
            assert(ops@[idx as int].code != op);
        }
    }
    let o = &ops[idx];
    if program_counter as u32 + o.bytes as u32 > 0x10000 {
        return None;
    }
    let args = cpu.instruction_args(program_counter, o.bytes);
    if !address_ok_check(program_counter, o.addressing_mode, &args) {
        return None;
    }
    if !memory_access_ok_check(&o.name, o.addressing_mode, &args) {
        return None;
    }
    Some(cpu.trace_line_of(program_counter, op, o, &args))
}

/// Runs `m` in `mode` if it is an instruction of group 0: `None` if it is
/// not, else whether it ran without a fault.
fn execute_group_0(cpu: &mut CPU, m: &Vec<char>, mode: AddressingMode) -> (r: Option<bool>)
    ensures
        (r is None) == !in_group_0(m@),
        r is None ==> final(cpu)@ == old(cpu)@,
        r matches Some(b) ==> b == group_0_ok(old(cpu)@, m@, mode),
        r == Some(true) ==> final(cpu)@ == group_0_next(old(cpu)@, m@, mode),
{
    let ghost s = cpu@;
    proof {
        reveal(group_0_ok);
        reveal(group_0_next);
    }
    if chars_eq(m, "ADC") {
        if !cpu.operand_ok_check(&mode) {
            return Some(false);
        }
        cpu.adc(&mode);
        Some(true)
    } else if chars_eq(m, "ANC") {
        cpu.anc(&mode);
        Some(true)
    } else if chars_eq(m, "AND") {
        if !cpu.operand_ok_check(&mode) {
            return Some(false);
        }
        cpu.and(&mode);
        Some(true)
    } else if chars_eq(m, "ANE") {
        if !cpu.operand_ok_check(&mode) {
            return Some(false);
        }
        // TXA leaves the operand address as it is
        assert(operand_ok(txa_next(s), mode));
        cpu.ane(&mode);
        Some(true)
    } else if chars_eq(m, "ARR") {
        cpu.arr(&mode);
        Some(true)
    } else if chars_eq(m, "ASL") {
        if !cpu.shift_ok_check(&mode) {
            return Some(false);
        }
        cpu.asl(&mode);
        Some(true)
    } else if chars_eq(m, "ASR") {
        cpu.asr(&mode);
        Some(true)
    } else if chars_eq(m, "BCC") {
        if !cpu.branch_ok_check(&mode, FLAG_CARRY, false) {
            return Some(false);
        }
        cpu.bcc(&mode);
        Some(true)
    } else if chars_eq(m, "BCS") {
        if !cpu.branch_ok_check(&mode, FLAG_CARRY, true) {
            return Some(false);
        }
        cpu.bcs(&mode);
        Some(true)
    } else if chars_eq(m, "BEQ") {
        if !cpu.branch_ok_check(&mode, FLAG_ZERO, true) {
            return Some(false);
        }
        cpu.beq(&mode);
        Some(true)
    } else {
        None
    }
}

/// Runs `m` in `mode` if it is an instruction of group 1: `None` if it is
/// not, else whether it ran without a fault.
fn execute_group_1(cpu: &mut CPU, m: &Vec<char>, mode: AddressingMode) -> (r: Option<bool>)
    ensures
        (r is None) == !in_group_1(m@),
        r is None ==> final(cpu)@ == old(cpu)@,
        r matches Some(b) ==> b == group_1_ok(old(cpu)@, m@, mode),
        r == Some(true) ==> final(cpu)@ == group_1_next(old(cpu)@, m@, mode),
{
    proof {
        reveal(group_1_ok);
        reveal(group_1_next);
    }
    if chars_eq(m, "BIT") {
        if !cpu.operand_ok_check(&mode) {
            return Some(false);
        }
        cpu.bit(&mode);
        Some(true)
    } else if chars_eq(m, "BMI") {
        if !cpu.branch_ok_check(&mode, FLAG_NEGATIVE, true) {
            return Some(false);
        }
        cpu.bmi(&mode);
        Some(true)
    } else if chars_eq(m, "BNE") {
        if !cpu.branch_ok_check(&mode, FLAG_ZERO, false) {
            return Some(false);
        }
        cpu.bne(&mode);
        Some(true)
    } else if chars_eq(m, "BPL") {
        if !cpu.branch_ok_check(&mode, FLAG_NEGATIVE, false) {
            return Some(false);
        }
        cpu.bpl(&mode);
        Some(true)
    } else if chars_eq(m, "BRK") {
        cpu.brk(&mode);
        Some(true)
    } else if chars_eq(m, "BVC") {
        if !cpu.branch_ok_check(&mode, FLAG_OVERFLOW, false) {
            return Some(false);
        }
        cpu.bvc(&mode);
        Some(true)
    } else if chars_eq(m, "BVS") {
        if !cpu.branch_ok_check(&mode, FLAG_OVERFLOW, true) {
            return Some(false);
        }
        cpu.bvs(&mode);
        Some(true)
    } else if chars_eq(m, "CLC") {
        cpu.clc(&mode);
        Some(true)
    } else if chars_eq(m, "CLD") {
        cpu.cld(&mode);
        Some(true)
    } else if chars_eq(m, "CLI") {
        cpu.cli(&mode);
        Some(true)
    } else {
        None
    }
}

/// Runs `m` in `mode` if it is an instruction of group 2: `None` if it is
/// not, else whether it ran without a fault.
fn execute_group_2(cpu: &mut CPU, m: &Vec<char>, mode: AddressingMode) -> (r: Option<bool>)
    ensures
        (r is None) == !in_group_2(m@),
        r is None ==> final(cpu)@ == old(cpu)@,
        r matches Some(b) ==> b == group_2_ok(old(cpu)@, m@, mode),
        r == Some(true) ==> final(cpu)@ == group_2_next(old(cpu)@, m@, mode),
{
    proof {
        reveal(group_2_ok);
        reveal(group_2_next);
    }
    if chars_eq(m, "CLV") {
        cpu.clv(&mode);
        Some(true)
    } else if chars_eq(m, "CMP") {
        if !cpu.operand_ok_check(&mode) {
            return Some(false);
        }
        cpu.cmp(&mode);
        Some(true)
    } else if chars_eq(m, "CPX") {
        if !cpu.operand_ok_check(&mode) {
            return Some(false);
        }
        cpu.cpx(&mode);
        Some(true)
    } else if chars_eq(m, "CPY") {
        if !cpu.operand_ok_check(&mode) {
            return Some(false);
        }
        cpu.cpy(&mode);
        Some(true)
    } else if chars_eq(m, "DCP") {
        if !cpu.operand_ok_check(&mode) {
            return Some(false);
        }
        cpu.dec(&mode);
        if !cpu.operand_ok_check(&mode) {
            return Some(false);
        }
        cpu.cmp(&mode);
        Some(true)
    } else if chars_eq(m, "DEC") {
        if !cpu.operand_ok_check(&mode) {
            return Some(false);
        }
        cpu.dec(&mode);
        Some(true)
    } else if chars_eq(m, "DEX") {
        cpu.dex(&mode);
        Some(true)
    } else if chars_eq(m, "DEY") {
        cpu.dey(&mode);
        Some(true)
    } else if chars_eq(m, "EOR") {
        if !cpu.operand_ok_check(&mode) {
            return Some(false);
        }
        cpu.eor(&mode);
        Some(true)
    } else if chars_eq(m, "INC") {
        if !cpu.operand_ok_check(&mode) {
            return Some(false);
        }
        cpu.inc(&mode);
        Some(true)
    } else {
        None
    }
}

/// Runs `m` in `mode` if it is an instruction of group 3: `None` if it is
/// not, else whether it ran without a fault.
fn execute_group_3(cpu: &mut CPU, m: &Vec<char>, mode: AddressingMode) -> (r: Option<bool>)
    ensures
        (r is None) == !in_group_3(m@),
        r is None ==> final(cpu)@ == old(cpu)@,
        r matches Some(b) ==> b == group_3_ok(old(cpu)@, m@, mode),
        r == Some(true) ==> final(cpu)@ == group_3_next(old(cpu)@, m@, mode),
{
    proof {
        reveal(group_3_ok);
        reveal(group_3_next);
    }
    if chars_eq(m, "INX") {
        cpu.inx(&mode);
        Some(true)
    } else if chars_eq(m, "INY") {
        cpu.iny(&mode);
        Some(true)
    } else if chars_eq(m, "ISB") {
        if !cpu.operand_ok_check(&mode) {
            return Some(false);
        }
        cpu.inc(&mode);
        if !cpu.operand_ok_check(&mode) {
            return Some(false);
        }
        cpu.sbc(&mode);
        Some(true)
    } else if chars_eq(m, "JAM") {
        if cpu.program_counter == 0 {
            return Some(false);
        }
        cpu.jam(&mode);
        Some(true)
    } else if chars_eq(m, "JMP") {
        if !cpu.jmp_ok_check(&mode) {
            return Some(false);
        }
        cpu.jmp(&mode);
        Some(true)
    } else if chars_eq(m, "JSR") {
        if !cpu.jsr_ok_check(&mode) {
            return Some(false);
        }
        cpu.jsr(&mode);
        Some(true)
    } else if chars_eq(m, "LAE") {
        if !cpu.operand_ok_check(&mode) {
            return Some(false);
        }
        cpu.lae(&mode);
        Some(true)
    } else if chars_eq(m, "LAX") {
        if !cpu.operand_ok_check(&mode) {
            return Some(false);
        }
        cpu.lax(&mode);
        Some(true)
    } else if chars_eq(m, "LDA") {
        if !cpu.operand_ok_check(&mode) {
            return Some(false);
        }
        cpu.lda(&mode);
        Some(true)
    } else if chars_eq(m, "LDX") {
        if !cpu.operand_ok_check(&mode) {
            return Some(false);
        }
        cpu.ldx(&mode);
        Some(true)
    } else {
        None
    }
}

/// Runs `m` in `mode` if it is an instruction of group 4: `None` if it is
/// not, else whether it ran without a fault.
fn execute_group_4(cpu: &mut CPU, m: &Vec<char>, mode: AddressingMode) -> (r: Option<bool>)
    ensures
        (r is None) == !in_group_4(m@),
        r is None ==> final(cpu)@ == old(cpu)@,
        r matches Some(b) ==> b == group_4_ok(old(cpu)@, m@, mode),
        r == Some(true) ==> final(cpu)@ == group_4_next(old(cpu)@, m@, mode),
{
    proof {
        reveal(group_4_ok);
        reveal(group_4_next);
    }
    if chars_eq(m, "LDY") {
        if !cpu.operand_ok_check(&mode) {
            return Some(false);
        }
        cpu.ldy(&mode);
        Some(true)
    } else if chars_eq(m, "LSR") {
        if !cpu.shift_ok_check(&mode) {
            return Some(false);
        }
        cpu.lsr(&mode);
        Some(true)
    } else if chars_eq(m, "LXA") {
        cpu.lxa(&mode);
        Some(true)
    } else if chars_eq(m, "NOP") {
        cpu.nop(&mode);
        Some(true)
    } else if chars_eq(m, "ORA") {
        if !cpu.operand_ok_check(&mode) {
            return Some(false);
        }
        cpu.ora(&mode);
        Some(true)
    } else if chars_eq(m, "PHA") {
        cpu.pha(&mode);
        Some(true)
    } else if chars_eq(m, "PHP") {
        cpu.php(&mode);
        Some(true)
    } else if chars_eq(m, "PLA") {
        cpu.pla(&mode);
        Some(true)
    } else if chars_eq(m, "PLP") {
        cpu.plp(&mode);
        Some(true)
    } else if chars_eq(m, "RLA") {
        if !cpu.shift_ok_check(&mode) {
            return Some(false);
        }
        cpu.rol(&mode);
        if !cpu.operand_ok_check(&mode) {
            return Some(false);
        }
        cpu.and(&mode);
        Some(true)
    } else {
        None
    }
}

/// Runs `m` in `mode` if it is an instruction of group 5: `None` if it is
/// not, else whether it ran without a fault.
fn execute_group_5(cpu: &mut CPU, m: &Vec<char>, mode: AddressingMode) -> (r: Option<bool>)
    ensures
        (r is None) == !in_group_5(m@),
        r is None ==> final(cpu)@ == old(cpu)@,
        r matches Some(b) ==> b == group_5_ok(old(cpu)@, m@, mode),
        r == Some(true) ==> final(cpu)@ == group_5_next(old(cpu)@, m@, mode),
{
    proof {
        reveal(group_5_ok);
        reveal(group_5_next);
    }
    if chars_eq(m, "ROL") {
        if !cpu.shift_ok_check(&mode) {
            return Some(false);
        }
        cpu.rol(&mode);
        Some(true)
    } else if chars_eq(m, "ROR") {
        if !cpu.shift_ok_check(&mode) {
            return Some(false);
        }
        cpu.ror(&mode);
        Some(true)
    } else if chars_eq(m, "RRA") {
        if !cpu.shift_ok_check(&mode) {
            return Some(false);
        }
        cpu.ror(&mode);
        if !cpu.operand_ok_check(&mode) {
            return Some(false);
        }
        cpu.adc(&mode);
        Some(true)
    } else if chars_eq(m, "RTI") {
        cpu.rti(&mode);
        Some(true)
    } else if chars_eq(m, "RTS") {
        if !cpu.rts_ok_check() {
            return Some(false);
        }
        cpu.rts(&mode);
        Some(true)
    } else if chars_eq(m, "SAX") {
        if !cpu.operand_ok_check(&mode) {
            return Some(false);
        }
        cpu.sax(&mode);
        Some(true)
    } else if chars_eq(m, "SBC") {
        if !cpu.operand_ok_check(&mode) {
            return Some(false);
        }
        cpu.sbc(&mode);
        Some(true)
    } else if chars_eq(m, "SBX") {
        if !cpu.operand_ok_check(&mode) {
            return Some(false);
        }
        cpu.sbx(&mode);
        Some(true)
    } else if chars_eq(m, "SEC") {
        cpu.sec(&mode);
        Some(true)
    } else if chars_eq(m, "SED") {
        cpu.sed(&mode);
        Some(true)
    } else {
        None
    }
}

/// Runs `m` in `mode` if it is an instruction of group 6: `None` if it is
/// not, else whether it ran without a fault.
fn execute_group_6(cpu: &mut CPU, m: &Vec<char>, mode: AddressingMode) -> (r: Option<bool>)
    ensures
        (r is None) == !in_group_6(m@),
        r is None ==> final(cpu)@ == old(cpu)@,
        r matches Some(b) ==> b == group_6_ok(old(cpu)@, m@, mode),
        r == Some(true) ==> final(cpu)@ == group_6_next(old(cpu)@, m@, mode),
{
    proof {
        reveal(group_6_ok);
        reveal(group_6_next);
    }
    if chars_eq(m, "SEI") {
        cpu.sei(&mode);
        Some(true)
    } else if chars_eq(m, "SHA") {
        cpu.sha(&mode);
        Some(true)
    } else if chars_eq(m, "SHS") {
        let ax: u8 = cpu.register_a & cpu.register_x;
        cpu.stack_pointer = ax;
        if !cpu.operand_ok_check(&mode) {
            return Some(false);
        }
        cpu.store_masked_by_high(&mode, ax);
        Some(true)
    } else if chars_eq(m, "SHX") {
        if !cpu.operand_ok_check(&mode) {
            return Some(false);
        }
        cpu.shx(&mode);
        Some(true)
    } else if chars_eq(m, "SHY") {
        if !cpu.operand_ok_check(&mode) {
            return Some(false);
        }
        cpu.shy(&mode);
        Some(true)
    } else if chars_eq(m, "SLO") {
        if !cpu.shift_ok_check(&mode) {
            return Some(false);
        }
        cpu.asl(&mode);
        if !cpu.operand_ok_check(&mode) {
            return Some(false);
        }
        cpu.ora(&mode);
        Some(true)
    } else if chars_eq(m, "SRE") {
        if !cpu.shift_ok_check(&mode) {
            return Some(false);
        }
        cpu.lsr(&mode);
        if !cpu.operand_ok_check(&mode) {
            return Some(false);
        }
        cpu.eor(&mode);
        Some(true)
    } else if chars_eq(m, "STA") {
        if !cpu.operand_ok_check(&mode) {
            return Some(false);
        }
        cpu.sta(&mode);
        Some(true)
    } else if chars_eq(m, "STX") {
        if !cpu.operand_ok_check(&mode) {
            return Some(false);
        }
        cpu.stx(&mode);
        Some(true)
    } else if chars_eq(m, "STY") {
        if !cpu.operand_ok_check(&mode) {
            return Some(false);
        }
        cpu.sty(&mode);
        Some(true)
    } else {
        None
    }
}

/// Runs `m` in `mode` if it is an instruction of group 7: `None` if it is
/// not, else whether it ran without a fault.
fn execute_group_7(cpu: &mut CPU, m: &Vec<char>, mode: AddressingMode) -> (r: Option<bool>)
    ensures
        (r is None) == !in_group_7(m@),
        r is None ==> final(cpu)@ == old(cpu)@,
        r matches Some(b) ==> b == group_7_ok(old(cpu)@, m@, mode),
        r == Some(true) ==> final(cpu)@ == group_7_next(old(cpu)@, m@, mode),
{
    proof {
        reveal(group_7_ok);
        reveal(group_7_next);
    }
    if chars_eq(m, "TAX") {
        cpu.tax(&mode);
        Some(true)
    } else if chars_eq(m, "TAY") {
        cpu.tay(&mode);
        Some(true)
    } else if chars_eq(m, "TSX") {
        cpu.tsx(&mode);
        Some(true)
    } else if chars_eq(m, "TXA") {
        cpu.txa(&mode);
        Some(true)
    } else if chars_eq(m, "TXS") {
        cpu.txs(&mode);
        Some(true)
    } else if chars_eq(m, "TYA") {
        cpu.tya(&mode);
        Some(true)
    } else {
        None
    }
}

/// Runs the instruction `m` in `mode`; false where it would fault, and then
/// the state is left where the fault struck.
fn execute(cpu: &mut CPU, m: &Vec<char>, mode: AddressingMode) -> (r: bool)
    ensures
        r == instruction_ok(old(cpu)@, m@, mode),
        r ==> final(cpu)@ == instruction_next(old(cpu)@, m@, mode),
{
    if let Some(b) = execute_group_0(cpu, m, mode) {
        return b;
    }
    if let Some(b) = execute_group_1(cpu, m, mode) {
        return b;
    }
    if let Some(b) = execute_group_2(cpu, m, mode) {
        return b;
    }
    if let Some(b) = execute_group_3(cpu, m, mode) {
        return b;
    }
    if let Some(b) = execute_group_4(cpu, m, mode) {
        return b;
    }
    if let Some(b) = execute_group_5(cpu, m, mode) {
        return b;
    }
    if let Some(b) = execute_group_6(cpu, m, mode) {
        return b;
    }
    if let Some(b) = execute_group_7(cpu, m, mode) {
        return b;
    }
    true
}

/// Carries out the table entry `op`: runs its instruction, then steps the
/// counter over its operand bytes.  False where that would fault.
pub fn call(cpu: &mut CPU, op: &OpCode) -> (r: bool)
    ensures
        r == call_ok(old(cpu)@, *op),
        r ==> final(cpu)@ == call_next(old(cpu)@, *op),
{
    let m = mnemonic_of(&op.name);
    if !execute(cpu, &m, op.addressing_mode) {
        return false;
    }
    if op.bytes == 0 || cpu.program_counter as u32 + (op.bytes - 1) as u32 > 0xFFFF {
        return false;
    }
    cpu.program_counter = cpu.program_counter + (op.bytes - 1);
    true
}

} // verus!
