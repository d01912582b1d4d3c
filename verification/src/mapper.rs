//! Cartridge mappers: MMC1 (mapper 1), UxROM and NROM (mappers 0 and 2),
//! CNROM (mapper 3) and MMC3 (mapper 4).
use vstd::prelude::*;
use crate::common::{_MEM_SIZE_16K, _MEM_SIZE_32K, _MEM_SIZE_4K, _MEM_SIZE_8K};
use crate::rom::{Mirroring, Rom, RomType};

verus! {

const PRG_RAM_ENABLE: u8 = 0;
const PRG_RAM_DISABLE: u8 = 1;

/// Value of the MMC1 shift register after a reset write.
const SHFT_REG_INIT_VAL: u8 = 0b0001_0000;
const PGR_MEM_ROM: u8 = 0;
const IGNORING_LOW_BIT_BANK: u8 = 0;
const FIX_FIRST_BANK: u8 = 1;
const FIX_LAST_BANK: u8 = 2;
const BANK_LAST_2_FIXED: u8 = 0;
const BANK_VARIABLE: u8 = 1;
const TWO_2KB_BANK: u8 = 0;
const FOUR_1KB_BANK: u8 = 1;
const CHR_BANK_1KB: u8 = 0;
const CHR_BANK_2KB: u8 = 1;

// ===========================================================================
// MMC1
// ===========================================================================

/// The registers of an MMC1.
pub struct Mapper1 {
    sp_reg: u8,
    shift_reg: u8,
    shift: u8,
    ctrl_reg_r0: u8,
    ctrl_reg_r1: u8,
    ctrl_reg_r2: u8,
    ctrl_reg_r3: u8,
    chr_bank_mode: u16,
    prg_bank_mode: (u16, u16, u8),
    mirror: Mirroring,
    r1_chr_ram_bank_4k: u8,
    r1_prg_ram_bank_8k: u8,
    r1_prg_rom_bank_256k: u8,
    r2_chr_ram_bank_4k: u8,
    r2_prg_ram_bank_8k: u8,
    r2_prg_rom_bank_256k: u8,
    prg_ram_enable: u8,
    prg_mem_type: u8,
    prg_bank: u8,
}

/// The registers of an MMC1, as values.
pub struct Mapper1State {
    pub sp_reg: u8,
    pub shift_reg: u8,
    pub shift: u8,
    pub ctrl_reg_r0: u8,
    pub ctrl_reg_r1: u8,
    pub ctrl_reg_r2: u8,
    pub ctrl_reg_r3: u8,
    /// Size of a CHR bank: 4 KiB or 8 KiB.
    pub chr_bank_mode: u16,
    /// PRG bank size, the address of the switchable bank, and which bank is fixed.
    pub prg_bank_mode: (u16, u16, u8),
    pub mirror: Mirroring,
    pub r1_chr_ram_bank_4k: u8,
    pub r1_prg_ram_bank_8k: u8,
    pub r1_prg_rom_bank_256k: u8,
    pub r2_chr_ram_bank_4k: u8,
    pub r2_prg_ram_bank_8k: u8,
    pub r2_prg_rom_bank_256k: u8,
    pub prg_ram_enable: u8,
    pub prg_mem_type: u8,
    /// The switchable 16 KiB PRG bank.
    pub prg_bank: u8,
}

impl Mapper1 {
    /// The PRG bank size is 16 KiB or 32 KiB.
    #[verifier::type_invariant]
    spec fn bank_size_known(&self) -> bool {
        self.prg_bank_mode.0 == 0x4000 || self.prg_bank_mode.0 == 0x8000
    }
}

impl View for Mapper1 {
    type V = Mapper1State;

    closed spec fn view(&self) -> Mapper1State {
        Mapper1State {
            sp_reg: self.sp_reg,
            shift_reg: self.shift_reg,
            shift: self.shift,
            ctrl_reg_r0: self.ctrl_reg_r0,
            ctrl_reg_r1: self.ctrl_reg_r1,
            ctrl_reg_r2: self.ctrl_reg_r2,
            ctrl_reg_r3: self.ctrl_reg_r3,
            chr_bank_mode: self.chr_bank_mode,
            prg_bank_mode: self.prg_bank_mode,
            mirror: self.mirror,
            r1_chr_ram_bank_4k: self.r1_chr_ram_bank_4k,
            r1_prg_ram_bank_8k: self.r1_prg_ram_bank_8k,
            r1_prg_rom_bank_256k: self.r1_prg_rom_bank_256k,
            r2_chr_ram_bank_4k: self.r2_chr_ram_bank_4k,
            r2_prg_ram_bank_8k: self.r2_prg_ram_bank_8k,
            r2_prg_rom_bank_256k: self.r2_prg_rom_bank_256k,
            prg_ram_enable: self.prg_ram_enable,
            prg_mem_type: self.prg_mem_type,
            prg_bank: self.prg_bank,
        }
    }
}

/// The MMC1 after power-on.
pub open spec fn mapper1_initial() -> Mapper1State {
    Mapper1State {
        sp_reg: 0,
        shift_reg: 0x10,
        shift: 0,
        ctrl_reg_r0: 0,
        ctrl_reg_r1: 0,
        ctrl_reg_r2: 0,
        ctrl_reg_r3: 0,
        chr_bank_mode: 0x2000,
        prg_bank_mode: (0x8000, 0x8000, 0),
        mirror: Mirroring::VERTICAL,
        r1_chr_ram_bank_4k: 0,
        r1_prg_ram_bank_8k: 0,
        r1_prg_rom_bank_256k: 0,
        r2_chr_ram_bank_4k: 0,
        r2_prg_ram_bank_8k: 0,
        r2_prg_rom_bank_256k: 0,
        prg_ram_enable: 1,
        prg_mem_type: 0,
        prg_bank: 0,
    }
}

/// A register write that the MMC1 accepts: the control registers live at
/// $8000-$FFFF, and the two CHR registers are decoded only for SUROM boards.
pub open spec fn mapper1_control_ok(addr: u16, rom_type: RomType) -> bool {
    &&& addr >= 0x8000
    &&& 0xA000 <= addr <= 0xDFFF ==> rom_type == RomType::SUROM
}

/// The MMC1 after the value `val` was transferred to the register at `addr`.
pub open spec fn mapper1_control_next(
    m: Mapper1State,
    addr: u16,
    val: u8,
    rom_type: RomType,
) -> Mapper1State {
    let v = val & 0x1F;
    if addr <= 0x9FFF {
        // R0: mirroring, PRG and CHR bank modes
        Mapper1State {
            ctrl_reg_r0: v,
            chr_bank_mode: if (v & 0x10) >> 4u8 == 1 {
                0x1000
            } else {
                0x2000
            },
            prg_bank_mode: if (v & 0x0C) >> 2u8 == 3 {
                (0x4000, 0xC000, 2)
            } else if (v & 0x0C) >> 2u8 == 2 {
                (0x4000, 0x8000, 1)
            } else {
                (0x8000, 0x8000, 0)
            },
            // the mirroring is decoded from (v & 3) >> 1, which is 0 or 1
            mirror: if (v & 0x03) >> 1u8 == 1 {
                Mirroring::ONE_SCREEN_UPPER
            } else {
                Mirroring::ONE_SCREEN_LOWER
            },
            ..m
        }
    } else if addr <= 0xBFFF {
        // R1: CHR bank 0 (SUROM: PRG-ROM 256 KiB bank, PRG-RAM bank, CHR-RAM bank)
        Mapper1State {
            ctrl_reg_r1: v,
            r1_prg_rom_bank_256k: if m.chr_bank_mode != 0x2000 {
                (v & 0x10) >> 4u8
            } else {
                m.r1_prg_rom_bank_256k
            },
            r1_prg_ram_bank_8k: (v & 0x0C) >> 2u8,
            r1_chr_ram_bank_4k: v & 0x01,
            ..m
        }
    } else if addr <= 0xDFFF {
        // R2: CHR bank 1; in the 4 KiB CHR mode its bank fields are filled
        // from the bits held in R1
        if m.chr_bank_mode != 0x2000 {
            Mapper1State {
                ctrl_reg_r2: v,
                r2_prg_rom_bank_256k: (m.ctrl_reg_r1 & 0x10) >> 4u8,
                r2_prg_ram_bank_8k: (m.ctrl_reg_r1 & 0x0C) >> 2u8,
                r2_chr_ram_bank_4k: m.ctrl_reg_r1 & 0x01,
                ..m
            }
        } else {
            Mapper1State { ctrl_reg_r2: v, ..m }
        }
    } else {
        // R3: PRG bank and PRG-RAM enable
        Mapper1State {
            ctrl_reg_r3: v,
            prg_ram_enable: (v & 0x10) >> 4u8,
            prg_bank: if m.prg_bank_mode != (0x8000u16, 0x8000u16, 0u8) {
                v & 0x0F
            } else {
                m.prg_bank
            },
            ..m
        }
    }
}

/// A serial write that the MMC1 accepts: a write that completes a transfer
/// must name a register that the board decodes.
pub open spec fn mapper1_serial_ok(m: Mapper1State, addr: u16, data: u8, rom_type: RomType) -> bool {
    (data & 0x80 == 0 && m.shift >= 4) ==> mapper1_control_ok(addr, rom_type)
}

/// One serial write to the MMC1.  Bit 7 resets the shift register and the
/// count; otherwise bit 0 enters at bit 4 while the register shifts right,
/// and the fifth such write hands the five bits (the first write's bit
/// lowest) to the control register at `addr` and empties the shift register.
pub open spec fn mapper1_serial_next(
    m: Mapper1State,
    addr: u16,
    data: u8,
    rom_type: RomType,
) -> Mapper1State {
    let sp = data & 0x81;
    let bit = sp & 0x01;
    let shifted = (bit << 4u8) | (m.shift_reg >> 1u8);
    if data & 0x80 != 0 {
        Mapper1State { sp_reg: 0, shift_reg: 0x10, shift: 0, ..m }
    } else if m.shift < 4 {
        Mapper1State { sp_reg: sp, shift_reg: shifted, shift: (m.shift + 1) as u8, ..m }
    } else {
        Mapper1State {
            sp_reg: sp,
            shift_reg: 0x10,
            shift: 0,
            ..mapper1_control_next(m, addr, shifted, rom_type)
        }
    }
}

impl Mapper1 {
    pub fn new() -> (r: Self)
        ensures
            r@ == mapper1_initial(),
    {
        Mapper1 {
            shift_reg: SHFT_REG_INIT_VAL,
            shift: 0,
            sp_reg: 0,
            ctrl_reg_r0: 0,
            ctrl_reg_r1: 0,
            ctrl_reg_r2: 0,
            ctrl_reg_r3: 0,
            chr_bank_mode: _MEM_SIZE_8K,
            prg_bank_mode: (_MEM_SIZE_32K, 0x8000, IGNORING_LOW_BIT_BANK),
            mirror: Mirroring::VERTICAL,
            r1_chr_ram_bank_4k: 0,
            r1_prg_ram_bank_8k: 0,
            r1_prg_rom_bank_256k: 0,
            r2_chr_ram_bank_4k: 0,
            r2_prg_ram_bank_8k: 0,
            r2_prg_rom_bank_256k: 0,
            prg_mem_type: PGR_MEM_ROM,
            prg_bank: 0,
            prg_ram_enable: PRG_RAM_DISABLE,
        }
    }

    fn shift_reg_proc(&mut self, addr: u16, data: u8, rom_type: RomType)
        requires
            mapper1_serial_ok(old(self)@, addr, data, rom_type),
        ensures
            final(self)@ == mapper1_serial_next(old(self)@, addr, data, rom_type),
    {
        proof {
            use_type_invariant(&*self);
        }
        let sp = data & 0x81;
        self.sp_reg = sp;
        let val: u8 = sp & 0x01;
        assert(val <= 1 && (sp & 0x80 != 0) == (data & 0x80 != 0)) by (bit_vector)
            requires
                val == sp & 0x01,
                sp == data & 0x81,
        ;
        if (self.sp_reg & 0x80) != 0 {
            self.sp_reg = 0;
            self.shift_reg = SHFT_REG_INIT_VAL;
            self.shift = 0;
        } else {
            let shifted = (val << 4) | (self.shift_reg >> 1);
            if self.shift < 4 {
                self.shift_reg = shifted;
                self.shift += 1;
            } else {
                self.control_reg_write(addr, shifted, rom_type);
                self.shift_reg = SHFT_REG_INIT_VAL;
                self.shift = 0;
            }
        }
    }

    fn control_reg_write(&mut self, addr: u16, val: u8, rom_type: RomType)
        requires
            mapper1_control_ok(addr, rom_type),
        ensures
            final(self)@ == mapper1_control_next(old(self)@, addr, val, rom_type),
    {
        proof {
            use_type_invariant(&*self);
        }
        if addr <= 0x9FFF {
            self.ctrl_reg_r0 = val & 0x1F;
            let reg_r0 = self.ctrl_reg_r0;
            self.chr_bank_mode = if (reg_r0 & 0x10) >> 4 == 1 {
                _MEM_SIZE_4K
            } else {
                _MEM_SIZE_8K
            };
            let prg = (reg_r0 & 0x0C) >> 2;
            self.prg_bank_mode = if prg == 3 {
                (_MEM_SIZE_16K, 0xC000, FIX_LAST_BANK)
            } else if prg == 2 {
                (_MEM_SIZE_16K, 0x8000, FIX_FIRST_BANK)
            } else {
                (_MEM_SIZE_32K, 0x8000, IGNORING_LOW_BIT_BANK)
            };
            let mir = (reg_r0 & 0x03) >> 1;
            assert(mir <= 1) by (bit_vector)
                requires
                    mir == (reg_r0 & 0x03) >> 1,
            ;
            self.mirror = if mir == 3 {
                Mirroring::HORIZONTAL
            } else if mir == 2 {
                Mirroring::VERTICAL
            } else if mir == 1 {
                Mirroring::ONE_SCREEN_UPPER
            } else {
                Mirroring::ONE_SCREEN_LOWER
            };
        } else if addr <= 0xBFFF {
            self.ctrl_reg_r1 = val & 0x1F;
            if self.chr_bank_mode != _MEM_SIZE_8K {
                self.r1_prg_rom_bank_256k = (self.ctrl_reg_r1 & 0x10) >> 4;
            }
            self.r1_prg_ram_bank_8k = (self.ctrl_reg_r1 & 0x0C) >> 2;
            self.r1_chr_ram_bank_4k = self.ctrl_reg_r1 & 0x01;
        } else if addr <= 0xDFFF {
            self.ctrl_reg_r2 = val & 0x1F;
            if self.chr_bank_mode != _MEM_SIZE_8K {
                self.r2_prg_rom_bank_256k = (self.ctrl_reg_r1 & 0x10) >> 4;
                self.r2_prg_ram_bank_8k = (self.ctrl_reg_r1 & 0x0C) >> 2;
                self.r2_chr_ram_bank_4k = self.ctrl_reg_r1 & 0x01;
            }
        } else {
            self.ctrl_reg_r3 = val & 0x1F;
            self.prg_ram_enable = (self.ctrl_reg_r3 & 0x10) >> 4;
            let (len, start, ops) = self.prg_bank_mode;
            if !(len == _MEM_SIZE_32K && start == 0x8000 && ops == IGNORING_LOW_BIT_BANK) {
                self.prg_bank = self.ctrl_reg_r3 & 0x0F;
            }
        }
    }
}

// ===========================================================================
// MMC3
// ===========================================================================

/// The registers of an MMC3.
pub struct Mapper4 {
    bank_sel_reg: u8,
    bank_data_reg: [u8; 8],
    bank_reg_sel: u8,
    chr_bank_mode: (u8, u8),
    prg_bank_mode: (u8, u8),
    chr_a12_inv_mode: (u8, u8),
    mirroring_reg: u8,
    prg_ram_protect_reg: u8,
    mirror: Mirroring,
    prg_ram_cs: bool,
    prg_ram_wp: bool,
    irq_latch_reg: u8,
    irq_reload_reg: u8,
    irq_reload_flg: bool,
    irq_di_reg: u8,
    irq_ei_reg: u8,
    irq_flg: bool,
}

/// The registers of an MMC3, as values.
pub struct Mapper4State {
    pub bank_sel_reg: u8,
    /// R0 to R7.
    pub bank_data_reg: Seq<u8>,
    /// The bank register that the next data write goes to.
    pub bank_reg_sel: u8,
    pub chr_bank_mode: (u8, u8),
    pub prg_bank_mode: (u8, u8),
    pub chr_a12_inv_mode: (u8, u8),
    pub mirroring_reg: u8,
    pub prg_ram_protect_reg: u8,
    pub mirror: Mirroring,
    /// PRG-RAM chip select.
    pub prg_ram_cs: bool,
    /// PRG-RAM write protection.
    pub prg_ram_wp: bool,
    pub irq_latch_reg: u8,
    pub irq_reload_reg: u8,
    pub irq_reload_flg: bool,
    pub irq_di_reg: u8,
    pub irq_ei_reg: u8,
    pub irq_flg: bool,
}

impl Mapper4 {
    /// The selected bank register is one of R0 to R7.
    #[verifier::type_invariant]
    spec fn bank_register_known(&self) -> bool {
        self.bank_reg_sel < 8
    }
}

impl View for Mapper4 {
    type V = Mapper4State;

    closed spec fn view(&self) -> Mapper4State {
        Mapper4State {
            bank_sel_reg: self.bank_sel_reg,
            bank_data_reg: self.bank_data_reg@,
            bank_reg_sel: self.bank_reg_sel,
            chr_bank_mode: self.chr_bank_mode,
            prg_bank_mode: self.prg_bank_mode,
            chr_a12_inv_mode: self.chr_a12_inv_mode,
            mirroring_reg: self.mirroring_reg,
            prg_ram_protect_reg: self.prg_ram_protect_reg,
            mirror: self.mirror,
            prg_ram_cs: self.prg_ram_cs,
            prg_ram_wp: self.prg_ram_wp,
            irq_latch_reg: self.irq_latch_reg,
            irq_reload_reg: self.irq_reload_reg,
            irq_reload_flg: self.irq_reload_flg,
            irq_di_reg: self.irq_di_reg,
            irq_ei_reg: self.irq_ei_reg,
            irq_flg: self.irq_flg,
        }
    }
}

/// The MMC3 after power-on.
pub open spec fn mapper4_initial() -> Mapper4State {
    Mapper4State {
        bank_sel_reg: 0,
        bank_data_reg: Seq::new(8, |i: int| 0u8),
        bank_reg_sel: 0,
        chr_bank_mode: (1, 0),
        prg_bank_mode: (1, 0),
        chr_a12_inv_mode: (0, 1),
        mirroring_reg: 0,
        prg_ram_protect_reg: 0,
        mirror: Mirroring::VERTICAL,
        prg_ram_cs: false,
        prg_ram_wp: false,
        irq_latch_reg: 0,
        irq_reload_reg: 0,
        irq_reload_flg: false,
        irq_di_reg: 0,
        irq_ei_reg: 0,
        irq_flg: false,
    }
}

/// A write to the MMC3 register at `addr` ($8000-$FFFF): the register pair
/// is chosen by the 8 KiB region, the register by the parity of the address.
pub open spec fn mapper4_register_next(m: Mapper4State, addr: u16, val: u8) -> Mapper4State {
    let even = addr % 2 == 0;
    if addr <= 0x9FFF {
        if even {
            // bank select: CHR A12 inversion (bit 7), PRG mode (bit 6), register (bits 2-0)
            Mapper4State {
                bank_sel_reg: val & 0x07,
                chr_a12_inv_mode: if (val & 0x80) >> 7u8 == 1 {
                    (1, 0)
                } else {
                    (0, 1)
                },
                prg_bank_mode: if (val & 0x40) >> 6u8 == 1 {
                    (1, 0)
                } else {
                    (0, 1)
                },
                bank_reg_sel: val & 0x07,
                ..m
            }
        } else {
            Mapper4State {
                bank_data_reg: m.bank_data_reg.update(m.bank_reg_sel as int, val),
                ..m
            }
        }
    } else if addr <= 0xBFFF {
        if even {
            Mapper4State {
                mirroring_reg: val,
                mirror: if val & 0x01 == 1 {
                    Mirroring::HORIZONTAL
                } else {
                    Mirroring::VERTICAL
                },
                ..m
            }
        } else {
            // PRG-RAM protect: chip enable (bit 7), write protection (bit 6)
            Mapper4State {
                prg_ram_protect_reg: val,
                prg_ram_cs: val & 0x80 != 0,
                prg_ram_wp: val & 0x40 != 0,
                ..m
            }
        }
    } else if addr <= 0xDFFF {
        if even {
            Mapper4State { irq_latch_reg: val, prg_ram_protect_reg: 0, ..m }
        } else {
            Mapper4State { irq_reload_reg: val, irq_reload_flg: true, ..m }
        }
    } else {
        if even {
            Mapper4State { irq_di_reg: val, irq_flg: false, ..m }
        } else {
            Mapper4State { irq_ei_reg: val, irq_flg: true, ..m }
        }
    }
}

impl Mapper4 {
    pub fn new() -> (r: Self)
        ensures
            r@ == mapper4_initial(),
    {
        let r = Mapper4 {
            bank_sel_reg: 0,
            bank_data_reg: [0; 8],
            bank_reg_sel: 0,
            chr_bank_mode: (CHR_BANK_2KB, CHR_BANK_1KB),
            prg_bank_mode: (BANK_VARIABLE, BANK_LAST_2_FIXED),
            chr_a12_inv_mode: (TWO_2KB_BANK, FOUR_1KB_BANK),
            mirroring_reg: 0,
            prg_ram_protect_reg: 0,
            mirror: Mirroring::VERTICAL,
            prg_ram_cs: false,
            prg_ram_wp: false,
            irq_latch_reg: 0,
            irq_reload_reg: 0,
            irq_reload_flg: false,
            irq_di_reg: 0,
            irq_ei_reg: 0,
            irq_flg: false,
        };
        assert(r@.bank_data_reg =~= Seq::new(8, |i: int| 0u8));
        r
    }

    fn bank_sel_reg_write(&mut self, val: u8)
        ensures
            final(self)@ == mapper4_register_next(old(self)@, 0x8000, val),
    {
        proof {
            use_type_invariant(&*self);
        }
        self.bank_sel_reg = val;
        let reg = self.bank_sel_reg;
        self.bank_sel_reg = reg & 0x07;
        self.chr_a12_inv_mode = if (reg & 0x80) >> 7 == 1 {
            (FOUR_1KB_BANK, TWO_2KB_BANK)
        } else {
            (TWO_2KB_BANK, FOUR_1KB_BANK)
        };
        self.prg_bank_mode = if (reg & 0x40) >> 6 == 1 {
            (BANK_VARIABLE, BANK_LAST_2_FIXED)
        } else {
            (BANK_LAST_2_FIXED, BANK_VARIABLE)
        };
        assert(reg & 0x07 < 8) by (bit_vector);
        self.bank_reg_sel = reg & 0x07;
    }

    fn bank_data_reg_write(&mut self, val: u8)
        ensures
            final(self)@ == mapper4_register_next(old(self)@, 0x8001, val),
    {
        proof {
            use_type_invariant(&*self);
        }
        let i = self.bank_reg_sel as usize;
        self.bank_data_reg[i] = val;
    }

    fn mirroring_reg_write(&mut self, val: u8)
        ensures
            final(self)@ == mapper4_register_next(old(self)@, 0xA000, val),
    {
        proof {
            use_type_invariant(&*self);
        }
        self.mirroring_reg = val;
        self.mirror = if self.mirroring_reg & 0x01 == 1 {
            Mirroring::HORIZONTAL
        } else {
            Mirroring::VERTICAL
        }
    }

    fn prg_ram_protect_reg_write(&mut self, val: u8)
        ensures
            final(self)@ == mapper4_register_next(old(self)@, 0xA001, val),
    {
        proof {
            use_type_invariant(&*self);
        }
        self.prg_ram_protect_reg = val;
        self.prg_ram_cs = (val & 0x80) != 0;
        self.prg_ram_wp = (val & 0x40) != 0;
    }

    fn irq_latch_reg_write(&mut self, val: u8)
        ensures
            final(self)@ == mapper4_register_next(old(self)@, 0xC000, val),
    {
        proof {
            use_type_invariant(&*self);
        }
        self.irq_latch_reg = val;
        self.prg_ram_protect_reg = 0;
    }

    fn irq_reload_reg_write(&mut self, val: u8)
        ensures
            final(self)@ == mapper4_register_next(old(self)@, 0xC001, val),
    {
        proof {
            use_type_invariant(&*self);
        }
        self.irq_reload_reg = val;
        self.irq_reload_flg = true;
    }

    fn irq_di_reg_write(&mut self, val: u8)
        ensures
            final(self)@ == mapper4_register_next(old(self)@, 0xE000, val),
    {
        proof {
            use_type_invariant(&*self);
        }
        self.irq_di_reg = val;
        self.irq_flg = false;
    }

    fn irq_ei_reg_write(&mut self, val: u8)
        ensures
            final(self)@ == mapper4_register_next(old(self)@, 0xE001, val),
    {
        proof {
            use_type_invariant(&*self);
        }
        self.irq_ei_reg = val;
        self.irq_flg = true;
    }

    /// A write to the register at `addr` ($8000-$FFFF).
    fn register_write(&mut self, addr: u16, data: u8)
        requires
            addr >= 0x8000,
        ensures
            final(self)@ == mapper4_register_next(old(self)@, addr, data),
    {
        if addr <= 0x9FFF {
            if addr % 2 == 0 {
                self.bank_sel_reg_write(data);
            } else {
                self.bank_data_reg_write(data);
            }
        } else if addr <= 0xBFFF {
            if addr % 2 == 0 {
                self.mirroring_reg_write(data);
            } else {
                self.prg_ram_protect_reg_write(data);
            }
        } else if addr <= 0xDFFF {
            if addr % 2 == 0 {
                self.irq_latch_reg_write(data);
            } else {
                self.irq_reload_reg_write(data);
            }
        } else {
            if addr % 2 == 0 {
                self.irq_di_reg_write(data);
            } else {
                self.irq_ei_reg_write(data);
            }
        }
    }
}

// ===========================================================================
// The mapper of the cartridge
// ===========================================================================

pub struct Mmc3 {
    pub rom_type: RomType,
    pub mapper_4: Mapper4,
}

impl View for Mmc3 {
    /// The board and the MMC3 registers.
    type V = (RomType, Mapper4State);

    open spec fn view(&self) -> (RomType, Mapper4State) {
        (self.rom_type, self.mapper_4@)
    }
}

impl Mmc3 {
    pub fn new() -> (r: Self)
        ensures
            r@ == (RomType::TKROM, mapper4_initial()),
    {
        Mmc3 { rom_type: RomType::TKROM, mapper_4: Mapper4::new() }
    }
}

pub struct Mmc1 {
    pub rom_type: RomType,
    pub mapper_1: Mapper1,
}

impl View for Mmc1 {
    /// The board and the MMC1 registers.
    type V = (RomType, Mapper1State);

    open spec fn view(&self) -> (RomType, Mapper1State) {
        (self.rom_type, self.mapper_1@)
    }
}

impl Mmc1 {
    pub fn new() -> (r: Self)
        ensures
            r@ == (RomType::SNROM, mapper1_initial()),
    {
        Mmc1 { rom_type: RomType::SNROM, mapper_1: Mapper1::new() }
    }
}

pub struct MapperMMC {
    pub prg_rom: Vec<u8>,
    pub chr_rom: Vec<u8>,
    pub chr_ram: Vec<u8>,
    pub ext_ram: Vec<u8>,
    pub mapper: u8,
    pub is_chr_ram: bool,
    pub is_prg_ram: bool,
    pub rom_type: RomType,
    pub bank_select: u8,
    pub mmc_1: Mmc1,
    pub mmc_3: Mmc3,
}

/// Everything a mapper holds, as values.
pub struct MapperState {
    pub prg_rom: Seq<u8>,
    pub chr_rom: Seq<u8>,
    pub chr_ram: Seq<u8>,
    pub ext_ram: Seq<u8>,
    pub mapper: u8,
    pub is_chr_ram: bool,
    pub is_prg_ram: bool,
    pub rom_type: RomType,
    /// The bank selected by the simple boards (the last byte written to them).
    pub bank_select: u8,
    pub mmc1_rom_type: RomType,
    pub mmc1: Mapper1State,
    pub mmc3_rom_type: RomType,
    pub mmc3: Mapper4State,
}

impl View for MapperMMC {
    type V = MapperState;

    open spec fn view(&self) -> MapperState {
        MapperState {
            prg_rom: self.prg_rom@,
            chr_rom: self.chr_rom@,
            chr_ram: self.chr_ram@,
            ext_ram: self.ext_ram@,
            mapper: self.mapper,
            is_chr_ram: self.is_chr_ram,
            is_prg_ram: self.is_prg_ram,
            rom_type: self.rom_type,
            bank_select: self.bank_select,
            mmc1_rom_type: self.mmc_1.rom_type,
            mmc1: self.mmc_1.mapper_1@,
            mmc3_rom_type: self.mmc_3.rom_type,
            mmc3: self.mmc_3.mapper_4@,
        }
    }
}

/// The mapper before a cartridge is put in: no ROM, 8 KiB of CHR-RAM and of
/// extension RAM, mapper 0.
pub open spec fn mapper_initial() -> MapperState {
    MapperState {
        prg_rom: Seq::empty(),
        chr_rom: Seq::empty(),
        chr_ram: Seq::new(0x2000, |i: int| 0u8),
        ext_ram: Seq::new(0x2000, |i: int| 0u8),
        mapper: 0,
        is_chr_ram: false,
        is_prg_ram: false,
        rom_type: RomType::NROM,
        bank_select: 0,
        mmc1_rom_type: RomType::SNROM,
        mmc1: mapper1_initial(),
        mmc3_rom_type: RomType::TKROM,
        mmc3: mapper4_initial(),
    }
}

// ---------------------------------------------------------------------------
// Writes
// ---------------------------------------------------------------------------

/// A write through an MMC1 board that does not fault: extension RAM at
/// $6000-$7FFF (within its size), serial register port at $8000-$FFFF.
pub open spec fn mapper1_write_ok(st: MapperState, addr: u16, data: u8) -> bool {
    if 0x6000 <= addr <= 0x7FFF {
        addr - 0x6000 < st.ext_ram.len()
    } else {
        addr >= 0x8000 && mapper1_serial_ok(st.mmc1, addr, data, st.rom_type)
    }
}

pub open spec fn mapper1_write_next(st: MapperState, addr: u16, data: u8) -> MapperState {
    if 0x6000 <= addr <= 0x7FFF {
        MapperState { ext_ram: st.ext_ram.update(addr - 0x6000, data), ..st }
    } else {
        MapperState { mmc1: mapper1_serial_next(st.mmc1, addr, data, st.rom_type), ..st }
    }
}

/// A write through an MMC3 board that does not fault: CHR-RAM at
/// $0000-$1FFF, extension RAM at $6000-$7FFF (within their sizes),
/// registers at $8000-$FFFF.
pub open spec fn mapper4_write_ok(st: MapperState, addr: u16) -> bool {
    if addr <= 0x1FFF {
        addr < st.chr_ram.len()
    } else if 0x6000 <= addr <= 0x7FFF {
        (st.mmc3.prg_ram_cs && !st.mmc3.prg_ram_wp) ==> addr - 0x6000 < st.ext_ram.len()
    } else {
        addr >= 0x8000
    }
}

/// Extension RAM takes the write only while the PRG-RAM is enabled and not
/// write protected.
pub open spec fn mapper4_write_next(st: MapperState, addr: u16, data: u8) -> MapperState {
    if addr <= 0x1FFF {
        MapperState { chr_ram: st.chr_ram.update(addr as int, data), ..st }
    } else if 0x6000 <= addr <= 0x7FFF {
        if st.mmc3.prg_ram_cs && !st.mmc3.prg_ram_wp {
            MapperState { ext_ram: st.ext_ram.update(addr - 0x6000, data), ..st }
        } else {
            st
        }
    } else {
        MapperState { mmc3: mapper4_register_next(st.mmc3, addr, data), ..st }
    }
}

/// A write that `write` carries out without a fault.
pub open spec fn mapper_write_ok(st: MapperState, addr: u16, data: u8) -> bool {
    if st.mapper == 1 {
        mapper1_write_ok(st, addr, data)
    } else if st.mapper == 4 {
        mapper4_write_ok(st, addr)
    } else {
        true
    }
}

/// MMC1 and MMC3 take the write; on the other boards the byte written selects the bank.
pub open spec fn mapper_write_next(st: MapperState, addr: u16, data: u8) -> MapperState {
    if st.mapper == 1 {
        mapper1_write_next(st, addr, data)
    } else if st.mapper == 4 {
        mapper4_write_next(st, addr, data)
    } else {
        MapperState { bank_select: data, ..st }
    }
}

// ---------------------------------------------------------------------------
// Reads
// ---------------------------------------------------------------------------

/// MMC1 bank lengths of the regions at $8000 and $C000.
pub open spec fn mapper1_bank_lens(m: Mapper1State) -> (int, int) {
    let (bank_len, _, ops) = m.prg_bank_mode;
    if ops == 2 {
        (bank_len as int, 0x4000)
    } else if ops == 1 {
        (0x4000, bank_len as int)
    } else {
        (bank_len as int, bank_len as int)
    }
}

/// Where an MMC1 read of `addr` lands: `None` for extension RAM, else the PRG-ROM index.
pub open spec fn mapper1_prg_index(st: MapperState, addr: u16) -> int {
    let (first, last) = mapper1_bank_lens(st.mmc1);
    let bank_max = st.prg_rom.len() as int / (st.mmc1.prg_bank_mode.0 as int);
    if addr <= 0xBFFF {
        addr - 0x8000 + first * st.mmc1.prg_bank
    } else {
        addr - 0xC000 + last * (bank_max - 1)
    }
}

pub open spec fn mapper1_read_ok(st: MapperState, addr: u16) -> bool {
    if 0x6000 <= addr <= 0x7FFF {
        addr - 0x6000 < st.ext_ram.len()
    } else {
        &&& addr >= 0x8000
        &&& st.prg_rom.len() >= st.mmc1.prg_bank_mode.0
        &&& mapper1_prg_index(st, addr) < st.prg_rom.len()
    }
}

/// MMC1: extension RAM at $6000, the switchable bank at $8000, the last bank at $C000.
pub open spec fn mapper1_read(st: MapperState, addr: u16) -> u8 {
    if 0x6000 <= addr <= 0x7FFF {
        st.ext_ram[addr - 0x6000]
    } else {
        st.prg_rom[mapper1_prg_index(st, addr)]
    }
}

pub open spec fn mmc2_prg_index(st: MapperState, addr: u16) -> int {
    if addr <= 0xBFFF {
        addr - 0x8000 + 0x4000 * (st.bank_select & 0x0F)
    } else {
        addr - 0xC000 + 0x4000 * (st.prg_rom.len() as int / 0x4000 - 1)
    }
}

pub open spec fn mmc2_read_ok(st: MapperState, addr: u16) -> bool {
    if 0x6000 <= addr <= 0x7FFF {
        addr - 0x6000 < st.ext_ram.len()
    } else {
        &&& addr >= 0x8000
        &&& addr >= 0xC000 ==> st.prg_rom.len() >= 0x4000
        &&& mmc2_prg_index(st, addr) < st.prg_rom.len()
    }
}

/// UxROM: extension RAM at $6000, the 16 KiB bank selected by the low nibble
/// of the last write at $8000, the last bank at $C000.
pub open spec fn mmc2_read(st: MapperState, addr: u16) -> u8 {
    if 0x6000 <= addr <= 0x7FFF {
        st.ext_ram[addr - 0x6000]
    } else {
        st.prg_rom[mmc2_prg_index(st, addr)]
    }
}

/// The CHR-ROM index that an MMC3 gives to the PPU address `addr`; 0 outside
/// the pattern tables.  CHR A12 inversion (bit 7 of the bank select
/// register) swaps the 2 KiB and the 1 KiB banks.
pub open spec fn mapper4_chr_index(st: MapperState, addr: int) -> int {
    let r = st.mmc3.bank_data_reg;
    let r0 = (r[0] & 0xFE) as int;
    let r1 = (r[1] & 0xFE) as int;
    let r2 = r[2] as int;
    let r3 = r[3] as int;
    let r4 = r[4] as int;
    let r5 = r[5] as int;
    let k = 1024int;
    if st.mmc3.chr_a12_inv_mode.0 != 1 {
        if 0 <= addr <= 0x07FF {
            addr + r0 * k
        } else if 0x0800 <= addr <= 0x0FFF {
            addr - 2 * k + r1 * k
        } else if 0x1000 <= addr <= 0x13FF {
            addr - 4 * k + r2 * k
        } else if 0x1400 <= addr <= 0x17FF {
            addr - 5 * k + r3 * k
        } else if 0x1800 <= addr <= 0x1BFF {
            addr - 6 * k + r4 * k
        } else if 0x1C00 <= addr <= 0x1FFF {
            addr - 7 * k + r5 * k
        } else {
            0
        }
    } else {
        if 0 <= addr <= 0x03FF {
            addr + r2 * k
        } else if 0x0400 <= addr <= 0x07FF {
            addr - k + r3 * k
        } else if 0x0800 <= addr <= 0x0BFF {
            addr - 2 * k + r4 * k
        } else if 0x0C00 <= addr <= 0x0FFF {
            addr - 3 * k + r5 * k
        } else if 0x1000 <= addr <= 0x17FF {
            addr - 4 * k + r0 * k
        } else if 0x1800 <= addr <= 0x1FFF {
            addr - 6 * k + r1 * k
        } else {
            0
        }
    }
}

/// The PRG bank mode of an MMC3 (bit 6 of the last bank select write): when
/// set, $C000-$DFFF is switched by R6 and $8000-$9FFF holds the second-to-last
/// bank; when clear, the other way round.
pub open spec fn mapper4_prg_swapped(m: Mapper4State) -> bool {
    m.prg_bank_mode.0 == 1
}

/// The PRG-ROM index of an MMC3 read at $8000-$FFFF (8 KiB banks: R6 and R7
/// switchable, the two last banks fixed; the PRG bank mode swaps $8000 and
/// $C000).
pub open spec fn mapper4_prg_index(st: MapperState, addr: u16) -> int {
    let k8 = 0x2000int;
    let bank_max = st.prg_rom.len() as int / k8;
    let r6 = st.mmc3.bank_data_reg[6] as int;
    let r7 = st.mmc3.bank_data_reg[7] as int;
    let swapped = mapper4_prg_swapped(st.mmc3);
    if addr <= 0x9FFF {
        if !swapped {
            addr + k8 * r6 - 0x8000
        } else {
            addr + (bank_max - 2) * k8 - 0x8000
        }
    } else if addr <= 0xBFFF {
        addr - k8 + k8 * r7 - 0x8000
    } else if addr <= 0xDFFF {
        if !swapped {
            addr - 2 * k8 + (bank_max - 2) * k8 - 0x8000
        } else {
            addr - 2 * k8 + k8 * r6 - 0x8000
        }
    } else {
        addr - 3 * k8 + (bank_max - 1) * k8 - 0x8000
    }
}

/// Whether the MMC3 read falls on the second-to-last or the last fixed bank.
pub open spec fn mapper4_uses_fixed_bank(st: MapperState, addr: u16) -> (int, bool) {
    let swapped = mapper4_prg_swapped(st.mmc3);
    if addr <= 0x9FFF {
        (2, swapped)
    } else if addr <= 0xBFFF {
        (0, false)
    } else if addr <= 0xDFFF {
        (2, !swapped)
    } else {
        (1, true)
    }
}

pub open spec fn mapper4_read_ok(st: MapperState, addr: u16) -> bool {
    if addr <= 0x1FFF {
        mapper4_chr_index(st, addr as int) < st.chr_rom.len()
    } else if 0x6000 <= addr <= 0x7FFF {
        st.mmc3.prg_ram_cs ==> addr - 0x6000 < st.ext_ram.len()
    } else {
        let (fixed, used) = mapper4_uses_fixed_bank(st, addr);
        &&& addr >= 0x8000
        &&& used ==> st.prg_rom.len() / 0x2000 >= fixed
        &&& mapper4_prg_index(st, addr) < st.prg_rom.len()
    }
}

/// MMC3: CHR-ROM through the CHR banks below $2000, extension RAM at $6000
/// (0 while the PRG-RAM is disabled), PRG-ROM through the PRG banks above $8000.
pub open spec fn mapper4_read(st: MapperState, addr: u16) -> u8 {
    if addr <= 0x1FFF {
        st.chr_rom[mapper4_chr_index(st, addr as int)]
    } else if 0x6000 <= addr <= 0x7FFF {
        if st.mmc3.prg_ram_cs {
            st.ext_ram[addr - 0x6000]
        } else {
            0
        }
    } else {
        st.prg_rom[mapper4_prg_index(st, addr)]
    }
}

pub open spec fn mapper3_read_ok(st: MapperState, addr: u16) -> bool {
    if addr <= 0x1FFF {
        addr + 0x2000 * (st.bank_select & 0x0F) < st.chr_rom.len()
    } else {
        addr >= 0x8000 && addr - 0x8000 < st.prg_rom.len()
    }
}

/// CNROM: the 8 KiB CHR bank selected by the last write, PRG-ROM unbanked.
pub open spec fn mapper3_read(st: MapperState, addr: u16) -> u8 {
    if addr <= 0x1FFF {
        st.chr_rom[addr + 0x2000 * (st.bank_select & 0x0F)]
    } else {
        st.prg_rom[addr - 0x8000]
    }
}

/// A CPU read that `read_prg_rom` answers without a fault.
pub open spec fn prg_read_ok(st: MapperState, addr: u16) -> bool {
    let m = st.mapper;
    if m == 0 || m == 2 {
        mmc2_read_ok(st, addr)
    } else if m == 1 {
        mapper1_read_ok(st, addr)
    } else if m == 3 {
        mapper3_read_ok(st, addr)
    } else if m == 4 {
        mapper4_read_ok(st, addr)
    } else {
        false
    }
}

pub open spec fn prg_read(st: MapperState, addr: u16) -> u8 {
    let m = st.mapper;
    if m == 0 || m == 2 {
        mmc2_read(st, addr)
    } else if m == 1 {
        mapper1_read(st, addr)
    } else if m == 3 {
        mapper3_read(st, addr)
    } else {
        mapper4_read(st, addr)
    }
}

/// A PPU read that `read_chr_rom` answers without a fault.
pub open spec fn chr_read_ok(st: MapperState, addr: u16) -> bool {
    let m = st.mapper;
    if m == 1 {
        mapper1_read_ok(st, addr)
    } else if m == 3 {
        mapper3_read_ok(st, addr)
    } else if m == 4 {
        mapper4_read_ok(st, addr)
    } else {
        false
    }
}

pub open spec fn chr_read(st: MapperState, addr: u16) -> u8 {
    let m = st.mapper;
    if m == 1 {
        mapper1_read(st, addr)
    } else if m == 3 {
        mapper3_read(st, addr)
    } else {
        mapper4_read(st, addr)
    }
}

/// Whole banks of size `k` fit in `len` bytes.
proof fn lemma_banks_fit(len: int, k: int)
    requires
        len >= 0,
        k > 0,
    ensures
        (len / k) * k <= len,
        len / k >= 0,
{
    vstd::arithmetic::div_mod::lemma_fundamental_div_mod(len, k);
    vstd::arithmetic::div_mod::lemma_div_pos_is_pos(len, k);
    vstd::arithmetic::div_mod::lemma_mod_pos_bound(len, k);
    vstd::arithmetic::mul::lemma_mul_is_commutative(k, len / k);
}

/// The low four bits of a byte are at most 15.
proof fn lemma_low_nibble(b: u8)
    ensures
        b & 0x0F <= 15,
{
    assert(b & 0x0F <= 15) by (bit_vector);
}

impl MapperMMC {
    pub fn new() -> (r: Self)
        ensures
            r@ == mapper_initial(),
    {
        let r = MapperMMC {
            prg_rom: Vec::new(),
            chr_rom: Vec::new(),
            chr_ram: vec![0; _MEM_SIZE_8K as usize],
            ext_ram: vec![0; _MEM_SIZE_8K as usize],
            is_chr_ram: false,
            is_prg_ram: false,
            mapper: 0,
            rom_type: RomType::NROM,
            bank_select: 0,
            mmc_1: Mmc1::new(),
            mmc_3: Mmc3::new(),
        };
        assert(r.chr_ram@ =~= Seq::new(0x2000, |i: int| 0u8));
        assert(r.ext_ram@ =~= Seq::new(0x2000, |i: int| 0u8));
        r
    }

    /// Puts a cartridge in: its ROM images, RAM flags, mapper number and
    /// board; the MMC1 learns the board too. RAM and registers are kept.
    pub fn load_rom(&mut self, rom: &Rom)
        ensures
            final(self)@ == (MapperState {
                prg_rom: rom.prg_rom@,
                chr_rom: rom.chr_rom@,
                is_chr_ram: rom.is_chr_ram,
                is_prg_ram: rom.is_prg_ram,
                mapper: rom.mapper,
                rom_type: rom.rom_type,
                mmc1_rom_type: rom.rom_type,
                ..old(self)@
            }),
    {
        self.prg_rom = rom.prg_rom.clone();
        self.chr_rom = rom.chr_rom.clone();
        self.is_chr_ram = rom.is_chr_ram;
        self.is_prg_ram = rom.is_prg_ram;
        self.mapper = rom.mapper;
        self.rom_type = rom.rom_type;
        self.mmc_1.rom_type = rom.rom_type;
    }

    fn mapper_1_write(&mut self, addr: u16, data: u8)
        requires
            mapper1_write_ok(old(self)@, addr, data),
        ensures
            final(self)@ == mapper1_write_next(old(self)@, addr, data),
    {
        if 0x6000 <= addr && addr <= 0x7FFF {
            self.ext_ram[(addr - 0x6000) as usize] = data;
        } else {
            let rom_type = self.rom_type;
            self.mmc_1.mapper_1.shift_reg_proc(addr, data, rom_type);
        }
    }

    fn mapper_4_write(&mut self, addr: u16, data: u8)
        requires
            mapper4_write_ok(old(self)@, addr),
        ensures
            final(self)@ == mapper4_write_next(old(self)@, addr, data),
    {
        if addr <= 0x1FFF {
            self.chr_ram[addr as usize] = data;
        } else if 0x6000 <= addr && addr <= 0x7FFF {
            if self.mmc_3.mapper_4.prg_ram_cs && !self.mmc_3.mapper_4.prg_ram_wp {
                self.ext_ram[(addr - 0x6000) as usize] = data;
            }
        } else {
            self.mmc_3.mapper_4.register_write(addr, data);
        }
    }

    /// A write on an MMC1 board; only mapper 1 is served.
    pub fn mmc_1_write(&mut self, addr: u16, data: u8)
        requires
            old(self)@.mapper == 1,
            mapper1_write_ok(old(self)@, addr, data),
        ensures
            final(self)@ == mapper1_write_next(old(self)@, addr, data),
    {
        self.mapper_1_write(addr, data)
    }

    /// A write on an MMC3 board; only mapper 4 is served.
    pub fn mmc_3_write(&mut self, addr: u16, data: u8)
        requires
            old(self)@.mapper == 4,
            mapper4_write_ok(old(self)@, addr),
        ensures
            final(self)@ == mapper4_write_next(old(self)@, addr, data),
    {
        self.mapper_4_write(addr, data)
    }

    /// A CPU write to the cartridge.
    pub fn write(&mut self, addr: u16, data: u8)
        requires
            mapper_write_ok(old(self)@, addr, data),
        ensures
            final(self)@ == mapper_write_next(old(self)@, addr, data),
    {
        if self.mapper == 1 {
            self.mmc_1_write(addr, data)
        } else if self.mapper == 4 {
            self.mmc_3_write(addr, data)
        } else {
            self.bank_select = data
        }
    }

    fn mapper_1_read(&self, addr: u16) -> (r: u8)
        requires
            mapper1_read_ok(self@, addr),
        ensures
            r == mapper1_read(self@, addr),
    {
        proof {
            use_type_invariant(&self.mmc_1.mapper_1);
        }
        let (bank_len, _bank_addr, bank_ops) = self.mmc_1.mapper_1.prg_bank_mode;
        let mut first_bank_len: u16 = _MEM_SIZE_16K;
        let mut last_bank_len: u16 = _MEM_SIZE_16K;
        if bank_ops == FIX_LAST_BANK {
            first_bank_len = bank_len;
        } else if bank_ops == FIX_FIRST_BANK {
            last_bank_len = bank_len;
        } else {
            first_bank_len = bank_len;
            last_bank_len = bank_len;
        }
        let bank_max = self.prg_rom.len() / (bank_len as usize);

        if 0x6000 <= addr && addr <= 0x7FFF {
            self.ext_ram[(addr - 0x6000) as usize]
        } else if addr <= 0xBFFF {
            let bank = self.mmc_1.mapper_1.prg_bank;
            self.prg_rom[addr as usize - 0x8000 + (first_bank_len as usize) * bank as usize]
        } else {
            proof {
                vstd::arithmetic::div_mod::lemma_div_is_ordered(
                    bank_len as int,
                    self.prg_rom.len() as int,
                    bank_len as int,
                );
                vstd::arithmetic::div_mod::lemma_fundamental_div_mod(
                    self.prg_rom.len() as int,
                    bank_len as int,
                );
                vstd::arithmetic::mul::lemma_mul_inequality(
                    (bank_max - 1) as int,
                    bank_max as int,
                    last_bank_len as int,
                );
            }
            self.prg_rom[addr as usize - 0xC000 + (last_bank_len as usize) * (bank_max - 1)]
        }
    }

    fn mmc_2_read(&self, addr: u16) -> (r: u8)
        requires
            mmc2_read_ok(self@, addr),
        ensures
            r == mmc2_read(self@, addr),
    {
        let bank_len = _MEM_SIZE_16K as usize;
        let bank_max = self.prg_rom.len() / bank_len;
        if 0x6000 <= addr && addr <= 0x7FFF {
            self.ext_ram[(addr - 0x6000) as usize]
        } else if addr <= 0xBFFF {
            let bs = self.bank_select;
            let bank = bs & 0x0F;
            proof {
                lemma_low_nibble(bs);
            }
            self.prg_rom[addr as usize - 0x8000 + bank_len * bank as usize]
        } else {
            self.prg_rom[addr as usize - 0xC000 + bank_len * (bank_max - 1)]
        }
    }

    fn mapper_4_chr_rom_addr(&self, addr: usize) -> (r: usize)
        ensures
            r == mapper4_chr_index(self@, addr as int),
    {
        proof {
            use_type_invariant(&self.mmc_3.mapper_4);
        }
        let (inv, _) = self.mmc_3.mapper_4.chr_a12_inv_mode;
        let bank_len: usize = 1 * 1024;
        let r0: usize = (self.mmc_3.mapper_4.bank_data_reg[0] & 0xFE) as usize;
        let r1: usize = (self.mmc_3.mapper_4.bank_data_reg[1] & 0xFE) as usize;
        let r2: usize = (self.mmc_3.mapper_4.bank_data_reg[2] & 0xFF) as usize;
        let r3: usize = (self.mmc_3.mapper_4.bank_data_reg[3] & 0xFF) as usize;
        let r4: usize = (self.mmc_3.mapper_4.bank_data_reg[4] & 0xFF) as usize;
        let r5: usize = (self.mmc_3.mapper_4.bank_data_reg[5] & 0xFF) as usize;
        assert(forall|b: u8| b & 0xFF == b) by (bit_vector);

        if inv != FOUR_1KB_BANK {
            if addr <= 0x07FF {
                addr - (bank_len * 0) + r0 * bank_len
            } else if addr <= 0x0FFF {
                addr - (bank_len * 2) + r1 * bank_len
            } else if addr <= 0x13FF {
                addr - (bank_len * 4) + r2 * bank_len
            } else if addr <= 0x17FF {
                addr - (bank_len * 5) + r3 * bank_len
            } else if addr <= 0x1BFF {
                addr - (bank_len * 6) + r4 * bank_len
            } else if addr <= 0x1FFF {
                addr - (bank_len * 7) + r5 * bank_len
            } else {
                0
            }
        } else {
            if addr <= 0x03FF {
                addr - (bank_len * 0) + r2 * bank_len
            } else if addr <= 0x07FF {
                addr - (bank_len * 1) + r3 * bank_len
            } else if addr <= 0x0BFF {
                addr - (bank_len * 2) + r4 * bank_len
            } else if addr <= 0x0FFF {
                addr - (bank_len * 3) + r5 * bank_len
            } else if addr <= 0x17FF {
                addr - (bank_len * 4) + r0 * bank_len
            } else if addr <= 0x1FFF {
                addr - (bank_len * 6) + r1 * bank_len
            } else {
                0
            }
        }
    }

    fn mapper_4_read(&self, addr: u16) -> (r: u8)
        requires
            mapper4_read_ok(self@, addr),
        ensures
            r == mapper4_read(self@, addr),
    {
        proof {
            use_type_invariant(&self.mmc_3.mapper_4);
        }
        let bank_len: usize = 8 * 1024;
        let bank_max: usize = self.prg_rom.len() / bank_len;
        let ppu_addr: usize = self.mapper_4_chr_rom_addr(addr as usize);
        proof {
            lemma_banks_fit(self.prg_rom.len() as int, bank_len as int);
        }
        let swapped = self.mmc_3.mapper_4.prg_bank_mode.0 == BANK_VARIABLE;

        if addr <= 0x1FFF {
            self.chr_rom[ppu_addr]
        } else if 0x6000 <= addr && addr <= 0x7FFF {
            let mut val: u8 = 0;
            if self.mmc_3.mapper_4.prg_ram_cs {
                val = self.ext_ram[(addr - 0x6000) as usize];
            }
            val
        } else if addr <= 0x9FFF {
            if !swapped {
                let bank = self.mmc_3.mapper_4.bank_data_reg[6];
                self.prg_rom[(addr as usize - 0x8000) + bank_len * bank as usize]
            } else {
                self.prg_rom[(addr as usize - 0x8000) + (bank_max - 2) * bank_len]
            }
        } else if addr <= 0xBFFF {
            let bank = self.mmc_3.mapper_4.bank_data_reg[7];
            self.prg_rom[(addr as usize - 0x8000 - bank_len) + bank_len * bank as usize]
        } else if addr <= 0xDFFF {
            if !swapped {
                self.prg_rom[(addr as usize - 0x8000 - (bank_len * 2)) + (bank_max - 2) * bank_len]
            } else {
                let bank = self.mmc_3.mapper_4.bank_data_reg[6];
                self.prg_rom[(addr as usize - 0x8000 - (bank_len * 2)) + bank_len * bank as usize]
            }
        } else {
            self.prg_rom[(addr as usize - 0x8000 - (bank_len * 3)) + (bank_max - 1) * bank_len]
        }
    }

    fn mapper_3_read(&self, addr: u16) -> (r: u8)
        requires
            mapper3_read_ok(self@, addr),
        ensures
            r == mapper3_read(self@, addr),
    {
        let bank_len = _MEM_SIZE_8K as usize;
        if addr <= 0x1FFF {
            let bs = self.bank_select;
            let bank = bs & 0x0F;
            proof {
                lemma_low_nibble(bs);
            }
            self.chr_rom[addr as usize + bank_len * bank as usize]
        } else {
            self.prg_rom[(addr - 0x8000) as usize]
        }
    }

    fn mmc_1_read(&self, addr: u16) -> (r: u8)
        requires
            self@.mapper == 1,
            mapper1_read_ok(self@, addr),
        ensures
            r == mapper1_read(self@, addr),
    {
        self.mapper_1_read(addr)
    }

    fn mmc_3_read(&self, addr: u16) -> (r: u8)
        requires
            self@.mapper == 4,
            mapper4_read_ok(self@, addr),
        ensures
            r == mapper4_read(self@, addr),
    {
        self.mapper_4_read(addr)
    }

    /// A CPU read from the cartridge, through the banks of its board.
    pub fn read_prg_rom(&mut self, addr: u16) -> (r: u8)
        requires
            prg_read_ok(old(self)@, addr),
        ensures
            r == prg_read(old(self)@, addr),
            final(self)@ == old(self)@,
    {
        let m = self.mapper;
        if m == 0 || m == 2 {
            self.mmc_2_read(addr)
        } else if m == 1 {
            self.mmc_1_read(addr)
        } else if m == 3 {
            self.mapper_3_read(addr)
        } else {
            self.mmc_3_read(addr)
        }
    }

    /// A PPU read from the cartridge, through the banks of its board.
    pub fn read_chr_rom(&mut self, addr: u16) -> (r: u8)
        requires
            chr_read_ok(old(self)@, addr),
        ensures
            r == chr_read(old(self)@, addr),
            final(self)@ == old(self)@,
    {
        let m = self.mapper;
        if m == 1 {
            self.mmc_1_read(addr)
        } else if m == 3 {
            self.mapper_3_read(addr)
        } else {
            self.mmc_3_read(addr)
        }
    }

    /// The CHR-ROM index of a PPU address; 0 outside the pattern tables.
    /// Only MMC3 boards bank the pattern tables here.
    pub fn mirror_chr_rom_addr(&mut self, addr: usize) -> (r: usize)
        requires
            addr <= 0x1FFF ==> old(self)@.mapper == 4,
        ensures
            r == (if addr <= 0x1FFF {
                mapper4_chr_index(old(self)@, addr as int)
            } else {
                0
            }),
            final(self)@ == old(self)@,
    {
        if addr <= 0x1FFF {
            self.mapper_4_chr_rom_addr(addr)
        } else {
            0
        }
    }
}

} // verus!
