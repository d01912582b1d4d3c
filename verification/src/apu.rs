//! The register file of the audio processing unit ($4000-$4017).
use vstd::prelude::*;

verus! {

const APU_SQUARE_WAVE_1_CTRL_1_REG_ADDR: u16 = 0x4000;
const APU_SQUARE_WAVE_1_CTRL_2_REG_ADDR: u16 = 0x4001;
const APU_SQUARE_WAVE_1_FREQ_1_REG_ADDR: u16 = 0x4002;
const APU_SQUARE_WAVE_1_FREQ_2_REG_ADDR: u16 = 0x4003;
const APU_SQUARE_WAVE_2_CTRL_1_REG_ADDR: u16 = 0x4004;
const APU_SQUARE_WAVE_2_CTRL_2_REG_ADDR: u16 = 0x4005;
const APU_SQUARE_WAVE_2_FREQ_1_REG_ADDR: u16 = 0x4006;
const APU_SQUARE_WAVE_2_FREQ_2_REG_ADDR: u16 = 0x4007;
const APU_TRIANGLE_WAVE_CTRL_REG_ADDR: u16 = 0x4008;
const APU_TRIANGLE_WAVE_FREQ_1_REG_ADDR: u16 = 0x400A;
const APU_TRIANGLE_WAVE_FREQ_2_REG_ADDR: u16 = 0x400B;
const APU_NOISE_CTRL_REG_ADDR: u16 = 0x400C;
const APU_NOISE_FREQ_1_REG_ADDR: u16 = 0x400E;
const APU_NOISE_FREQ_2_REG_ADDR: u16 = 0x400F;
const APU_DMC_CTRL_1_REG_ADDR: u16 = 0x4010;
const APU_DMC_CTRL_2_REG_ADDR: u16 = 0x4011;
const APU_DMC_ADDR_REG_ADDR: u16 = 0x4012;
const APU_DMC_DATA_LENGTH_REG_ADDR: u16 = 0x4013;
const APU_SOUND_CTRL_REG_ADDR: u16 = 0x4015;
const APU_SOUND_FRAME_REG_ADDR: u16 = 0x4017;

pub const APU_REG_READ: u8 = 0x00;
pub const APU_REG_WRITE: u8 = 0x01;

/// The addresses that hold an APU register: $4000-$4008, $400A-$400C,
/// $400E-$4013, $4015 and $4017.
pub open spec fn is_apu_reg(addr: u16) -> bool {
    ||| 0x4000 <= addr <= 0x4008
    ||| 0x400A <= addr <= 0x400C
    ||| 0x400E <= addr <= 0x4013
    ||| addr == 0x4015
    ||| addr == 0x4017
}

/// The APU registers, all cleared on creation.
#[derive(Clone, Copy)]
pub struct APUReg {
    square_wave_1_ctrl_1_reg: u8,
    square_wave_1_ctrl_2_reg: u8,
    square_wave_1_freq_1_reg: u8,
    square_wave_1_freq_2_reg: u8,
    square_wave_2_ctrl_1_reg: u8,
    square_wave_2_ctrl_2_reg: u8,
    square_wave_2_freq_1_reg: u8,
    square_wave_2_freq_2_reg: u8,
    triangle_wave_ctrl_reg: u8,
    triangle_wave_freq_1_reg: u8,
    triangle_wave_freq_2_reg: u8,
    noise_ctrl_reg: u8,
    noise_freq_1_reg: u8,
    noise_freq_2_reg: u8,
    dmc_ctrl_1_reg: u8,
    dmc_ctrl_2_reg: u8,
    dmc_addr_reg: u8,
    dmc_data_length_reg: u8,
    sound_ctrl_reg: u8,
    sound_frame_reg: u8,
}

impl APUReg {
    spec fn reg(&self, addr: u16) -> u8 {
        if addr == 0x4000 {
            self.square_wave_1_ctrl_1_reg
        } else if addr == 0x4001 {
            self.square_wave_1_ctrl_2_reg
        } else if addr == 0x4002 {
            self.square_wave_1_freq_1_reg
        } else if addr == 0x4003 {
            self.square_wave_1_freq_2_reg
        } else if addr == 0x4004 {
            self.square_wave_2_ctrl_1_reg
        } else if addr == 0x4005 {
            self.square_wave_2_ctrl_2_reg
        } else if addr == 0x4006 {
            self.square_wave_2_freq_1_reg
        } else if addr == 0x4007 {
            self.square_wave_2_freq_2_reg
        } else if addr == 0x4008 {
            self.triangle_wave_ctrl_reg
        } else if addr == 0x400A {
            self.triangle_wave_freq_1_reg
        } else if addr == 0x400B {
            self.triangle_wave_freq_2_reg
        } else if addr == 0x400C {
            self.noise_ctrl_reg
        } else if addr == 0x400E {
            self.noise_freq_1_reg
        } else if addr == 0x400F {
            self.noise_freq_2_reg
        } else if addr == 0x4010 {
            self.dmc_ctrl_1_reg
        } else if addr == 0x4011 {
            self.dmc_ctrl_2_reg
        } else if addr == 0x4012 {
            self.dmc_addr_reg
        } else if addr == 0x4013 {
            self.dmc_data_length_reg
        } else if addr == 0x4015 {
            self.sound_ctrl_reg
        } else {
            self.sound_frame_reg
        }
    }
}

impl View for APUReg {
    /// The value of each register, by address.
    type V = Map<u16, u8>;

    closed spec fn view(&self) -> Map<u16, u8> {
        Map::new(|a: u16| is_apu_reg(a), |a: u16| self.reg(a))
    }
}

/// The register file with every register at zero.
pub open spec fn apu_cleared() -> Map<u16, u8> {
    Map::new(|a: u16| is_apu_reg(a), |a: u16| 0u8)
}

impl APUReg {
    pub fn new() -> (r: Self)
        ensures
            r@ == apu_cleared(),
    {
        let r = APUReg {
            square_wave_1_ctrl_1_reg: 0,
            square_wave_1_ctrl_2_reg: 0,
            square_wave_1_freq_1_reg: 0,
            square_wave_1_freq_2_reg: 0,
            square_wave_2_ctrl_1_reg: 0,
            square_wave_2_ctrl_2_reg: 0,
            square_wave_2_freq_1_reg: 0,
            square_wave_2_freq_2_reg: 0,
            triangle_wave_ctrl_reg: 0,
            triangle_wave_freq_1_reg: 0,
            triangle_wave_freq_2_reg: 0,
            noise_ctrl_reg: 0,
            noise_freq_1_reg: 0,
            noise_freq_2_reg: 0,
            dmc_ctrl_1_reg: 0,
            dmc_ctrl_2_reg: 0,
            dmc_addr_reg: 0,
            dmc_data_length_reg: 0,
            sound_ctrl_reg: 0,
            sound_frame_reg: 0,
        };
        assert(r@ =~= apu_cleared());
        r
    }

    fn apu_reg_read(&self, address: u16) -> (r: u8)
        requires
            is_apu_reg(address),
        ensures
            r == self@[address],
    {
        match address {
            APU_SQUARE_WAVE_1_CTRL_1_REG_ADDR => self.square_wave_1_ctrl_1_reg,
            APU_SQUARE_WAVE_1_CTRL_2_REG_ADDR => self.square_wave_1_ctrl_2_reg,
            APU_SQUARE_WAVE_1_FREQ_1_REG_ADDR => self.square_wave_1_freq_1_reg,
            APU_SQUARE_WAVE_1_FREQ_2_REG_ADDR => self.square_wave_1_freq_2_reg,
            APU_SQUARE_WAVE_2_CTRL_1_REG_ADDR => self.square_wave_2_ctrl_1_reg,
            APU_SQUARE_WAVE_2_CTRL_2_REG_ADDR => self.square_wave_2_ctrl_2_reg,
            APU_SQUARE_WAVE_2_FREQ_1_REG_ADDR => self.square_wave_2_freq_1_reg,
            APU_SQUARE_WAVE_2_FREQ_2_REG_ADDR => self.square_wave_2_freq_2_reg,
            APU_TRIANGLE_WAVE_CTRL_REG_ADDR => self.triangle_wave_ctrl_reg,
            APU_TRIANGLE_WAVE_FREQ_1_REG_ADDR => self.triangle_wave_freq_1_reg,
            APU_TRIANGLE_WAVE_FREQ_2_REG_ADDR => self.triangle_wave_freq_2_reg,
            APU_NOISE_CTRL_REG_ADDR => self.noise_ctrl_reg,
            APU_NOISE_FREQ_1_REG_ADDR => self.noise_freq_1_reg,
            APU_NOISE_FREQ_2_REG_ADDR => self.noise_freq_2_reg,
            APU_DMC_CTRL_1_REG_ADDR => self.dmc_ctrl_1_reg,
            APU_DMC_CTRL_2_REG_ADDR => self.dmc_ctrl_2_reg,
            APU_DMC_ADDR_REG_ADDR => self.dmc_addr_reg,
            APU_DMC_DATA_LENGTH_REG_ADDR => self.dmc_data_length_reg,
            APU_SOUND_CTRL_REG_ADDR => self.sound_ctrl_reg,
            _ => self.sound_frame_reg,
        }
    }

    fn apu_reg_write(&mut self, address: u16, data: u8)
        requires
            is_apu_reg(address),
        ensures
            final(self)@ == old(self)@.insert(address, data),
    {
        match address {
            APU_SQUARE_WAVE_1_CTRL_1_REG_ADDR => self.square_wave_1_ctrl_1_reg = data,
            APU_SQUARE_WAVE_1_CTRL_2_REG_ADDR => self.square_wave_1_ctrl_2_reg = data,
            APU_SQUARE_WAVE_1_FREQ_1_REG_ADDR => self.square_wave_1_freq_1_reg = data,
            APU_SQUARE_WAVE_1_FREQ_2_REG_ADDR => self.square_wave_1_freq_2_reg = data,
            APU_SQUARE_WAVE_2_CTRL_1_REG_ADDR => self.square_wave_2_ctrl_1_reg = data,
            APU_SQUARE_WAVE_2_CTRL_2_REG_ADDR => self.square_wave_2_ctrl_2_reg = data,
            APU_SQUARE_WAVE_2_FREQ_1_REG_ADDR => self.square_wave_2_freq_1_reg = data,
            APU_SQUARE_WAVE_2_FREQ_2_REG_ADDR => self.square_wave_2_freq_2_reg = data,
            APU_TRIANGLE_WAVE_CTRL_REG_ADDR => self.triangle_wave_ctrl_reg = data,
            APU_TRIANGLE_WAVE_FREQ_1_REG_ADDR => self.triangle_wave_freq_1_reg = data,
            APU_TRIANGLE_WAVE_FREQ_2_REG_ADDR => self.triangle_wave_freq_2_reg = data,
            APU_NOISE_CTRL_REG_ADDR => self.noise_ctrl_reg = data,
            APU_NOISE_FREQ_1_REG_ADDR => self.noise_freq_1_reg = data,
            APU_NOISE_FREQ_2_REG_ADDR => self.noise_freq_2_reg = data,
            APU_DMC_CTRL_1_REG_ADDR => self.dmc_ctrl_1_reg = data,
            APU_DMC_CTRL_2_REG_ADDR => self.dmc_ctrl_2_reg = data,
            APU_DMC_ADDR_REG_ADDR => self.dmc_addr_reg = data,
            APU_DMC_DATA_LENGTH_REG_ADDR => self.dmc_data_length_reg = data,
            APU_SOUND_CTRL_REG_ADDR => self.sound_ctrl_reg = data,
            _ => self.sound_frame_reg = data,
        }
        assert(self@ =~= old(self)@.insert(address, data));
    }

    /// Register access: `APU_REG_WRITE` stores `data` in the register and
    /// answers 0; any other `wr` reads the register.
    pub fn apu_reg_ctrl(&mut self, addr: u16, wr: u8, data: u8) -> (r: u8)
        requires
            is_apu_reg(addr),
        ensures
            wr == APU_REG_WRITE ==> r == 0 && final(self)@ == old(self)@.insert(addr, data),
            wr != APU_REG_WRITE ==> r == old(self)@[addr] && final(self)@ == old(self)@,
    {
        if wr == APU_REG_WRITE {
            self.apu_reg_write(addr, data);
            0
        } else {
            self.apu_reg_read(addr)
        }
    }
}

/// Resetting the APU changes nothing yet.
pub fn apu_reset() {
}

/// One step of the APU does nothing yet.
pub fn apu_main() {
}

/// Storing a value in a register and then asking for the register gives the
/// value back; the other registers keep theirs.
pub proof fn law_apu_read_after_write(regs: Map<u16, u8>, addr: u16, other: u16, data: u8)
    requires
        is_apu_reg(addr),
        other != addr,
    ensures
        regs.insert(addr, data)[addr] == data,
        regs.insert(addr, data)[other] == regs[other],
{
}

} // verus!
