//! The CPU's view of the machine: a 64 KiB address space, a cycle counter and
//! the two interrupt lines.
use vstd::prelude::*;

verus! {

pub struct Bus {
    pub memory: [u8; 0x10000],
    pub cycles: usize,
    pub nmi_interrupt: Option<u8>,
    pub apu_irq: bool,
}

impl Bus {
    /// A bus with all memory cleared and no interrupt pending.
    pub fn new() -> (r: Bus)
        ensures
            forall|i: int| 0 <= i < 0x10000 ==> r.memory@[i] == 0,
            r.cycles == 0,
            r.nmi_interrupt is None,
            !r.apu_irq,
    {
        Bus { memory: [0u8; 0x10000], cycles: 0, nmi_interrupt: None, apu_irq: false }
    }

    pub fn mem_read(&self, addr: u16) -> (r: u8)
        ensures
            r == self.memory@[addr as int],
    {
        self.memory[addr as usize]
    }

    pub fn mem_write(&mut self, addr: u16, data: u8)
        ensures
            final(self).memory@ == old(self).memory@.update(addr as int, data),
            final(self).cycles == old(self).cycles,
            final(self).nmi_interrupt == old(self).nmi_interrupt,
            final(self).apu_irq == old(self).apu_irq,
    {
        self.memory[addr as usize] = data;
    }

    /// Puts the program ROM at $8000-$FFFF, repeated to fill the 32 KiB.
    pub fn map_prg_rom(&mut self, prg_rom: &Vec<u8>)
        requires
            prg_rom.len() > 0,
        ensures
            forall|a: int|
                0x8000 <= a < 0x10000 ==> final(self).memory@[a] == prg_rom@[(a - 0x8000)
                    % prg_rom.len() as int],
            forall|a: int| 0 <= a < 0x8000 ==> final(self).memory@[a] == old(self).memory@[a],
            final(self).cycles == old(self).cycles,
            final(self).nmi_interrupt == old(self).nmi_interrupt,
            final(self).apu_irq == old(self).apu_irq,
    {
        let n = prg_rom.len();
        let mut i: usize = 0;
        while i < 0x8000
            invariant
                i <= 0x8000,
                n == prg_rom.len(),
                n > 0,
                forall|a: int|
                    0x8000 <= a < 0x8000 + i ==> self.memory@[a] == prg_rom@[(a - 0x8000) % n as int],
                forall|a: int| 0 <= a < 0x8000 ==> self.memory@[a] == old(self).memory@[a],
                self.cycles == old(self).cycles,
                self.nmi_interrupt == old(self).nmi_interrupt,
                self.apu_irq == old(self).apu_irq,
            decreases 0x8000 - i,
        {
            self.memory[0x8000 + i] = prg_rom[i % n];
            i += 1;
        }
    }

    /// Counts `cycles` more cycles, wrapping at the width of `usize`.
    pub fn tick(&mut self, cycles: u8)
        ensures
            final(self).cycles == crate::cpu_model::add_usize(old(self).cycles, cycles as int),
            final(self).memory@ == old(self).memory@,
            final(self).nmi_interrupt == old(self).nmi_interrupt,
            final(self).apu_irq == old(self).apu_irq,
    {
        self.cycles = self.cycles.wrapping_add(cycles as usize);
    }

    /// Takes the pending NMI, if any.
    pub fn poll_nmi_status(&mut self) -> (r: Option<u8>)
        ensures
            r == old(self).nmi_interrupt,
            final(self).nmi_interrupt is None,
            final(self).memory@ == old(self).memory@,
            final(self).cycles == old(self).cycles,
            final(self).apu_irq == old(self).apu_irq,
    {
        self.nmi_interrupt.take()
    }

    pub fn poll_apu_irq(&self) -> (r: bool)
        ensures
            r == self.apu_irq,
    {
        self.apu_irq
    }
}

} // verus!
