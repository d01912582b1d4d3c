use vstd::prelude::*;

pub mod apu;
pub mod bus;
pub mod cassette;
pub mod common;
pub mod cpu;
pub mod cpu_laws;
pub mod cpu_model;
pub mod gamepad;
pub mod isa_laws;
pub mod mapper;
pub mod mapper_laws;
pub mod mem;
pub mod opcode;
pub mod ppu;
pub mod ppu_laws;
pub mod rom;
pub mod text;

verus! {

} // verus!
