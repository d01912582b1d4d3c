# nes_emulator

A NES emulator whose machine model is written in Verus and proved against
its contracts.

- `src/` is the verified library:
  - `cpu.rs`, `cpu_model.rs`: the 6502 core. Each instruction is an
    executable method whose contract is a function from CPU state to CPU
    state in `cpu_model.rs`; the trace line of an instruction is specified
    character by character.
  - `opcode.rs`: the instruction table and the dispatch of a table entry to
    the instruction it names.
  - `bus.rs`: the CPU's address space, cycle counter and interrupt lines.
  - `ppu.rs`: PPU registers, frame timing and the drawing of the background
    and the sprites into a frame buffer.
  - `mem.rs`: the memory map (work RAM, PPU and APU registers, cartridge
    memory) and sprite DMA.
  - `mapper.rs`: the cartridge boards (NROM, MMC1, UxROM, CNROM, MMC3).
  - `cassette.rs`, `rom.rs`: decoding of iNES images.
  - `apu.rs`, `gamepad.rs`: APU registers and the controller.
  - `cpu_laws.rs`, `ppu_laws.rs`, `mapper_laws.rs` and the `law_` proof
    functions elsewhere: properties that span several operations.
- `tests/` runs the library on concrete programs and images.
- `app/main.rs` is the program around it: it reads a ROM file, opens an SDL2
  window, maps the keyboard to the controller and runs the machine.
