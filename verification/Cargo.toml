[package]
name = "nes_emulator"
version = "0.1.0"
edition = "2021"
publish = false

[dependencies]
sdl2 = "0.35"
env_logger = "0.10"
log = "0.4"
