use vstd::prelude::*;

pub mod apu;
pub mod cpu;
pub mod flag;
pub mod instr;
pub mod interrupt;
pub mod joypad;
pub mod keyboard;
pub mod lcd;
pub mod opcode;
pub mod register;
pub mod utility;
