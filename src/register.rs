use vstd::prelude::*;
use crate::cpu::{Cpu, CpuView, safe_read_address, safe_write_address, lemma_safe_write_wf};
use crate::utility::{offset_u16, wrapping_off_u16_i8};

verus! {

/// Operand locations: 8-bit registers, register pairs, and memory reached
/// through a register or an immediate address.
#[derive(Debug, Clone, Copy, PartialEq, Eq, Structural)]
#[allow(non_camel_case_types)]
pub enum Register {
    A,
    B,
    C,
    /// The byte at 0xFF00 + C.
    CH,
    D,
    E,
    F,
    H,
    L,
    AF,
    BC,
    BC_ADDR,
    DE_ADDR,
    DE,
    HL,
    HL_ADDR,
    /// The byte at HL, with HL incremented afterwards.
    HLP,
    /// The byte at HL, with HL decremented afterwards.
    HLM,
    ADDR(u16),
    SP,
    SP_OFF(i8),
    PC,
}

/// Locations that hold a byte.
pub open spec fn is_reg8(reg: Register) -> bool {
    match reg {
        Register::A | Register::B | Register::C | Register::D | Register::E | Register::F
        | Register::H | Register::L | Register::CH | Register::HL_ADDR | Register::BC_ADDR
        | Register::DE_ADDR | Register::ADDR(_) => true,
        _ => false,
    }
}

/// Locations that `read_register` reads (the bytes, and memory at SP + offset).
pub open spec fn is_readable8(reg: Register) -> bool {
    is_reg8(reg) || reg is SP_OFF
}

/// Register pairs and SP.
pub open spec fn is_reg16(reg: Register) -> bool {
    match reg {
        Register::AF | Register::BC | Register::DE | Register::HL | Register::SP => true,
        _ => false,
    }
}

/// Memory-backed locations.
pub open spec fn is_indirect(reg: Register) -> bool {
    match reg {
        Register::CH | Register::HL_ADDR | Register::BC_ADDR | Register::DE_ADDR
        | Register::ADDR(_) | Register::SP_OFF(_) => true,
        _ => false,
    }
}

pub open spec fn pair(hi: u8, lo: u8) -> u16 {
    (hi as int * 256 + lo as int) as u16
}

impl CpuView {
    pub open spec fn hl(self) -> u16 {
        pair(self.h, self.l)
    }

    /// The address a memory-backed location refers to.
    pub open spec fn reg_addr(self, reg: Register) -> int {
        match reg {
            Register::CH => 0xFF00 + self.c as int,
            Register::HL_ADDR => self.hl() as int,
            Register::BC_ADDR => pair(self.b, self.c) as int,
            Register::DE_ADDR => pair(self.d, self.e) as int,
            Register::ADDR(a) => a as int,
            Register::SP_OFF(o) => offset_u16(self.sp, o) as int,
            _ => 0,
        }
    }

    /// The byte at an 8-bit location.
    pub open spec fn reg8(self, reg: Register) -> u8 {
        match reg {
            Register::A => self.a,
            Register::B => self.b,
            Register::C => self.c,
            Register::D => self.d,
            Register::E => self.e,
            Register::F => self.f,
            Register::H => self.h,
            Register::L => self.l,
            _ => self.safe_read_spec(self.reg_addr(reg)),
        }
    }

    /// The word in a register pair.
    pub open spec fn reg16(self, reg: Register) -> u16 {
        match reg {
            Register::HL => self.hl(),
            Register::AF => pair(self.a, self.f),
            Register::BC => pair(self.b, self.c),
            Register::DE => pair(self.d, self.e),
            _ => self.sp,
        }
    }

    /// The machine after storing a byte at an 8-bit location; F keeps only
    /// its high nibble.
    pub open spec fn set_reg8(self, reg: Register, val: u8) -> CpuView {
        match reg {
            Register::A => CpuView { a: val, ..self },
            Register::B => CpuView { b: val, ..self },
            Register::C => CpuView { c: val, ..self },
            Register::D => CpuView { d: val, ..self },
            Register::E => CpuView { e: val, ..self },
            Register::F => CpuView { f: val & 0xF0, ..self },
            Register::H => CpuView { h: val, ..self },
            Register::L => CpuView { l: val, ..self },
            _ => self.safe_write_spec(self.reg_addr(reg), val),
        }
    }

    /// The machine after storing a word in a register pair.
    pub open spec fn set_reg16(self, reg: Register, val: u16) -> CpuView {
        let hi = (val / 256) as u8;
        let lo = (val % 256) as u8;
        match reg {
            Register::HL => CpuView { h: hi, l: lo, ..self },
            Register::AF => CpuView { a: hi, f: lo & 0xF0, ..self },
            Register::BC => CpuView { b: hi, c: lo, ..self },
            Register::DE => CpuView { d: hi, e: lo, ..self },
            _ => CpuView { sp: val, ..self },
        }
    }
}

proof fn lemma_high_nibble(x: u8)
    by (bit_vector)
    ensures
        (x & 0xF0) & 0x0F == 0,
{
}

fn reg_address(reg: Register, cpu: &Cpu) -> (r: usize)
    requires
        is_indirect(reg),
    ensures
        r == cpu@.reg_addr(reg),
        r < 0x10000,
{
    match reg {
        Register::CH => 0xFF00 + cpu.c as usize,
        Register::HL_ADDR => read_multi_register(Register::HL, cpu) as usize,
        Register::BC_ADDR => read_multi_register(Register::BC, cpu) as usize,
        Register::DE_ADDR => read_multi_register(Register::DE, cpu) as usize,
        Register::ADDR(addr) => addr as usize,
        Register::SP_OFF(offset) => wrapping_off_u16_i8(cpu.sp, offset) as usize,
        _ => 0,
    }
}

/// Reads an 8-bit location; memory goes through the CPU's read path.
pub fn read_register(reg: Register, cpu: &Cpu) -> (r: u8)
    requires
        cpu@.wf(),
        is_readable8(reg),
    ensures
        r == cpu@.reg8(reg),
{
    match reg {
        Register::A => cpu.a,
        Register::B => cpu.b,
        Register::C => cpu.c,
        Register::D => cpu.d,
        Register::E => cpu.e,
        Register::F => cpu.f,
        Register::H => cpu.h,
        Register::L => cpu.l,
        _ => safe_read_address(reg_address(reg, cpu), cpu),
    }
}

/// Reads a register pair or SP.
pub fn read_multi_register(reg: Register, cpu: &Cpu) -> (r: u16)
    requires
        is_reg16(reg),
    ensures
        r == cpu@.reg16(reg),
{
    match reg {
        Register::HL => (cpu.h as u16) * 256 + (cpu.l as u16),
        Register::AF => (cpu.a as u16) * 256 + (cpu.f as u16),
        Register::BC => (cpu.b as u16) * 256 + (cpu.c as u16),
        Register::DE => (cpu.d as u16) * 256 + (cpu.e as u16),
        _ => cpu.sp,
    }
}

/// Writes an 8-bit location; memory goes through the CPU's write path.
pub fn write_register(reg: Register, val: u8, cpu: &mut Cpu)
    requires
        old(cpu)@.wf(),
        is_reg8(reg),
    ensures
        final(cpu)@ == old(cpu)@.set_reg8(reg, val),
        final(cpu)@.wf(),
{
    match reg {
        Register::A => cpu.a = val,
        Register::B => cpu.b = val,
        Register::C => cpu.c = val,
        Register::D => cpu.d = val,
        Register::E => cpu.e = val,
        Register::F => {
            proof {
                lemma_high_nibble(val);
            }
            cpu.f = val & 0xF0
        },
        Register::H => cpu.h = val,
        Register::L => cpu.l = val,
        _ => {
            let address = reg_address(reg, cpu);
            safe_write_address(address, val, cpu)
        },
    }
}

/// Writes a register pair or SP; F keeps only its high nibble.
pub fn write_multi_register(reg: Register, val: u16, cpu: &mut Cpu)
    requires
        old(cpu)@.wf(),
        is_reg16(reg),
    ensures
        final(cpu)@ == old(cpu)@.set_reg16(reg, val),
        final(cpu)@.wf(),
{
    let (l_byte, r_byte) = ((val / 256) as u8, (val % 256) as u8);
    match reg {
        Register::HL => {
            cpu.h = l_byte;
            cpu.l = r_byte;
        },
        Register::AF => {
            proof {
                lemma_high_nibble(r_byte);
            }
            cpu.a = l_byte;
            cpu.f = r_byte & 0xF0;
        },
        Register::BC => {
            cpu.b = l_byte;
            cpu.c = r_byte;
        },
        Register::DE => {
            cpu.d = l_byte;
            cpu.e = r_byte;
        },
        _ => cpu.sp = val,
    };
}

} // verus!
