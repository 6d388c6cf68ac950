use vstd::prelude::*;
use crate::cpu::{Cpu, read_address};
use crate::flag::{Flag, flag_of, is_set};
use crate::register::Register;
use crate::instr::exec_supported;

verus! {

/// Branch conditions on the Z and C flags.
#[derive(Debug, Clone, Copy, PartialEq, Eq, Structural)]
pub enum Cond {
    NZ,
    Z,
    NC,
    C,
}

/// A decoded instruction with its immediate operand, if any.
#[derive(Debug, Clone, Copy, PartialEq, Eq, Structural)]
#[allow(non_camel_case_types)]
pub enum OpCode {
    ADD(Register, Register),
    ADD_d8(Register, u8),
    ADD_r8(Register, i8),
    ADD_C_d8(Register, u8),
    ADD_C(Register, Register),
    AND(Register),
    AND_d8(u8),
    BIT(u8, Register),
    CALL(u16),
    CALL_C(Cond, u16),
    CP(Register),
    CP_d8(u8),
    CPL,
    CCF,
    DEC(Register),
    DEC_F(Register),
    DI,
    EI,
    HALT,
    INC(Register),
    INC_F(Register),
    JP(u16),
    JP_HL,
    JP_C(Cond, u16),
    JR(i8),
    JR_C(Cond, i8),
    LD(Register, u8),
    LD_M(Register, u16),
    LD_R(Register, Register),
    LD_ADDR_SP(u16),
    LDHL_SP(i8),
    LD_SP_HL,
    NOP,
    OR(Register),
    OR_d8(u8),
    POP(Register),
    PUSH(Register),
    RET,
    RETI,
    RET_C(Cond),
    RES(u8, Register),
    RLC(Register),
    RLCA,
    RRC(Register),
    RRCA,
    RL(Register),
    RLA,
    RR(Register),
    RRA,
    DAA,
    SLA(Register),
    SRA(Register),
    SWAP(Register),
    SRL(Register),
    SCF,
    RST(u16),
    SET(u8, Register),
    STOP,
    SUB(Register),
    SUB_d8(u8),
    SUB_C(Register, Register),
    SUB_C_d8(Register, u8),
    XOR(Register),
    XOR_d8(u8),
}

/// The 8-register operand cycle: B, C, D, E, H, L, (HL), A.
pub open spec fn r8_of(i: int) -> Register {
    if i == 0 {
        Register::B
    } else if i == 1 {
        Register::C
    } else if i == 2 {
        Register::D
    } else if i == 3 {
        Register::E
    } else if i == 4 {
        Register::H
    } else if i == 5 {
        Register::L
    } else if i == 6 {
        Register::HL_ADDR
    } else {
        Register::A
    }
}

/// Register pairs as 16-bit loads and arithmetic name them: BC, DE, HL, SP.
pub open spec fn r16_of(i: int) -> Register {
    if i == 0 {
        Register::BC
    } else if i == 1 {
        Register::DE
    } else if i == 2 {
        Register::HL
    } else {
        Register::SP
    }
}

/// Register pairs as PUSH and POP name them: BC, DE, HL, AF.
pub open spec fn r16_stack_of(i: int) -> Register {
    if i == 3 {
        Register::AF
    } else {
        r16_of(i)
    }
}

pub open spec fn cond_of(i: int) -> Cond {
    if i == 0 {
        Cond::NZ
    } else if i == 1 {
        Cond::Z
    } else if i == 2 {
        Cond::NC
    } else {
        Cond::C
    }
}

/// The opcodes that the instruction set leaves undefined.
pub open spec fn is_undefined_opcode(b: u8) -> bool {
    b == 0xD3 || b == 0xDB || b == 0xDD || b == 0xE3 || b == 0xE4 || b == 0xEB || b == 0xEC
        || b == 0xED || b == 0xF4 || b == 0xFC || b == 0xFD
}

/// The 0xCB-prefixed instruction with second byte `b`: length 2; operations
/// on (HL) take 16 cycles, the others 8.
pub open spec fn decode_cb(b: u8) -> (usize, OpCode, usize) {
    let x = b as int / 64;
    let y = (b as int / 8) % 8;
    let reg = r8_of(b as int % 8);
    let op = if x == 0 {
        if y == 0 {
            OpCode::RLC(reg)
        } else if y == 1 {
            OpCode::RRC(reg)
        } else if y == 2 {
            OpCode::RL(reg)
        } else if y == 3 {
            OpCode::RR(reg)
        } else if y == 4 {
            OpCode::SLA(reg)
        } else if y == 5 {
            OpCode::SRA(reg)
        } else if y == 6 {
            OpCode::SWAP(reg)
        } else {
            OpCode::SRL(reg)
        }
    } else if x == 1 {
        OpCode::BIT(y as u8, reg)
    } else if x == 2 {
        OpCode::RES(y as u8, reg)
    } else {
        OpCode::SET(y as u8, reg)
    };
    (2, op, if b % 8 == 6 { 16 } else { 8 })
}

/// Block 0x00-0x3F: loads, 16-bit arithmetic, increments, relative jumps
/// and the accumulator rotations.
pub open spec fn decode_block0(b: u8, d8: u8, d16: u16) -> (usize, OpCode, usize) {
    let y = (b as int / 8) % 8;
    let z = b as int % 8;
    let p = y / 2;
    let r8 = d8 as i8;
    let mem_cost: usize = if y == 6 { 12 } else { 4 };
    if z == 0 {
        if y == 0 {
            (1, OpCode::NOP, 4)
        } else if y == 1 {
            (3, OpCode::LD_ADDR_SP(d16), 20)
        } else if y == 2 {
            (2, OpCode::STOP, 4)
        } else if y == 3 {
            (2, OpCode::JR(r8), 12)
        } else {
            (2, OpCode::JR_C(cond_of(y - 4), r8), 8)
        }
    } else if z == 1 {
        if y % 2 == 0 {
            (3, OpCode::LD_M(r16_of(p), d16), 12)
        } else {
            (1, OpCode::ADD(Register::HL, r16_of(p)), 8)
        }
    } else if z == 2 {
        let mem = if p == 0 {
            Register::BC_ADDR
        } else if p == 1 {
            Register::DE_ADDR
        } else if p == 2 {
            Register::HLP
        } else {
            Register::HLM
        };
        if y % 2 == 0 {
            (1, OpCode::LD_R(mem, Register::A), 8)
        } else {
            (1, OpCode::LD_R(Register::A, mem), 8)
        }
    } else if z == 3 {
        if y % 2 == 0 {
            (1, OpCode::INC(r16_of(p)), 8)
        } else {
            (1, OpCode::DEC(r16_of(p)), 8)
        }
    } else if z == 4 {
        (1, OpCode::INC_F(r8_of(y)), mem_cost)
    } else if z == 5 {
        (1, OpCode::DEC_F(r8_of(y)), mem_cost)
    } else if z == 6 {
        (2, OpCode::LD(r8_of(y), d8), if y == 6 { 12 } else { 8 })
    } else {
        let op = if y == 0 {
            OpCode::RLCA
        } else if y == 1 {
            OpCode::RRCA
        } else if y == 2 {
            OpCode::RLA
        } else if y == 3 {
            OpCode::RRA
        } else if y == 4 {
            OpCode::DAA
        } else if y == 5 {
            OpCode::CPL
        } else if y == 6 {
            OpCode::SCF
        } else {
            OpCode::CCF
        };
        (1, op, 4)
    }
}

/// Block 0x40-0xBF: register-to-register loads (0x76 is HALT, of length 0
/// so that the address stays on it) and the eight ALU operations on A.
pub open spec fn decode_block12(b: u8) -> (usize, OpCode, usize) {
    let y = (b as int / 8) % 8;
    let z = b as int % 8;
    let cost: usize = if y == 6 || z == 6 { 8 } else { 4 };
    let src = r8_of(z);
    if b == 0x76 {
        (0, OpCode::HALT, 4)
    } else if b < 0x80 {
        (1, OpCode::LD_R(r8_of(y), src), cost)
    } else {
        let cost: usize = if z == 6 { 8 } else { 4 };
        let op = if y == 0 {
            OpCode::ADD(Register::A, src)
        } else if y == 1 {
            OpCode::ADD_C(Register::A, src)
        } else if y == 2 {
            OpCode::SUB(src)
        } else if y == 3 {
            OpCode::SUB_C(Register::A, src)
        } else if y == 4 {
            OpCode::AND(src)
        } else if y == 5 {
            OpCode::XOR(src)
        } else if y == 6 {
            OpCode::OR(src)
        } else {
            OpCode::CP(src)
        };
        (1, op, cost)
    }
}

/// Block 0xC0-0xFF: returns, jumps, calls, stack operations, immediate ALU
/// operations, high-page loads and restarts.
pub open spec fn decode_block3(b: u8, d8: u8, d16: u16) -> (usize, OpCode, usize) {
    let y = (b as int / 8) % 8;
    let z = b as int % 8;
    let p = y / 2;
    let r8 = d8 as i8;
    let high = Register::ADDR((0xFF00 + d8 as int) as u16);
    if z == 0 {
        if y < 4 {
            (1, OpCode::RET_C(cond_of(y)), 8)
        } else if y == 4 {
            (2, OpCode::LD_R(high, Register::A), 12)
        } else if y == 5 {
            (2, OpCode::ADD_r8(Register::SP, r8), 16)
        } else if y == 6 {
            (2, OpCode::LD_R(Register::A, high), 12)
        } else {
            (2, OpCode::LDHL_SP(r8), 12)
        }
    } else if z == 1 {
        if y % 2 == 0 {
            (1, OpCode::POP(r16_stack_of(p)), 12)
        } else if p == 0 {
            (1, OpCode::RET, 16)
        } else if p == 1 {
            (1, OpCode::RETI, 16)
        } else if p == 2 {
            (1, OpCode::JP_HL, 4)
        } else {
            (1, OpCode::LD_SP_HL, 8)
        }
    } else if z == 2 {
        if y < 4 {
            (3, OpCode::JP_C(cond_of(y), d16), 12)
        } else if y == 4 {
            (1, OpCode::LD_R(Register::CH, Register::A), 8)
        } else if y == 5 {
            (3, OpCode::LD_R(Register::ADDR(d16), Register::A), 16)
        } else if y == 6 {
            (1, OpCode::LD_R(Register::A, Register::CH), 8)
        } else {
            (3, OpCode::LD_R(Register::A, Register::ADDR(d16)), 16)
        }
    } else if z == 3 {
        if y == 0 {
            (3, OpCode::JP(d16), 16)
        } else if y == 6 {
            (1, OpCode::DI, 4)
        } else {
            (1, OpCode::EI, 4)
        }
    } else if z == 4 {
        (3, OpCode::CALL_C(cond_of(y), d16), 12)
    } else if z == 5 {
        if y % 2 == 0 {
            (1, OpCode::PUSH(r16_stack_of(p)), 16)
        } else {
            (3, OpCode::CALL(d16), 24)
        }
    } else if z == 6 {
        let op = if y == 0 {
            OpCode::ADD_d8(Register::A, d8)
        } else if y == 1 {
            OpCode::ADD_C_d8(Register::A, d8)
        } else if y == 2 {
            OpCode::SUB_d8(d8)
        } else if y == 3 {
            OpCode::SUB_C_d8(Register::A, d8)
        } else if y == 4 {
            OpCode::AND_d8(d8)
        } else if y == 5 {
            OpCode::XOR_d8(d8)
        } else if y == 6 {
            OpCode::OR_d8(d8)
        } else {
            OpCode::CP_d8(d8)
        };
        (2, op, 8)
    } else {
        (1, OpCode::RST((y * 8) as u16), 16)
    }
}

/// `(length, instruction, cycles)` for the bytes `b0 b1 b2` at the program
/// counter; conditional branches report the cycles of the branch not taken.
pub open spec fn decode(b0: u8, b1: u8, b2: u8) -> (usize, OpCode, usize) {
    let d16 = (b1 as int + 256 * b2 as int) as u16;
    if b0 == 0xCB {
        decode_cb(b1)
    } else if b0 < 0x40 {
        decode_block0(b0, b1, d16)
    } else if b0 < 0xC0 {
        decode_block12(b0)
    } else {
        decode_block3(b0, b1, d16)
    }
}

/// Whether `b` is the first byte of an instruction.
pub fn opcode_is_defined(b: u8) -> (r: bool)
    ensures
        r == !is_undefined_opcode(b),
{
    !(b == 0xD3 || b == 0xDB || b == 0xDD || b == 0xE3 || b == 0xE4 || b == 0xEB || b == 0xEC
        || b == 0xED || b == 0xF4 || b == 0xFC || b == 0xFD)
}

fn lookup_mod_register(b: u8) -> (r: Register)
    ensures
        r == r8_of(b as int % 8),
{
    let i = b % 8;
    if i == 0 {
        Register::B
    } else if i == 1 {
        Register::C
    } else if i == 2 {
        Register::D
    } else if i == 3 {
        Register::E
    } else if i == 4 {
        Register::H
    } else if i == 5 {
        Register::L
    } else if i == 6 {
        Register::HL_ADDR
    } else {
        Register::A
    }
}

fn lookup_mod_mult(b: u8) -> (r: usize)
    ensures
        r == if b as int % 8 == 6 { 2int } else { 1int },
{
    if (b % 8) == 6 {
        2
    } else {
        1
    }
}

fn lookup_r16(i: u8) -> (r: Register)
    requires
        i < 4,
    ensures
        r == r16_of(i as int),
{
    if i == 0 {
        Register::BC
    } else if i == 1 {
        Register::DE
    } else if i == 2 {
        Register::HL
    } else {
        Register::SP
    }
}

fn lookup_r16_stack(i: u8) -> (r: Register)
    requires
        i < 4,
    ensures
        r == r16_stack_of(i as int),
{
    if i == 3 {
        Register::AF
    } else {
        lookup_r16(i)
    }
}

fn lookup_cond(i: u8) -> (r: Cond)
    requires
        i < 4,
    ensures
        r == cond_of(i as int),
{
    if i == 0 {
        Cond::NZ
    } else if i == 1 {
        Cond::Z
    } else if i == 2 {
        Cond::NC
    } else {
        Cond::C
    }
}

fn read_u8_arg(idx: usize, cpu: &Cpu) -> (r: u8)
    requires
        cpu@.wf(),
        idx < 0x10000,
    ensures
        r == cpu@.read_spec((idx as int + 1) % 0x10000),
{
    read_address((idx + 1) % 0x10000, cpu)
}

fn get_cb(b: u8) -> (r: (usize, OpCode, usize))
    ensures
        r == decode_cb(b),
{
    let reg = lookup_mod_register(b);
    let mult = lookup_mod_mult(b);
    let x = b / 64;
    let y = (b / 8) % 8;
    let op = if x == 0 {
        if y == 0 {
            OpCode::RLC(reg)
        } else if y == 1 {
            OpCode::RRC(reg)
        } else if y == 2 {
            OpCode::RL(reg)
        } else if y == 3 {
            OpCode::RR(reg)
        } else if y == 4 {
            OpCode::SLA(reg)
        } else if y == 5 {
            OpCode::SRA(reg)
        } else if y == 6 {
            OpCode::SWAP(reg)
        } else {
            OpCode::SRL(reg)
        }
    } else if x == 1 {
        OpCode::BIT(y, reg)
    } else if x == 2 {
        OpCode::RES(y, reg)
    } else {
        OpCode::SET(y, reg)
    };
    (2, op, 8 * mult)
}

fn decode_block0_exec(b: u8, d8: u8, d16: u16) -> (r: (usize, OpCode, usize))
    requires
        b < 0x40,
    ensures
        r == decode_block0(b, d8, d16),
{
    let y = (b / 8) % 8;
    let z = b % 8;
    let p = y / 2;
    let r8 = d8 as i8;
    let mem_cost: usize = if y == 6 {
        12
    } else {
        4
    };
    if z == 0 {
        if y == 0 {
            (1, OpCode::NOP, 4)
        } else if y == 1 {
            (3, OpCode::LD_ADDR_SP(d16), 20)
        } else if y == 2 {
            (2, OpCode::STOP, 4)
        } else if y == 3 {
            (2, OpCode::JR(r8), 12)
        } else {
            (2, OpCode::JR_C(lookup_cond(y - 4), r8), 8)
        }
    } else if z == 1 {
        if y % 2 == 0 {
            (3, OpCode::LD_M(lookup_r16(p), d16), 12)
        } else {
            (1, OpCode::ADD(Register::HL, lookup_r16(p)), 8)
        }
    } else if z == 2 {
        let mem = if p == 0 {
            Register::BC_ADDR
        } else if p == 1 {
            Register::DE_ADDR
        } else if p == 2 {
            Register::HLP
        } else {
            Register::HLM
        };
        if y % 2 == 0 {
            (1, OpCode::LD_R(mem, Register::A), 8)
        } else {
            (1, OpCode::LD_R(Register::A, mem), 8)
        }
    } else if z == 3 {
        if y % 2 == 0 {
            (1, OpCode::INC(lookup_r16(p)), 8)
        } else {
            (1, OpCode::DEC(lookup_r16(p)), 8)
        }
    } else if z == 4 {
        (1, OpCode::INC_F(lookup_mod_register(y)), mem_cost)
    } else if z == 5 {
        (1, OpCode::DEC_F(lookup_mod_register(y)), mem_cost)
    } else if z == 6 {
        (
            2,
            OpCode::LD(lookup_mod_register(y), d8),
            if y == 6 {
                12
            } else {
                8
            },
        )
    } else {
        let op = if y == 0 {
            OpCode::RLCA
        } else if y == 1 {
            OpCode::RRCA
        } else if y == 2 {
            OpCode::RLA
        } else if y == 3 {
            OpCode::RRA
        } else if y == 4 {
            OpCode::DAA
        } else if y == 5 {
            OpCode::CPL
        } else if y == 6 {
            OpCode::SCF
        } else {
            OpCode::CCF
        };
        (1, op, 4)
    }
}

fn decode_block12_exec(b: u8) -> (r: (usize, OpCode, usize))
    requires
        0x40 <= b < 0xC0,
    ensures
        r == decode_block12(b),
{
    let y = (b / 8) % 8;
    let z = b % 8;
    let src = lookup_mod_register(b);
    if b == 0x76 {
        (0, OpCode::HALT, 4)
    } else if b < 0x80 {
        let cost: usize = if y == 6 || z == 6 {
            8
        } else {
            4
        };
        (1, OpCode::LD_R(lookup_mod_register(y), src), cost)
    } else {
        let cost: usize = if z == 6 {
            8
        } else {
            4
        };
        let op = if y == 0 {
            OpCode::ADD(Register::A, src)
        } else if y == 1 {
            OpCode::ADD_C(Register::A, src)
        } else if y == 2 {
            OpCode::SUB(src)
        } else if y == 3 {
            OpCode::SUB_C(Register::A, src)
        } else if y == 4 {
            OpCode::AND(src)
        } else if y == 5 {
            OpCode::XOR(src)
        } else if y == 6 {
            OpCode::OR(src)
        } else {
            OpCode::CP(src)
        };
        (1, op, cost)
    }
}

fn decode_block3_exec(b: u8, d8: u8, d16: u16) -> (r: (usize, OpCode, usize))
    requires
        0xC0 <= b,
        b != 0xCB,
        !is_undefined_opcode(b),
    ensures
        r == decode_block3(b, d8, d16),
{
    let y = (b / 8) % 8;
    let z = b % 8;
    let p = y / 2;
    let r8 = d8 as i8;
    let high = Register::ADDR(0xFF00 + d8 as u16);
    if z == 0 {
        if y < 4 {
            (1, OpCode::RET_C(lookup_cond(y)), 8)
        } else if y == 4 {
            (2, OpCode::LD_R(high, Register::A), 12)
        } else if y == 5 {
            (2, OpCode::ADD_r8(Register::SP, r8), 16)
        } else if y == 6 {
            (2, OpCode::LD_R(Register::A, high), 12)
        } else {
            (2, OpCode::LDHL_SP(r8), 12)
        }
    } else if z == 1 {
        if y % 2 == 0 {
            (1, OpCode::POP(lookup_r16_stack(p)), 12)
        } else if p == 0 {
            (1, OpCode::RET, 16)
        } else if p == 1 {
            (1, OpCode::RETI, 16)
        } else if p == 2 {
            (1, OpCode::JP_HL, 4)
        } else {
            (1, OpCode::LD_SP_HL, 8)
        }
    } else if z == 2 {
        if y < 4 {
            (3, OpCode::JP_C(lookup_cond(y), d16), 12)
        } else if y == 4 {
            (1, OpCode::LD_R(Register::CH, Register::A), 8)
        } else if y == 5 {
            (3, OpCode::LD_R(Register::ADDR(d16), Register::A), 16)
        } else if y == 6 {
            (1, OpCode::LD_R(Register::A, Register::CH), 8)
        } else {
            (3, OpCode::LD_R(Register::A, Register::ADDR(d16)), 16)
        }
    } else if z == 3 {
        if y == 0 {
            (3, OpCode::JP(d16), 16)
        } else if y == 6 {
            (1, OpCode::DI, 4)
        } else {
            (1, OpCode::EI, 4)
        }
    } else if z == 4 {
        (3, OpCode::CALL_C(lookup_cond(y), d16), 12)
    } else if z == 5 {
        if y % 2 == 0 {
            (1, OpCode::PUSH(lookup_r16_stack(p)), 16)
        } else {
            (3, OpCode::CALL(d16), 24)
        }
    } else if z == 6 {
        let op = if y == 0 {
            OpCode::ADD_d8(Register::A, d8)
        } else if y == 1 {
            OpCode::ADD_C_d8(Register::A, d8)
        } else if y == 2 {
            OpCode::SUB_d8(d8)
        } else if y == 3 {
            OpCode::SUB_C_d8(Register::A, d8)
        } else if y == 4 {
            OpCode::AND_d8(d8)
        } else if y == 5 {
            OpCode::XOR_d8(d8)
        } else if y == 6 {
            OpCode::OR_d8(d8)
        } else {
            OpCode::CP_d8(d8)
        };
        (2, op, 8)
    } else {
        (1, OpCode::RST((y as u16) * 8), 16)
    }
}

/// Decodes the instruction at `start`: its length in bytes, the instruction,
/// and its cycles (not taken, for a conditional branch). Operand bytes are
/// read through the raw bus and the address wraps at 64KB.
pub fn lookup_op(start: usize, cpu: &Cpu) -> (r: (usize, OpCode, usize))
    requires
        cpu@.wf(),
        start < 0x10000,
        !is_undefined_opcode(cpu@.read_spec(start as int)),
    ensures
        r == decode(
            cpu@.read_spec(start as int),
            cpu@.read_spec((start as int + 1) % 0x10000),
            cpu@.read_spec((start as int + 2) % 0x10000),
        ),
        r.1 is STOP || exec_supported(r.1),
{
    let op_byte = read_address(start, cpu);
    let d8 = read_u8_arg(start, cpu);
    let hi = read_address((start + 2) % 0x10000, cpu);
    let d16: u16 = (d8 as u16) + 256 * (hi as u16);
    if op_byte == 0xCB {
        get_cb(d8)
    } else if op_byte < 0x40 {
        decode_block0_exec(op_byte, d8, d16)
    } else if op_byte < 0xC0 {
        decode_block12_exec(op_byte)
    } else {
        decode_block3_exec(op_byte, d8, d16)
    }
}

/// Whether a branch condition holds on the current flags.
pub fn test_cond(cond: Cond, cpu: &Cpu) -> (r: bool)
    ensures
        r == cond_holds(cond, cpu.f),
{
    match cond {
        Cond::Z => is_set(Flag::Z, cpu),
        Cond::NZ => !is_set(Flag::Z, cpu),
        Cond::C => is_set(Flag::C, cpu),
        Cond::NC => !is_set(Flag::C, cpu),
    }
}

pub open spec fn cond_holds(cond: Cond, f: u8) -> bool {
    match cond {
        Cond::Z => flag_of(f, Flag::Z),
        Cond::NZ => !flag_of(f, Flag::Z),
        Cond::C => flag_of(f, Flag::C),
        Cond::NC => !flag_of(f, Flag::C),
    }
}

} // verus!
