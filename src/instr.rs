use vstd::prelude::*;
use crate::cpu::{Cpu, CpuView, lemma_safe_write_regs};
use crate::flag::{self, Flag, FlagSetting, flag_of, flags_byte, with_flag, lemma_with_flag, lemma_flags_determine, lemma_flags_byte};
use crate::register::{Register, is_reg8, is_readable8, is_reg16, read_register, write_register, read_multi_register, write_multi_register};
use crate::cpu::{stack_push, stack_pop, safe_write_address};
use crate::opcode::{Cond, OpCode, cond_holds, test_cond};
use crate::utility::{offset_u16, wrapping_off_u16_i8};

verus! {

/// The machine with F holding exactly the given flags.
pub open spec fn with_flags(v: CpuView, z: bool, n: bool, h: bool, c: bool) -> CpuView {
    CpuView { f: flags_byte(z, n, h, c), ..v }
}

/// The byte result of `a + b + cin`.
pub open spec fn add_result(a: u8, b: u8, cin: int) -> u8 {
    ((a + b + cin) % 256) as u8
}

/// Carry out of bit 3 of `a + b + cin`.
pub open spec fn add_half(a: u8, b: u8, cin: int) -> bool {
    (a & 0x0F) + (b & 0x0F) + cin >= 0x10
}

/// Carry out of bit 7 of `a + b + cin`.
pub open spec fn add_carry(a: u8, b: u8, cin: int) -> bool {
    a + b + cin >= 0x100
}

/// The byte result of `a - b - cin`.
pub open spec fn sub_result(a: u8, b: u8, cin: int) -> u8 {
    ((a - b - cin) % 256) as u8
}

/// Borrow into bit 4 of `a - b - cin`.
pub open spec fn sub_half(a: u8, b: u8, cin: int) -> bool {
    (a & 0x0F) < (b & 0x0F) + cin
}

/// Borrow out of bit 7 of `a - b - cin`.
pub open spec fn sub_carry(a: u8, b: u8, cin: int) -> bool {
    a < b + cin
}

pub open spec fn carry_in(v: CpuView) -> int {
    if flag_of(v.f, Flag::C) {
        1
    } else {
        0
    }
}

/// `ADD A, num`.
pub open spec fn add_spec(v: CpuView, num: u8) -> CpuView {
    with_flags(
        CpuView { a: add_result(v.a, num, 0), ..v },
        add_result(v.a, num, 0) == 0,
        false,
        add_half(v.a, num, 0),
        add_carry(v.a, num, 0),
    )
}

/// `ADC A, num`: the carry flag is added in.
pub open spec fn addc_spec(v: CpuView, num: u8) -> CpuView {
    let cin = carry_in(v);
    with_flags(
        CpuView { a: add_result(v.a, num, cin), ..v },
        add_result(v.a, num, cin) == 0,
        false,
        add_half(v.a, num, cin),
        add_carry(v.a, num, cin),
    )
}

/// `SUB num`.
pub open spec fn sub_spec(v: CpuView, num: u8) -> CpuView {
    with_flags(
        CpuView { a: sub_result(v.a, num, 0), ..v },
        v.a == num,
        true,
        sub_half(v.a, num, 0),
        sub_carry(v.a, num, 0),
    )
}

/// `CP num`: the flags of `SUB num`, with A kept.
pub open spec fn cp_spec(v: CpuView, num: u8) -> CpuView {
    with_flags(v, v.a == num, true, sub_half(v.a, num, 0), sub_carry(v.a, num, 0))
}

/// `SBC A, num`: the carry flag is subtracted too.
pub open spec fn subc_spec(v: CpuView, num: u8) -> CpuView {
    let cin = carry_in(v);
    with_flags(
        CpuView { a: sub_result(v.a, num, cin), ..v },
        sub_result(v.a, num, cin) == 0,
        true,
        sub_half(v.a, num, cin),
        sub_carry(v.a, num, cin),
    )
}

/// `AND`, `OR` and `XOR` on A; only AND sets H.
pub open spec fn logic_spec(v: CpuView, res: u8, is_and: bool) -> CpuView {
    with_flags(CpuView { a: res, ..v }, res == 0, false, is_and, false)
}

proof fn lemma_set_four(f: u8, z: bool, n: bool, h: bool, c: bool)
    requires
        f & 0x0F == 0,
    ensures
        with_flag(with_flag(with_flag(with_flag(f, Flag::Z, z), Flag::N, n), Flag::H, h), Flag::C, c)
            & 0xF0 == flags_byte(z, n, h, c),
{
    let f1 = with_flag(f, Flag::Z, z);
    lemma_with_flag(f, Flag::Z, z);
    let f2 = with_flag(f1, Flag::N, n);
    lemma_with_flag(f1, Flag::N, n);
    let f3 = with_flag(f2, Flag::H, h);
    lemma_with_flag(f2, Flag::H, h);
    let f4 = with_flag(f3, Flag::C, c);
    lemma_with_flag(f3, Flag::C, c);
    lemma_flags_determine(f4);
}

/// Sets all four flags at once.
fn set_flags(z: bool, n: bool, h: bool, c: bool, cpu: &mut Cpu)
    requires
        old(cpu)@.wf(),
    ensures
        final(cpu)@ == with_flags(old(cpu)@, z, n, h, c),
        final(cpu)@.wf(),
{
    proof {
        lemma_set_four(cpu.f, z, n, h, c);
    }
    flag::mod_flags(((Flag::Z, z), (Flag::N, n), (Flag::H, h), (Flag::C, c)), cpu);
}

/// Result and flags of an 8-bit addition with carry-in: (result, Z, H, C).
fn add_bytes(a: u8, num: u8, cin: u8) -> (r: (u8, bool, bool, bool))
    requires
        cin <= 1,
    ensures
        r.0 == add_result(a, num, cin as int),
        r.1 == (add_result(a, num, cin as int) == 0),
        r.2 == add_half(a, num, cin as int),
        r.3 == add_carry(a, num, cin as int),
{
    let res = a.wrapping_add(num).wrapping_add(cin);
    let h = 0x10 <= ((a & 0x0F) as u16 + (num & 0x0F) as u16 + cin as u16);
    let c = 0x0100 <= (a as u16 + num as u16 + cin as u16);
    (res, res == 0, h, c)
}

/// Result and flags of an 8-bit subtraction with borrow-in: (result, Z, H, C).
fn sub_bytes(a: u8, num: u8, cin: u8) -> (r: (u8, bool, bool, bool))
    requires
        cin <= 1,
    ensures
        r.0 == sub_result(a, num, cin as int),
        r.1 == (sub_result(a, num, cin as int) == 0),
        r.2 == sub_half(a, num, cin as int),
        r.3 == sub_carry(a, num, cin as int),
{
    let res = a.wrapping_sub(num).wrapping_sub(cin);
    let h = ((a & 0x0F) as u16) < ((num & 0x0F) as u16 + cin as u16);
    let c = (a as u16) < (num as u16 + cin as u16);
    (res, res == 0, h, c)
}

#[verifier::rlimit(30)]
pub fn add_to_a(num: u8, curr_addr: usize, cpu: &mut Cpu) -> (r: usize)
    requires
        old(cpu)@.wf(),
    ensures
        final(cpu)@ == add_spec(old(cpu)@, num),
        final(cpu)@.wf(),
        r == curr_addr,
{
    let (res, z, h, c) = add_bytes(cpu.a, num, 0);
    cpu.a = res;
    set_flags(z, false, h, c, cpu);
    curr_addr
}

#[verifier::rlimit(30)]
pub fn addc_to_a(num: u8, curr_addr: usize, cpu: &mut Cpu) -> (r: usize)
    requires
        old(cpu)@.wf(),
    ensures
        final(cpu)@ == addc_spec(old(cpu)@, num),
        final(cpu)@.wf(),
        r == curr_addr,
{
    let carry: u8 = if flag::is_set(Flag::C, cpu) { 1 } else { 0 };
    let (res, z, h, c) = add_bytes(cpu.a, num, carry);
    cpu.a = res;
    set_flags(z, false, h, c, cpu);
    curr_addr
}

#[verifier::rlimit(30)]
pub fn sub_from_a(num: u8, curr_addr: usize, cpu: &mut Cpu) -> (r: usize)
    requires
        old(cpu)@.wf(),
    ensures
        final(cpu)@ == sub_spec(old(cpu)@, num),
        final(cpu)@.wf(),
        r == curr_addr,
{
    let (res, _z, h, c) = sub_bytes(cpu.a, num, 0);
    let z = cpu.a == num;
    cpu.a = res;
    set_flags(z, true, h, c, cpu);
    curr_addr
}

#[verifier::rlimit(30)]
pub fn subc_from_a(num: u8, curr_addr: usize, cpu: &mut Cpu) -> (r: usize)
    requires
        old(cpu)@.wf(),
    ensures
        final(cpu)@ == subc_spec(old(cpu)@, num),
        final(cpu)@.wf(),
        r == curr_addr,
{
    let carry: u8 = if flag::is_set(Flag::C, cpu) { 1 } else { 0 };
    let (res, z, h, c) = sub_bytes(cpu.a, num, carry);
    cpu.a = res;
    set_flags(z, true, h, c, cpu);
    curr_addr
}

pub fn cp(num: u8, cpu: &mut Cpu)
    requires
        old(cpu)@.wf(),
    ensures
        final(cpu)@ == cp_spec(old(cpu)@, num),
        final(cpu)@.wf(),
{
    let (_res, _z, h, c) = sub_bytes(cpu.a, num, 0);
    let z = cpu.a == num;
    set_flags(z, true, h, c, cpu);
}

pub fn a_or_val(num: u8, curr_addr: usize, cpu: &mut Cpu) -> (r: usize)
    requires
        old(cpu)@.wf(),
    ensures
        final(cpu)@ == logic_spec(old(cpu)@, old(cpu).a | num, false),
        final(cpu)@.wf(),
        r == curr_addr,
{
    cpu.a = cpu.a | num;
    let z = cpu.a == 0;
    set_flags(z, false, false, false, cpu);
    curr_addr
}

pub fn a_and_val(num: u8, curr_addr: usize, cpu: &mut Cpu) -> (r: usize)
    requires
        old(cpu)@.wf(),
    ensures
        final(cpu)@ == logic_spec(old(cpu)@, old(cpu).a & num, true),
        final(cpu)@.wf(),
        r == curr_addr,
{
    cpu.a = cpu.a & num;
    let z = cpu.a == 0;
    set_flags(z, false, true, false, cpu);
    curr_addr
}

pub fn xor_d8(val: u8, cpu: &mut Cpu)
    requires
        old(cpu)@.wf(),
    ensures
        final(cpu)@ == logic_spec(old(cpu)@, old(cpu).a ^ val, false),
        final(cpu)@.wf(),
{
    cpu.a = cpu.a ^ val;
    let z = cpu.a == 0;
    set_flags(z, false, false, false, cpu);
}

/// The flags `ADD` leaves: half carry exactly when the low nibbles sum past
/// 0xF, carry exactly when the bytes sum past 0xFF, Z when the byte result
/// is zero, N clear.
pub proof fn lemma_add_flags(v: CpuView, b: u8)
    ensures
        flag_of(add_spec(v, b).f, Flag::H) <==> (v.a & 0x0F) + (b & 0x0F) >= 0x10,
        flag_of(add_spec(v, b).f, Flag::C) <==> v.a + b >= 0x100,
        flag_of(add_spec(v, b).f, Flag::Z) <==> add_spec(v, b).a == 0,
        !flag_of(add_spec(v, b).f, Flag::N),
        add_spec(v, b).a == (v.a + b) % 256,
{
    lemma_flags_byte(add_result(v.a, b, 0) == 0, false, add_half(v.a, b, 0), add_carry(v.a, b, 0));
}

/// The flags `SUB` leaves: half carry exactly when the low nibble of A is
/// below that of the operand, carry exactly when A is below the operand, N set.
pub proof fn lemma_sub_flags(v: CpuView, b: u8)
    ensures
        flag_of(sub_spec(v, b).f, Flag::H) <==> (v.a & 0x0F) < (b & 0x0F),
        flag_of(sub_spec(v, b).f, Flag::C) <==> v.a < b,
        flag_of(sub_spec(v, b).f, Flag::Z) <==> sub_spec(v, b).a == 0,
        flag_of(sub_spec(v, b).f, Flag::N),
        sub_spec(v, b).a == (v.a - b) % 256,
{
    lemma_flags_byte(v.a == b, true, sub_half(v.a, b, 0), sub_carry(v.a, b, 0));
}

/// Byte results of the rotations and shifts, with `cin` the incoming carry.
pub open spec fn rl_byte(x: u8, cin: int) -> u8 {
    ((x * 2) % 256 + cin) as u8
}

pub open spec fn rlc_byte(x: u8) -> u8 {
    ((x * 2) % 256 + x / 128) as u8
}

pub open spec fn rr_byte(x: u8, cin: int) -> u8 {
    (x / 2 + cin * 128) as u8
}

pub open spec fn rrc_byte(x: u8) -> u8 {
    (x / 2 + (x % 2) * 128) as u8
}

/// Arithmetic shift right: bit 7 is kept.
pub open spec fn sra_byte(x: u8) -> u8 {
    (x / 2 + (x / 128) * 128) as u8
}

pub open spec fn swap_byte(x: u8) -> u8 {
    ((x % 16) * 16 + x / 16) as u8
}

/// A rotation or shift of an 8-bit location: the result is stored, C takes
/// the bit shifted out, N and H clear, and Z is set on a zero result only
/// where `z_enabled` (the accumulator forms never set it).
pub open spec fn shift_spec(v: CpuView, reg: Register, res: u8, z_enabled: bool, c: bool) -> CpuView {
    with_flags(v.set_reg8(reg, res), z_enabled && res == 0, false, false, c)
}

/// `INC r`: C is kept.
pub open spec fn inc_spec(v: CpuView, reg: Register) -> CpuView {
    let res = ((v.reg8(reg) + 1) % 256) as u8;
    with_flags(v.set_reg8(reg, res), res == 0, false, res & 0x0F == 0, flag_of(v.f, Flag::C))
}

/// `DEC r`: C is kept.
pub open spec fn dec_spec(v: CpuView, reg: Register) -> CpuView {
    let x = v.reg8(reg);
    let res = ((x - 1) % 256) as u8;
    with_flags(v.set_reg8(reg, res), res == 0, true, x & 0x0F == 0, flag_of(v.f, Flag::C))
}

/// `BIT pos, r`: Z is set when the bit is clear; H set, N clear, C kept.
pub open spec fn bit_spec(v: CpuView, pos: u8, reg: Register) -> CpuView {
    with_flags(v, v.reg8(reg) & (1u8 << pos) == 0, false, true, flag_of(v.f, Flag::C))
}

/// Decimal adjustment of `a` after an addition (`n` clear) or subtraction
/// (`n` set) that left the half-carry `h` and carry `c`: the adjusted byte and
/// the new carry.
pub open spec fn daa_adjust(a: u8, n: bool, h: bool, c: bool) -> (u8, bool) {
    if !n {
        let hi_fix = c || a > 0x99;
        let a1: int = if hi_fix { (a + 0x60) % 256 } else { a as int };
        let a2: int = if h || a1 % 16 > 9 { (a1 + 6) % 256 } else { a1 };
        (a2 as u8, hi_fix)
    } else {
        let a1: int = if c { (a - 0x60) % 256 } else { a as int };
        let a2: int = if h { (a1 - 6) % 256 } else { a1 };
        (a2 as u8, c)
    }
}

/// `DAA`: N is kept, H clears.
pub open spec fn daa_spec(v: CpuView) -> CpuView {
    let (res, c) = daa_adjust(
        v.a,
        flag_of(v.f, Flag::N),
        flag_of(v.f, Flag::H),
        flag_of(v.f, Flag::C),
    );
    with_flags(CpuView { a: res, ..v }, res == 0, flag_of(v.f, Flag::N), false, c)
}

/// Both nibbles are decimal digits.
pub open spec fn is_bcd(x: u8) -> bool {
    x % 16 <= 9 && x / 16 <= 9
}

/// Rotates an 8-bit location left or right, through the carry or around.
fn rotate(reg: Register, conditional_z: bool, cpu: &mut Cpu, rotate_in_carry: bool, left: bool)
    requires
        old(cpu)@.wf(),
        is_reg8(reg),
    ensures
        final(cpu)@.wf(),
        ({
            let v = old(cpu)@;
            let x = v.reg8(reg);
            let cin = carry_in(v);
            final(cpu)@ == if left {
                shift_spec(v, reg, if rotate_in_carry { rl_byte(x, cin) } else { rlc_byte(x) }, conditional_z, x >= 128)
            } else {
                shift_spec(v, reg, if rotate_in_carry { rr_byte(x, cin) } else { rrc_byte(x) }, conditional_z, x % 2 == 1)
            }
        }),
{
    let old_c: u8 = if flag::is_set(Flag::C, cpu) { 1 } else { 0 };
    let x = read_register(reg, cpu);
    let (res, c) = if left {
        let shifted: u8 = ((x as u16 * 2) % 256) as u8;
        (if rotate_in_carry { shifted + old_c } else { shifted + x / 128 }, x >= 128)
    } else {
        (if rotate_in_carry { x / 2 + old_c * 128 } else { x / 2 + (x % 2) * 128 }, x % 2 == 1)
    };
    write_register(reg, res, cpu);
    proof {
        lemma_safe_write_regs(old(cpu)@, old(cpu)@.reg_addr(reg), res);
    }
    set_flags(conditional_z && res == 0, false, false, c, cpu);
}

/// `RL r` (and `RLA` without Z): rotate left through the carry.
pub fn rl(reg: Register, conditional_z: bool, cpu: &mut Cpu)
    requires
        old(cpu)@.wf(),
        is_reg8(reg),
    ensures
        final(cpu)@ == shift_spec(old(cpu)@, reg, rl_byte(old(cpu)@.reg8(reg), carry_in(old(cpu)@)), conditional_z, old(cpu)@.reg8(reg) >= 128),
        final(cpu)@.wf(),
{
    rotate(reg, conditional_z, cpu, true, true)
}

/// `RLC r` (and `RLCA` without Z): rotate left, bit 7 into bit 0 and C.
pub fn rlc(reg: Register, conditional_z: bool, cpu: &mut Cpu)
    requires
        old(cpu)@.wf(),
        is_reg8(reg),
    ensures
        final(cpu)@ == shift_spec(old(cpu)@, reg, rlc_byte(old(cpu)@.reg8(reg)), conditional_z, old(cpu)@.reg8(reg) >= 128),
        final(cpu)@.wf(),
{
    rotate(reg, conditional_z, cpu, false, true)
}

/// `RR r` (and `RRA` without Z): rotate right through the carry.
pub fn rr(reg: Register, conditional_z: bool, cpu: &mut Cpu)
    requires
        old(cpu)@.wf(),
        is_reg8(reg),
    ensures
        final(cpu)@ == shift_spec(old(cpu)@, reg, rr_byte(old(cpu)@.reg8(reg), carry_in(old(cpu)@)), conditional_z, old(cpu)@.reg8(reg) % 2 == 1),
        final(cpu)@.wf(),
{
    rotate(reg, conditional_z, cpu, true, false)
}

/// `RRC r` (and `RRCA` without Z): rotate right, bit 0 into bit 7 and C.
pub fn rrc(reg: Register, conditional_z: bool, cpu: &mut Cpu)
    requires
        old(cpu)@.wf(),
        is_reg8(reg),
    ensures
        final(cpu)@ == shift_spec(old(cpu)@, reg, rrc_byte(old(cpu)@.reg8(reg)), conditional_z, old(cpu)@.reg8(reg) % 2 == 1),
        final(cpu)@.wf(),
{
    rotate(reg, conditional_z, cpu, false, false)
}

/// `SRA r`: shift right keeping bit 7.
pub fn sra(reg: Register, cpu: &mut Cpu)
    requires
        old(cpu)@.wf(),
        is_reg8(reg),
    ensures
        final(cpu)@ == shift_spec(old(cpu)@, reg, sra_byte(old(cpu)@.reg8(reg)), true, old(cpu)@.reg8(reg) % 2 == 1),
        final(cpu)@.wf(),
{
    let x = read_register(reg, cpu);
    let res = x / 2 + (x / 128) * 128;
    write_register(reg, res, cpu);
    proof {
        lemma_safe_write_regs(old(cpu)@, old(cpu)@.reg_addr(reg), res);
    }
    set_flags(res == 0, false, false, x % 2 == 1, cpu);
}

/// `SRL r`: shift right, bit 7 clears.
pub fn srl(reg: Register, cpu: &mut Cpu)
    requires
        old(cpu)@.wf(),
        is_reg8(reg),
    ensures
        final(cpu)@ == shift_spec(old(cpu)@, reg, old(cpu)@.reg8(reg) / 2, true, old(cpu)@.reg8(reg) % 2 == 1),
        final(cpu)@.wf(),
{
    let x = read_register(reg, cpu);
    let res = x / 2;
    write_register(reg, res, cpu);
    proof {
        lemma_safe_write_regs(old(cpu)@, old(cpu)@.reg_addr(reg), res);
    }
    set_flags(res == 0, false, false, x % 2 == 1, cpu);
}

/// `SLA r`: shift left, bit 0 clears.
pub fn sla(reg: Register, cpu: &mut Cpu)
    requires
        old(cpu)@.wf(),
        is_reg8(reg),
    ensures
        final(cpu)@ == shift_spec(old(cpu)@, reg, ((old(cpu)@.reg8(reg) * 2) % 256) as u8, true, old(cpu)@.reg8(reg) >= 128),
        final(cpu)@.wf(),
{
    let x = read_register(reg, cpu);
    let res: u8 = ((x as u16 * 2) % 256) as u8;
    write_register(reg, res, cpu);
    proof {
        lemma_safe_write_regs(old(cpu)@, old(cpu)@.reg_addr(reg), res);
    }
    set_flags(res == 0, false, false, x >= 128, cpu);
}

/// `SWAP r`: exchange the nibbles; Z on a zero byte, the other flags clear.
pub fn swap(reg: Register, cpu: &mut Cpu)
    requires
        old(cpu)@.wf(),
        is_reg8(reg),
    ensures
        final(cpu)@ == shift_spec(old(cpu)@, reg, swap_byte(old(cpu)@.reg8(reg)), true, false),
        final(cpu)@.wf(),
{
    let x = read_register(reg, cpu);
    let res = (x % 16) * 16 + x / 16;
    write_register(reg, res, cpu);
    proof {
        lemma_safe_write_regs(old(cpu)@, old(cpu)@.reg_addr(reg), res);
    }
    set_flags(res == 0, false, false, false, cpu);
}

pub fn inc_u8(reg: Register, cpu: &mut Cpu)
    requires
        old(cpu)@.wf(),
        is_reg8(reg),
    ensures
        final(cpu)@ == inc_spec(old(cpu)@, reg),
        final(cpu)@.wf(),
{
    let c = flag::is_set(Flag::C, cpu);
    let reg_val = read_register(reg, cpu);
    let res = reg_val.wrapping_add(1);
    write_register(reg, res, cpu);
    proof {
        lemma_safe_write_regs(old(cpu)@, old(cpu)@.reg_addr(reg), res);
    }
    set_flags(res == 0, false, (res & 0x0F) == 0, c, cpu);
}

pub fn dec_u8(reg: Register, cpu: &mut Cpu)
    requires
        old(cpu)@.wf(),
        is_reg8(reg),
    ensures
        final(cpu)@ == dec_spec(old(cpu)@, reg),
        final(cpu)@.wf(),
{
    let c = flag::is_set(Flag::C, cpu);
    let reg_val = read_register(reg, cpu);
    let res = reg_val.wrapping_sub(1);
    write_register(reg, res, cpu);
    proof {
        lemma_safe_write_regs(old(cpu)@, old(cpu)@.reg_addr(reg), res);
    }
    set_flags(res == 0, true, (reg_val & 0x0F) == 0, c, cpu);
}

pub fn inc_u16(reg: Register, cpu: &mut Cpu)
    requires
        old(cpu)@.wf(),
        is_reg16(reg),
    ensures
        final(cpu)@ == old(cpu)@.set_reg16(reg, ((old(cpu)@.reg16(reg) + 1) % 0x10000) as u16),
        final(cpu)@.wf(),
{
    write_multi_register(reg, read_multi_register(reg, cpu).wrapping_add(1), cpu);
}

pub fn dec_u16(reg: Register, cpu: &mut Cpu)
    requires
        old(cpu)@.wf(),
        is_reg16(reg),
    ensures
        final(cpu)@ == old(cpu)@.set_reg16(reg, ((old(cpu)@.reg16(reg) - 1) % 0x10000) as u16),
        final(cpu)@.wf(),
{
    write_multi_register(reg, read_multi_register(reg, cpu).wrapping_sub(1), cpu);
}

/// `CCF`: complement C; N and H clear, Z kept.
pub fn ccf(cpu: &mut Cpu)
    requires
        old(cpu)@.wf(),
    ensures
        final(cpu)@ == with_flags(old(cpu)@, flag_of(old(cpu).f, Flag::Z), false, false, !flag_of(old(cpu).f, Flag::C)),
        final(cpu)@.wf(),
{
    let z = flag::is_set(Flag::Z, cpu);
    let c = flag::is_set(Flag::C, cpu);
    set_flags(z, false, false, !c, cpu);
}

/// `SCF`: set C; N and H clear, Z kept.
pub fn scf(cpu: &mut Cpu)
    requires
        old(cpu)@.wf(),
    ensures
        final(cpu)@ == with_flags(old(cpu)@, flag_of(old(cpu).f, Flag::Z), false, false, true),
        final(cpu)@.wf(),
{
    let z = flag::is_set(Flag::Z, cpu);
    set_flags(z, false, false, true, cpu);
}

/// `CPL`: complement A; N and H set, Z and C kept.
pub fn cpl(cpu: &mut Cpu)
    requires
        old(cpu)@.wf(),
    ensures
        final(cpu)@ == with_flags(
            CpuView { a: (0xFF - old(cpu).a) as u8, ..old(cpu)@ },
            flag_of(old(cpu).f, Flag::Z),
            true,
            true,
            flag_of(old(cpu).f, Flag::C),
        ),
        final(cpu)@.wf(),
{
    let z = flag::is_set(Flag::Z, cpu);
    let c = flag::is_set(Flag::C, cpu);
    cpu.a = 0xFF - cpu.a;
    set_flags(z, true, true, c, cpu);
}

pub fn bit(bit_pos: u8, reg: Register, cpu: &mut Cpu)
    requires
        old(cpu)@.wf(),
        is_readable8(reg),
        bit_pos < 8,
    ensures
        final(cpu)@ == bit_spec(old(cpu)@, bit_pos, reg),
        final(cpu)@.wf(),
{
    let c = flag::is_set(Flag::C, cpu);
    let z = read_register(reg, cpu) & (1u8 << bit_pos) == 0;
    set_flags(z, false, true, c, cpu);
}

fn daa_exec(a: u8, n: bool, h: bool, c: bool) -> (r: (u8, bool))
    ensures
        r == daa_adjust(a, n, h, c),
{
    if !n {
        let hi_fix = c || a > 0x99;
        let a1: u8 = if hi_fix { a.wrapping_add(0x60) } else { a };
        let a2: u8 = if h || a1 % 16 > 9 { a1.wrapping_add(6) } else { a1 };
        (a2, hi_fix)
    } else {
        let a1: u8 = if c { a.wrapping_sub(0x60) } else { a };
        let a2: u8 = if h { a1.wrapping_sub(6) } else { a1 };
        (a2, c)
    }
}

#[verifier::rlimit(60)]
pub fn daa(curr_addr: usize, cpu: &mut Cpu) -> (r: usize)
    requires
        old(cpu)@.wf(),
    ensures
        final(cpu)@ == daa_spec(old(cpu)@),
        final(cpu)@.wf(),
        r == curr_addr,
{
    let n = flag::is_set(Flag::N, cpu);
    let h = flag::is_set(Flag::H, cpu);
    let c = flag::is_set(Flag::C, cpu);
    let (res, carry) = daa_exec(cpu.a, n, h, c);
    cpu.a = res;
    set_flags(res == 0, n, false, carry, cpu);
    curr_addr
}

proof fn lemma_low_nibble(x: u8)
    by (bit_vector)
    ensures
        x & 0x0F == x % 16,
{
}

/// After adding two BCD bytes, `DAA` leaves a BCD byte.
#[verifier::rlimit(100)]
pub proof fn lemma_daa_after_add(a: u8, b: u8)
    requires
        is_bcd(a),
        is_bcd(b),
    ensures
        is_bcd(daa_adjust(add_result(a, b, 0), false, add_half(a, b, 0), add_carry(a, b, 0)).0),
{
    lemma_low_nibble(a);
    lemma_low_nibble(b);
    let a0 = a % 16;
    let a1 = a / 16;
    let b0 = b % 16;
    let b1 = b / 16;
    assert(a == 16 * a1 + a0 && b == 16 * b1 + b0);
    let res = add_result(a, b, 0);
    let lo = a0 + b0;
    let hi = a1 + b1;
    assert(a + b == 16 * hi + lo);
    let h = lo >= 16;
    let n = if h { lo - 6 } else if lo > 9 { lo + 6 } else { lo };
    if a + b >= 256 {
        assert(res == 16 * hi + lo - 256);
        let t = res + 0x60;
        assert(t == 16 * (hi - 10) + lo);
        assert(t < 256);
        if h || lo % 16 > 9 {
            assert((t + 6) % 256 == 16 * (hi - 10) + lo + 6);
        }
    } else {
        assert(res == 16 * hi + lo);
        if res >= 0xA0 {
            assert((res + 0x60) % 256 == 16 * (hi - 10) + lo);
        } else if res > 0x99 {
            assert(res + 0x60 < 256);
        } else {
            if h || lo % 16 > 9 {
                assert(res + 6 < 256);
            }
        }
    }
}

/// After subtracting one BCD byte from another, `DAA` leaves a BCD byte.
#[verifier::rlimit(60)]
pub proof fn lemma_daa_after_sub(a: u8, b: u8)
    requires
        is_bcd(a),
        is_bcd(b),
    ensures
        is_bcd(daa_adjust(sub_result(a, b, 0), true, sub_half(a, b, 0), sub_carry(a, b, 0)).0),
{
    lemma_low_nibble(a);
    lemma_low_nibble(b);
    let a0 = a % 16;
    let a1 = a / 16;
    let b0 = b % 16;
    let b1 = b / 16;
    assert(a == 16 * a1 + a0 && b == 16 * b1 + b0);
    let res = sub_result(a, b, 0);
    let h = a0 < b0;
    let c = a < b;
    let hi: int = if a0 >= b0 { a1 - b1 } else { a1 - b1 - 1 };
    let lo: int = if a0 >= b0 { a0 - b0 } else { a0 - b0 + 16 };
    assert(a - b == 16 * hi + lo);
    if c {
        assert(res == 16 * (hi + 16) + lo);
        let t = (res - 0x60) % 256;
        assert(t == 16 * (hi + 10) + lo);
        if h {
            assert((t - 6) % 256 == 16 * (hi + 10) + lo - 6);
        }
    } else {
        assert(res == 16 * hi + lo);
        if h {
            assert((res - 6) % 256 == 16 * hi + lo - 6);
        }
    }
}

/// Half carry of `SP + e`, taken from the unsigned low byte of `e`.
pub open spec fn sp_half(sp: u16, e: i8) -> bool {
    (sp & 0x0F) + ((e as u8) & 0x0F) > 0x0F
}

/// Carry of `SP + e`, taken from the unsigned low byte of `e`.
pub open spec fn sp_carry(sp: u16, e: i8) -> bool {
    (sp & 0xFF) + (e as u8) > 0xFF
}

/// `LD HL, SP + e`: Z and N clear.
pub open spec fn ldhl_spec(v: CpuView, e: i8) -> CpuView {
    with_flags(
        v.set_reg16(Register::HL, offset_u16(v.sp, e)),
        false,
        false,
        sp_half(v.sp, e),
        sp_carry(v.sp, e),
    )
}

/// `ADD SP, e`: N clears, Z is kept.
pub open spec fn add_sp_spec(v: CpuView, e: i8) -> CpuView {
    with_flags(
        CpuView { sp: offset_u16(v.sp, e), ..v },
        flag_of(v.f, Flag::Z),
        false,
        sp_half(v.sp, e),
        sp_carry(v.sp, e),
    )
}

/// `ADD HL, rr`: carries out of bit 11 and bit 15; N clears, Z is kept.
pub open spec fn add_hl_spec(v: CpuView, num: u16) -> CpuView {
    let hl = v.hl();
    with_flags(
        v.set_reg16(Register::HL, ((hl + num) % 0x10000) as u16),
        flag_of(v.f, Flag::Z),
        false,
        (hl & 0x0FFF) + (num & 0x0FFF) > 0x0FFF,
        hl + num > 0xFFFF,
    )
}

/// `LD to, from`; the `(HL+)` and `(HL-)` forms step HL after the transfer.
pub open spec fn ld_r_spec(v: CpuView, to: Register, from: Register) -> CpuView {
    if to is HLP || to is HLM {
        let w = v.set_reg8(Register::HL_ADDR, v.reg8(from));
        let hl = if to is HLP { w.hl() + 1 } else { w.hl() - 1 };
        w.set_reg16(Register::HL, (hl % 0x10000) as u16)
    } else if from is HLP || from is HLM {
        let w = v.set_reg8(to, v.reg8(Register::HL_ADDR));
        let hl = if from is HLP { w.hl() + 1 } else { w.hl() - 1 };
        w.set_reg16(Register::HL, (hl % 0x10000) as u16)
    } else {
        v.set_reg8(to, v.reg8(from))
    }
}

pub fn ld_m(reg: Register, val: u16, curr_addr: usize, cpu: &mut Cpu) -> (r: usize)
    requires
        old(cpu)@.wf(),
        is_reg16(reg),
    ensures
        final(cpu)@ == old(cpu)@.set_reg16(reg, val),
        final(cpu)@.wf(),
        r == curr_addr,
{
    write_multi_register(reg, val, cpu);
    curr_addr
}

pub fn ld(reg: Register, val: u8, curr_addr: usize, cpu: &mut Cpu) -> (r: usize)
    requires
        old(cpu)@.wf(),
        is_reg8(reg),
    ensures
        final(cpu)@ == old(cpu)@.set_reg8(reg, val),
        final(cpu)@.wf(),
        r == curr_addr,
{
    write_register(reg, val, cpu);
    curr_addr
}

fn sp_flags(sp: u16, e: i8) -> (r: (bool, bool))
    ensures
        r == (sp_half(sp, e), sp_carry(sp, e)),
{
    let u = e as u8;
    proof {
        assert((sp & 0x0F) <= 0x0F && (sp & 0xFF) <= 0xFF && (u & 0x0F) <= 0x0F) by (bit_vector);
    }
    ((sp & 0x0F) + (u & 0x0F) as u16 > 0x0F, (sp & 0xFF) + u as u16 > 0xFF)
}

pub fn ldhl_sp(val: i8, curr_addr: usize, cpu: &mut Cpu) -> (r: usize)
    requires
        old(cpu)@.wf(),
    ensures
        final(cpu)@ == ldhl_spec(old(cpu)@, val),
        final(cpu)@.wf(),
        r == curr_addr,
{
    let (h, c) = sp_flags(cpu.sp, val);
    let new_val = wrapping_off_u16_i8(cpu.sp, val);
    write_multi_register(Register::HL, new_val, cpu);
    set_flags(false, false, h, c, cpu);
    curr_addr
}

pub fn add_to_sp(num: i8, curr_addr: usize, cpu: &mut Cpu) -> (r: usize)
    requires
        old(cpu)@.wf(),
    ensures
        final(cpu)@ == add_sp_spec(old(cpu)@, num),
        final(cpu)@.wf(),
        r == curr_addr,
{
    let z = flag::is_set(Flag::Z, cpu);
    let (h, c) = sp_flags(cpu.sp, num);
    cpu.sp = wrapping_off_u16_i8(cpu.sp, num);
    set_flags(z, false, h, c, cpu);
    curr_addr
}

fn hl_flags(hl: u16, num: u16) -> (r: (bool, bool))
    ensures
        r == ((hl & 0x0FFF) + (num & 0x0FFF) > 0x0FFF, hl + num > 0xFFFF),
{
    proof {
        assert((hl & 0x0FFF) <= 0x0FFF && (num & 0x0FFF) <= 0x0FFF) by (bit_vector);
    }
    ((hl & 0x0FFF) + (num & 0x0FFF) > 0x0FFF, hl as u32 + num as u32 > 0xFFFF)
}

pub fn add_to_hl(num: u16, curr_addr: usize, cpu: &mut Cpu) -> (r: usize)
    requires
        old(cpu)@.wf(),
    ensures
        final(cpu)@ == add_hl_spec(old(cpu)@, num),
        final(cpu)@.wf(),
        r == curr_addr,
{
    let z = flag::is_set(Flag::Z, cpu);
    let hl_val = read_multi_register(Register::HL, cpu);
    let (h, c) = hl_flags(hl_val, num);
    write_multi_register(Register::HL, hl_val.wrapping_add(num), cpu);
    set_flags(z, false, h, c, cpu);
    curr_addr
}

fn ld_hl_step(to_reg: Register, from_reg: Register, cpu: &mut Cpu)
    requires
        old(cpu)@.wf(),
        to_reg is HLP || to_reg is HLM,
        is_readable8(from_reg),
    ensures
        final(cpu)@ == ld_r_spec(old(cpu)@, to_reg, from_reg),
        final(cpu)@.wf(),
{
    let val = read_register(from_reg, cpu);
    write_register(Register::HL_ADDR, val, cpu);
    proof {
        lemma_safe_write_regs(old(cpu)@, old(cpu)@.reg_addr(Register::HL_ADDR), val);
    }
    let hl = read_multi_register(Register::HL, cpu);
    let new_hl = if matches!(to_reg, Register::HLP) {
        hl.wrapping_add(1)
    } else {
        hl.wrapping_sub(1)
    };
    write_multi_register(Register::HL, new_hl, cpu);
}

#[verifier::rlimit(60)]
fn ld_from_hl_step(to_reg: Register, from_reg: Register, cpu: &mut Cpu)
    requires
        old(cpu)@.wf(),
        from_reg is HLP || from_reg is HLM,
        !(to_reg is HLP || to_reg is HLM),
        is_reg8(to_reg),
    ensures
        final(cpu)@ == ld_r_spec(old(cpu)@, to_reg, from_reg),
        final(cpu)@.wf(),
{
    let val = read_register(Register::HL_ADDR, cpu);
    write_register(to_reg, val, cpu);
    let hl_addr = read_multi_register(Register::HL, cpu);
    let new_hl_addr = if matches!(from_reg, Register::HLP) {
        hl_addr.wrapping_add(1)
    } else {
        hl_addr.wrapping_sub(1)
    };
    write_multi_register(Register::HL, new_hl_addr, cpu);
}

pub fn ld_r(to_reg: Register, from_reg: Register, curr_addr: usize, cpu: &mut Cpu) -> (r: usize)
    requires
        old(cpu)@.wf(),
        ld_r_supported(to_reg, from_reg),
    ensures
        final(cpu)@ == ld_r_spec(old(cpu)@, to_reg, from_reg),
        final(cpu)@.wf(),
        r == curr_addr,
{
    if matches!(to_reg, Register::HLP | Register::HLM) {
        ld_hl_step(to_reg, from_reg, cpu);
    } else if matches!(from_reg, Register::HLP | Register::HLM) {
        ld_from_hl_step(to_reg, from_reg, cpu);
    } else {
        let val = read_register(from_reg, cpu);
        write_register(to_reg, val, cpu);
    }
    curr_addr
}

/// The operand shapes `LD to, from` is given.
pub open spec fn ld_r_supported(to: Register, from: Register) -> bool {
    if to is HLP || to is HLM {
        is_readable8(from)
    } else if from is HLP || from is HLM {
        is_reg8(to)
    } else {
        is_reg8(to) && is_readable8(from)
    }
}

/// The instructions the executor carries out, with the operand shapes the
/// decoder gives them; `STOP` is not among them.
pub open spec fn exec_supported(op: OpCode) -> bool {
    match op {
        OpCode::ADD(Register::A, r) => is_readable8(r),
        OpCode::ADD(Register::HL, r) => is_reg16(r),
        OpCode::ADD(_, _) => false,
        OpCode::ADD_d8(t, _) | OpCode::ADD_C_d8(t, _) | OpCode::SUB_C_d8(t, _) => t is A,
        OpCode::ADD_r8(t, _) => t is SP,
        OpCode::ADD_C(t, r) | OpCode::SUB_C(t, r) => t is A && is_readable8(r),
        OpCode::AND(r) | OpCode::OR(r) | OpCode::XOR(r) | OpCode::CP(r) | OpCode::SUB(r) => is_readable8(r),
        OpCode::BIT(pos, r) => pos < 8 && is_readable8(r),
        OpCode::RES(pos, r) | OpCode::SET(pos, r) => pos < 8 && is_reg8(r),
        OpCode::DEC(r) | OpCode::INC(r) | OpCode::PUSH(r) | OpCode::POP(r) | OpCode::LD_M(r, _) => is_reg16(r),
        OpCode::DEC_F(r) | OpCode::INC_F(r) | OpCode::LD(r, _) => is_reg8(r),
        OpCode::RLC(r) | OpCode::RRC(r) | OpCode::RL(r) | OpCode::RR(r) | OpCode::SLA(r)
        | OpCode::SRA(r) | OpCode::SWAP(r) | OpCode::SRL(r) => is_reg8(r),
        OpCode::LD_R(to, from) => ld_r_supported(to, from),
        OpCode::STOP => false,
        _ => true,
    }
}

/// Extra cycles of a conditional branch that is taken.
pub open spec fn cycle_penalty(v: CpuView, op: OpCode) -> usize {
    match op {
        OpCode::JP_C(cond, _) | OpCode::JR_C(cond, _) => if cond_holds(cond, v.f) { 4 } else { 0 },
        OpCode::CALL_C(cond, _) | OpCode::RET_C(cond) => if cond_holds(cond, v.f) { 12 } else { 0 },
        _ => 0,
    }
}

/// The machine after `RET`: SP rises by two.
pub open spec fn ret_state(v: CpuView) -> CpuView {
    CpuView { sp: v.sp_plus(2), ..v }
}

/// Jumps, calls, returns, stack and interrupt-enable instructions: the
/// machine after them and the next address.
pub open spec fn control_spec(v: CpuView, op: OpCode, addr: int) -> (CpuView, int) {
    match op {
        OpCode::JP(a) => (v, a as int),
        OpCode::JP_C(cond, a) => if cond_holds(cond, v.f) { (v, a as int) } else { (v, addr) },
        OpCode::JP_HL => (v, v.hl() as int),
        OpCode::JR(o) => (v, offset_u16(addr as u16, o) as int),
        OpCode::JR_C(cond, o) => if cond_holds(cond, v.f) {
            (v, offset_u16(addr as u16, o) as int)
        } else {
            (v, addr)
        },
        OpCode::CALL(a) | OpCode::RST(a) => (v.push_spec(addr as u16), a as int),
        OpCode::CALL_C(cond, a) => if cond_holds(cond, v.f) {
            (v.push_spec(addr as u16), a as int)
        } else {
            (v, addr)
        },
        OpCode::RET => (ret_state(v), v.pop_value() as int),
        OpCode::RETI => (CpuView { interrupt_master_enabled: true, ..ret_state(v) }, v.pop_value() as int),
        OpCode::RET_C(cond) => if cond_holds(cond, v.f) {
            (ret_state(v), v.pop_value() as int)
        } else {
            (v, addr)
        },
        OpCode::PUSH(r) => (v.push_spec(v.reg16(r)), addr),
        OpCode::POP(r) => (ret_state(v).set_reg16(r, v.pop_value()), addr),
        OpCode::DI => (CpuView { interrupt_master_enabled: false, ..v }, addr),
        OpCode::EI => (CpuView { interrupt_master_enabled: true, ..v }, addr),
        OpCode::HALT => (CpuView { halted: true, ..v }, addr),
        _ => (v, addr),
    }
}

/// Arithmetic and logic on A, 8- and 16-bit increments and additions, and
/// the flag instructions.
pub open spec fn alu_spec(v: CpuView, op: OpCode) -> CpuView {
    match op {
        OpCode::ADD(Register::HL, r) => add_hl_spec(v, v.reg16(r)),
        OpCode::ADD(_, r) => add_spec(v, v.reg8(r)),
        OpCode::ADD_d8(_, n) => add_spec(v, n),
        OpCode::ADD_r8(_, e) => add_sp_spec(v, e),
        OpCode::ADD_C(_, r) => addc_spec(v, v.reg8(r)),
        OpCode::ADD_C_d8(_, n) => addc_spec(v, n),
        OpCode::SUB(r) => sub_spec(v, v.reg8(r)),
        OpCode::SUB_d8(n) => sub_spec(v, n),
        OpCode::SUB_C(_, r) => subc_spec(v, v.reg8(r)),
        OpCode::SUB_C_d8(_, n) => subc_spec(v, n),
        OpCode::AND(r) => logic_spec(v, v.a & v.reg8(r), true),
        OpCode::AND_d8(n) => logic_spec(v, v.a & n, true),
        OpCode::OR(r) => logic_spec(v, v.a | v.reg8(r), false),
        OpCode::OR_d8(n) => logic_spec(v, v.a | n, false),
        OpCode::XOR(r) => logic_spec(v, v.a ^ v.reg8(r), false),
        OpCode::XOR_d8(n) => logic_spec(v, v.a ^ n, false),
        OpCode::CP(r) => cp_spec(v, v.reg8(r)),
        OpCode::CP_d8(n) => cp_spec(v, n),
        OpCode::INC_F(r) => inc_spec(v, r),
        OpCode::DEC_F(r) => dec_spec(v, r),
        OpCode::INC(r) => v.set_reg16(r, ((v.reg16(r) + 1) % 0x10000) as u16),
        OpCode::DEC(r) => v.set_reg16(r, ((v.reg16(r) - 1) % 0x10000) as u16),
        OpCode::DAA => daa_spec(v),
        OpCode::SCF => with_flags(v, flag_of(v.f, Flag::Z), false, false, true),
        OpCode::CCF => with_flags(v, flag_of(v.f, Flag::Z), false, false, !flag_of(v.f, Flag::C)),
        OpCode::CPL => with_flags(
            CpuView { a: (0xFF - v.a) as u8, ..v },
            flag_of(v.f, Flag::Z),
            true,
            true,
            flag_of(v.f, Flag::C),
        ),
        _ => v,
    }
}

/// Rotations, shifts and single-bit instructions.
pub open spec fn bits_spec(v: CpuView, op: OpCode) -> CpuView {
    let cin = carry_in(v);
    match op {
        OpCode::RL(r) => shift_spec(v, r, rl_byte(v.reg8(r), cin), true, v.reg8(r) >= 128),
        OpCode::RLA => shift_spec(v, Register::A, rl_byte(v.a, cin), false, v.a >= 128),
        OpCode::RLC(r) => shift_spec(v, r, rlc_byte(v.reg8(r)), true, v.reg8(r) >= 128),
        OpCode::RLCA => shift_spec(v, Register::A, rlc_byte(v.a), false, v.a >= 128),
        OpCode::RR(r) => shift_spec(v, r, rr_byte(v.reg8(r), cin), true, v.reg8(r) % 2 == 1),
        OpCode::RRA => shift_spec(v, Register::A, rr_byte(v.a, cin), false, v.a % 2 == 1),
        OpCode::RRC(r) => shift_spec(v, r, rrc_byte(v.reg8(r)), true, v.reg8(r) % 2 == 1),
        OpCode::RRCA => shift_spec(v, Register::A, rrc_byte(v.a), false, v.a % 2 == 1),
        OpCode::SRA(r) => shift_spec(v, r, sra_byte(v.reg8(r)), true, v.reg8(r) % 2 == 1),
        OpCode::SRL(r) => shift_spec(v, r, v.reg8(r) / 2, true, v.reg8(r) % 2 == 1),
        OpCode::SLA(r) => shift_spec(v, r, ((v.reg8(r) * 2) % 256) as u8, true, v.reg8(r) >= 128),
        OpCode::SWAP(r) => shift_spec(v, r, swap_byte(v.reg8(r)), true, false),
        OpCode::BIT(pos, r) => bit_spec(v, pos, r),
        OpCode::RES(pos, r) => v.set_reg8(r, v.reg8(r) & ((0xFF - (1u8 << pos)) as u8)),
        OpCode::SET(pos, r) => v.set_reg8(r, v.reg8(r) | (1u8 << pos)),
        _ => v,
    }
}

/// Loads.
pub open spec fn load_spec(v: CpuView, op: OpCode) -> CpuView {
    match op {
        OpCode::LD(r, n) => v.set_reg8(r, n),
        OpCode::LD_M(r, n) => v.set_reg16(r, n),
        OpCode::LD_R(to, from) => ld_r_spec(v, to, from),
        OpCode::LDHL_SP(e) => ldhl_spec(v, e),
        OpCode::LD_SP_HL => CpuView { sp: v.hl(), ..v },
        OpCode::LD_ADDR_SP(a) => v.safe_write_spec(a as int, (v.sp % 256) as u8).safe_write_spec(
            (a as int + 1) % 0x10000,
            (v.sp / 256) as u8,
        ),
        _ => v,
    }
}

pub open spec fn is_control_op(op: OpCode) -> bool {
    op is JP || op is JP_C || op is JP_HL || op is JR || op is JR_C || op is CALL || op is RST
        || op is CALL_C || op is RET || op is RETI || op is RET_C || op is PUSH || op is POP
        || op is DI || op is EI || op is HALT || op is NOP
}

pub open spec fn is_bits_op(op: OpCode) -> bool {
    op is RL || op is RLA || op is RLC || op is RLCA || op is RR || op is RRA || op is RRC
        || op is RRCA || op is SRA || op is SRL || op is SLA || op is SWAP || op is BIT
        || op is RES || op is SET
}

pub open spec fn is_load_op(op: OpCode) -> bool {
    op is LD || op is LD_M || op is LD_R || op is LDHL_SP || op is LD_SP_HL || op is LD_ADDR_SP
}

/// What executing `op` does: the machine after it and the next address,
/// where `addr` is the address after the instruction.
pub open spec fn exec_spec(v: CpuView, op: OpCode, addr: int) -> (CpuView, int) {
    if is_control_op(op) {
        control_spec(v, op, addr)
    } else if is_bits_op(op) {
        (bits_spec(v, op), addr)
    } else if is_load_op(op) {
        (load_spec(v, op), addr)
    } else {
        (alu_spec(v, op), addr)
    }
}

fn cycle_offset(op: OpCode, cpu: &Cpu) -> (r: usize)
    ensures
        r == cycle_penalty(cpu@, op),
{
    match op {
        OpCode::JP_C(cond, _) | OpCode::JR_C(cond, _) => if test_cond(cond, cpu) { 4 } else { 0 },
        OpCode::CALL_C(cond, _) | OpCode::RET_C(cond) => if test_cond(cond, cpu) { 12 } else { 0 },
        _ => 0,
    }
}

fn is_stack_op(op: OpCode) -> (r: bool)
    ensures
        r == (op is CALL || op is RST || op is CALL_C || op is RET || op is RETI || op is RET_C
            || op is PUSH || op is POP),
{
    matches!(op, OpCode::CALL(_) | OpCode::RST(_) | OpCode::CALL_C(_, _) | OpCode::RET
        | OpCode::RETI | OpCode::RET_C(_) | OpCode::PUSH(_) | OpCode::POP(_))
}

fn exec_control(op: OpCode, curr_addr: usize, cpu: &mut Cpu) -> (r: usize)
    requires
        old(cpu)@.wf(),
        curr_addr < 0x10000,
        exec_supported(op),
        is_control_op(op),
    ensures
        (final(cpu)@, r as int) == control_spec(old(cpu)@, op, curr_addr as int),
        final(cpu)@.wf(),
        r < 0x10000,
{
    if is_stack_op(op) {
        exec_stack(op, curr_addr, cpu)
    } else {
        exec_jump(op, curr_addr, cpu)
    }
}

#[verifier::rlimit(40)]
fn exec_jump(op: OpCode, curr_addr: usize, cpu: &mut Cpu) -> (r: usize)
    requires
        old(cpu)@.wf(),
        curr_addr < 0x10000,
        is_control_op(op),
        !(op is CALL || op is RST || op is CALL_C || op is RET || op is RETI || op is RET_C
            || op is PUSH || op is POP),
    ensures
        (final(cpu)@, r as int) == control_spec(old(cpu)@, op, curr_addr as int),
        final(cpu)@.wf(),
        r < 0x10000,
{
    match op {
        OpCode::JP(addr) => addr as usize,
        OpCode::JP_C(cond, addr) => if test_cond(cond, cpu) { addr as usize } else { curr_addr },
        OpCode::JP_HL => read_multi_register(Register::HL, cpu) as usize,
        OpCode::JR(offset) => wrapping_off_u16_i8(curr_addr as u16, offset) as usize,
        OpCode::JR_C(cond, offset) => if test_cond(cond, cpu) {
            wrapping_off_u16_i8(curr_addr as u16, offset) as usize
        } else {
            curr_addr
        },
        OpCode::DI => {
            cpu.interrupt_master_enabled = false;
            curr_addr
        },
        OpCode::EI => {
            cpu.interrupt_master_enabled = true;
            curr_addr
        },
        OpCode::HALT => {
            cpu.halted = true;
            curr_addr
        },
        _ => curr_addr,
    }
}

#[verifier::rlimit(60)]
fn exec_stack(op: OpCode, curr_addr: usize, cpu: &mut Cpu) -> (r: usize)
    requires
        old(cpu)@.wf(),
        curr_addr < 0x10000,
        exec_supported(op),
        op is CALL || op is RST || op is CALL_C || op is RET || op is RETI || op is RET_C
            || op is PUSH || op is POP,
    ensures
        (final(cpu)@, r as int) == control_spec(old(cpu)@, op, curr_addr as int),
        final(cpu)@.wf(),
        r < 0x10000,
{
    match op {
        OpCode::CALL(addr) | OpCode::RST(addr) => {
            stack_push(curr_addr as u16, cpu);
            addr as usize
        },
        OpCode::CALL_C(cond, addr) => if test_cond(cond, cpu) {
            stack_push(curr_addr as u16, cpu);
            addr as usize
        } else {
            curr_addr
        },
        OpCode::RET => stack_pop(cpu) as usize,
        OpCode::RETI => {
            let r = stack_pop(cpu) as usize;
            cpu.interrupt_master_enabled = true;
            r
        },
        OpCode::RET_C(cond) => if test_cond(cond, cpu) { stack_pop(cpu) as usize } else { curr_addr },
        OpCode::PUSH(reg) => {
            let val = read_multi_register(reg, cpu);
            stack_push(val, cpu);
            curr_addr
        },
        _ => {
            let val = stack_pop(cpu);
            match op {
                OpCode::POP(reg) => write_multi_register(reg, val, cpu),
                _ => {},
            }
            curr_addr
        },
    }
}

fn exec_bits(op: OpCode, cpu: &mut Cpu)
    requires
        old(cpu)@.wf(),
        exec_supported(op),
        is_bits_op(op),
    ensures
        final(cpu)@ == bits_spec(old(cpu)@, op),
        final(cpu)@.wf(),
{
    match op {
        OpCode::RL(reg) => rl(reg, true, cpu),
        OpCode::RLA => rl(Register::A, false, cpu),
        OpCode::RLC(reg) => rlc(reg, true, cpu),
        OpCode::RLCA => rlc(Register::A, false, cpu),
        OpCode::RR(reg) => rr(reg, true, cpu),
        OpCode::RRA => rr(Register::A, false, cpu),
        OpCode::RRC(reg) => rrc(reg, true, cpu),
        OpCode::RRCA => rrc(Register::A, false, cpu),
        OpCode::SRA(reg) => sra(reg, cpu),
        OpCode::SRL(reg) => srl(reg, cpu),
        OpCode::SLA(reg) => sla(reg, cpu),
        OpCode::SWAP(reg) => swap(reg, cpu),
        OpCode::BIT(bit_pos, reg) => bit(bit_pos, reg, cpu),
        OpCode::RES(pos, reg) => {
            let val = read_register(reg, cpu);
            proof {
                assert(pos < 8 ==> (1u8 << pos) <= 0x80) by (bit_vector);
            }
            let new_val = val & (0xFF - (1u8 << pos));
            write_register(reg, new_val, cpu);
        },
        OpCode::SET(pos, reg) => {
            let val = read_register(reg, cpu);
            write_register(reg, val | (1u8 << pos), cpu);
        },
        _ => {},
    }
}

fn exec_load(op: OpCode, curr_addr: usize, cpu: &mut Cpu)
    requires
        old(cpu)@.wf(),
        exec_supported(op),
        is_load_op(op),
    ensures
        final(cpu)@ == load_spec(old(cpu)@, op),
        final(cpu)@.wf(),
{
    match op {
        OpCode::LD(reg, val) => {
            ld(reg, val, curr_addr, cpu);
        },
        OpCode::LD_M(reg, val) => {
            ld_m(reg, val, curr_addr, cpu);
        },
        OpCode::LDHL_SP(val) => {
            ldhl_sp(val, curr_addr, cpu);
        },
        OpCode::LD_SP_HL => {
            cpu.sp = read_multi_register(Register::HL, cpu);
        },
        OpCode::LD_ADDR_SP(addr) => {
            let sp = cpu.sp;
            safe_write_address(addr as usize, (sp % 256) as u8, cpu);
            safe_write_address(addr.wrapping_add(1) as usize, (sp / 256) as u8, cpu);
        },
        OpCode::LD_R(to_reg, from_reg) => {
            ld_r(to_reg, from_reg, curr_addr, cpu);
        },
        _ => {},
    }
}

#[verifier::rlimit(40)]
fn exec_alu(op: OpCode, curr_addr: usize, cpu: &mut Cpu)
    requires
        old(cpu)@.wf(),
        exec_supported(op),
        !is_control_op(op) && !is_bits_op(op) && !is_load_op(op),
    ensures
        final(cpu)@ == alu_spec(old(cpu)@, op),
        final(cpu)@.wf(),
{
    match op {
        OpCode::DAA => {
            daa(curr_addr, cpu);
        },
        OpCode::XOR(reg) => xor_d8(read_register(reg, cpu), cpu),
        OpCode::XOR_d8(num) => xor_d8(num, cpu),
        OpCode::DEC_F(reg) => dec_u8(reg, cpu),
        OpCode::DEC(reg) => dec_u16(reg, cpu),
        OpCode::INC_F(reg) => inc_u8(reg, cpu),
        OpCode::INC(reg) => inc_u16(reg, cpu),
        OpCode::CP(reg) => cp(read_register(reg, cpu), cpu),
        OpCode::CP_d8(num) => cp(num, cpu),
        OpCode::SCF => scf(cpu),
        OpCode::CCF => ccf(cpu),
        OpCode::CPL => cpl(cpu),
        OpCode::AND(reg) => {
            a_and_val(read_register(reg, cpu), curr_addr, cpu);
        },
        OpCode::AND_d8(num) => {
            a_and_val(num, curr_addr, cpu);
        },
        OpCode::OR(reg) => {
            a_or_val(read_register(reg, cpu), curr_addr, cpu);
        },
        OpCode::OR_d8(num) => {
            a_or_val(num, curr_addr, cpu);
        },
        OpCode::ADD_r8(_, offset) => {
            add_to_sp(offset, curr_addr, cpu);
        },
        OpCode::ADD_d8(_, num) => {
            add_to_a(num, curr_addr, cpu);
        },
        OpCode::ADD(Register::HL, reg) => {
            add_to_hl(read_multi_register(reg, cpu), curr_addr, cpu);
        },
        OpCode::ADD(_, reg) => {
            add_to_a(read_register(reg, cpu), curr_addr, cpu);
        },
        OpCode::ADD_C(_, reg) => {
            addc_to_a(read_register(reg, cpu), curr_addr, cpu);
        },
        OpCode::ADD_C_d8(_, num) => {
            addc_to_a(num, curr_addr, cpu);
        },
        OpCode::SUB(reg) => {
            sub_from_a(read_register(reg, cpu), curr_addr, cpu);
        },
        OpCode::SUB_d8(num) => {
            sub_from_a(num, curr_addr, cpu);
        },
        OpCode::SUB_C(_, reg) => {
            subc_from_a(read_register(reg, cpu), curr_addr, cpu);
        },
        OpCode::SUB_C_d8(_, num) => {
            subc_from_a(num, curr_addr, cpu);
        },
        _ => {},
    }
}

/// Executes a decoded instruction; `curr_addr` is the address after it.
/// Returns the extra cycles of a taken branch and the next address.
pub fn exec_instr(op: OpCode, curr_addr: usize, cpu: &mut Cpu) -> (r: (usize, usize))
    requires
        old(cpu)@.wf(),
        curr_addr < 0x10000,
        exec_supported(op),
    ensures
        r.0 == cycle_penalty(old(cpu)@, op),
        (final(cpu)@, r.1 as int) == exec_spec(old(cpu)@, op, curr_addr as int),
        r.1 < 0x10000,
        final(cpu)@.wf(),
{
    let offset = cycle_offset(op, cpu);
    if is_control(op) {
        let new_addr = exec_control(op, curr_addr, cpu);
        (offset, new_addr)
    } else if is_bits(op) {
        exec_bits(op, cpu);
        (offset, curr_addr)
    } else if is_load(op) {
        exec_load(op, curr_addr, cpu);
        (offset, curr_addr)
    } else {
        exec_alu(op, curr_addr, cpu);
        (offset, curr_addr)
    }
}

fn is_control(op: OpCode) -> (r: bool)
    ensures
        r == is_control_op(op),
{
    matches!(op, OpCode::JP(_) | OpCode::JP_C(_, _) | OpCode::JP_HL | OpCode::JR(_) | OpCode::JR_C(_, _)
        | OpCode::CALL(_) | OpCode::RST(_) | OpCode::CALL_C(_, _) | OpCode::RET | OpCode::RETI
        | OpCode::RET_C(_) | OpCode::PUSH(_) | OpCode::POP(_) | OpCode::DI | OpCode::EI
        | OpCode::HALT | OpCode::NOP)
}

fn is_bits(op: OpCode) -> (r: bool)
    ensures
        r == is_bits_op(op),
{
    matches!(op, OpCode::RL(_) | OpCode::RLA | OpCode::RLC(_) | OpCode::RLCA | OpCode::RR(_)
        | OpCode::RRA | OpCode::RRC(_) | OpCode::RRCA | OpCode::SRA(_) | OpCode::SRL(_)
        | OpCode::SLA(_) | OpCode::SWAP(_) | OpCode::BIT(_, _) | OpCode::RES(_, _) | OpCode::SET(_, _))
}

fn is_load(op: OpCode) -> (r: bool)
    ensures
        r == is_load_op(op),
{
    matches!(op, OpCode::LD(_, _) | OpCode::LD_M(_, _) | OpCode::LD_R(_, _) | OpCode::LDHL_SP(_)
        | OpCode::LD_SP_HL | OpCode::LD_ADDR_SP(_))
}

} // verus!
