use gamecrab::cpu::Cpu;
use gamecrab::flag::{bool_set, flag_bit, is_set, mod_flags, Flag};
use gamecrab::instr::{
    add_to_a, add_to_hl, add_to_sp, addc_to_a, cp, daa, dec_u8, exec_instr, inc_u8, ldhl_sp,
    sub_from_a, subc_from_a,
};
use gamecrab::opcode::OpCode;
use gamecrab::register::{read_multi_register, write_multi_register, Register};
use gamecrab::utility::wrapping_off_u16_i8;

fn cpu_with_a(a: u8) -> Cpu {
    let mut cpu = Cpu::default();
    cpu.a = a;
    cpu
}

#[test]
fn add_half_carry_and_carry() {
    let mut cpu = cpu_with_a(0x0F);
    add_to_a(0x01, 0, &mut cpu);
    assert_eq!(cpu.a, 0x10);
    assert_eq!(cpu.f, 0x20);
    let mut cpu = cpu_with_a(0xFF);
    add_to_a(0x01, 0, &mut cpu);
    assert_eq!(cpu.a, 0x00);
    assert_eq!(cpu.f, 0xB0);
    let mut cpu = cpu_with_a(0x12);
    add_to_a(0x34, 0, &mut cpu);
    assert_eq!((cpu.a, cpu.f), (0x46, 0x00));
}

#[test]
fn add_flags_exhaustive() {
    for a in 0..=255u8 {
        for b in [0u8, 1, 0x0F, 0x10, 0x7F, 0x80, 0xF1, 0xFF] {
            let mut cpu = cpu_with_a(a);
            add_to_a(b, 0, &mut cpu);
            let h = (a & 0xF) + (b & 0xF) >= 0x10;
            let c = a as u16 + b as u16 >= 0x100;
            assert_eq!(is_set(Flag::H, &cpu), h);
            assert_eq!(is_set(Flag::C, &cpu), c);
            assert_eq!(cpu.a, a.wrapping_add(b));
        }
    }
}

#[test]
fn sub_flags_exhaustive() {
    for a in 0..=255u8 {
        for b in [0u8, 1, 0x0F, 0x10, 0x7F, 0x80, 0xF1, 0xFF] {
            let mut cpu = cpu_with_a(a);
            sub_from_a(b, 0, &mut cpu);
            assert_eq!(is_set(Flag::H, &cpu), (a & 0xF) < (b & 0xF));
            assert_eq!(is_set(Flag::C, &cpu), a < b);
            assert!(is_set(Flag::N, &cpu));
            assert_eq!(cpu.a, a.wrapping_sub(b));
        }
    }
}

#[test]
fn carry_in_variants() {
    let mut cpu = cpu_with_a(0x0E);
    cpu.f = 0x10;
    addc_to_a(0x01, 0, &mut cpu);
    assert_eq!((cpu.a, cpu.f), (0x10, 0x20));
    let mut cpu = cpu_with_a(0x10);
    cpu.f = 0x10;
    subc_from_a(0x0F, 0, &mut cpu);
    assert_eq!((cpu.a, cpu.f), (0x00, 0xE0));
}

#[test]
fn compare_keeps_a() {
    let mut cpu = cpu_with_a(0x3C);
    cp(0x40, &mut cpu);
    assert_eq!(cpu.a, 0x3C);
    assert_eq!(cpu.f, 0x50);
    cp(0x3C, &mut cpu);
    assert_eq!(cpu.f, 0xC0);
}

fn bcd(x: u8) -> u8 {
    (x / 10) * 16 + x % 10
}

#[test]
fn daa_after_add_and_sub_gives_bcd() {
    for x in 0..100u8 {
        for y in 0..100u8 {
            let mut cpu = cpu_with_a(bcd(x));
            add_to_a(bcd(y), 0, &mut cpu);
            daa(0, &mut cpu);
            assert_eq!(cpu.a, bcd(((x as u16 + y as u16) % 100) as u8));
            assert_eq!(is_set(Flag::C, &cpu), x as u16 + y as u16 >= 100);
            let mut cpu = cpu_with_a(bcd(x));
            sub_from_a(bcd(y), 0, &mut cpu);
            daa(0, &mut cpu);
            assert_eq!(cpu.a, bcd(((x as i16 - y as i16 + 100) % 100) as u8));
        }
    }
}

#[test]
fn daa_example() {
    let mut cpu = cpu_with_a(0x45);
    add_to_a(0x38, 0, &mut cpu);
    assert_eq!(cpu.a, 0x7D);
    daa(0, &mut cpu);
    assert_eq!(cpu.a, 0x83);
}

#[test]
fn inc_dec_keep_carry() {
    let mut cpu = Cpu::default();
    cpu.f = 0x10;
    cpu.b = 0x0F;
    inc_u8(Register::B, &mut cpu);
    assert_eq!((cpu.b, cpu.f), (0x10, 0x30));
    cpu.c = 0x01;
    dec_u8(Register::C, &mut cpu);
    assert_eq!((cpu.c, cpu.f), (0x00, 0xD0));
}

#[test]
fn sixteen_bit_arithmetic() {
    let mut cpu = Cpu::default();
    write_multi_register(Register::HL, 0x0FFF, &mut cpu);
    add_to_hl(0x0001, 0, &mut cpu);
    assert_eq!(read_multi_register(Register::HL, &cpu), 0x1000);
    assert_eq!(cpu.f, 0x20);
    cpu.sp = 0x00FF;
    add_to_sp(1, 0, &mut cpu);
    assert_eq!(cpu.sp, 0x0100);
    assert_eq!(cpu.f & 0x30, 0x30);
    cpu.sp = 0xFFF8;
    ldhl_sp(2, 0, &mut cpu);
    assert_eq!(read_multi_register(Register::HL, &cpu), 0xFFFA);
    assert_eq!(cpu.sp, 0xFFF8);
}

#[test]
fn rotations_through_executor() {
    let mut cpu = cpu_with_a(0x80);
    exec_instr(OpCode::RLCA, 0, &mut cpu);
    assert_eq!((cpu.a, cpu.f), (0x01, 0x10));
    let mut cpu = cpu_with_a(0x80);
    exec_instr(OpCode::SLA(Register::A), 0, &mut cpu);
    assert_eq!((cpu.a, cpu.f), (0x00, 0x90));
    let mut cpu = cpu_with_a(0x81);
    exec_instr(OpCode::SRA(Register::A), 0, &mut cpu);
    assert_eq!((cpu.a, cpu.f), (0xC0, 0x10));
    let mut cpu = cpu_with_a(0xF1);
    exec_instr(OpCode::SWAP(Register::A), 0, &mut cpu);
    assert_eq!((cpu.a, cpu.f), (0x1F, 0x00));
    let mut cpu = cpu_with_a(0x01);
    cpu.f = 0x10;
    exec_instr(OpCode::RRA, 0, &mut cpu);
    assert_eq!((cpu.a, cpu.f), (0x80, 0x10));
}

#[test]
fn loads_with_hl_step() {
    let mut cpu = Cpu::default();
    write_multi_register(Register::HL, 0xC010, &mut cpu);
    cpu.a = 0x5C;
    exec_instr(OpCode::LD_R(Register::HLP, Register::A), 0, &mut cpu);
    assert_eq!(cpu.memory[0xC010], 0x5C);
    assert_eq!(read_multi_register(Register::HL, &cpu), 0xC011);
    exec_instr(OpCode::LD_R(Register::A, Register::HLM), 0, &mut cpu);
    assert_eq!(read_multi_register(Register::HL, &cpu), 0xC010);
    exec_instr(OpCode::LD_ADDR_SP(0xC020), 0, &mut cpu);
    assert_eq!(cpu.memory[0xC020], 0x00);
    exec_instr(OpCode::POP(Register::AF), 0, &mut cpu);
    assert_eq!(cpu.f & 0x0F, 0);
}

#[test]
fn flag_helpers() {
    let mut cpu = Cpu::default();
    bool_set(Flag::Z, true, &mut cpu);
    assert_eq!(cpu.f, 0x80);
    mod_flags(((Flag::N, true), (Flag::H, true), (Flag::Z, false)), &mut cpu);
    assert_eq!(cpu.f, 0x60);
    assert_eq!(flag_bit(Flag::C), 0x10);
}

#[test]
fn signed_offsets_wrap() {
    assert_eq!(wrapping_off_u16_i8(0x0000, -1), 0xFFFF);
    assert_eq!(wrapping_off_u16_i8(0xFFFF, 1), 0x0000);
    assert_eq!(wrapping_off_u16_i8(0x1000, -128), 0x0F80);
    assert_eq!(wrapping_off_u16_i8(0x1000, 127), 0x107F);
}
