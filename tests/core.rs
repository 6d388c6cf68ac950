use gamecrab::cpu::{
    read_address, safe_read_address, safe_write_address, stack_pop, stack_push, Cpu,
};
use gamecrab::instr::exec_instr;
use gamecrab::interrupt::{exec_halt_interrupts, exec_interrupts, Interrupt};
use gamecrab::opcode::{lookup_op, opcode_is_defined, Cond, OpCode};
use gamecrab::register::Register;

fn fresh() -> Cpu {
    Cpu::default()
}

fn load_at(cpu: &mut Cpu, addr: usize, bytes: &[u8]) {
    for (i, b) in bytes.iter().enumerate() {
        cpu.memory[addr + i] = *b;
    }
}

#[test]
fn decode_nop_anywhere() {
    let mut cpu = fresh();
    for addr in [0xC000usize, 0xC123, 0xFF90] {
        load_at(&mut cpu, addr, &[0x00]);
        assert_eq!(lookup_op(addr, &cpu), (1, OpCode::NOP, 4));
    }
}

#[test]
fn decode_and_execute_ld_a_d8() {
    let mut cpu = fresh();
    load_at(&mut cpu, 0xC000, &[0x3E, 0x42]);
    let (len, op, cycles) = lookup_op(0xC000, &cpu);
    assert_eq!((len, op, cycles), (2, OpCode::LD(Register::A, 0x42), 8));
    let (penalty, next) = exec_instr(op, 0xC000 + len, &mut cpu);
    assert_eq!(cpu.a, 0x42);
    assert_eq!(penalty, 0);
    assert_eq!(next, 0xC002);
}

#[test]
fn bit_7_h_sets_or_clears_z() {
    let mut cpu = fresh();
    load_at(&mut cpu, 0xC000, &[0xCB, 0x7C]);
    let (len, op, cycles) = lookup_op(0xC000, &cpu);
    assert_eq!((len, op, cycles), (2, OpCode::BIT(7, Register::H), 8));
    cpu.h = 0x80;
    exec_instr(op, 0xC002, &mut cpu);
    assert_eq!(cpu.f & 0x80, 0);
    cpu.h = 0x00;
    exec_instr(op, 0xC002, &mut cpu);
    assert_eq!(cpu.f & 0x80, 0x80);
    // H is set and N cleared by BIT
    assert_eq!(cpu.f & 0x60, 0x20);
}

#[test]
fn decode_cb_family_and_cost() {
    let mut cpu = fresh();
    load_at(&mut cpu, 0xC000, &[0xCB, 0x36]);
    assert_eq!(lookup_op(0xC000, &cpu), (2, OpCode::SWAP(Register::HL_ADDR), 16));
    load_at(&mut cpu, 0xC000, &[0xCB, 0xC7]);
    assert_eq!(lookup_op(0xC000, &cpu), (2, OpCode::SET(0, Register::A), 8));
    load_at(&mut cpu, 0xC000, &[0xCB, 0x9A]);
    assert_eq!(lookup_op(0xC000, &cpu), (2, OpCode::RES(3, Register::D), 8));
}

#[test]
fn decode_wide_operands_and_branches() {
    let mut cpu = fresh();
    load_at(&mut cpu, 0xC000, &[0xC3, 0x34, 0x12]);
    assert_eq!(lookup_op(0xC000, &cpu), (3, OpCode::JP(0x1234), 16));
    load_at(&mut cpu, 0xC000, &[0x20, 0xFE]);
    assert_eq!(lookup_op(0xC000, &cpu), (2, OpCode::JR_C(Cond::NZ, -2), 8));
    load_at(&mut cpu, 0xC000, &[0xE0, 0x40]);
    assert_eq!(
        lookup_op(0xC000, &cpu),
        (2, OpCode::LD_R(Register::ADDR(0xFF40), Register::A), 12)
    );
    load_at(&mut cpu, 0xC000, &[0x76]);
    assert_eq!(lookup_op(0xC000, &cpu), (0, OpCode::HALT, 4));
    load_at(&mut cpu, 0xC000, &[0xF5]);
    assert_eq!(lookup_op(0xC000, &cpu), (1, OpCode::PUSH(Register::AF), 16));
    load_at(&mut cpu, 0xC000, &[0xFF]);
    assert_eq!(lookup_op(0xC000, &cpu), (1, OpCode::RST(0x38), 16));
}

#[test]
fn undefined_opcodes_are_flagged() {
    assert!(!opcode_is_defined(0xD3));
    assert!(!opcode_is_defined(0xFD));
    assert!(opcode_is_defined(0x00));
    assert!(opcode_is_defined(0xCB));
}

#[test]
fn taken_branch_costs_extra() {
    let mut cpu = fresh();
    cpu.f = 0x00; // Z clear
    let (penalty, next) = exec_instr(OpCode::JR_C(Cond::NZ, -2), 0xC002, &mut cpu);
    assert_eq!((penalty, next), (4, 0xC000));
    cpu.f = 0x80;
    let (penalty, next) = exec_instr(OpCode::JR_C(Cond::NZ, -2), 0xC002, &mut cpu);
    assert_eq!((penalty, next), (0, 0xC002));
}

#[test]
fn call_and_ret_round_trip() {
    let mut cpu = fresh();
    cpu.sp = 0xFFFE;
    let (_, next) = exec_instr(OpCode::CALL(0x1234), 0xC003, &mut cpu);
    assert_eq!(next, 0x1234);
    assert_eq!(cpu.sp, 0xFFFC);
    let (_, back) = exec_instr(OpCode::RET, 0x1235, &mut cpu);
    assert_eq!(back, 0xC003);
    assert_eq!(cpu.sp, 0xFFFE);
}

#[test]
fn interrupt_dispatch_vblank() {
    let mut cpu = fresh();
    cpu.sp = 0xFFFE;
    cpu.interrupt_master_enabled = true;
    cpu.memory[0xFF0F] = 0x01;
    cpu.memory[0xFFFF] = 0x01;
    let next = exec_interrupts(0x1234, &mut cpu);
    assert_eq!(next, 0x40);
    assert_eq!(cpu.memory[0xFF0F] & 0x01, 0);
    assert!(!cpu.interrupt_master_enabled);
    assert_eq!(stack_pop(&mut cpu), 0x1234);
}

#[test]
fn interrupt_priority_and_masking() {
    let mut cpu = fresh();
    cpu.sp = 0xFFFE;
    cpu.interrupt_master_enabled = true;
    cpu.memory[0xFF0F] = 0x14; // Timer and Joypad
    cpu.memory[0xFFFF] = 0x10; // only Joypad enabled
    assert_eq!(exec_interrupts(0x200, &mut cpu), 0x60);
    cpu.interrupt_master_enabled = false;
    cpu.memory[0xFF0F] = 0x04;
    cpu.memory[0xFFFF] = 0x04;
    assert_eq!(exec_interrupts(0x300, &mut cpu), 0x300);
}

#[test]
fn halt_wakes_without_ime() {
    let mut cpu = fresh();
    cpu.halted = true;
    cpu.memory[0xFF0F] = 0x04;
    cpu.memory[0xFFFF] = 0x04;
    assert_eq!(exec_halt_interrupts(0x150, &mut cpu), 0x151);
    assert!(!cpu.halted);
}

#[test]
fn request_sets_bit() {
    let mut cpu = fresh();
    Interrupt::Serial.request(&mut cpu);
    assert_eq!(cpu.memory[0xFF0F], 0x08);
    assert_eq!(Interrupt::Joypad.bit_pos(), 4);
    assert_eq!(Interrupt::LCD.interrupt_address(), 0x48);
}

#[test]
fn timer_overflow_reloads_and_requests() {
    let mut cpu = fresh();
    cpu.memory[0xFF07] = 0x05;
    cpu.memory[0xFF05] = 0xFF;
    cpu.memory[0xFF06] = 0xAB;
    cpu.inc_clocks(16);
    assert_eq!(cpu.memory[0xFF05], 0xAB);
    assert_eq!(cpu.memory[0xFF0F] & 0x04, 0x04);
}

#[test]
fn timer_counts_and_divider() {
    let mut cpu = fresh();
    cpu.memory[0xFF07] = 0x05;
    cpu.inc_clocks(40);
    assert_eq!(cpu.memory[0xFF05], 2);
    assert_eq!(cpu.curr_freq_clocks, 8);
    cpu.inc_clocks(300);
    assert_eq!(cpu.memory[0xFF04], 1);
    assert_eq!(cpu.curr_clocks, 84);
    cpu.memory[0xFF07] = 0x00;
    cpu.inc_clocks(4);
    assert_eq!(cpu.curr_freq_clocks, 0);
}

#[test]
fn bank_zero_quirk_all_high_settings() {
    let mut cpu = fresh();
    let mut rom = vec![0u8; 128 * 0x4000];
    for bank in 0..128usize {
        rom[bank * 0x4000] = bank as u8;
    }
    cpu.cart_rom = rom;
    cpu.mbc_1 = true;
    for hi in 0..4u8 {
        for lo in [0x00u8, 0x20, 0x40, 0x60] {
            safe_write_address(0x4000, hi, &mut cpu);
            safe_write_address(0x2000, lo, &mut cpu);
            let expected = (hi as usize) * 0x20 + 1;
            assert_eq!(read_address(0x4000, &cpu) as usize, expected);
        }
    }
    safe_write_address(0x2000, 0x05, &mut cpu);
    safe_write_address(0x4000, 0x01, &mut cpu);
    assert_eq!(read_address(0x4000, &cpu), 0x25);
}

#[test]
fn echo_ram_mirrors_boundaries() {
    let mut cpu = fresh();
    safe_write_address(0xC000, 0x11, &mut cpu);
    assert_eq!(safe_read_address(0xE000, &cpu), 0x11);
    safe_write_address(0xDDFF, 0x22, &mut cpu);
    assert_eq!(safe_read_address(0xFDFF, &cpu), 0x22);
    safe_write_address(0xE000, 0x33, &mut cpu);
    assert_eq!(safe_read_address(0xC000, &cpu), 0x33);
    safe_write_address(0xFDFF, 0x44, &mut cpu);
    assert_eq!(safe_read_address(0xDDFF, &cpu), 0x44);
}

#[test]
fn stack_push_pop_round_trip() {
    let mut cpu = fresh();
    for sp in [0xFFFEu16, 0xD000, 0xE002, 0x0000] {
        cpu.sp = sp;
        stack_push(0xBEEF, &mut cpu);
        assert_eq!(cpu.sp, sp.wrapping_sub(2));
        assert_eq!(stack_pop(&mut cpu), 0xBEEF);
        assert_eq!(cpu.sp, sp);
    }
}

#[test]
fn rom_writes_are_commands() {
    let mut cpu = fresh();
    cpu.mbc_1_ram = true;
    safe_write_address(0x0000, 0x0A, &mut cpu);
    assert!(cpu.ram_enabled);
    safe_write_address(0x6000, 0x01, &mut cpu);
    assert!(cpu.ram_banking_mode);
    safe_write_address(0x4000, 0x02, &mut cpu);
    safe_write_address(0xA010, 0x5A, &mut cpu);
    assert_eq!(cpu.ram_memory[0x2 * 0x2000 + 0x10], 0x5A);
    assert_eq!(read_address(0xA010, &cpu), 0x5A);
    safe_write_address(0x0000, 0x00, &mut cpu);
    assert_eq!(read_address(0xA010, &cpu), 0);
}

#[test]
fn vram_and_oam_contention() {
    let mut cpu = fresh();
    cpu.memory[0xFF40] = 0x80;
    cpu.memory[0xFF41] = 0x03; // transferring
    safe_write_address(0x8000, 0x77, &mut cpu);
    assert_eq!(cpu.memory[0x8000], 0);
    assert_eq!(safe_read_address(0x8000, &cpu), 0xFF);
    assert_eq!(safe_read_address(0xFE00, &cpu), 0xFF);
    cpu.memory[0xFF41] = 0x00; // hblank
    safe_write_address(0xFE00, 0x12, &mut cpu);
    assert_eq!(safe_read_address(0xFE00, &cpu), 0x12);
}

#[test]
fn dma_copies_and_locks_out() {
    let mut cpu = fresh();
    for i in 0..0xA0usize {
        cpu.memory[0xC100 + i] = i as u8;
    }
    safe_write_address(0xFF46, 0xC1, &mut cpu);
    assert_eq!(cpu.memory[0xFE00], 0);
    assert_eq!(cpu.memory[0xFE9F], 0x9F);
    assert_eq!(cpu.dma_transfer_cycles_left, 648);
    assert_eq!(safe_read_address(0xC100, &cpu), 0xFF);
    safe_write_address(0xFF80, 0x99, &mut cpu);
    assert_eq!(safe_read_address(0xFF80, &cpu), 0x99);
    safe_write_address(0xC000, 0x99, &mut cpu);
    assert_eq!(cpu.memory[0xC000], 0);
}

#[test]
fn boot_register_unmaps_boot_rom() {
    let mut cpu = fresh();
    cpu.boot_rom = vec![0x31; 0x100];
    let mut cart = vec![0u8; 0x8000];
    cart[0] = 0xC3;
    cart[0x147] = 0x02;
    cpu.cart_rom = cart;
    assert_eq!(read_address(0x0000, &cpu), 0x31);
    safe_write_address(0xFF50, 0x01, &mut cpu);
    assert!(cpu.has_booted);
    assert!(cpu.mbc_1 && cpu.mbc_1_ram && !cpu.mbc_1_battery);
    assert_eq!(read_address(0x0000, &cpu), 0xC3);
}
