use gamecrab::apu::{sample_len_arr, step_envelope, step_length};
use gamecrab::cpu::{read_joypad, safe_read_address, safe_write_address, Cpu};
use gamecrab::joypad::{joypad_bit, Key};
use gamecrab::keyboard::{handle_key_release, handle_keypress};
use gamecrab::lcd::{
    increment_ly, read_stat_address, screen_mode_val, update_status, stat_bit, write_stat_address, ScreenMode, LCDC, STAT,
};

#[test]
fn joypad_selects_nibble() {
    let mut cpu = Cpu::default();
    handle_keypress(Key::F, &mut cpu);
    handle_keypress(Key::J, &mut cpu);
    assert_eq!(cpu.keys, 0x7E);
    safe_write_address(0xFF00, 0x10, &mut cpu);
    assert_eq!(read_joypad(&cpu), 0x1E);
    safe_write_address(0xFF00, 0x20, &mut cpu);
    assert_eq!(safe_read_address(0xFF00, &cpu), 0x27);
    handle_key_release(Key::F, &mut cpu);
    assert_eq!(cpu.keys, 0x7F);
}

#[test]
fn keypress_modes_and_load() {
    let mut cpu = Cpu::default();
    assert!(handle_keypress(Key::O, &mut cpu));
    cpu.cart_loaded = true;
    assert!(!handle_keypress(Key::O, &mut cpu));
    for _ in 0..4 {
        handle_keypress(Key::D1, &mut cpu);
    }
    assert_eq!(cpu.background_mode, 1);
    assert_eq!(cpu.keys, 0xFF);
    assert_eq!(joypad_bit(Key::A), (true, 0x08));
    assert!(!joypad_bit(Key::Other).0);
}

#[test]
fn stat_register_views() {
    let mut cpu = Cpu::default();
    cpu.memory[0xFF41] = 0x06;
    assert_eq!(read_stat_address(&cpu), 0x80);
    cpu.memory[0xFF40] = 0x80;
    assert_eq!(read_stat_address(&cpu), 0x86);
    write_stat_address(0xFF, &mut cpu);
    assert_eq!(cpu.memory[0xFF41], 0xFE);
    ScreenMode::Transferring.set(&mut cpu);
    assert!(ScreenMode::Transferring.is_set(&cpu));
    assert!(LCDC::Power.is_set(&cpu));
    assert!(!LCDC::BGEnable.is_set(&cpu));
    assert_eq!(screen_mode_val(ScreenMode::VBlank), 1);
    assert_eq!(stat_bit(STAT::LYLYCCheck), 0x40);
    assert_eq!(stat_bit(STAT::SM(ScreenMode::HBlank)), 0x03);
    assert_eq!(ScreenMode::Searching.val(), 2);
    assert_eq!(ScreenMode::HBlank.stat_mask(), 3);
}

#[test]
fn sound_register_side_effects() {
    let mut cpu = Cpu::default();
    safe_write_address(0xFF11, 0x3F, &mut cpu);
    assert_eq!(cpu.apu.channel_1.counter, 1);
    safe_write_address(0xFF12, 0xF3, &mut cpu);
    assert_eq!(cpu.apu.channel_1.volume, 0x0F);
    assert_eq!(cpu.apu.channel_1.envelope_period, 3);
    safe_write_address(0xFF14, 0x80, &mut cpu);
    assert!(cpu.apu.channel_1.enabled);
    assert_eq!(cpu.apu.channel_1.counter, 64);
    assert_eq!(cpu.apu.channel_1.envelope_pos, 3);
    cpu.memory[0xFF22] = 0x21;
    cpu.memory[0xFF21] = 0x80;
    safe_write_address(0xFF23, 0x80, &mut cpu);
    assert_eq!(cpu.apu.channel_4.freq_pos, 16 << 2);
    assert_eq!(cpu.apu.channel_4.lfsr, 0x7FFF);
    cpu.memory[0xFF1D] = 0x05;
    safe_write_address(0xFF1E, 0x80, &mut cpu);
    assert_eq!(cpu.apu.channel_3_pos, 2 * ((2048 - 0x05) % 128));
    safe_write_address(0xFF04, 0x55, &mut cpu);
    assert_eq!(cpu.memory[0xFF04], 0);
}

#[test]
fn sample_lengths() {
    let arr = sample_len_arr();
    assert_eq!(arr[0], 87);
    assert_eq!(arr[1], 86);
    assert_eq!(arr[4], 87);
    assert_eq!(arr[12], 87);
    assert_eq!(arr[8], 86);
    assert_eq!(arr[128], 87);
}

#[test]
fn line_counter_and_interrupts() {
    let mut cpu = Cpu::default();
    cpu.interrupt_master_enabled = true;
    cpu.memory[0xFF44] = 143;
    cpu.memory[0xFF45] = 144;
    cpu.memory[0xFF41] = 0x40;
    increment_ly(&mut cpu);
    assert_eq!(cpu.memory[0xFF44], 144);
    assert_eq!(cpu.memory[0xFF0F], 0x03);
    assert_eq!(cpu.memory[0xFF41] & 0x04, 0x04);
    cpu.memory[0xFF44] = 153;
    increment_ly(&mut cpu);
    assert_eq!(cpu.memory[0xFF44], 0);
    assert_eq!(cpu.memory[0xFF41] & 0x04, 0);
}

#[test]
fn status_follows_line_position() {
    let mut cpu = Cpu::default();
    cpu.memory[0xFF40] = 0x80;
    update_status(300, &mut cpu);
    assert!(ScreenMode::Transferring.is_set(&cpu));
    update_status(456 + 250, &mut cpu);
    assert!(ScreenMode::Searching.is_set(&cpu));
    cpu.memory[0xFF44] = 150;
    update_status(10, &mut cpu);
    assert!(ScreenMode::VBlank.is_set(&cpu));
}

#[test]
fn length_and_envelope_clocks() {
    let mut cpu = Cpu::default();
    cpu.apu.channel_1.enabled = true;
    cpu.apu.channel_1.counter = 1;
    cpu.memory[0xFF14] = 0x40;
    step_length(&mut cpu);
    assert!(cpu.apu.channel_1.enabled);
    assert_eq!(cpu.apu.channel_1.counter, 0);
    step_length(&mut cpu);
    assert!(!cpu.apu.channel_1.enabled);
    cpu.apu.channel_2.enabled = true;
    cpu.apu.channel_2.envelope_period = 2;
    cpu.apu.channel_2.incr_vol = true;
    cpu.apu.channel_2.volume = 5;
    step_envelope(&mut cpu);
    assert_eq!((cpu.apu.channel_2.volume, cpu.apu.channel_2.envelope_pos), (6, 2));
    step_envelope(&mut cpu);
    assert_eq!((cpu.apu.channel_2.volume, cpu.apu.channel_2.envelope_pos), (6, 1));
}

#[test]
fn sweep_frequency_targets() {
    let mut cpu = Cpu::default();
    cpu.apu.channel_1_shadow_freq = 0x400;
    assert_eq!(cpu.apu.freq_sweep(1, false), 0x600);
    assert_eq!(cpu.apu.freq_sweep(2, true), 0x300);
    assert_eq!(cpu.apu.freq_sweep(0, true), 0);
}
