use vstd::prelude::*;
use crate::cpu::Cpu;
use crate::joypad::{Key, key_pos, joypad_bit};

verus! {

/// A released joypad key reads 1 again (the joypad is active-low).
pub fn handle_key_release(key: Key, cpu: &mut Cpu)
    ensures
        key_pos(key) is Some ==> final(cpu).keys == old(cpu).keys | (1u8 << key_pos(key).unwrap()),
        key_pos(key) is None ==> final(cpu).keys == old(cpu).keys,
        final(cpu)@ == (crate::cpu::CpuView { keys: final(cpu).keys, ..old(cpu)@ }),
{
    let (handle_key, bit_mask) = joypad_bit(key);
    if handle_key {
        cpu.keys = cpu.keys | bit_mask;
    }
}

/// A pressed joypad key reads 0; keys 1, 2 and 3 cycle the background,
/// window and sprite display modes through 0, 1, 2. Returns whether the key
/// asks for a cartridge to be loaded (O, while none is).
pub fn handle_keypress(key: Key, cpu: &mut Cpu) -> (load_requested: bool)
    ensures
        load_requested == (!old(cpu).cart_loaded && key == Key::O),
        key_pos(key) is Some ==> final(cpu).keys == old(cpu).keys & !(1u8 << key_pos(key).unwrap()),
        key_pos(key) is None ==> final(cpu).keys == old(cpu).keys,
        final(cpu).background_mode == if key == Key::D1 {
            ((old(cpu).background_mode + 1) % 3) as u8
        } else {
            old(cpu).background_mode
        },
        final(cpu).window_mode == if key == Key::D2 {
            ((old(cpu).window_mode + 1) % 3) as u8
        } else {
            old(cpu).window_mode
        },
        final(cpu).sprite_mode == if key == Key::D3 {
            ((old(cpu).sprite_mode + 1) % 3) as u8
        } else {
            old(cpu).sprite_mode
        },
        final(cpu)@ == (crate::cpu::CpuView {
            keys: final(cpu).keys,
            background_mode: final(cpu).background_mode,
            window_mode: final(cpu).window_mode,
            sprite_mode: final(cpu).sprite_mode,
            ..old(cpu)@
        }),
{
    let load_requested = !cpu.cart_loaded && matches!(key, Key::O);
    match key {
        Key::D1 => {
            cpu.background_mode = ((cpu.background_mode as u16 + 1) % 3) as u8;
        },
        Key::D2 => {
            cpu.window_mode = ((cpu.window_mode as u16 + 1) % 3) as u8;
        },
        Key::D3 => {
            cpu.sprite_mode = ((cpu.sprite_mode as u16 + 1) % 3) as u8;
        },
        _ => {},
    };
    let (handle_key, bit_mask) = joypad_bit(key);
    if handle_key {
        cpu.keys = cpu.keys & !bit_mask;
    }
    load_requested
}

} // verus!
