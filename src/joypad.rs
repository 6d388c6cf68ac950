use vstd::prelude::*;

verus! {

/// The keyboard keys the emulator responds to.
#[derive(Debug, Clone, Copy, PartialEq, Eq, Structural)]
pub enum Key {
    A,
    S,
    D,
    F,
    J,
    K,
    H,
    L,
    O,
    D1,
    D2,
    D3,
    D4,
    Other,
}

/// The joypad bit a key drives: the low nibble holds the buttons (Start on
/// A, Select on S, B on D, A on F), the high nibble the directions (Down on
/// J, Up on K, Left on H, Right on L).
pub open spec fn key_pos(key: Key) -> Option<u8> {
    match key {
        Key::A => Some(3u8),
        Key::S => Some(2u8),
        Key::D => Some(1u8),
        Key::F => Some(0u8),
        Key::J => Some(7u8),
        Key::K => Some(6u8),
        Key::H => Some(5u8),
        Key::L => Some(4u8),
        _ => None,
    }
}

/// Whether the key is a joypad key, and the mask of its bit in `keys`.
pub fn joypad_bit(key: Key) -> (r: (bool, u8))
    ensures
        r.0 == key_pos(key) is Some,
        r.0 ==> r.1 == 1u8 << key_pos(key).unwrap(),
{
    let pos: u8 = match key {
        Key::A => 3,
        Key::S => 2,
        Key::D => 1,
        Key::F => 0,
        Key::J => 7,
        Key::K => 6,
        Key::H => 5,
        Key::L => 4,
        _ => 8,
    };
    (pos != 8, 1u8 << (pos % 8))
}

} // verus!
