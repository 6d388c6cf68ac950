use vstd::prelude::*;

verus! {

/// `u_num + i_num`, wrapping modulo 2^16.
pub open spec fn offset_u16(u_num: u16, i_num: i8) -> u16 {
    ((u_num as int + i_num as int) % 0x10000) as u16
}

/// Adds a signed 8-bit displacement to a 16-bit value, wrapping around.
pub fn wrapping_off_u16_i8(u_num: u16, i_num: i8) -> (r: u16)
    ensures
        r == offset_u16(u_num, i_num),
{
    if i_num < 0 {
        let mag: u16 = (0 - (i_num as i16)) as u16;
        u_num.wrapping_sub(mag)
    } else {
        u_num.wrapping_add(i_num as u16)
    }
}

} // verus!
