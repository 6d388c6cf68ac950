use vstd::prelude::*;
use crate::cpu::{Cpu, CpuView};
use crate::register::{Register, read_register, write_register};

verus! {

/// The four condition flags held in the high nibble of F.
#[derive(Debug, Clone, Copy, PartialEq, Eq, Structural)]
pub enum Flag {
    Z,
    N,
    H,
    C,
}

pub open spec fn flag_mask(flag: Flag) -> u8 {
    match flag {
        Flag::Z => 0x80,
        Flag::N => 0x40,
        Flag::H => 0x20,
        Flag::C => 0x10,
    }
}

/// Whether `flag` is set in the flag byte `f`.
pub open spec fn flag_of(f: u8, flag: Flag) -> bool {
    f & flag_mask(flag) != 0
}

/// `f` with `flag` set to `b`.
pub open spec fn with_flag(f: u8, flag: Flag, b: bool) -> u8 {
    if b {
        f | flag_mask(flag)
    } else {
        f & !flag_mask(flag)
    }
}

/// The flag byte holding exactly the given flags (the low nibble is zero).
pub open spec fn flags_byte(z: bool, n: bool, h: bool, c: bool) -> u8 {
    ((if z { 0x80int } else { 0 }) + (if n { 0x40int } else { 0 }) + (if h { 0x20int } else { 0 })
        + (if c { 0x10int } else { 0 })) as u8
}

proof fn lemma_mask_bits(f: u8, m: u8, m2: u8)
    by (bit_vector)
    requires
        f & 0x0F == 0,
        m == 0x80 || m == 0x40 || m == 0x20 || m == 0x10,
        m2 == 0x80 || m2 == 0x40 || m2 == 0x20 || m2 == 0x10,
    ensures
        (f | m) & 0x0F == 0,
        (f & !m) & 0x0F == 0,
        (f | m) & 0xF0 == f | m,
        (f & !m) & 0xF0 == f & !m,
        (f | m) & m != 0,
        (f & !m) & m == 0,
        m2 != m ==> (((f | m) & m2 != 0) == (f & m2 != 0)),
        m2 != m ==> (((f & !m) & m2 != 0) == (f & m2 != 0)),
{
}

/// Setting one flag in a well-formed flag byte keeps its low nibble zero and
/// leaves the other flags alone.
pub proof fn lemma_with_flag(f: u8, flag: Flag, b: bool)
    requires
        f & 0x0F == 0,
    ensures
        with_flag(f, flag, b) & 0x0F == 0,
        with_flag(f, flag, b) & 0xF0 == with_flag(f, flag, b),
        flag_of(with_flag(f, flag, b), flag) == b,
        forall|g: Flag| g != flag ==> flag_of(with_flag(f, flag, b), g) == flag_of(f, g),
{
    lemma_mask_bits(f, flag_mask(flag), 0x80);
    lemma_mask_bits(f, flag_mask(flag), 0x40);
    lemma_mask_bits(f, flag_mask(flag), 0x20);
    lemma_mask_bits(f, flag_mask(flag), 0x10);
}

proof fn lemma_nibble_bits(f: u8)
    by (bit_vector)
    requires
        f & 0x0F == 0,
    ensures
        f == ((if f & 0x80 != 0 { 0x80int } else { 0 }) + (if f & 0x40 != 0 { 0x40int } else { 0 })
            + (if f & 0x20 != 0 { 0x20int } else { 0 }) + (if f & 0x10 != 0 { 0x10int } else { 0 })) as u8,
{
}

proof fn lemma_byte_of_flags(z: bool, n: bool, h: bool, c: bool, f: u8)
    by (bit_vector)
    requires
        f == ((if z { 0x80int } else { 0 }) + (if n { 0x40int } else { 0 }) + (if h { 0x20int } else { 0 })
            + (if c { 0x10int } else { 0 })) as u8,
    ensures
        (f & 0x80 != 0) == z,
        (f & 0x40 != 0) == n,
        (f & 0x20 != 0) == h,
        (f & 0x10 != 0) == c,
        f & 0x0F == 0,
{
}

/// A flag byte with a zero low nibble is determined by its four flags.
pub proof fn lemma_flags_determine(f: u8)
    requires
        f & 0x0F == 0,
    ensures
        f == flags_byte(flag_of(f, Flag::Z), flag_of(f, Flag::N), flag_of(f, Flag::H), flag_of(f, Flag::C)),
{
    lemma_nibble_bits(f);
}

/// Reading a flag back from the byte that holds it.
pub proof fn lemma_flags_byte(z: bool, n: bool, h: bool, c: bool)
    ensures
        flag_of(flags_byte(z, n, h, c), Flag::Z) == z,
        flag_of(flags_byte(z, n, h, c), Flag::N) == n,
        flag_of(flags_byte(z, n, h, c), Flag::H) == h,
        flag_of(flags_byte(z, n, h, c), Flag::C) == c,
        flags_byte(z, n, h, c) & 0x0F == 0,
{
    lemma_byte_of_flags(z, n, h, c, flags_byte(z, n, h, c));
}

/// A change to some of the flags, applied to a flag byte.
pub trait FlagSetting {
    spec fn apply(&self, reg: u8) -> u8;

    fn mod_flag(&self, reg: u8) -> (r: u8)
        ensures
            r == self.apply(reg),
    ;
}

impl FlagSetting for (Flag, bool) {
    open spec fn apply(&self, reg: u8) -> u8 {
        with_flag(reg, self.0, self.1)
    }

    fn mod_flag(&self, reg: u8) -> (r: u8) {
        let (flag, cond) = *self;
        let b = flag_bit(flag);
        if cond {
            reg | b
        } else {
            reg & !b
        }
    }
}

impl<A: FlagSetting, B: FlagSetting, C: FlagSetting> FlagSetting for (A, B, C) {
    open spec fn apply(&self, reg: u8) -> u8 {
        self.2.apply(self.1.apply(self.0.apply(reg)))
    }

    fn mod_flag(&self, reg: u8) -> (r: u8) {
        let (a, b, c) = self;
        c.mod_flag(b.mod_flag(a.mod_flag(reg)))
    }
}

impl<A: FlagSetting, B: FlagSetting, C: FlagSetting, D: FlagSetting> FlagSetting for (A, B, C, D) {
    open spec fn apply(&self, reg: u8) -> u8 {
        self.3.apply(self.2.apply(self.1.apply(self.0.apply(reg))))
    }

    fn mod_flag(&self, reg: u8) -> (r: u8) {
        let (a, b, c, d) = self;
        d.mod_flag(c.mod_flag(b.mod_flag(a.mod_flag(reg))))
    }
}

/// Applies `settings` to F (whose low nibble stays zero).
pub fn mod_flags<T: FlagSetting>(settings: T, cpu: &mut Cpu)
    requires
        old(cpu)@.wf(),
    ensures
        final(cpu)@ == (CpuView { f: settings.apply(old(cpu)@.f) & 0xF0, ..old(cpu)@ }),
        final(cpu)@.wf(),
{
    let f = read_register(Register::F, cpu);
    write_register(Register::F, settings.mod_flag(f), cpu)
}

/// Sets `flag` if `b` holds, resets it otherwise.
pub fn bool_set(flag: Flag, b: bool, cpu: &mut Cpu)
    requires
        old(cpu)@.wf(),
    ensures
        final(cpu)@ == (CpuView { f: with_flag(old(cpu)@.f, flag, b), ..old(cpu)@ }),
        final(cpu)@.wf(),
        flag_of(final(cpu).f, flag) == b,
        forall|g: Flag| g != flag ==> flag_of(final(cpu).f, g) == flag_of(old(cpu).f, g),
{
    proof {
        lemma_with_flag(cpu.f, flag, b);
    }
    mod_flags((flag, b), cpu)
}

pub fn set(flag: Flag, cpu: &mut Cpu)
    requires
        old(cpu)@.wf(),
    ensures
        final(cpu)@ == (CpuView { f: with_flag(old(cpu)@.f, flag, true), ..old(cpu)@ }),
        final(cpu)@.wf(),
        flag_of(final(cpu).f, flag),
        forall|g: Flag| g != flag ==> flag_of(final(cpu).f, g) == flag_of(old(cpu).f, g),
{
    bool_set(flag, true, cpu)
}

pub fn reset(flag: Flag, cpu: &mut Cpu)
    requires
        old(cpu)@.wf(),
    ensures
        final(cpu)@ == (CpuView { f: with_flag(old(cpu)@.f, flag, false), ..old(cpu)@ }),
        final(cpu)@.wf(),
        !flag_of(final(cpu).f, flag),
        forall|g: Flag| g != flag ==> flag_of(final(cpu).f, g) == flag_of(old(cpu).f, g),
{
    bool_set(flag, false, cpu)
}

pub fn is_set(flag: Flag, cpu: &Cpu) -> (r: bool)
    ensures
        r == flag_of(cpu.f, flag),
{
    cpu.f & flag_bit(flag) != 0
}

pub fn flag_bit(flag: Flag) -> (r: u8)
    ensures
        r == flag_mask(flag),
{
    match flag {
        Flag::Z => 0x80,
        Flag::N => 0x40,
        Flag::H => 0x20,
        Flag::C => 0x10,
    }
}

} // verus!
