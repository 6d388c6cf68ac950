use vstd::prelude::*;
use crate::cpu::{Cpu, CpuView, read_address, write_address, stack_push};

verus! {

/// The five interrupt sources.
#[derive(Debug, Clone, Copy, PartialEq, Eq, Structural)]
pub enum Interrupt {
    VBlank,
    LCD,
    Timer,
    Joypad,
    Serial,
}

/// The source's bit in the request (0xFF0F) and enable (0xFFFF) registers.
pub open spec fn int_mask(i: Interrupt) -> u8 {
    match i {
        Interrupt::VBlank => 0x01,
        Interrupt::LCD => 0x02,
        Interrupt::Timer => 0x04,
        Interrupt::Serial => 0x08,
        Interrupt::Joypad => 0x10,
    }
}

/// The address the source's handler starts at.
pub open spec fn int_vector(i: Interrupt) -> usize {
    match i {
        Interrupt::VBlank => 0x40,
        Interrupt::LCD => 0x48,
        Interrupt::Timer => 0x50,
        Interrupt::Serial => 0x58,
        Interrupt::Joypad => 0x60,
    }
}

/// The source has both its request and its enable bit set.
pub open spec fn is_pending(v: CpuView, i: Interrupt) -> bool {
    &&& v.memory[0xFF0F] & int_mask(i) != 0
    &&& v.memory[0xFFFF] & int_mask(i) != 0
}

/// The pending source of highest priority: VBlank, LCD, Timer, Serial, Joypad.
pub open spec fn first_pending(v: CpuView) -> Option<Interrupt> {
    if is_pending(v, Interrupt::VBlank) {
        Some(Interrupt::VBlank)
    } else if is_pending(v, Interrupt::LCD) {
        Some(Interrupt::LCD)
    } else if is_pending(v, Interrupt::Timer) {
        Some(Interrupt::Timer)
    } else if is_pending(v, Interrupt::Serial) {
        Some(Interrupt::Serial)
    } else if is_pending(v, Interrupt::Joypad) {
        Some(Interrupt::Joypad)
    } else {
        None
    }
}

/// The machine with the source's request bit raised.
pub open spec fn request_spec(v: CpuView, i: Interrupt) -> CpuView {
    v.write_spec(0xFF0F, v.memory[0xFF0F] | int_mask(i))
}

/// Dispatching a source: the master enable drops, the request bit clears,
/// and the return address is pushed.
pub open spec fn dispatch_spec(v: CpuView, i: Interrupt, address: int) -> CpuView {
    let v1 = CpuView { interrupt_master_enabled: false, ..v };
    let v2 = v1.write_spec(0xFF0F, v1.memory[0xFF0F] & (0xFF - int_mask(i)) as u8);
    v2.push_spec(address as u16)
}

/// The machine and next address after the interrupt check at an instruction
/// boundary.
pub open spec fn service_spec(v: CpuView, address: int) -> (CpuView, int) {
    if v.interrupt_master_enabled && first_pending(v) is Some {
        let i = first_pending(v).unwrap();
        (dispatch_spec(v, i, address), int_vector(i) as int)
    } else {
        (v, address)
    }
}

/// The same check while halted: a pending source always wakes the CPU (past
/// the HALT byte), and is dispatched only when the master enable is on.
pub open spec fn halt_service_spec(v: CpuView, address: int) -> (CpuView, int) {
    let next = (address + 1) % 0x10000;
    if first_pending(v) is Some {
        let i = first_pending(v).unwrap();
        let w = CpuView { halted: false, ..v };
        if v.interrupt_master_enabled {
            (dispatch_spec(w, i, next), int_vector(i) as int)
        } else {
            (w, next)
        }
    } else {
        (v, address)
    }
}

impl Interrupt {
    /// Raises this source's request bit.
    pub fn request(&self, cpu: &mut Cpu)
        requires
            old(cpu)@.wf(),
        ensures
            final(cpu)@ == request_spec(old(cpu)@, *self),
            final(cpu)@.wf(),
    {
        let requests = get_requests(cpu);
        let mask = self.bit_mask();
        write_address(0xFF0F, requests | mask, cpu);
    }

    fn exec(&self, address: usize, cpu: &mut Cpu) -> (r: usize)
        requires
            old(cpu)@.wf(),
            address < 0x10000,
        ensures
            final(cpu)@ == dispatch_spec(old(cpu)@, *self, address as int),
            final(cpu)@.wf(),
            r == int_vector(*self),
    {
        cpu.interrupt_master_enabled = false;
        self.reset_request(cpu);
        stack_push(address as u16, cpu);
        self.interrupt_address()
    }

    fn reset_request(&self, cpu: &mut Cpu)
        requires
            old(cpu)@.wf(),
        ensures
            final(cpu)@ == old(cpu)@.write_spec(
                0xFF0F,
                old(cpu)@.memory[0xFF0F] & (0xFF - int_mask(*self)) as u8,
            ),
            final(cpu)@.wf(),
    {
        let requests = get_requests(cpu);
        let mask = 0xFF - self.bit_mask();
        write_address(0xFF0F, requests & mask, cpu);
    }

    fn is_pending(&self, cpu: &Cpu) -> (r: bool)
        requires
            cpu@.wf(),
        ensures
            r == is_pending(cpu@, *self),
    {
        self.is_requested(cpu) && self.is_enabled(cpu)
    }

    fn is_requested(&self, cpu: &Cpu) -> (r: bool)
        requires
            cpu@.wf(),
        ensures
            r == (cpu@.memory[0xFF0F] & int_mask(*self) != 0),
    {
        let val = read_address(0xFF0F, cpu) & self.bit_mask();
        val != 0
    }

    fn is_enabled(&self, cpu: &Cpu) -> (r: bool)
        requires
            cpu@.wf(),
        ensures
            r == (cpu@.memory[0xFFFF] & int_mask(*self) != 0),
    {
        let val = read_address(0xFFFF, cpu) & self.bit_mask();
        val != 0
    }

    fn bit_mask(&self) -> (r: u8)
        ensures
            r == int_mask(*self),
    {
        match *self {
            Interrupt::VBlank => 0x01,
            Interrupt::LCD => 0x02,
            Interrupt::Timer => 0x04,
            Interrupt::Serial => 0x08,
            Interrupt::Joypad => 0x10,
        }
    }

    /// The bit number of this source in the request and enable registers.
    pub fn bit_pos(&self) -> (r: u8)
        ensures
            int_mask(*self) == match r {
                0 => 1u8,
                1 => 2u8,
                2 => 4u8,
                3 => 8u8,
                _ => 16u8,
            },
            r < 5,
    {
        match *self {
            Interrupt::VBlank => 0,
            Interrupt::LCD => 1,
            Interrupt::Timer => 2,
            Interrupt::Serial => 3,
            Interrupt::Joypad => 4,
        }
    }

    /// The address of this source's handler.
    pub fn interrupt_address(&self) -> (r: usize)
        ensures
            r == int_vector(*self),
    {
        match *self {
            Interrupt::VBlank => 0x40,
            Interrupt::LCD => 0x48,
            Interrupt::Timer => 0x50,
            Interrupt::Serial => 0x58,
            Interrupt::Joypad => 0x60,
        }
    }
}

fn get_requests(cpu: &Cpu) -> (r: u8)
    requires
        cpu@.wf(),
    ensures
        r == cpu@.memory[0xFF0F],
{
    read_address(0xFF0F, cpu)
}

fn pending_interrupt(cpu: &Cpu) -> (r: Option<Interrupt>)
    requires
        cpu@.wf(),
    ensures
        r == first_pending(cpu@),
{
    if Interrupt::VBlank.is_pending(cpu) {
        Some(Interrupt::VBlank)
    } else if Interrupt::LCD.is_pending(cpu) {
        Some(Interrupt::LCD)
    } else if Interrupt::Timer.is_pending(cpu) {
        Some(Interrupt::Timer)
    } else if Interrupt::Serial.is_pending(cpu) {
        Some(Interrupt::Serial)
    } else if Interrupt::Joypad.is_pending(cpu) {
        Some(Interrupt::Joypad)
    } else {
        None
    }
}

/// While halted: wakes on any pending source and dispatches it if the
/// master enable is on; returns the next address.
pub fn exec_halt_interrupts(address: usize, cpu: &mut Cpu) -> (r: usize)
    requires
        old(cpu)@.wf(),
        address < 0x10000,
    ensures
        (final(cpu)@, r as int) == halt_service_spec(old(cpu)@, address as int),
        final(cpu)@.wf(),
{
    match pending_interrupt(cpu) {
        Some(interrupt) => {
            cpu.halted = false;
            let next = (address + 1) % 0x10000;
            if cpu.interrupt_master_enabled {
                interrupt.exec(next, cpu)
            } else {
                next
            }
        },
        None => address,
    }
}

/// At an instruction boundary: with the master enable on, dispatches the
/// pending source of highest priority; returns the next address.
pub fn exec_interrupts(address: usize, cpu: &mut Cpu) -> (r: usize)
    requires
        old(cpu)@.wf(),
        address < 0x10000,
    ensures
        (final(cpu)@, r as int) == service_spec(old(cpu)@, address as int),
        final(cpu)@.wf(),
{
    if cpu.interrupt_master_enabled {
        match pending_interrupt(cpu) {
            Some(interrupt) => interrupt.exec(address, cpu),
            None => address,
        }
    } else {
        address
    }
}

} // verus!
