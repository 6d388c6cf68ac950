use vstd::prelude::*;
use crate::apu::{Apu, NoiseChannel, SquareChannel, WaveChannel};
use crate::interrupt::{Interrupt, request_spec};
use crate::lcd::{lcd_on, mode_of, stat_view, read_stat_address, write_stat_address, LCDC, ScreenMode};

verus! {

/// The whole machine state: registers, banking state and the backing stores
/// of the 64KB address space.
pub struct Cpu {
    pub a: u8,
    pub b: u8,
    pub c: u8,
    pub d: u8,
    pub e: u8,
    pub f: u8,
    pub h: u8,
    pub l: u8,
    pub sp: u16,
    pub pc: u16,
    pub keys: u8,
    pub memory: Vec<u8>,
    pub ram_memory: Vec<u8>,
    pub boot_rom: Vec<u8>,
    pub cart_rom: Vec<u8>,
    pub cart_loaded: bool,
    pub has_booted: bool,
    pub interrupt_master_enabled: bool,
    pub curr_clocks: u32,
    pub curr_freq_clocks: u32,
    pub mbc_1: bool,
    pub mbc_1_ram: bool,
    pub mbc_1_battery: bool,
    pub ram_banking_mode: bool,
    pub ram_enabled: bool,
    pub ram_or_rom_bank: usize,
    pub lo_rom_bank: usize,
    pub dma_transfer_cycles_left: i32,
    pub background_mode: u8,
    pub window_mode: u8,
    pub sprite_mode: u8,
    pub halted: bool,
    pub apu: Apu,
}

/// Mathematical view of [`Cpu`]: the byte stores become sequences.
pub ghost struct CpuView {
    pub a: u8,
    pub b: u8,
    pub c: u8,
    pub d: u8,
    pub e: u8,
    pub f: u8,
    pub h: u8,
    pub l: u8,
    pub sp: u16,
    pub pc: u16,
    pub keys: u8,
    pub memory: Seq<u8>,
    pub ram_memory: Seq<u8>,
    pub boot_rom: Seq<u8>,
    pub cart_rom: Seq<u8>,
    pub cart_loaded: bool,
    pub has_booted: bool,
    pub interrupt_master_enabled: bool,
    pub curr_clocks: u32,
    pub curr_freq_clocks: u32,
    pub mbc_1: bool,
    pub mbc_1_ram: bool,
    pub mbc_1_battery: bool,
    pub ram_banking_mode: bool,
    pub ram_enabled: bool,
    pub ram_or_rom_bank: usize,
    pub lo_rom_bank: usize,
    pub dma_transfer_cycles_left: i32,
    pub background_mode: u8,
    pub window_mode: u8,
    pub sprite_mode: u8,
    pub halted: bool,
    pub apu: Apu,
}

impl View for Cpu {
    type V = CpuView;

    open spec fn view(&self) -> CpuView {
        CpuView {
            a: self.a,
            b: self.b,
            c: self.c,
            d: self.d,
            e: self.e,
            f: self.f,
            h: self.h,
            l: self.l,
            sp: self.sp,
            pc: self.pc,
            keys: self.keys,
            memory: self.memory@,
            ram_memory: self.ram_memory@,
            boot_rom: self.boot_rom@,
            cart_rom: self.cart_rom@,
            cart_loaded: self.cart_loaded,
            has_booted: self.has_booted,
            interrupt_master_enabled: self.interrupt_master_enabled,
            curr_clocks: self.curr_clocks,
            curr_freq_clocks: self.curr_freq_clocks,
            mbc_1: self.mbc_1,
            mbc_1_ram: self.mbc_1_ram,
            mbc_1_battery: self.mbc_1_battery,
            ram_banking_mode: self.ram_banking_mode,
            ram_enabled: self.ram_enabled,
            ram_or_rom_bank: self.ram_or_rom_bank,
            lo_rom_bank: self.lo_rom_bank,
            dma_transfer_cycles_left: self.dma_transfer_cycles_left,
            background_mode: self.background_mode,
            window_mode: self.window_mode,
            sprite_mode: self.sprite_mode,
            halted: self.halted,
            apu: self.apu,
        }
    }
}

/// A byte of a ROM image; past the end of the image the bus reads 0xFF.
pub open spec fn rom_byte(rom: Seq<u8>, i: int) -> u8 {
    if 0 <= i < rom.len() {
        rom[i]
    } else {
        0xFF
    }
}

impl CpuView {
    /// The address space is 64KB, external RAM is four 8KB banks, and the
    /// bank registers hold 5 and 2 bits.
    pub open spec fn wf(self) -> bool {
        &&& self.memory.len() == 0x10000
        &&& self.ram_memory.len() == 0x8000
        &&& self.lo_rom_bank < 32
        &&& self.ram_or_rom_bank < 4
        &&& self.f & 0x0F == 0
        &&& self.curr_clocks < 256
        &&& self.curr_freq_clocks < 1024
    }

    /// The external RAM bank in use.
    pub open spec fn ram_bank(self) -> int {
        if self.ram_banking_mode {
            self.ram_or_rom_bank as int
        } else {
            0
        }
    }

    /// The ROM bank mapped at 0x4000-0x7FFF: the two high bits (in ROM banking
    /// mode) above the five low bits, where a low part of 0 selects 1.
    pub open spec fn rom_bank(self) -> int {
        let hi: int = if self.ram_banking_mode {
            0
        } else {
            self.ram_or_rom_bank as int
        };
        let lo: int = if self.lo_rom_bank == 0 {
            1
        } else {
            self.lo_rom_bank as int
        };
        hi * 32 + lo
    }

    /// What the raw bus returns at `addr`, with no contention rules applied.
    pub open spec fn read_spec(self, addr: int) -> u8 {
        if addr <= 0xFF {
            if self.has_booted {
                rom_byte(self.cart_rom, addr)
            } else {
                rom_byte(self.boot_rom, addr)
            }
        } else if addr <= 0x3FFF {
            rom_byte(self.cart_rom, addr)
        } else if addr <= 0x7FFF {
            if self.mbc_1 {
                rom_byte(self.cart_rom, addr + 0x4000 * (self.rom_bank() - 1))
            } else {
                rom_byte(self.cart_rom, addr)
            }
        } else if 0xA000 <= addr <= 0xBFFF {
            if self.ram_enabled {
                self.ram_memory[addr - 0xA000 + 0x2000 * self.ram_bank()]
            } else {
                0
            }
        } else {
            self.memory[addr]
        }
    }

    /// The raw store: writes into 0x2000-0x5FFF select banks, every other
    /// address is stored as is.
    pub open spec fn write_spec(self, addr: int, val: u8) -> CpuView {
        if 0x2000 <= addr <= 0x3FFF {
            CpuView { lo_rom_bank: (val & 0x1F) as usize, ..self }
        } else if 0x4000 <= addr <= 0x5FFF {
            CpuView { ram_or_rom_bank: (val & 0x03) as usize, ..self }
        } else {
            CpuView { memory: self.memory.update(addr, val), ..self }
        }
    }

    /// The joypad register: bit 4 selects the low nibble of `keys`, bit 5 the
    /// high nibble; keys read active-low.
    pub open spec fn joypad_spec(self) -> u8 {
        let val = self.memory[0xFF00];
        if (val >> 4) & 1 != 0 {
            (val & 0xF0) | (0x0F & self.keys)
        } else if (val >> 5) & 1 != 0 {
            (val & 0xF0) | ((0xF0 & self.keys) >> 4)
        } else {
            0x0F
        }
    }

    /// The stack pointer moved by `delta`, wrapping modulo 2^16.
    pub open spec fn sp_plus(self, delta: int) -> u16 {
        ((self.sp as int + delta) % 0x10000) as u16
    }

    /// `stack_push`: SP drops by two, then the low byte goes to SP and the
    /// high byte to SP + 1, both through the CPU's write path.
    pub open spec fn push_spec(self, val: u16) -> CpuView {
        let sp = self.sp_plus(-2);
        let s = CpuView { sp: sp, ..self }.safe_write_spec(sp as int, (val % 256) as u8);
        s.safe_write_spec(((sp as int + 1) % 0x10000), (val / 256) as u8)
    }

    /// The value `stack_pop` returns: the little-endian word at SP.
    pub open spec fn pop_value(self) -> u16 {
        (self.safe_read_spec(self.sp_plus(1) as int) as int * 256 + self.safe_read_spec(
            self.sp as int,
        ) as int) as u16
    }

    /// Stack memory that reads back what was written: work RAM or its echo
    /// (outside a DMA transfer), or high RAM.
    pub open spec fn is_stack_ram(self, addr: int) -> bool {
        ||| (self.dma_transfer_cycles_left <= 0 && (0xC000 <= addr <= 0xFDFF || 0xFF80 <= addr
            <= 0xFFFF))
        ||| 0xFF80 <= addr <= 0xFFFE
    }
}

impl CpuView {
    /// VRAM is reachable unless the LCD is on and transferring pixels.
    pub open spec fn vram_open(self) -> bool {
        !lcd_on(self) || mode_of(self) != 3
    }

    /// OAM is reachable only with the LCD off or in HBlank or VBlank.
    pub open spec fn oam_open(self) -> bool {
        !lcd_on(self) || mode_of(self) == 0 || mode_of(self) == 1
    }

    pub open spec fn read_allowed(self, addr: int) -> bool {
        &&& self.dma_transfer_cycles_left <= 0
        &&& if 0x8000 <= addr <= 0x9FFF {
            self.vram_open()
        } else if 0xFEA0 <= addr <= 0xFEFF {
            false
        } else if 0xFE00 <= addr <= 0xFE9F {
            self.oam_open()
        } else {
            true
        }
    }

    /// What the CPU reads at `addr`: denied accesses read 0xFF, except high RAM.
    #[verifier::opaque]
    pub open spec fn safe_read_spec(self, addr: int) -> u8 {
        if self.read_allowed(addr) {
            if 0xE000 <= addr <= 0xFDFF {
                self.read_spec(addr - 0x2000)
            } else if addr == 0xFF41 {
                stat_view(self)
            } else if addr == 0xFF00 {
                self.joypad_spec()
            } else {
                self.read_spec(addr)
            }
        } else if 0xFF80 <= addr <= 0xFFFE {
            self.read_spec(addr)
        } else {
            0xFF
        }
    }

    pub open spec fn write_allowed(self, addr: int) -> bool {
        &&& self.dma_transfer_cycles_left <= 0
        &&& if addr <= 0x7FFF {
            false
        } else if 0x8000 <= addr <= 0x9FFF {
            self.vram_open()
        } else if 0xA000 <= addr <= 0xBFFF {
            self.ram_enabled
        } else if 0xFE00 <= addr <= 0xFE9F {
            self.oam_open()
        } else if 0xFEA0 <= addr <= 0xFEFF {
            false
        } else {
            true
        }
    }

    /// A write into ROM space is a command to the memory bank controller.
    pub open spec fn mbc_command_spec(self, addr: int, val: u8) -> CpuView {
        if addr <= 0x1FFF {
            CpuView { ram_enabled: self.mbc_1_ram && (0x0A & val) == 0x0A, ..self }
        } else if addr <= 0x3FFF {
            CpuView { lo_rom_bank: (val & 0x1F) as usize, ..self }
        } else if addr <= 0x5FFF {
            CpuView { ram_or_rom_bank: (val & 0x03) as usize, ..self }
        } else if addr <= 0x7FFF {
            CpuView { ram_banking_mode: val == 1, ..self }
        } else {
            self
        }
    }

    /// OAM DMA: 160 bytes from `val * 0x100` land in 0xFE00-0xFE9F, and other
    /// accesses are locked out for 162 * 4 cycles.
    pub open spec fn dma_spec(self, val: u8) -> CpuView {
        CpuView {
            dma_transfer_cycles_left: 648,
            memory: Seq::new(
                0x10000,
                |j: int|
                    if 0xFE00 <= j < 0xFEA0 {
                        self.read_spec(val as int * 0x100 + (j - 0xFE00))
                    } else {
                        self.memory[j]
                    },
            ),
            ..self
        }
    }

    /// The boot ROM is unmapped for good, and the cartridge type byte at
    /// 0x147 tells which MBC1 features are fitted.
    pub open spec fn boot_spec(self) -> CpuView {
        let s = CpuView { has_booted: true, ..self }.write_spec(0xFF00, 0xCF);
        let kind = rom_byte(self.cart_rom, 0x147);
        if kind == 1 {
            CpuView { mbc_1: true, ..s }
        } else if kind == 2 {
            CpuView { mbc_1: true, mbc_1_ram: true, ..s }
        } else if kind == 3 {
            CpuView { mbc_1: true, mbc_1_ram: true, mbc_1_battery: true, ..s }
        } else {
            s
        }
    }

    /// An accepted write from the CPU, dispatched by address.
    #[verifier::opaque]
    pub open spec fn io_write_spec(self, addr: int, val: u8) -> CpuView {
        if 0xA000 <= addr <= 0xBFFF {
            CpuView {
                ram_memory: self.ram_memory.update(addr - 0xA000 + 0x2000 * self.ram_bank(), val),
                ..self
            }
        } else if 0xC000 <= addr <= 0xDDFF {
            CpuView { memory: self.memory.update(addr, val).update(addr + 0x2000, val), ..self }
        } else if 0xE000 <= addr <= 0xFDFF {
            CpuView { memory: self.memory.update(addr, val).update(addr - 0x2000, val), ..self }
        } else if addr == 0xFF00 {
            self.write_spec(0xFF00, (val & 0xF0) | (self.joypad_spec() & 0x0F))
        } else if addr == 0xFF04 || addr == 0xFF44 {
            self.write_spec(addr, 0)
        } else if 0xFF10 <= addr <= 0xFF26 {
            CpuView { apu: sound_write_spec(self.apu, self.memory, addr, val), ..self }.write_spec(
                addr,
                val,
            )
        } else if addr == 0xFF41 {
            self.write_spec(0xFF41, (val & 0xF8) | (self.memory[0xFF41] & 0x07))
        } else if addr == 0xFF46 {
            self.dma_spec(val)
        } else if addr == 0xFF50 {
            self.boot_spec()
        } else {
            self.write_spec(addr, val)
        }
    }

    /// What a write from the CPU does to the machine.
    #[verifier::opaque]
    pub open spec fn safe_write_spec(self, addr: int, val: u8) -> CpuView {
        if self.write_allowed(addr) {
            self.io_write_spec(addr, val)
        } else if self.dma_transfer_cycles_left > 0 {
            if 0xFF80 <= addr <= 0xFFFE {
                self.write_spec(addr, val)
            } else {
                self
            }
        } else {
            self.mbc_command_spec(addr, val)
        }
    }
}

/// Dividing ratios of the noise channel, by the low three bits of NR43.
pub open spec fn noise_divisor(i: u8) -> u32 {
    if i == 0 {
        8
    } else {
        (16 * i) as u32
    }
}

/// A pulse channel's envelope register (NR12, NR22) sets the initial volume,
/// the direction and the period.
pub open spec fn square_envelope_spec(ch: SquareChannel, val: u8) -> SquareChannel {
    SquareChannel {
        volume: val >> 4,
        incr_vol: val & 8 != 0,
        envelope_period: val & 7,
        ..ch
    }
}

/// Triggering a pulse channel reloads its length counter and envelope from `nrx2`.
pub open spec fn square_trigger_spec(ch: SquareChannel, nrx2: u8) -> SquareChannel {
    SquareChannel {
        counter: 64,
        envelope_pos: nrx2 & 7,
        volume: (nrx2 & 0xF0) >> 4,
        enabled: nrx2 & 0xF8 != 0,
        ..ch
    }
}

/// Triggering the wave channel restarts its length counter and wave position.
pub open spec fn wave_trigger_spec(apu: Apu, mem: Seq<u8>) -> Apu {
    let freq = mem[0xFF1D] as int + 256 * mem[0xFF1E] as int;
    Apu {
        channel_3: WaveChannel {
            counter: 256,
            volume: (mem[0xFF1C] & 0x60) >> 5,
            enabled: mem[0xFF1A] & 0x80 != 0,
            ..apu.channel_3
        },
        channel_3_wave_pos: 0,
        channel_3_pos: (2 * ((2048 - freq) % 128)) as u32,
        ..apu
    }
}

/// Triggering the noise channel reloads its shift register, its timer
/// (divisor shifted by the clock shift of NR43) and its envelope from NR42.
pub open spec fn noise_trigger_spec(apu: Apu, mem: Seq<u8>) -> Apu {
    let nr42 = mem[0xFF21];
    let nr43 = mem[0xFF22];
    Apu {
        channel_4: NoiseChannel {
            counter: 64,
            lfsr: 0x7FFF,
            freq_pos: noise_divisor(nr43 & 7) << ((nr43 >> 4) as u32),
            envelope_pos: nr42 & 7,
            volume: nr42 >> 4,
            enabled: nr42 & 0xF8 != 0,
            ..apu.channel_4
        },
        ..apu
    }
}

/// The effect of a write to a sound register on the channel state; `mem`
/// holds the registers as they were before the write.
pub open spec fn sound_write_spec(apu: Apu, mem: Seq<u8>, addr: int, val: u8) -> Apu {
    let trigger = val & 0x80 != 0;
    if addr == 0xFF11 {
        Apu { channel_1: SquareChannel { counter: (64 - (val & 0x3F)) as u16, ..apu.channel_1 }, ..apu }
    } else if addr == 0xFF12 {
        Apu { channel_1: square_envelope_spec(apu.channel_1, val), ..apu }
    } else if addr == 0xFF14 && trigger {
        Apu { channel_1: square_trigger_spec(apu.channel_1, mem[0xFF12]), channel_1_pos: 0, ..apu }
    } else if addr == 0xFF16 {
        Apu { channel_2: SquareChannel { counter: (64 - (val & 0x3F)) as u16, ..apu.channel_2 }, ..apu }
    } else if addr == 0xFF17 {
        Apu { channel_2: square_envelope_spec(apu.channel_2, val), ..apu }
    } else if addr == 0xFF19 && trigger {
        Apu { channel_2: square_trigger_spec(apu.channel_2, mem[0xFF17]), channel_2_pos: 0, ..apu }
    } else if addr == 0xFF1B {
        Apu { channel_3: WaveChannel { counter: (256 - val) as u16, ..apu.channel_3 }, ..apu }
    } else if addr == 0xFF1E && trigger {
        wave_trigger_spec(apu, mem)
    } else if addr == 0xFF20 {
        Apu { channel_4: NoiseChannel { counter: (64 - (val & 0x3F)) as u16, ..apu.channel_4 }, ..apu }
    } else if addr == 0xFF21 {
        Apu {
            channel_4: NoiseChannel {
                volume: val >> 4,
                incr_vol: val & 8 != 0,
                envelope_period: val & 7,
                ..apu.channel_4
            },
            ..apu
        }
    } else if addr == 0xFF23 && trigger {
        noise_trigger_spec(apu, mem)
    } else {
        apu
    }
}

fn rom_read(rom: &Vec<u8>, i: usize) -> (r: u8)
    ensures
        r == rom_byte(rom@, i as int),
{
    if i < rom.len() {
        rom[i]
    } else {
        0xFF
    }
}

/// Reads a ROM byte below 0x4000 (or above it when no MBC is fitted).
pub fn read_cart_address(address: usize, cpu: &Cpu) -> (r: u8)
    ensures
        r == rom_byte(cpu.cart_rom@, address as int),
{
    rom_read(&cpu.cart_rom, address)
}

/// Reads 0x0000-0x00FF: the boot image until boot completes, the cartridge after.
pub fn read_overlap_address(address: usize, cpu: &Cpu) -> (r: u8)
    requires
        address <= 0xFF,
    ensures
        r == cpu@.read_spec(address as int),
{
    if cpu.has_booted {
        read_cart_address(address, cpu)
    } else {
        rom_read(&cpu.boot_rom, address)
    }
}

fn get_selected_rom_bank(cpu: &Cpu) -> (r: usize)
    requires
        cpu@.wf(),
    ensures
        r == cpu@.rom_bank(),
        1 <= r < 128,
{
    let hi_bank: usize = if !cpu.ram_banking_mode {
        cpu.ram_or_rom_bank * 32
    } else {
        0
    };
    let lo: usize = if cpu.lo_rom_bank == 0 {
        1
    } else {
        cpu.lo_rom_bank
    };
    hi_bank + lo
}

/// Reads external RAM at 0xA000-0xBFFF; 0 while it is disabled.
pub fn read_ram_address(address: usize, cpu: &Cpu) -> (r: u8)
    requires
        cpu@.wf(),
        0xA000 <= address <= 0xBFFF,
    ensures
        r == cpu@.read_spec(address as int),
{
    if cpu.ram_enabled {
        let ram_bank: usize = if cpu.ram_banking_mode {
            cpu.ram_or_rom_bank
        } else {
            0
        };
        cpu.ram_memory[address - 0xA000 + 0x2000 * ram_bank]
    } else {
        0
    }
}

/// Reads the switchable ROM bank at 0x4000-0x7FFF.
pub fn read_bank_address(address: usize, cpu: &Cpu) -> (r: u8)
    requires
        cpu@.wf(),
        0x4000 <= address <= 0x7FFF,
    ensures
        r == cpu@.read_spec(address as int),
{
    if cpu.mbc_1 {
        let bank = get_selected_rom_bank(cpu);
        rom_read(&cpu.cart_rom, address + 0x4000 * (bank - 1))
    } else {
        rom_read(&cpu.cart_rom, address)
    }
}

/// Reads the raw bus.
pub fn read_address(address: usize, cpu: &Cpu) -> (r: u8)
    requires
        cpu@.wf(),
        address < 0x10000,
    ensures
        r == cpu@.read_spec(address as int),
{
    if address <= 0x00FF {
        read_overlap_address(address, cpu)
    } else if address <= 0x3FFF {
        read_cart_address(address, cpu)
    } else if address <= 0x7FFF {
        read_bank_address(address, cpu)
    } else if 0xA000 <= address && address <= 0xBFFF {
        read_ram_address(address, cpu)
    } else {
        cpu.memory[address]
    }
}

/// Reads the raw bus as a signed byte.
pub fn read_address_i8(address: usize, cpu: &Cpu) -> (r: i8)
    requires
        cpu@.wf(),
        address < 0x10000,
    ensures
        r == cpu@.read_spec(address as int) as i8,
{
    read_address(address, cpu) as i8
}


/// The joypad register with the selected nibble of `keys` filled in.
pub fn read_joypad(cpu: &Cpu) -> (r: u8)
    requires
        cpu@.wf(),
    ensures
        r == cpu@.joypad_spec(),
{
    let val = read_address(0xFF00, cpu);
    if ((val >> 4) & 1) != 0 {
        (val & 0xF0) | (0x0F & cpu.keys)
    } else if ((val >> 5) & 1) != 0 {
        (val & 0xF0) | ((0xF0 & cpu.keys) >> 4)
    } else {
        0x0F
    }
}

/// Reads as the CPU does: contention with the LCD and DMA, echo RAM, and the
/// STAT and joypad registers.
pub fn safe_read_address(address: usize, cpu: &Cpu) -> (r: u8)
    requires
        cpu@.wf(),
        address < 0x10000,
    ensures
        r == cpu@.safe_read_spec(address as int),
{
    reveal(CpuView::safe_read_spec);
    let safe_to_read = cpu.dma_transfer_cycles_left <= 0 && if 0x8000 <= address && address
        <= 0x9FFF {
        !LCDC::Power.is_set(cpu) || !ScreenMode::Transferring.is_set(cpu)
    } else if 0xFEA0 <= address && address <= 0xFEFF {
        false
    } else if 0xFE00 <= address && address <= 0xFE9F {
        !LCDC::Power.is_set(cpu) || ScreenMode::HBlank.is_set(cpu) || ScreenMode::VBlank.is_set(
            cpu,
        )
    } else {
        true
    };
    if safe_to_read {
        if 0xE000 <= address && address <= 0xFDFF {
            read_address(address - 0x2000, cpu)
        } else if address == 0xFF41 {
            read_stat_address(cpu)
        } else if address == 0xFF00 {
            read_joypad(cpu)
        } else {
            read_address(address, cpu)
        }
    } else if 0xFF80 <= address && address <= 0xFFFE {
        read_address(address, cpu)
    } else {
        0xFF
    }
}

fn write_joypad(new_val: u8, cpu: &mut Cpu)
    requires
        old(cpu)@.wf(),
    ensures
        final(cpu)@ == old(cpu)@.write_spec(
            0xFF00,
            (new_val & 0xF0) | (old(cpu)@.joypad_spec() & 0x0F),
        ),
        final(cpu)@.wf(),
{
    let val = read_joypad(cpu);
    write_address(0xFF00, (new_val & 0xF0) | (val & 0x0F), cpu);
}

/// Stores into the external RAM bank in use.
pub fn write_ram_address(address: usize, val: u8, cpu: &mut Cpu)
    requires
        old(cpu)@.wf(),
        0xA000 <= address <= 0xBFFF,
    ensures
        final(cpu)@ == (CpuView {
            ram_memory: old(cpu)@.ram_memory.update(
                address - 0xA000 + 0x2000 * old(cpu)@.ram_bank(),
                val,
            ),
            ..old(cpu)@
        }),
        final(cpu)@.wf(),
{
    let ram_bank: usize = if cpu.ram_banking_mode {
        cpu.ram_or_rom_bank
    } else {
        0
    };
    cpu.ram_memory[address - 0xA000 + ram_bank * 0x2000] = val;
}

fn dma_transfer(val: u8, cpu: &mut Cpu)
    requires
        old(cpu)@.wf(),
    ensures
        final(cpu)@ == old(cpu)@.dma_spec(val),
        final(cpu)@.wf(),
{
    let ghost v0 = cpu@;
    let source_addr: usize = (val as usize) * 0x100;
    cpu.dma_transfer_cycles_left = 162 * 4;
    let mut i: usize = 0;
    while i < 0xA0
        invariant
            i <= 0xA0,
            source_addr == val as int * 0x100,
            cpu@.wf(),
            cpu@ == (CpuView { dma_transfer_cycles_left: 648, memory: cpu@.memory, ..v0 }),
            forall|j: int|
                0 <= j < 0x10000 ==> #[trigger] cpu@.memory[j] == if 0xFE00 <= j < 0xFE00 + i {
                    v0.read_spec(source_addr + (j - 0xFE00))
                } else {
                    v0.memory[j]
                },
        decreases 0xA0 - i,
    {
        let b = read_address(source_addr + i, cpu);
        assert(b == v0.read_spec(source_addr + i));
        write_address(0xFE00 + i, b, cpu);
        i = i + 1;
    }
    assert(cpu@.memory =~= v0.dma_spec(val).memory);
}

/// Timer period in cycles, by the two low bits of TAC.
pub open spec fn tac_period(tac: u8) -> int {
    let sel = tac & 0x03;
    if sel == 0 {
        1024
    } else if sel == 1 {
        16
    } else if sel == 2 {
        64
    } else {
        256
    }
}

impl CpuView {
    /// One timer tick: TIMA counts up; on overflow it reloads from TMA and
    /// the Timer interrupt is requested.
    pub open spec fn timer_tick(self) -> CpuView {
        let tima = self.memory[0xFF05];
        if tima == 0xFF {
            request_spec(self.write_spec(0xFF05, self.memory[0xFF06]), Interrupt::Timer)
        } else {
            self.write_spec(0xFF05, (tima + 1) as u8)
        }
    }

    pub open spec fn timer_ticks(self, n: nat) -> CpuView
        decreases n,
    {
        if n == 0 {
            self
        } else {
            self.timer_ticks((n - 1) as nat).timer_tick()
        }
    }

    /// The divider (0xFF04) counts once every 256 cycles.
    pub open spec fn divider_step_spec(self, clocks: int) -> CpuView {
        let total = self.curr_clocks + clocks;
        CpuView { curr_clocks: (total % 256) as u32, ..self }.write_spec(
            0xFF04,
            ((self.memory[0xFF04] + total / 256) % 256) as u8,
        )
    }

    /// When TAC enables it, the timer ticks once every period of cycles;
    /// when disabled its accumulator is zero.
    pub open spec fn counter_step_spec(self, clocks: int) -> CpuView {
        if self.memory[0xFF07] & 0x04 != 0 {
            let p = tac_period(self.memory[0xFF07]);
            let t = self.curr_freq_clocks + clocks;
            CpuView { curr_freq_clocks: (t % p) as u32, ..self }.timer_ticks((t / p) as nat)
        } else {
            CpuView { curr_freq_clocks: 0, ..self }
        }
    }

    /// `clocks` cycles of the divider and the timer.
    pub open spec fn step_timer_spec(self, clocks: int) -> CpuView {
        self.divider_step_spec(clocks).counter_step_spec(clocks)
    }
}

/// Fields of the timer control register (0xFF07).
pub enum TAC {
    Enabled,
    Freq1024,
    Freq16,
    Freq64,
    Freq256,
}

impl TAC {
    pub fn is_set(&self, cpu: &Cpu) -> (r: bool)
        requires
            cpu@.wf(),
        ensures
            r == match *self {
                TAC::Enabled => cpu@.memory[0xFF07] & 0x04 != 0,
                TAC::Freq1024 => cpu@.memory[0xFF07] & 0x03 == 0,
                TAC::Freq16 => cpu@.memory[0xFF07] & 0x03 == 1,
                TAC::Freq64 => cpu@.memory[0xFF07] & 0x03 == 2,
                TAC::Freq256 => cpu@.memory[0xFF07] & 0x03 == 3,
            },
    {
        let tac = read_address(0xFF07, cpu);
        let bit2 = tac & 0b100;
        let bit10 = tac & 0b11;
        match *self {
            TAC::Enabled => bit2 != 0,
            TAC::Freq1024 => bit10 == 0,
            TAC::Freq16 => bit10 == 1,
            TAC::Freq64 => bit10 == 2,
            TAC::Freq256 => bit10 == 3,
        }
    }
}

fn get_tac_freq(cpu: &Cpu) -> (r: usize)
    requires
        cpu@.wf(),
    ensures
        r == tac_period(cpu@.memory[0xFF07]),
{
    let bit10 = read_address(0xFF07, cpu) & 0b11;
    if bit10 == 0 {
        1024
    } else if bit10 == 1 {
        16
    } else if bit10 == 2 {
        64
    } else {
        256
    }
}

fn timer_tick(cpu: &mut Cpu)
    requires
        old(cpu)@.wf(),
    ensures
        final(cpu)@ == old(cpu)@.timer_tick(),
        final(cpu)@.wf(),
{
    let tma = read_address(0xFF06, cpu);
    let tima = read_address(0xFF05, cpu);
    if tima == 0xFF {
        write_address(0xFF05, tma, cpu);
        Interrupt::Timer.request(cpu);
    } else {
        write_address(0xFF05, tima + 1, cpu);
    }
}

proof fn lemma_split_div(c: int, x: int, p: int)
    requires
        0 <= c,
        0 <= x,
        0 < p,
    ensures
        (c + x) / p == x / p + (c + x % p) / p,
        (c + x) % p == (c + x % p) % p,
{
    let y = c + x % p;
    vstd::arithmetic::div_mod::lemma_fundamental_div_mod(x, p);
    vstd::arithmetic::div_mod::lemma_fundamental_div_mod(y, p);
    vstd::arithmetic::div_mod::lemma_mod_pos_bound(y, p);
    assert(c + x == (x / p + y / p) * p + y % p) by (nonlinear_arith)
        requires
            x == p * (x / p) + x % p,
            y == p * (y / p) + y % p,
            y == c + x % p,
    {
    }
    vstd::arithmetic::div_mod::lemma_fundamental_div_mod_converse(c + x, p, x / p + y / p, y % p);
}

fn step_divider(cpu: &mut Cpu, clocks: usize)
    requires
        old(cpu)@.wf(),
    ensures
        final(cpu)@ == old(cpu)@.divider_step_spec(clocks as int),
        final(cpu)@.wf(),
{
    let ghost v0 = cpu@;
    proof {
        lemma_split_div(cpu.curr_clocks as int, clocks as int, 256);
    }
    let t: usize = cpu.curr_clocks as usize + clocks % 256;
    let div_ticks: usize = clocks / 256 + t / 256;
    cpu.curr_clocks = (t % 256) as u32;
    let div = read_address(0xFF04, cpu);
    write_address(0xFF04, ((div as usize + div_ticks % 256) % 256) as u8, cpu);
    assert(((v0.memory[0xFF04] + div_ticks % 256) % 256) == ((v0.memory[0xFF04] + div_ticks)
        % 256)) by {
        vstd::arithmetic::div_mod::lemma_add_mod_noop_right(
            v0.memory[0xFF04] as int,
            div_ticks as int,
            256,
        );
    }
}

fn step_counter(cpu: &mut Cpu, clocks: usize)
    requires
        old(cpu)@.wf(),
    ensures
        final(cpu)@ == old(cpu)@.counter_step_spec(clocks as int),
        final(cpu)@.wf(),
{
    if TAC::Enabled.is_set(cpu) {
        let p = get_tac_freq(cpu);
        proof {
            lemma_split_div(cpu.curr_freq_clocks as int, clocks as int, p as int);
        }
        let tf: usize = cpu.curr_freq_clocks as usize + clocks % p;
        let ticks: usize = clocks / p + tf / p;
        cpu.curr_freq_clocks = (tf % p) as u32;
        let ghost base = cpu@;
        let mut i: usize = 0;
        while i < ticks
            invariant
                i <= ticks,
                cpu@ == base.timer_ticks(i as nat),
                cpu@.wf(),
            decreases ticks - i,
        {
            timer_tick(cpu);
            i = i + 1;
        }
    } else {
        cpu.curr_freq_clocks = 0;
    }
}

impl Cpu {
    /// Advances the divider and the timer by `clocks` cycles.
    pub fn inc_clocks(&mut self, clocks: usize)
        requires
            old(self)@.wf(),
        ensures
            final(self)@ == old(self)@.step_timer_spec(clocks as int),
            final(self)@.wf(),
    {
        step_divider(self, clocks);
        step_counter(self, clocks);
    }
}

impl Default for Cpu {
    /// A powered-on machine before boot: registers and memory zero, no keys
    /// pressed, no ROM images loaded.
    fn default() -> (r: Cpu)
        ensures
            r@.wf(),
            r.a == 0 && r.b == 0 && r.c == 0 && r.d == 0 && r.e == 0 && r.f == 0,
            r.h == 0 && r.l == 0 && r.sp == 0 && r.pc == 0 && r.keys == 0xFF,
            forall|i: int| 0 <= i < 0x10000 ==> #[trigger] r.memory@[i] == 0,
            forall|i: int| 0 <= i < 0x8000 ==> #[trigger] r.ram_memory@[i] == 0,
            r.boot_rom@.len() == 0 && r.cart_rom@.len() == 0,
            !r.cart_loaded && !r.has_booted && !r.interrupt_master_enabled && !r.halted,
            r.curr_clocks == 0 && r.curr_freq_clocks == 0,
            !r.mbc_1 && !r.mbc_1_ram && !r.mbc_1_battery,
            !r.ram_banking_mode && !r.ram_enabled,
            r.ram_or_rom_bank == 0 && r.lo_rom_bank == 0 && r.dma_transfer_cycles_left == 0,
            r.background_mode == 0 && r.window_mode == 0 && r.sprite_mode == 0,
    {
        let r = Cpu {
            a: 0,
            b: 0,
            c: 0,
            d: 0,
            e: 0,
            f: 0,
            h: 0,
            l: 0,
            sp: 0,
            pc: 0,
            cart_loaded: false,
            has_booted: false,
            interrupt_master_enabled: false,
            memory: vec![0u8; 0x10000],
            ram_memory: vec![0u8; 0x8000],
            boot_rom: Vec::new(),
            cart_rom: Vec::new(),
            curr_clocks: 0,
            curr_freq_clocks: 0,
            keys: 0xFF,
            mbc_1: false,
            mbc_1_ram: false,
            mbc_1_battery: false,
            ram_or_rom_bank: 0,
            lo_rom_bank: 0,
            dma_transfer_cycles_left: 0,
            ram_enabled: false,
            ram_banking_mode: false,
            halted: false,
            background_mode: 0,
            sprite_mode: 0,
            window_mode: 0,
            apu: Apu::default(),
        };
        assert(0u8 & 0x0F == 0) by (bit_vector);
        r
    }
}

/// NR10-NR14.
pub fn read_channel_1_addresses(cpu: &Cpu) -> (r: (u8, u8, u8, u8, u8))
    requires
        cpu@.wf(),
    ensures
        r == (cpu@.memory[0xFF10], cpu@.memory[0xFF11], cpu@.memory[0xFF12], cpu@.memory[0xFF13],
            cpu@.memory[0xFF14]),
{
    (
        read_address(0xFF10, cpu),
        read_address(0xFF11, cpu),
        read_address(0xFF12, cpu),
        read_address(0xFF13, cpu),
        read_address(0xFF14, cpu),
    )
}

/// NR21-NR24.
pub fn read_channel_2_addresses(cpu: &Cpu) -> (r: (u8, u8, u8, u8))
    requires
        cpu@.wf(),
    ensures
        r == (cpu@.memory[0xFF16], cpu@.memory[0xFF17], cpu@.memory[0xFF18], cpu@.memory[0xFF19]),
{
    (
        read_address(0xFF16, cpu),
        read_address(0xFF17, cpu),
        read_address(0xFF18, cpu),
        read_address(0xFF19, cpu),
    )
}

/// NR30-NR34.
pub fn read_channel_3_addresses(cpu: &Cpu) -> (r: (u8, u8, u8, u8, u8))
    requires
        cpu@.wf(),
    ensures
        r == (cpu@.memory[0xFF1A], cpu@.memory[0xFF1B], cpu@.memory[0xFF1C], cpu@.memory[0xFF1D],
            cpu@.memory[0xFF1E]),
{
    (
        read_address(0xFF1A, cpu),
        read_address(0xFF1B, cpu),
        read_address(0xFF1C, cpu),
        read_address(0xFF1D, cpu),
        read_address(0xFF1E, cpu),
    )
}

/// NR41-NR44.
pub fn read_channel_4_addresses(cpu: &Cpu) -> (r: (u8, u8, u8, u8))
    requires
        cpu@.wf(),
    ensures
        r == (cpu@.memory[0xFF20], cpu@.memory[0xFF21], cpu@.memory[0xFF22], cpu@.memory[0xFF23]),
{
    (
        read_address(0xFF20, cpu),
        read_address(0xFF21, cpu),
        read_address(0xFF22, cpu),
        read_address(0xFF23, cpu),
    )
}

fn select_rom_bank_lo(bank: u8, cpu: &mut Cpu)
    ensures
        final(cpu)@ == (CpuView { lo_rom_bank: (bank & 0x1F) as usize, ..old(cpu)@ }),
        final(cpu).lo_rom_bank < 32,
{
    cpu.lo_rom_bank = (bank & 0x1F) as usize;
    assert(bank & 0x1F < 32) by (bit_vector);
}

fn select_rom_or_ram_bank_hi(bank: u8, cpu: &mut Cpu)
    ensures
        final(cpu)@ == (CpuView { ram_or_rom_bank: (bank & 0x03) as usize, ..old(cpu)@ }),
        final(cpu).ram_or_rom_bank < 4,
{
    cpu.ram_or_rom_bank = (bank & 0x03) as usize;
    assert(bank & 0x03 < 4) by (bit_vector);
}

/// Stores to the raw bus (bank registers below 0x6000, the backing store elsewhere).
pub fn write_address(address: usize, val: u8, cpu: &mut Cpu)
    requires
        old(cpu)@.wf(),
        address < 0x10000,
    ensures
        final(cpu)@ == old(cpu)@.write_spec(address as int, val),
        final(cpu)@.wf(),
{
    if 0x2000 <= address && address <= 0x3FFF {
        select_rom_bank_lo(val, cpu);
    } else if 0x4000 <= address && address <= 0x5FFF {
        select_rom_or_ram_bank_hi(val, cpu);
    } else {
        cpu.memory[address] = val;
    }
}

proof fn lemma_byte_fields(x: u8)
    by (bit_vector)
    ensures
        x & 0x07 < 8,
        x >> 4 < 16,
        x & 0x3F < 64,
{
}

fn trigger_wave(apu: &mut Apu, mem: &Vec<u8>)
    requires
        mem@.len() == 0x10000,
    ensures
        *final(apu) == wave_trigger_spec(*old(apu), mem@),
{
    let freq: u32 = mem[0xFF1D] as u32 + 256 * (mem[0xFF1E] as u32);
    let pos: u32 = (128 - freq % 128) % 128;
    assert(pos == (2048 - freq) % 128) by {
        assert((2048 - freq) % 128 == (128 - freq % 128) % 128);
    }
    apu.channel_3.counter = 256;
    apu.channel_3_wave_pos = 0;
    apu.channel_3_pos = 2 * pos;
    apu.channel_3.volume = (mem[0xFF1C] & 0x60) >> 5;
    apu.channel_3.enabled = (mem[0xFF1A] & 0x80) != 0;
}

fn trigger_noise(apu: &mut Apu, mem: &Vec<u8>)
    requires
        mem@.len() == 0x10000,
    ensures
        *final(apu) == noise_trigger_spec(*old(apu), mem@),
{
    let nr42 = mem[0xFF21];
    let nr43 = mem[0xFF22];
    proof {
        lemma_byte_fields(nr43);
    }
    let idx = nr43 & 0x7;
    let dividing_ratio: u32 = if idx == 0 {
        8
    } else {
        16 * idx as u32
    };
    let shift_clock_freq = (nr43 >> 4) as u32;
    apu.channel_4.counter = 64;
    apu.channel_4.lfsr = 0x7FFF;
    apu.channel_4.freq_pos = dividing_ratio << shift_clock_freq;
    apu.channel_4.envelope_pos = nr42 & 7;
    apu.channel_4.volume = nr42 >> 4;
    apu.channel_4.enabled = nr42 & 0xF8 != 0;
}

fn trigger_square(ch: &mut SquareChannel, nrx2: u8)
    ensures
        *final(ch) == square_trigger_spec(*old(ch), nrx2),
{
    ch.counter = 64;
    ch.envelope_pos = nrx2 & 7;
    ch.volume = (nrx2 & 0xF0) >> 4;
    ch.enabled = nrx2 & 0xF8 != 0;
}

fn set_square_envelope(ch: &mut SquareChannel, val: u8)
    ensures
        *final(ch) == square_envelope_spec(*old(ch), val),
{
    ch.volume = val >> 4;
    ch.incr_vol = val & 8 != 0;
    ch.envelope_period = val & 7;
}

/// The channel-state side of a write to a sound register.
fn sound_write(apu: &mut Apu, mem: &Vec<u8>, address: usize, val: u8)
    requires
        mem@.len() == 0x10000,
    ensures
        *final(apu) == sound_write_spec(*old(apu), mem@, address as int, val),
{
    proof {
        lemma_byte_fields(val);
    }
    let trigger = val & 0x80 != 0;
    if address == 0xFF11 {
        apu.channel_1.counter = 64 - (val & 0x3F) as u16;
    } else if address == 0xFF12 {
        set_square_envelope(&mut apu.channel_1, val);
    } else if address == 0xFF14 && trigger {
        trigger_square(&mut apu.channel_1, mem[0xFF12]);
        apu.channel_1_pos = 0;
    } else if address == 0xFF16 {
        apu.channel_2.counter = 64 - (val & 0x3F) as u16;
    } else if address == 0xFF17 {
        set_square_envelope(&mut apu.channel_2, val);
    } else if address == 0xFF19 && trigger {
        trigger_square(&mut apu.channel_2, mem[0xFF17]);
        apu.channel_2_pos = 0;
    } else if address == 0xFF1B {
        apu.channel_3.counter = 256 - val as u16;
    } else if address == 0xFF1E && trigger {
        trigger_wave(apu, mem);
    } else if address == 0xFF20 {
        apu.channel_4.counter = 64 - (val & 0x3F) as u16;
    } else if address == 0xFF21 {
        apu.channel_4.volume = val >> 4;
        apu.channel_4.incr_vol = val & 8 != 0;
        apu.channel_4.envelope_period = val & 7;
    } else if address == 0xFF23 && trigger {
        trigger_noise(apu, mem);
    }
}

/// Writes NR14, NR24, NR34 or NR44; with bit 7 set the channel is triggered.
pub fn write_nx4_address(address: usize, val: u8, cpu: &mut Cpu)
    requires
        old(cpu)@.wf(),
        address == 0xFF14 || address == 0xFF19 || address == 0xFF1E || address == 0xFF23,
    ensures
        final(cpu)@ == (CpuView {
            apu: sound_write_spec(old(cpu)@.apu, old(cpu)@.memory, address as int, val),
            ..old(cpu)@
        }).write_spec(address as int, val),
        final(cpu)@.wf(),
{
    write_sound_address(address, val, cpu);
}

fn write_sound_address(address: usize, val: u8, cpu: &mut Cpu)
    requires
        old(cpu)@.wf(),
        0xFF10 <= address <= 0xFF26,
    ensures
        final(cpu)@ == (CpuView {
            apu: sound_write_spec(old(cpu)@.apu, old(cpu)@.memory, address as int, val),
            ..old(cpu)@
        }).write_spec(address as int, val),
        final(cpu)@.wf(),
{
    sound_write(&mut cpu.apu, &cpu.memory, address, val);
    write_address(address, val, cpu);
}

fn finish_boot(cpu: &mut Cpu)
    requires
        old(cpu)@.wf(),
    ensures
        final(cpu)@ == old(cpu)@.boot_spec(),
        final(cpu)@.wf(),
{
    cpu.has_booted = true;
    write_address(0xFF00, 0xCF, cpu);
    let kind = read_address(0x147, cpu);
    if kind == 1 {
        cpu.mbc_1 = true;
    } else if kind == 2 {
        cpu.mbc_1 = true;
        cpu.mbc_1_ram = true;
    } else if kind == 3 {
        cpu.mbc_1 = true;
        cpu.mbc_1_ram = true;
        cpu.mbc_1_battery = true;
    }
}

#[verifier::rlimit(60)]
fn write_allowed_io(address: usize, val: u8, cpu: &mut Cpu)
    requires
        old(cpu)@.wf(),
        0x8000 <= address < 0x10000,
    ensures
        final(cpu)@ == old(cpu)@.io_write_spec(address as int, val),
        final(cpu)@.wf(),
{
    reveal(CpuView::io_write_spec);
    if 0xA000 <= address && address <= 0xBFFF {
        write_ram_address(address, val, cpu);
    } else if 0xC000 <= address && address <= 0xDDFF {
        write_address(address, val, cpu);
        write_address(address + 0x2000, val, cpu);
    } else if 0xE000 <= address && address <= 0xFDFF {
        write_address(address, val, cpu);
        write_address(address - 0x2000, val, cpu);
    } else if address == 0xFF00 {
        write_joypad(val, cpu);
    } else if address == 0xFF04 || address == 0xFF44 {
        write_address(address, 0, cpu);
    } else if 0xFF10 <= address && address <= 0xFF26 {
        write_sound_address(address, val, cpu);
    } else if address == 0xFF41 {
        write_stat_address(val, cpu);
    } else if address == 0xFF46 {
        dma_transfer(val, cpu);
    } else if address == 0xFF50 {
        finish_boot(cpu);
    } else {
        write_address(address, val, cpu);
    }
}

#[verifier::rlimit(40)]
/// Writes as the CPU does: contention with the LCD and DMA, MBC commands in
/// ROM space, echo RAM, and the side effects of the I/O registers.
pub fn safe_write_address(address: usize, val: u8, cpu: &mut Cpu)
    requires
        old(cpu)@.wf(),
        address < 0x10000,
    ensures
        final(cpu)@ == old(cpu)@.safe_write_spec(address as int, val),
        final(cpu)@.wf(),
{
    reveal(CpuView::safe_write_spec);
    let safe_to_write = cpu.dma_transfer_cycles_left <= 0 && if address <= 0x7FFF {
        false
    } else if 0x8000 <= address && address <= 0x9FFF {
        !LCDC::Power.is_set(cpu) || !ScreenMode::Transferring.is_set(cpu)
    } else if 0xA000 <= address && address <= 0xBFFF {
        cpu.ram_enabled
    } else if 0xFE00 <= address && address <= 0xFE9F {
        !LCDC::Power.is_set(cpu) || ScreenMode::HBlank.is_set(cpu) || ScreenMode::VBlank.is_set(
            cpu,
        )
    } else if 0xFEA0 <= address && address <= 0xFEFF {
        false
    } else {
        true
    };
    if safe_to_write {
        write_allowed_io(address, val, cpu);
    } else if cpu.dma_transfer_cycles_left > 0 {
        if 0xFF80 <= address && address <= 0xFFFE {
            write_address(address, val, cpu);
        }
    } else {
        mbc_command(address, val, cpu);
    }
}

fn mbc_command(address: usize, val: u8, cpu: &mut Cpu)
    requires
        old(cpu)@.wf(),
    ensures
        final(cpu)@ == old(cpu)@.mbc_command_spec(address as int, val),
        final(cpu)@.wf(),
{
    if address <= 0x1FFF {
        cpu.ram_enabled = cpu.mbc_1_ram && ((0x0A & val) == 0x0A);
    } else if address <= 0x3FFF {
        select_rom_bank_lo(val, cpu);
    } else if address <= 0x5FFF {
        select_rom_or_ram_bank_hi(val, cpu);
    } else if address <= 0x7FFF {
        cpu.ram_banking_mode = val == 1;
    }
}

/// Pushes a 16-bit value: SP drops by two and the word is stored little-endian.
pub fn stack_push(val: u16, cpu: &mut Cpu)
    requires
        old(cpu)@.wf(),
    ensures
        final(cpu)@ == old(cpu)@.push_spec(val),
        final(cpu)@.wf(),
{
    let (l_byte, r_byte) = ((val / 256) as u8, (val % 256) as u8);
    let sp = cpu.sp.wrapping_sub(2);
    assert(sp == old(cpu)@.sp_plus(-2));
    cpu.sp = sp;
    safe_write_address(sp as usize, r_byte, cpu);
    let sp1 = sp.wrapping_add(1);
    assert(sp1 == (sp as int + 1) % 0x10000);
    safe_write_address(sp1 as usize, l_byte, cpu);
}

/// Pops a 16-bit value: the little-endian word at SP, then SP rises by two.
pub fn stack_pop(cpu: &mut Cpu) -> (r: u16)
    requires
        old(cpu)@.wf(),
    ensures
        r == old(cpu)@.pop_value(),
        final(cpu)@ == (CpuView { sp: old(cpu)@.sp_plus(2), ..old(cpu)@ }),
{
    let r_byte = safe_read_address(cpu.sp as usize, cpu) as u16;
    let l_byte = safe_read_address(cpu.sp.wrapping_add(1) as usize, cpu) as u16;
    cpu.sp = cpu.sp.wrapping_add(2);
    l_byte * 256 + r_byte
}

/// The CPU's write path preserves well-formedness.
pub proof fn lemma_safe_write_wf(v: CpuView, addr: int, val: u8)
    requires
        v.wf(),
        0 <= addr < 0x10000,
    ensures
        v.safe_write_spec(addr, val).wf(),
{
    reveal(CpuView::safe_write_spec);
    reveal(CpuView::io_write_spec);
    assert(val & 0x1F < 32 && val & 0x03 < 4) by (bit_vector);
    if v.write_allowed(addr) && addr == 0xFF46 {
        assert(v.dma_spec(val).memory.len() == 0x10000);
    }
}

/// The CPU's write path leaves the registers and the CPU control state alone.
pub proof fn lemma_safe_write_regs(v: CpuView, addr: int, val: u8)
    requires
        v.wf(),
        0 <= addr < 0x10000,
    ensures
        v.safe_write_spec(addr, val).wf(),
        v.safe_write_spec(addr, val).a == v.a,
        v.safe_write_spec(addr, val).b == v.b,
        v.safe_write_spec(addr, val).c == v.c,
        v.safe_write_spec(addr, val).d == v.d,
        v.safe_write_spec(addr, val).e == v.e,
        v.safe_write_spec(addr, val).f == v.f,
        v.safe_write_spec(addr, val).h == v.h,
        v.safe_write_spec(addr, val).l == v.l,
        v.safe_write_spec(addr, val).sp == v.sp,
        v.safe_write_spec(addr, val).interrupt_master_enabled == v.interrupt_master_enabled,
        v.safe_write_spec(addr, val).halted == v.halted,
{
    lemma_safe_write_wf(v, addr, val);
    reveal(CpuView::safe_write_spec);
    reveal(CpuView::io_write_spec);
}

/// Writing a low bank number whose five low bits are zero (0x00, 0x20, 0x40,
/// 0x60) selects bank 1 of the current high-bit group: 0x01, 0x21, 0x41 or
/// 0x61 for high bits 0 to 3 in ROM banking mode.
pub proof fn lemma_bank_zero_quirk(v: CpuView, addr: int, val: u8)
    requires
        v.wf(),
        0x2000 <= addr <= 0x3FFF,
        v.dma_transfer_cycles_left <= 0,
        !v.ram_banking_mode,
        val == 0x00 || val == 0x20 || val == 0x40 || val == 0x60,
    ensures
        v.safe_write_spec(addr, val).rom_bank() == v.ram_or_rom_bank * 0x20 + 1,
{
    reveal(CpuView::safe_write_spec);
    assert(val == 0x00 || val == 0x20 || val == 0x40 || val == 0x60 ==> val & 0x1F == 0)
        by (bit_vector);
}

/// A write anywhere in 0xC000-0xDDFF reads back at the address 0x2000 above
/// it, and a write in 0xE000-0xFDFF reads back 0x2000 below it.
pub proof fn lemma_echo_mirror(v: CpuView, addr: int, val: u8)
    requires
        v.wf(),
        v.dma_transfer_cycles_left <= 0,
        0xC000 <= addr <= 0xDDFF || 0xE000 <= addr <= 0xFDFF,
    ensures
        0xC000 <= addr <= 0xDDFF ==> v.safe_write_spec(addr, val).safe_read_spec(addr + 0x2000)
            == val,
        0xE000 <= addr <= 0xFDFF ==> v.safe_write_spec(addr, val).safe_read_spec(addr - 0x2000)
            == val,
        v.safe_write_spec(addr, val).safe_read_spec(addr) == val,
{
    reveal(CpuView::safe_write_spec);
    reveal(CpuView::io_write_spec);
    reveal(CpuView::safe_read_spec);
}

/// With the timer enabled at 16 cycles per tick, its accumulator at zero and
/// TIMA at 0xFF, 16 cycles reload TIMA from TMA and request the Timer
/// interrupt.
pub proof fn lemma_timer_overflow(v: CpuView)
    requires
        v.wf(),
        v.memory[0xFF07] & 0x07 == 0x05,
        v.curr_freq_clocks == 0,
        v.memory[0xFF05] == 0xFF,
    ensures
        v.step_timer_spec(16).memory[0xFF05] == v.memory[0xFF06],
        v.step_timer_spec(16).memory[0xFF0F] & 0x04 != 0,
{
    let x = v.memory[0xFF07];
    assert(x & 0x07 == 0x05 ==> (x & 0x04 != 0 && x & 0x03 == 1)) by (bit_vector);
    let w = v.divider_step_spec(16);
    assert(w.memory[0xFF07] == x && w.memory[0xFF05] == 0xFF && w.memory[0xFF06] == v.memory[0xFF06]);
    let w1 = CpuView { curr_freq_clocks: 0, ..w };
    assert(w1.timer_ticks(1) == w1.timer_ticks(0).timer_tick());
    let r = w.memory[0xFF0F];
    assert((r | 0x04) & 0x04 != 0) by (bit_vector);
}

/// A write from the CPU to stack memory reads back, and leaves the other
/// stack bytes (but the echo of the written one) as they were.
pub proof fn lemma_stack_write(v: CpuView, a: int, b: u8, x: int)
    requires
        v.wf(),
        0 <= a < 0x10000,
        v.is_stack_ram(a),
        v.is_stack_ram(x),
        x != a && x != a + 0x2000 && x != a - 0x2000,
    ensures
        v.safe_write_spec(a, b).safe_read_spec(a) == b,
        v.safe_write_spec(a, b).safe_read_spec(x) == v.safe_read_spec(x),
        v.safe_write_spec(a, b).is_stack_ram(x),
        v.safe_write_spec(a, b).sp == v.sp,
        v.safe_write_spec(a, b).wf(),
{
    reveal(CpuView::safe_write_spec);
    reveal(CpuView::io_write_spec);
    reveal(CpuView::safe_read_spec);
}

/// Pushing a value and popping it back yields the value and restores SP,
/// whenever the two stack bytes lie in memory that reads back what was
/// written.
pub proof fn lemma_push_pop(v: CpuView, val: u16)
    requires
        v.wf(),
        v.is_stack_ram(v.sp_plus(-2) as int),
        v.is_stack_ram(v.sp_plus(-1) as int),
    ensures
        v.push_spec(val).pop_value() == val,
        v.push_spec(val).sp_plus(2) == v.sp,
{
    let sp = v.sp_plus(-2);
    let v0 = CpuView { sp: sp, ..v };
    let a = sp as int;
    let a1 = (sp as int + 1) % 0x10000;
    assert(a1 == v.sp_plus(-1) as int);
    lemma_stack_write(v0, a, (val % 256) as u8, a1);
    let s1 = v0.safe_write_spec(a, (val % 256) as u8);
    lemma_stack_write(s1, a1, (val / 256) as u8, a);
    let s2 = s1.safe_write_spec(a1, (val / 256) as u8);
    assert(s2.sp_plus(1) as int == a1);
    assert(s2.safe_read_spec(a) == (val % 256) as u8);
    assert(s2.safe_read_spec(a1) == (val / 256) as u8);
}

} // verus!
