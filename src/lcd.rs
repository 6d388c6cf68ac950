use vstd::prelude::*;
use crate::cpu::{Cpu, CpuView, read_address, write_address};
use crate::interrupt::{Interrupt, request_spec};

verus! {

/// Bits of the LCD control register (0xFF40).
pub enum LCDC {
    Power,
    WindowTileMap,
    WindowEnable,
    Tileset,
    BGTileMap,
    SpriteSize,
    SpritesEnable,
    BGEnable,
}

pub open spec fn lcdc_mask(l: LCDC) -> u8 {
    match l {
        LCDC::Power => 0x80,
        LCDC::WindowTileMap => 0x40,
        LCDC::WindowEnable => 0x20,
        LCDC::Tileset => 0x10,
        LCDC::BGTileMap => 0x08,
        LCDC::SpriteSize => 0x04,
        LCDC::SpritesEnable => 0x02,
        LCDC::BGEnable => 0x01,
    }
}

/// Whether the LCD is powered on.
pub open spec fn lcd_on(v: CpuView) -> bool {
    v.memory[0xFF40] & 0x80 != 0
}

/// The STAT register as the CPU sees it: bit 7 always reads 1, and while the
/// LCD is off the mode and coincidence bits read 0.
pub open spec fn stat_view(v: CpuView) -> u8 {
    if lcd_on(v) {
        0x80 | v.memory[0xFF41]
    } else {
        (0x80 | v.memory[0xFF41]) & 0xF8
    }
}

/// The current screen mode, as read through STAT.
pub open spec fn mode_of(v: CpuView) -> u8 {
    stat_view(v) & 0x03
}

impl LCDC {
    pub fn is_set(&self, cpu: &Cpu) -> (r: bool)
        requires
            cpu@.wf(),
        ensures
            r == (cpu@.memory[0xFF40] & lcdc_mask(*self) != 0),
    {
        read_address(0xFF40, cpu) & self.bit_mask() != 0
    }

    pub fn bit_mask(&self) -> (r: u8)
        ensures
            r == lcdc_mask(*self),
    {
        match *self {
            LCDC::Power => 0x80,
            LCDC::WindowTileMap => 0x40,
            LCDC::WindowEnable => 0x20,
            LCDC::Tileset => 0x10,
            LCDC::BGTileMap => 0x08,
            LCDC::SpriteSize => 0x04,
            LCDC::SpritesEnable => 0x02,
            LCDC::BGEnable => 0x01,
        }
    }
}

/// Bits of the LCD status register (0xFF41).
pub enum STAT {
    LYLYCCheck,
    Mode2OAMCheck,
    Mode1VBlankCheck,
    Mode0HBlankCheck,
    LYLYCSignal,
    SM(ScreenMode),
}

/// The four phases of a scanline.
#[derive(Clone, Copy, PartialEq, Eq, Structural)]
pub enum ScreenMode {
    HBlank,
    VBlank,
    Searching,
    Transferring,
}

pub open spec fn mode_code(m: ScreenMode) -> u8 {
    match m {
        ScreenMode::HBlank => 0,
        ScreenMode::VBlank => 1,
        ScreenMode::Searching => 2,
        ScreenMode::Transferring => 3,
    }
}

pub open spec fn stat_mask(s: STAT) -> u8 {
    match s {
        STAT::LYLYCCheck => 0x40,
        STAT::Mode2OAMCheck => 0x20,
        STAT::Mode1VBlankCheck => 0x10,
        STAT::Mode0HBlankCheck => 0x08,
        STAT::LYLYCSignal => 0x04,
        STAT::SM(_) => 0x03,
    }
}

impl ScreenMode {
    pub fn is_set(&self, cpu: &Cpu) -> (r: bool)
        requires
            cpu@.wf(),
        ensures
            r == (mode_of(cpu@) == mode_code(*self)),
    {
        let val = read_stat_address(cpu) & self.stat_mask();
        val == self.val()
    }

    /// Stores this mode in the low two bits of STAT.
    pub fn set(&self, cpu: &mut Cpu)
        requires
            old(cpu)@.wf(),
        ensures
            final(cpu)@ == old(cpu)@.write_spec(
                0xFF41,
                (stat_view(old(cpu)@) & 0xFC) | mode_code(*self),
            ),
            final(cpu)@.wf(),
    {
        let val = read_stat_address(cpu) & (0xFF - self.stat_mask());
        write_address(0xFF41, val | self.val(), cpu);
    }

    pub fn val(&self) -> (r: u8)
        ensures
            r == mode_code(*self),
    {
        match *self {
            ScreenMode::HBlank => 0,
            ScreenMode::VBlank => 1,
            ScreenMode::Searching => 2,
            ScreenMode::Transferring => 3,
        }
    }

    pub fn stat_mask(&self) -> (r: u8)
        ensures
            r == 0x03,
    {
        0b11
    }
}

/// Reads STAT as the CPU sees it.
pub fn read_stat_address(cpu: &Cpu) -> (r: u8)
    requires
        cpu@.wf(),
    ensures
        r == stat_view(cpu@),
{
    let val = 0x80 | read_address(0xFF41, cpu);
    if LCDC::Power.is_set(cpu) {
        val
    } else {
        val & (0xFF - 0b111)
    }
}

/// Writes STAT from the CPU: the three low bits belong to the LCD and are kept.
pub fn write_stat_address(val: u8, cpu: &mut Cpu)
    requires
        old(cpu)@.wf(),
    ensures
        final(cpu)@ == old(cpu)@.write_spec(
            0xFF41,
            (val & 0xF8) | (old(cpu)@.memory[0xFF41] & 0x07),
        ),
        final(cpu)@.wf(),
{
    let prev_val = read_address(0xFF41, cpu);
    let write_val = (val & (0xFF - 0b111)) | (prev_val & 0b111);
    write_address(0xFF41, write_val, cpu)
}

pub fn stat_is_set(stat: STAT, cpu: &Cpu) -> (r: bool)
    requires
        cpu@.wf(),
    ensures
        r == (stat_view(cpu@) & stat_mask(stat) != 0),
{
    read_stat_address(cpu) & stat_bit(stat) != 0
}

pub fn screen_mode_is_set(screen_mode: ScreenMode, cpu: &Cpu) -> (r: bool)
    requires
        cpu@.wf(),
    ensures
        r == (mode_of(cpu@) == mode_code(screen_mode)),
{
    let val = read_stat_address(cpu) & stat_bit(STAT::SM(screen_mode));
    val == screen_mode_val(screen_mode)
}

pub fn screen_mode_set(screen_mode: ScreenMode, cpu: &mut Cpu)
    requires
        old(cpu)@.wf(),
    ensures
        final(cpu)@ == old(cpu)@.write_spec(
            0xFF41,
            (stat_view(old(cpu)@) & 0xFC) | mode_code(screen_mode),
        ),
        final(cpu)@.wf(),
{
    let val = read_stat_address(cpu) & (0xFF - stat_bit(STAT::SM(screen_mode)));
    write_address(0xFF41, val | screen_mode_val(screen_mode), cpu);
}

pub fn screen_mode_val(screen_mode: ScreenMode) -> (r: u8)
    ensures
        r == mode_code(screen_mode),
{
    match screen_mode {
        ScreenMode::HBlank => 0,
        ScreenMode::VBlank => 1,
        ScreenMode::Searching => 2,
        ScreenMode::Transferring => 3,
    }
}

pub fn stat_bit(stat: STAT) -> (r: u8)
    ensures
        r == stat_mask(stat),
{
    match stat {
        STAT::LYLYCCheck => 0x40,
        STAT::Mode2OAMCheck => 0x20,
        STAT::Mode1VBlankCheck => 0x10,
        STAT::Mode0HBlankCheck => 0x08,
        STAT::LYLYCSignal => 0x04,
        STAT::SM(_) => 0x03,
    }
}

/// The machine with STAT's mode bits set to `m`.
pub open spec fn set_mode_spec(v: CpuView, m: ScreenMode) -> CpuView {
    v.write_spec(0xFF41, (stat_view(v) & 0xFC) | mode_code(m))
}

/// The mode a visible scanline is in, `dot` cycles into the line.
pub open spec fn line_mode(dot: int) -> ScreenMode {
    if dot <= 202 {
        ScreenMode::HBlank
    } else if dot <= 283 {
        ScreenMode::Searching
    } else {
        ScreenMode::Transferring
    }
}

/// Whether entering `m` raises the LCD interrupt, by STAT's enable bits.
pub open spec fn mode_irq_enabled(v: CpuView, m: ScreenMode) -> bool {
    match m {
        ScreenMode::HBlank => stat_view(v) & 0x08 != 0,
        ScreenMode::Searching => stat_view(v) & 0x20 != 0,
        _ => false,
    }
}

/// `update_status`: with the LCD on, lines 144 and up are in VBlank; on a
/// visible line the mode follows the position in the 456-cycle line, and a
/// change of mode may request the LCD interrupt.
pub open spec fn status_spec(v: CpuView, frames: int) -> CpuView {
    if !lcd_on(v) {
        v
    } else if v.memory[0xFF44] >= 144 {
        set_mode_spec(v, ScreenMode::VBlank)
    } else {
        let m = line_mode(frames % 456);
        if mode_of(v) == mode_code(m) {
            v
        } else {
            let w = if mode_irq_enabled(v, m) && v.interrupt_master_enabled {
                request_spec(v, Interrupt::LCD)
            } else {
                v
            };
            set_mode_spec(w, m)
        }
    }
}

pub fn update_status(frames: usize, cpu: &mut Cpu)
    requires
        old(cpu)@.wf(),
    ensures
        final(cpu)@ == status_spec(old(cpu)@, frames as int),
        final(cpu)@.wf(),
{
    if LCDC::Power.is_set(cpu) {
        let ly = read_address(0xFF44, cpu);
        if ly >= 144 {
            ScreenMode::VBlank.set(cpu);
        } else {
            let dot = frames % 456;
            let (interrupt_enabled, new_mode) = if dot <= 202 {
                (stat_is_set(STAT::Mode0HBlankCheck, cpu), ScreenMode::HBlank)
            } else if dot <= 283 {
                (stat_is_set(STAT::Mode2OAMCheck, cpu), ScreenMode::Searching)
            } else {
                (false, ScreenMode::Transferring)
            };
            if !new_mode.is_set(cpu) {
                if interrupt_enabled && cpu.interrupt_master_enabled {
                    Interrupt::LCD.request(cpu);
                    proof {
                        assert(lcd_on(cpu@));
                    }
                }
                new_mode.set(cpu);
            }
        }
    }
}

/// The LY value after a line ends: lines count 0 to 153.
pub open spec fn next_ly(v: CpuView) -> u8 {
    ((v.memory[0xFF44] + 1) % 154) as u8
}

/// The interrupt requests at the start of a line: VBlank (and LCD, when STAT
/// asks) on line 144, LCD when STAT asks for LY = LYC; only with the master
/// enable on.
pub open spec fn line_irq_spec(v: CpuView, ly: u8) -> CpuView {
    if !v.interrupt_master_enabled {
        v
    } else {
        let v1 = if ly == 144 { request_spec(v, Interrupt::VBlank) } else { v };
        let v2 = if stat_view(v1) & 0x10 != 0 && ly == 144 { request_spec(v1, Interrupt::LCD) } else { v1 };
        if stat_view(v2) & 0x40 != 0 && ly == v2.memory[0xFF45] {
            request_spec(v2, Interrupt::LCD)
        } else {
            v2
        }
    }
}

/// `increment_ly`: LY advances, the line's interrupts are requested, and
/// STAT's coincidence bit tells whether LY equals LYC.
pub open spec fn ly_spec(v: CpuView) -> CpuView {
    let ly = next_ly(v);
    let v1 = line_irq_spec(v.write_spec(0xFF44, ly), ly);
    let stat = v1.memory[0xFF41];
    if ly == v1.memory[0xFF45] {
        v1.write_spec(0xFF41, stat | 0x04)
    } else {
        v1.write_spec(0xFF41, stat & 0xFB)
    }
}

fn line_interrupts(val: u8, cpu: &mut Cpu)
    requires
        old(cpu)@.wf(),
    ensures
        final(cpu)@ == line_irq_spec(old(cpu)@, val),
        final(cpu)@.wf(),
{
    if cpu.interrupt_master_enabled {
        if val == 144 {
            Interrupt::VBlank.request(cpu);
        }
        if stat_is_set(STAT::Mode1VBlankCheck, cpu) && val == 144 {
            Interrupt::LCD.request(cpu);
        }
        if stat_is_set(STAT::LYLYCCheck, cpu) && val == read_address(0xFF45, cpu) {
            Interrupt::LCD.request(cpu);
        }
    }
}

pub fn increment_ly(cpu: &mut Cpu)
    requires
        old(cpu)@.wf(),
    ensures
        final(cpu)@ == ly_spec(old(cpu)@),
        final(cpu)@.wf(),
{
    let val = ((read_address(0xFF44, cpu) as u16 + 1) % 154) as u8;
    write_address(0xFF44, val, cpu);
    line_interrupts(val, cpu);
    let stat = read_address(0xFF41, cpu);
    if val == read_address(0xFF45, cpu) {
        write_address(0xFF41, stat | 0b100, cpu);
    } else {
        write_address(0xFF41, stat & (0xFF - 0b100), cpu);
    }
}

} // verus!
