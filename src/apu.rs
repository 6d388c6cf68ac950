use vstd::prelude::*;
use crate::cpu::{Cpu, CpuView, read_address};

verus! {

/// State of the programmable wave channel (channel 3).
pub struct WaveChannel {
    pub counter: u16,
    pub enabled: bool,
    pub freq_pos: u32,
    pub wave_pos: usize,
    pub volume: u8,
}

/// State of a pulse channel (channels 1 and 2).
pub struct SquareChannel {
    pub counter: u16,
    pub enabled: bool,
    pub envelope_pos: u8,
    pub envelope_period: u8,
    pub freq_pos: u32,
    pub incr_vol: bool,
    pub volume: u8,
    pub wave_pos: usize,
    pub duty_table: [u8; 32],
}

/// State of the noise channel (channel 4).
pub struct NoiseChannel {
    pub counter: u16,
    pub enabled: bool,
    pub envelope_pos: u8,
    pub volume: u8,
    pub lfsr: u16,
    pub freq_pos: u32,
    pub incr_vol: bool,
    pub envelope_period: u8,
}

/// Sound state driven by the register writes and the frame sequencer.
/// The output device and its sample queue are held by the caller.
pub struct Apu {
    pub master_clock: u32,
    pub length_clock: u32,
    pub sweep_clock: u8,
    pub sweep_negate: bool,
    pub envelope_clock: u32,
    pub sample_length_arr: [u8; 512],
    pub sweep_period: u8,
    pub sweeping: bool,
    pub channel_1_shadow_freq: u32,
    pub channel_1_pos: u32,
    pub channel_2_pos: u32,
    pub channel_3_pos: u32,
    pub channel_3_wave_pos: u32,
    pub channel_1: SquareChannel,
    pub channel_2: SquareChannel,
    pub channel_3: WaveChannel,
    pub channel_4: NoiseChannel,
    pub audio_freq: u32,
}

/// The four duty patterns (12.5%, 25%, 50%, 75%), eight steps each.
pub open spec fn duty_pattern() -> Seq<u8> {
    seq![
        0u8, 0, 0, 0, 0, 0, 0, 1,
        1, 0, 0, 0, 0, 0, 0, 1,
        1, 0, 0, 0, 0, 1, 1, 1,
        0, 1, 1, 1, 1, 1, 1, 0,
    ]
}

fn get_duty_table() -> (r: [u8; 32])
    ensures
        r@ == duty_pattern(),
{
    let r: [u8; 32] = [
        0, 0, 0, 0, 0, 0, 0, 1, 1, 0, 0, 0, 0, 0, 0, 1, 1, 0, 0, 0, 0, 1, 1, 1, 0, 1, 1, 1, 1, 1,
        1, 0,
    ];
    assert(r@ =~= duty_pattern());
    r
}

/// Number of output samples produced on each of the 512 frame-sequencer steps.
pub open spec fn sample_len_at(i: int) -> u8 {
    if i % 128 == 0 || i % 8 == 4 {
        87
    } else {
        86
    }
}

pub fn sample_len_arr() -> (arr: [u8; 512])
    ensures
        forall|i: int| 0 <= i < 512 ==> #[trigger] arr@[i] == sample_len_at(i),
{
    let mut arr: [u8; 512] = [0; 512];
    let mut i: usize = 0;
    while i < 512
        invariant
            i <= 512,
            forall|j: int| 0 <= j < i ==> #[trigger] arr@[j] == sample_len_at(j),
        decreases 512 - i,
    {
        arr[i] = if i % 128 == 0 || i % 8 == 4 {
            87
        } else {
            86
        };
        i = i + 1;
    }
    arr
}

impl Default for NoiseChannel {
    fn default() -> (r: NoiseChannel)
        ensures
            r.counter == 0 && !r.enabled && r.envelope_pos == 0 && r.volume == 0,
            r.lfsr == 0x7FFF && r.freq_pos == 0 && !r.incr_vol && r.envelope_period == 0,
    {
        NoiseChannel {
            counter: 0,
            enabled: false,
            envelope_pos: 0,
            volume: 0,
            freq_pos: 0,
            lfsr: 0x7FFF,
            incr_vol: false,
            envelope_period: 0,
        }
    }
}

impl Default for SquareChannel {
    fn default() -> (r: SquareChannel)
        ensures
            r.counter == 0 && !r.enabled && r.envelope_pos == 0 && r.freq_pos == 0,
            r.volume == 0 && !r.incr_vol && r.envelope_period == 0 && r.wave_pos == 0,
            r.duty_table@ == duty_pattern(),
    {
        SquareChannel {
            counter: 0,
            enabled: false,
            envelope_pos: 0,
            freq_pos: 0,
            volume: 0,
            incr_vol: false,
            envelope_period: 0,
            wave_pos: 0,
            duty_table: get_duty_table(),
        }
    }
}

impl Default for WaveChannel {
    fn default() -> (r: WaveChannel)
        ensures
            r.counter == 0 && !r.enabled && r.freq_pos == 0 && r.wave_pos == 0 && r.volume == 0,
    {
        WaveChannel { counter: 0, enabled: false, freq_pos: 0, wave_pos: 0, volume: 0 }
    }
}

impl Default for Apu {
    fn default() -> (r: Apu)
        ensures
            r.master_clock == 0 && r.length_clock == 0 && r.sweep_clock == 0,
            r.sweep_period == 0 && !r.sweep_negate && !r.sweeping && r.envelope_clock == 0,
            r.channel_1_shadow_freq == 0 && r.channel_1_pos == 0 && r.channel_2_pos == 0,
            r.channel_3_pos == 0 && r.channel_3_wave_pos == 0 && r.audio_freq == 44100,
            forall|i: int| 0 <= i < 512 ==> #[trigger] r.sample_length_arr@[i] == sample_len_at(i),
            !r.channel_1.enabled && !r.channel_2.enabled,
            !r.channel_3.enabled && !r.channel_4.enabled,
            r.channel_1.duty_table@ == duty_pattern(),
            r.channel_2.duty_table@ == duty_pattern(),
    {
        Apu {
            master_clock: 0,
            length_clock: 0,
            sweep_clock: 0,
            sweep_period: 0,
            sweep_negate: false,
            envelope_clock: 0,
            sample_length_arr: sample_len_arr(),
            sweeping: false,
            channel_1_shadow_freq: 0,
            channel_1_pos: 0,
            channel_2_pos: 0,
            channel_3_pos: 0,
            channel_3_wave_pos: 0,
            channel_1: SquareChannel::default(),
            channel_2: SquareChannel::default(),
            channel_3: WaveChannel::default(),
            channel_4: NoiseChannel::default(),
            audio_freq: 44100,
        }
    }
}

/// One length-counter clock: a running channel with its length enabled counts
/// down and stops when the counter was already zero (the counter wraps).
pub open spec fn length_step(enabled: bool, counter: u16, length_enabled: bool) -> (bool, u16) {
    if enabled && length_enabled {
        (counter != 0, ((counter - 1) % 0x10000) as u16)
    } else {
        (enabled, counter)
    }
}

/// One envelope clock on (volume, position): every `period + 1` clocks the
/// volume moves one step up (to 15) or down (to 0).
pub open spec fn envelope_step(enabled: bool, period: u8, incr: bool, volume: u8, pos: u8) -> (u8, u8) {
    if enabled && period != 0 && ((incr && volume < 15) || (!incr && volume > 0)) {
        if pos == 0 {
            (if incr { (volume + 1) as u8 } else { (volume - 1) as u8 }, period)
        } else {
            (volume, (pos - 1) as u8)
        }
    } else {
        (volume, pos)
    }
}

fn length_tick(enabled: bool, counter: u16, length_enabled: bool) -> (r: (bool, u16))
    ensures
        r == length_step(enabled, counter, length_enabled),
{
    if enabled && length_enabled {
        (counter != 0, counter.wrapping_sub(1))
    } else {
        (enabled, counter)
    }
}

fn envelope_tick(enabled: bool, period: u8, incr: bool, volume: u8, pos: u8) -> (r: (u8, u8))
    ensures
        r == envelope_step(enabled, period, incr, volume, pos),
{
    if enabled && period != 0 && ((incr && volume < 15) || (!incr && volume > 0)) {
        if pos == 0 {
            (if incr { volume + 1 } else { volume - 1 }, period)
        } else {
            (volume, pos - 1)
        }
    } else {
        (volume, pos)
    }
}

/// The pulse channel after one envelope clock.
pub open spec fn square_envelope_tick(ch: SquareChannel) -> SquareChannel {
    let (volume, pos) = envelope_step(ch.enabled, ch.envelope_period, ch.incr_vol, ch.volume, ch.envelope_pos);
    SquareChannel { volume, envelope_pos: pos, ..ch }
}

/// The noise channel after one envelope clock.
pub open spec fn noise_envelope_tick(ch: NoiseChannel) -> NoiseChannel {
    let (volume, pos) = envelope_step(ch.enabled, ch.envelope_period, ch.incr_vol, ch.volume, ch.envelope_pos);
    NoiseChannel { volume, envelope_pos: pos, ..ch }
}

/// The sound state after one envelope clock of channels 1, 2 and 4.
pub open spec fn envelope_apu(apu: Apu) -> Apu {
    Apu {
        channel_1: square_envelope_tick(apu.channel_1),
        channel_2: square_envelope_tick(apu.channel_2),
        channel_4: noise_envelope_tick(apu.channel_4),
        ..apu
    }
}

/// The sound state after one length clock; `nr_x4` are the four channels'
/// frequency-high registers, whose bit 6 enables the length counter.
pub open spec fn length_apu(apu: Apu, nr14: u8, nr24: u8, nr34: u8, nr44: u8) -> Apu {
    let c1 = length_step(apu.channel_1.enabled, apu.channel_1.counter, nr14 & 0x40 != 0);
    let c2 = length_step(apu.channel_2.enabled, apu.channel_2.counter, nr24 & 0x40 != 0);
    let c3 = length_step(apu.channel_3.enabled, apu.channel_3.counter, nr34 & 0x40 != 0);
    let c4 = length_step(apu.channel_4.enabled, apu.channel_4.counter, nr44 & 0x40 != 0);
    Apu {
        channel_1: SquareChannel { enabled: c1.0, counter: c1.1, ..apu.channel_1 },
        channel_2: SquareChannel { enabled: c2.0, counter: c2.1, ..apu.channel_2 },
        channel_3: WaveChannel { enabled: c3.0, counter: c3.1, ..apu.channel_3 },
        channel_4: NoiseChannel { enabled: c4.0, counter: c4.1, ..apu.channel_4 },
        ..apu
    }
}

fn apu_length(apu: &mut Apu, nr14: u8, nr24: u8, nr34: u8, nr44: u8)
    ensures
        *final(apu) == length_apu(*old(apu), nr14, nr24, nr34, nr44),
{
    let c1 = length_tick(apu.channel_1.enabled, apu.channel_1.counter, nr14 & 0x40 != 0);
    let c2 = length_tick(apu.channel_2.enabled, apu.channel_2.counter, nr24 & 0x40 != 0);
    let c3 = length_tick(apu.channel_3.enabled, apu.channel_3.counter, nr34 & 0x40 != 0);
    let c4 = length_tick(apu.channel_4.enabled, apu.channel_4.counter, nr44 & 0x40 != 0);
    apu.channel_1.enabled = c1.0;
    apu.channel_1.counter = c1.1;
    apu.channel_2.enabled = c2.0;
    apu.channel_2.counter = c2.1;
    apu.channel_3.enabled = c3.0;
    apu.channel_3.counter = c3.1;
    apu.channel_4.enabled = c4.0;
    apu.channel_4.counter = c4.1;
}

fn apu_envelope(apu: &mut Apu)
    ensures
        *final(apu) == envelope_apu(*old(apu)),
{
    let e1 = envelope_tick(
        apu.channel_1.enabled,
        apu.channel_1.envelope_period,
        apu.channel_1.incr_vol,
        apu.channel_1.volume,
        apu.channel_1.envelope_pos,
    );
    let e2 = envelope_tick(
        apu.channel_2.enabled,
        apu.channel_2.envelope_period,
        apu.channel_2.incr_vol,
        apu.channel_2.volume,
        apu.channel_2.envelope_pos,
    );
    let e4 = envelope_tick(
        apu.channel_4.enabled,
        apu.channel_4.envelope_period,
        apu.channel_4.incr_vol,
        apu.channel_4.volume,
        apu.channel_4.envelope_pos,
    );
    apu.channel_1.volume = e1.0;
    apu.channel_1.envelope_pos = e1.1;
    apu.channel_2.volume = e2.0;
    apu.channel_2.envelope_pos = e2.1;
    apu.channel_4.volume = e4.0;
    apu.channel_4.envelope_pos = e4.1;
}

/// Clocks the four length counters.
pub fn step_length(cpu: &mut Cpu)
    requires
        old(cpu)@.wf(),
    ensures
        final(cpu)@ == (CpuView {
            apu: length_apu(
                old(cpu)@.apu,
                old(cpu)@.memory[0xFF14],
                old(cpu)@.memory[0xFF19],
                old(cpu)@.memory[0xFF1E],
                old(cpu)@.memory[0xFF23],
            ),
            ..old(cpu)@
        }),
{
    let nr14 = read_address(0xFF14, cpu);
    let nr24 = read_address(0xFF19, cpu);
    let nr34 = read_address(0xFF1E, cpu);
    let nr44 = read_address(0xFF23, cpu);
    apu_length(&mut cpu.apu, nr14, nr24, nr34, nr44);
}

/// Clocks the volume envelopes of channels 1, 2 and 4.
pub fn step_envelope(cpu: &mut Cpu)
    ensures
        final(cpu)@ == (CpuView { apu: envelope_apu(old(cpu)@.apu), ..old(cpu)@ }),
{
    apu_envelope(&mut cpu.apu);
}

/// The next sweep frequency: the shadow frequency plus or minus itself
/// shifted right by `shift`.
pub open spec fn sweep_target(shadow: u32, shift: u8, negate: bool) -> int {
    if negate {
        shadow - (shadow >> shift)
    } else {
        shadow + (shadow >> shift)
    }
}

proof fn lemma_shr_le(x: u32, s: u8)
    by (bit_vector)
    requires
        s < 32,
    ensures
        x >> s <= x,
{
}

impl Apu {
    pub fn freq_sweep(&self, shift: u8, negate: bool) -> (r: u32)
        requires
            shift < 32,
            self.channel_1_shadow_freq <= 0x7FFF_FFFF,
        ensures
            r == sweep_target(self.channel_1_shadow_freq, shift, negate),
    {
        let freq = self.channel_1_shadow_freq;
        proof {
            lemma_shr_le(freq, shift);
        }
        let delta = freq >> shift;
        if negate {
            freq - delta
        } else {
            freq + delta
        }
    }
}

} // verus!
