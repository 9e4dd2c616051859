//! The parameter vector of one sound.
//!
//! Every continuous control is held in fixed point: the integer `v` stands
//! for the real number `v / ONE`. Nothing here is range-checked; the stated
//! domains are what the presets produce and what the voice is tuned for.

use vstd::prelude::*;

verus! {

/// Fixed-point unit: a level `v` stands for `v / ONE`.
pub const ONE: i32 = 1_000_000;

/// Number of continuous controls in a parameter vector.
pub const LEVELS: usize = 22;

/// Shape of the base oscillator.
#[derive(Clone, Copy, Debug, PartialEq, Eq, Structural)]
pub enum WaveType {
    Square,
    Sawtooth,
    Sine,
    Noise,
}

impl Default for WaveType {
    fn default() -> (w: WaveType)
        ensures
            w == WaveType::Square,
    {
        WaveType::Square
    }
}

/// One waveform selector and twenty-two continuous controls.
#[derive(Clone, Copy, Debug, PartialEq, Eq, Structural)]
pub struct SynthParams {
    pub wave_type: WaveType,
    /// Start frequency, in (0, 1].
    pub base_freq: i32,
    /// Frequency below which the sound is cut off; 0 disables the cut-off.
    pub freq_limit: i32,
    /// Frequency slide, in [-1, 1].
    pub freq_ramp: i32,
    /// Change of the slide, in [-1, 1].
    pub freq_dramp: i32,
    /// Square duty, in [0, 1].
    pub duty: i32,
    /// Duty sweep, in [-1, 1].
    pub duty_ramp: i32,
    pub vib_strength: i32,
    pub vib_speed: i32,
    pub env_attack: i32,
    pub env_sustain: i32,
    pub env_decay: i32,
    pub env_punch: i32,
    pub lpf_resonance: i32,
    /// Low-pass cutoff; `ONE` switches the filter off.
    pub lpf_freq: i32,
    pub lpf_ramp: i32,
    pub hpf_freq: i32,
    pub hpf_ramp: i32,
    /// Phaser offset, in [-1, 1].
    pub pha_offset: i32,
    /// Phaser sweep, in [-1, 1].
    pub pha_ramp: i32,
    /// Repeat speed; 0 disables the automatic repeat.
    pub repeat_speed: i32,
    /// Time of the pitch jump; 0 and `ONE` put it out of reach or off.
    pub arp_speed: i32,
    /// Size of the pitch jump, in [-1, 1].
    pub arp_mod: i32,
}

impl SynthParams {
    /// The default vector: a square wave at frequency 0.3 with sustain 0.3,
    /// decay 0.4 and the low-pass filter off; every other control is 0.
    pub open spec fn spec_default() -> SynthParams {
        SynthParams {
            wave_type: WaveType::Square,
            base_freq: 300_000,
            freq_limit: 0,
            freq_ramp: 0,
            freq_dramp: 0,
            duty: 0,
            duty_ramp: 0,
            vib_strength: 0,
            vib_speed: 0,
            env_attack: 0,
            env_sustain: 300_000,
            env_decay: 400_000,
            env_punch: 0,
            lpf_resonance: 0,
            lpf_freq: 1_000_000,
            lpf_ramp: 0,
            hpf_freq: 0,
            hpf_ramp: 0,
            pha_offset: 0,
            pha_ramp: 0,
            repeat_speed: 0,
            arp_speed: 0,
            arp_mod: 0,
        }
    }

    /// Whether every control lies in its home range: the start frequency
    /// in (0, 1]; slides, sweeps, phaser controls and the size of the pitch
    /// jump in [-1, 1]; every other control in [0, 1].
    pub open spec fn in_domain(self) -> bool {
        &&& 0 < self.base_freq <= ONE
        &&& 0 <= self.freq_limit <= ONE
        &&& -ONE <= self.freq_ramp <= ONE
        &&& -ONE <= self.freq_dramp <= ONE
        &&& 0 <= self.duty <= ONE
        &&& -ONE <= self.duty_ramp <= ONE
        &&& 0 <= self.vib_strength <= ONE
        &&& 0 <= self.vib_speed <= ONE
        &&& 0 <= self.env_attack <= ONE
        &&& 0 <= self.env_sustain <= ONE
        &&& 0 <= self.env_decay <= ONE
        &&& 0 <= self.env_punch <= ONE
        &&& 0 <= self.lpf_resonance <= ONE
        &&& 0 <= self.lpf_freq <= ONE
        &&& -ONE <= self.lpf_ramp <= ONE
        &&& 0 <= self.hpf_freq <= ONE
        &&& 0 <= self.hpf_ramp <= ONE
        &&& -ONE <= self.pha_offset <= ONE
        &&& -ONE <= self.pha_ramp <= ONE
        &&& 0 <= self.repeat_speed <= ONE
        &&& 0 <= self.arp_speed <= ONE
        &&& -ONE <= self.arp_mod <= ONE
    }

    /// Computes `in_domain`.
    pub fn is_in_domain(&self) -> (ok: bool)
        ensures
            ok == self.in_domain(),
    {
        0 < self.base_freq && self.base_freq <= ONE && 0 <= self.freq_limit && self.freq_limit
            <= ONE && -ONE <= self.freq_ramp && self.freq_ramp <= ONE && -ONE <= self.freq_dramp
            && self.freq_dramp <= ONE && 0 <= self.duty && self.duty <= ONE && -ONE
            <= self.duty_ramp && self.duty_ramp <= ONE && 0 <= self.vib_strength
            && self.vib_strength <= ONE && 0 <= self.vib_speed && self.vib_speed <= ONE && 0
            <= self.env_attack && self.env_attack <= ONE && 0 <= self.env_sustain
            && self.env_sustain <= ONE && 0 <= self.env_decay && self.env_decay <= ONE && 0
            <= self.env_punch && self.env_punch <= ONE && 0 <= self.lpf_resonance
            && self.lpf_resonance <= ONE && 0 <= self.lpf_freq && self.lpf_freq <= ONE && -ONE
            <= self.lpf_ramp && self.lpf_ramp <= ONE && 0 <= self.hpf_freq && self.hpf_freq <= ONE
            && 0 <= self.hpf_ramp && self.hpf_ramp <= ONE && -ONE <= self.pha_offset
            && self.pha_offset <= ONE && -ONE <= self.pha_ramp && self.pha_ramp <= ONE && 0
            <= self.repeat_speed && self.repeat_speed <= ONE && 0 <= self.arp_speed
            && self.arp_speed <= ONE && -ONE <= self.arp_mod && self.arp_mod <= ONE
    }

    /// The continuous controls in declaration order.
    pub open spec fn levels(self) -> Seq<i32> {
        seq![
            self.base_freq,
            self.freq_limit,
            self.freq_ramp,
            self.freq_dramp,
            self.duty,
            self.duty_ramp,
            self.vib_strength,
            self.vib_speed,
            self.env_attack,
            self.env_sustain,
            self.env_decay,
            self.env_punch,
            self.lpf_resonance,
            self.lpf_freq,
            self.lpf_ramp,
            self.hpf_freq,
            self.hpf_ramp,
            self.pha_offset,
            self.pha_ramp,
            self.repeat_speed,
            self.arp_speed,
            self.arp_mod,
        ]
    }

    /// The control at `index`, or `None` past the last one.
    pub fn level(&self, index: usize) -> (v: Option<i32>)
        ensures
            index < LEVELS ==> v == Some(self.levels()[index as int]),
            index >= LEVELS ==> v is None,
    {
        match index {
            0 => Some(self.base_freq),
            1 => Some(self.freq_limit),
            2 => Some(self.freq_ramp),
            3 => Some(self.freq_dramp),
            4 => Some(self.duty),
            5 => Some(self.duty_ramp),
            6 => Some(self.vib_strength),
            7 => Some(self.vib_speed),
            8 => Some(self.env_attack),
            9 => Some(self.env_sustain),
            10 => Some(self.env_decay),
            11 => Some(self.env_punch),
            12 => Some(self.lpf_resonance),
            13 => Some(self.lpf_freq),
            14 => Some(self.lpf_ramp),
            15 => Some(self.hpf_freq),
            16 => Some(self.hpf_ramp),
            17 => Some(self.pha_offset),
            18 => Some(self.pha_ramp),
            19 => Some(self.repeat_speed),
            20 => Some(self.arp_speed),
            21 => Some(self.arp_mod),
            _ => None,
        }
    }

    /// The vector with the control at `index` replaced by `value`; past the
    /// last control nothing changes.
    pub fn with_level(self, index: usize, value: i32) -> (r: SynthParams)
        ensures
            r.wave_type == self.wave_type,
            index < LEVELS ==> r.levels() == self.levels().update(index as int, value),
            index >= LEVELS ==> r == self,
    {
        let mut r = self;
        match index {
            0 => { r.base_freq = value; },
            1 => { r.freq_limit = value; },
            2 => { r.freq_ramp = value; },
            3 => { r.freq_dramp = value; },
            4 => { r.duty = value; },
            5 => { r.duty_ramp = value; },
            6 => { r.vib_strength = value; },
            7 => { r.vib_speed = value; },
            8 => { r.env_attack = value; },
            9 => { r.env_sustain = value; },
            10 => { r.env_decay = value; },
            11 => { r.env_punch = value; },
            12 => { r.lpf_resonance = value; },
            13 => { r.lpf_freq = value; },
            14 => { r.lpf_ramp = value; },
            15 => { r.hpf_freq = value; },
            16 => { r.hpf_ramp = value; },
            17 => { r.pha_offset = value; },
            18 => { r.pha_ramp = value; },
            19 => { r.repeat_speed = value; },
            20 => { r.arp_speed = value; },
            21 => { r.arp_mod = value; },
            _ => {},
        }
        assert(index < LEVELS ==> r.levels() =~= self.levels().update(index as int, value));
        r
    }
}

/// Two vectors with the same waveform and the same controls are equal.
pub proof fn lemma_levels_determine(a: SynthParams, b: SynthParams)
    requires
        a.wave_type == b.wave_type,
        a.levels() == b.levels(),
    ensures
        a == b,
{
    let la = a.levels();
    let lb = b.levels();
    assert(la[0] == lb[0] && la[1] == lb[1] && la[2] == lb[2] && la[3] == lb[3]);
    assert(la[4] == lb[4] && la[5] == lb[5] && la[6] == lb[6] && la[7] == lb[7]);
    assert(la[8] == lb[8] && la[9] == lb[9] && la[10] == lb[10] && la[11] == lb[11]);
    assert(la[12] == lb[12] && la[13] == lb[13] && la[14] == lb[14] && la[15] == lb[15]);
    assert(la[16] == lb[16] && la[17] == lb[17] && la[18] == lb[18] && la[19] == lb[19]);
    assert(la[20] == lb[20] && la[21] == lb[21]);
}

impl Default for SynthParams {
    fn default() -> (p: SynthParams)
        ensures
            p == SynthParams::spec_default(),
    {
        SynthParams {
            wave_type: WaveType::Square,
            base_freq: 300_000,
            freq_limit: 0,
            freq_ramp: 0,
            freq_dramp: 0,
            duty: 0,
            duty_ramp: 0,
            vib_strength: 0,
            vib_speed: 0,
            env_attack: 0,
            env_sustain: 300_000,
            env_decay: 400_000,
            env_punch: 0,
            lpf_resonance: 0,
            lpf_freq: 1_000_000,
            lpf_ramp: 0,
            hpf_freq: 0,
            hpf_ramp: 0,
            pha_offset: 0,
            pha_ramp: 0,
            repeat_speed: 0,
            arp_speed: 0,
            arp_mod: 0,
        }
    }
}

} // verus!
