//! The archetype recipes as functions of their random draws.
//!
//! A recipe is written down once for each archetype: a record of the draws
//! that it makes, the ranges that the draws come from (`valid`), and the
//! parameter vector that they give (`recipe`, computed by `params`). A
//! draw named after a control is the random part of that control; an
//! optional group is drawn only where the coin that guards it came up.

use crate::synth::fixed::cube_level;
use crate::synth::fixed::cubed;
use crate::synth::fixed::fifth;
use crate::synth::fixed::are_within_if_drawn;
use crate::synth::fixed::fifth_level;
use crate::synth::fixed::is_signed_unit;
use crate::synth::fixed::is_within;
use crate::synth::fixed::is_within_if_drawn;
use crate::synth::fixed::signed_unit;
use crate::synth::fixed::square_level;
use crate::synth::fixed::squared;
use crate::synth::fixed::within;
use crate::synth::params::SynthParams;
use crate::synth::params::WaveType;
use crate::synth::params::LEVELS;
use crate::synth::params::ONE;
use vstd::prelude::*;

verus! {

/// Largest step that a mutation moves a control by: 0.05.
pub const NUDGE: i32 = 50_000;

/// Draws of the coin recipe.
#[derive(Clone, Copy, Debug, PartialEq, Eq)]
pub struct CoinDraws {
    pub base_freq: i32,
    pub env_sustain: i32,
    pub env_decay: i32,
    pub env_punch: i32,
    /// Speed and size of the pitch jump, for one coin in two.
    pub arp: Option<(i32, i32)>,
}

impl CoinDraws {
    /// Whether every draw lies in the range that it is drawn from.
    pub open spec fn valid(self) -> bool {
        &&& within(self.base_freq, 500_000)
        &&& within(self.env_sustain, 100_000)
        &&& within(self.env_decay, 400_000)
        &&& within(self.env_punch, 300_000)
        &&& (self.arp matches Some(a) ==> within(a.0, 200_000) && within(a.1, 400_000))
    }

    /// A high square tone with a short, punchy envelope and, for one coin
    /// in two, a jump in pitch.
    pub open spec fn recipe(self) -> SynthParams {
        SynthParams {
            base_freq: (400_000 + self.base_freq) as i32,
            env_attack: 0,
            env_sustain: self.env_sustain,
            env_decay: (100_000 + self.env_decay) as i32,
            env_punch: (300_000 + self.env_punch) as i32,
            arp_speed: match self.arp {
                Some(a) => (500_000 + a.0) as i32,
                None => 0,
            },
            arp_mod: match self.arp {
                Some(a) => (200_000 + a.1) as i32,
                None => 0,
            },
            ..SynthParams::spec_default()
        }
    }

    /// Computes `valid`.
    pub fn is_valid(&self) -> (ok: bool)
        ensures
            ok == self.valid(),
    {
        is_within(self.base_freq, 500_000) && is_within(self.env_sustain, 100_000) && is_within(
            self.env_decay,
            400_000,
        ) && is_within(self.env_punch, 300_000) && are_within_if_drawn(self.arp, 200_000, 400_000)
    }

    /// Computes `recipe`.
    pub fn params(&self) -> (p: SynthParams)
        requires
            self.valid(),
        ensures
            p == self.recipe(),
    {
        let mut p = SynthParams::default();
        p.base_freq = 400_000 + self.base_freq;
        p.env_attack = 0;
        p.env_sustain = self.env_sustain;
        p.env_decay = 100_000 + self.env_decay;
        p.env_punch = 300_000 + self.env_punch;
        match self.arp {
            Some(a) => {
                p.arp_speed = 500_000 + a.0;
                p.arp_mod = 200_000 + a.1;
            },
            None => {},
        }
        p
    }
}

/// Draws of the laser recipe.
#[derive(Clone, Copy, Debug, PartialEq, Eq)]
pub struct ShootDraws {
    /// Square, sawtooth or sine, picked with the weights 5, 5 and 2.
    pub wave: WaveType,
    /// One shot in three sweeps from anywhere down to almost nothing.
    pub deep: bool,
    pub base_freq: i32,
    pub freq_limit: i32,
    pub freq_ramp: i32,
    /// One shot in two has a narrow duty that widens; the other a wide one
    /// that narrows.
    pub narrow: bool,
    pub duty: i32,
    pub duty_ramp: i32,
    pub env_sustain: i32,
    pub env_decay: i32,
    pub env_punch: Option<i32>,
    /// Offset and sweep of the phaser, for one shot in three.
    pub phaser: Option<(i32, i32)>,
    pub hpf_freq: Option<i32>,
}

impl ShootDraws {
    /// Whether every draw lies in the range that it is drawn from.
    pub open spec fn valid(self) -> bool {
        &&& self.wave != WaveType::Noise
        &&& within(self.base_freq, if self.deep { 600_000 } else { 500_000 })
        &&& within(self.freq_limit, if self.deep { 100_000 } else { 600_000 })
        &&& within(self.freq_ramp, if self.deep { 300_000 } else { 200_000 })
        &&& within(self.duty, 500_000)
        &&& within(self.duty_ramp, if self.narrow { 200_000 } else { 700_000 })
        &&& within(self.env_sustain, 200_000)
        &&& within(self.env_decay, 400_000)
        &&& (self.env_punch matches Some(v) ==> within(v, 300_000))
        &&& (self.phaser matches Some(v) ==> within(v.0, 200_000) && within(v.1, 200_000))
        &&& (self.hpf_freq matches Some(v) ==> within(v, 300_000))
    }

    /// The frequency that a shallow sweep stops at: the start less 0.2 and
    /// less the draw, and 0.2 at the least.
    pub open spec fn shallow_limit(self) -> int {
        let limit = 500_000 + self.base_freq - 200_000 - self.freq_limit;
        if limit < 200_000 {
            200_000
        } else {
            limit
        }
    }

    /// A falling tone of drawn waveform, cut off at a frequency limit.
    pub open spec fn recipe(self) -> SynthParams {
        SynthParams {
            wave_type: self.wave,
            base_freq: if self.deep {
                (300_000 + self.base_freq) as i32
            } else {
                (500_000 + self.base_freq) as i32
            },
            freq_limit: if self.deep {
                self.freq_limit
            } else {
                self.shallow_limit() as i32
            },
            freq_ramp: if self.deep {
                (-350_000 - self.freq_ramp) as i32
            } else {
                (-150_000 - self.freq_ramp) as i32
            },
            duty: if self.narrow {
                self.duty
            } else {
                (400_000 + self.duty) as i32
            },
            duty_ramp: if self.narrow {
                self.duty_ramp
            } else {
                (-self.duty_ramp) as i32
            },
            env_attack: 0,
            env_sustain: (100_000 + self.env_sustain) as i32,
            env_decay: self.env_decay,
            env_punch: match self.env_punch {
                Some(v) => v,
                None => 0,
            },
            pha_offset: match self.phaser {
                Some(v) => v.0,
                None => 0,
            },
            pha_ramp: match self.phaser {
                Some(v) => (-v.1) as i32,
                None => 0,
            },
            hpf_freq: match self.hpf_freq {
                Some(v) => v,
                None => 0,
            },
            ..SynthParams::spec_default()
        }
    }

    /// Computes `valid`.
    pub fn is_valid(&self) -> (ok: bool)
        ensures
            ok == self.valid(),
    {
        self.wave != WaveType::Noise && is_within(
            self.base_freq,
            if self.deep {
                600_000
            } else {
                500_000
            },
        ) && is_within(
            self.freq_limit,
            if self.deep {
                100_000
            } else {
                600_000
            },
        ) && is_within(
            self.freq_ramp,
            if self.deep {
                300_000
            } else {
                200_000
            },
        ) && is_within(self.duty, 500_000) && is_within(
            self.duty_ramp,
            if self.narrow {
                200_000
            } else {
                700_000
            },
        ) && is_within(self.env_sustain, 200_000) && is_within(self.env_decay, 400_000)
            && is_within_if_drawn(self.env_punch, 300_000) && are_within_if_drawn(
            self.phaser,
            200_000,
            200_000,
        ) && is_within_if_drawn(self.hpf_freq, 300_000)
    }

    /// Computes `recipe`.
    pub fn params(&self) -> (p: SynthParams)
        requires
            self.valid(),
        ensures
            p == self.recipe(),
    {
        let mut p = SynthParams::default();
        p.wave_type = self.wave;
        if self.deep {
            p.base_freq = 300_000 + self.base_freq;
            p.freq_limit = self.freq_limit;
            p.freq_ramp = -350_000 - self.freq_ramp;
        } else {
            p.base_freq = 500_000 + self.base_freq;
            let limit = p.base_freq - 200_000 - self.freq_limit;
            p.freq_limit = if limit < 200_000 {
                200_000
            } else {
                limit
            };
            p.freq_ramp = -150_000 - self.freq_ramp;
        }
        if self.narrow {
            p.duty = self.duty;
            p.duty_ramp = self.duty_ramp;
        } else {
            p.duty = 400_000 + self.duty;
            p.duty_ramp = -self.duty_ramp;
        }
        p.env_attack = 0;
        p.env_sustain = 100_000 + self.env_sustain;
        p.env_decay = self.env_decay;
        match self.env_punch {
            Some(v) => {
                p.env_punch = v;
            },
            None => {},
        }
        match self.phaser {
            Some(v) => {
                p.pha_offset = v.0;
                p.pha_ramp = -v.1;
            },
            None => {},
        }
        match self.hpf_freq {
            Some(v) => {
                p.hpf_freq = v;
            },
            None => {},
        }
        p
    }
}

/// Draws of the explosion recipe.
#[derive(Clone, Copy, Debug, PartialEq, Eq)]
pub struct ExplosionDraws {
    /// One explosion in two starts low and may rise; the other starts
    /// anywhere and falls.
    pub gentle: bool,
    pub base_freq: i32,
    pub freq_ramp: i32,
    /// One explosion in four keeps its pitch.
    pub flat: bool,
    pub repeat_speed: Option<i32>,
    pub env_sustain: i32,
    pub env_decay: i32,
    /// Offset and sweep of the phaser, for one explosion in two.
    pub phaser: Option<(i32, i32)>,
    pub env_punch: i32,
    /// Strength and speed of the vibrato, for one explosion in two.
    pub vibrato: Option<(i32, i32)>,
    /// Speed and size of the pitch jump, for one explosion in three.
    pub arp: Option<(i32, i32)>,
}

impl ExplosionDraws {
    /// Whether every draw lies in the range that it is drawn from.
    pub open spec fn valid(self) -> bool {
        &&& within(self.base_freq, if self.gentle { 400_000 } else { 700_000 })
        &&& within(self.freq_ramp, if self.gentle { 400_000 } else { 200_000 })
        &&& (self.repeat_speed matches Some(v) ==> within(v, 500_000))
        &&& within(self.env_sustain, 300_000)
        &&& within(self.env_decay, 500_000)
        &&& (self.phaser matches Some(v) ==> within(v.0, 900_000) && within(v.1, 300_000))
        &&& within(self.env_punch, 600_000)
        &&& (self.vibrato matches Some(v) ==> within(v.0, 700_000) && within(v.1, 600_000))
        &&& (self.arp matches Some(v) ==> within(v.0, 300_000) && within(v.1, 1_600_000))
    }

    /// The start frequency before it is squared.
    pub open spec fn root_freq(self) -> int {
        if self.gentle {
            100_000 + self.base_freq
        } else {
            200_000 + self.base_freq
        }
    }

    /// Noise at a squared start frequency with a punchy envelope and a
    /// choice of repeat, phaser, vibrato and pitch jump.
    pub open spec fn recipe(self) -> SynthParams {
        SynthParams {
            wave_type: WaveType::Noise,
            base_freq: squared(self.root_freq()) as i32,
            freq_ramp: if self.flat {
                0
            } else if self.gentle {
                (-100_000 + self.freq_ramp) as i32
            } else {
                (-200_000 - self.freq_ramp) as i32
            },
            repeat_speed: match self.repeat_speed {
                Some(v) => (300_000 + v) as i32,
                None => 0,
            },
            env_attack: 0,
            env_sustain: (100_000 + self.env_sustain) as i32,
            env_decay: self.env_decay,
            pha_offset: match self.phaser {
                Some(v) => (-300_000 + v.0) as i32,
                None => 0,
            },
            pha_ramp: match self.phaser {
                Some(v) => (-v.1) as i32,
                None => 0,
            },
            env_punch: (200_000 + self.env_punch) as i32,
            vib_strength: match self.vibrato {
                Some(v) => v.0,
                None => 0,
            },
            vib_speed: match self.vibrato {
                Some(v) => v.1,
                None => 0,
            },
            arp_speed: match self.arp {
                Some(v) => (600_000 + v.0) as i32,
                None => 0,
            },
            arp_mod: match self.arp {
                Some(v) => (800_000 - v.1) as i32,
                None => 0,
            },
            ..SynthParams::spec_default()
        }
    }

    /// Computes `valid`.
    pub fn is_valid(&self) -> (ok: bool)
        ensures
            ok == self.valid(),
    {
        is_within(
            self.base_freq,
            if self.gentle {
                400_000
            } else {
                700_000
            },
        ) && is_within(
            self.freq_ramp,
            if self.gentle {
                400_000
            } else {
                200_000
            },
        ) && is_within_if_drawn(self.repeat_speed, 500_000) && is_within(self.env_sustain, 300_000)
            && is_within(self.env_decay, 500_000) && are_within_if_drawn(
            self.phaser,
            900_000,
            300_000,
        ) && is_within(self.env_punch, 600_000) && are_within_if_drawn(
            self.vibrato,
            700_000,
            600_000,
        ) && are_within_if_drawn(self.arp, 300_000, 1_600_000)
    }

    /// Computes `recipe`.
    pub fn params(&self) -> (p: SynthParams)
        requires
            self.valid(),
        ensures
            p == self.recipe(),
    {
        let mut p = SynthParams::default();
        p.wave_type = WaveType::Noise;
        if self.gentle {
            p.base_freq = 100_000 + self.base_freq;
            p.freq_ramp = -100_000 + self.freq_ramp;
        } else {
            p.base_freq = 200_000 + self.base_freq;
            p.freq_ramp = -200_000 - self.freq_ramp;
        }
        p.base_freq = square_level(p.base_freq);
        if self.flat {
            p.freq_ramp = 0;
        }
        match self.repeat_speed {
            Some(v) => {
                p.repeat_speed = 300_000 + v;
            },
            None => {},
        }
        p.env_attack = 0;
        p.env_sustain = 100_000 + self.env_sustain;
        p.env_decay = self.env_decay;
        match self.phaser {
            Some(v) => {
                p.pha_offset = -300_000 + v.0;
                p.pha_ramp = -v.1;
            },
            None => {},
        }
        p.env_punch = 200_000 + self.env_punch;
        match self.vibrato {
            Some(v) => {
                p.vib_strength = v.0;
                p.vib_speed = v.1;
            },
            None => {},
        }
        match self.arp {
            Some(v) => {
                p.arp_speed = 600_000 + v.0;
                p.arp_mod = 800_000 - v.1;
            },
            None => {},
        }
        p
    }
}

/// Draws of the power-up recipe.
#[derive(Clone, Copy, Debug, PartialEq, Eq)]
pub struct PowerUpDraws {
    pub env_sustain: i32,
    pub env_decay: i32,
    /// The square duty; one power-up in two is a sawtooth and has none.
    pub duty: Option<i32>,
    pub base_freq: i32,
    pub freq_ramp: i32,
    /// One power-up in two repeats; then the ramp is steep.
    pub repeat_speed: Option<i32>,
    /// Strength and speed of the vibrato, for half of those that do not
    /// repeat.
    pub vibrato: Option<(i32, i32)>,
}

impl PowerUpDraws {
    /// Whether every draw lies in the range that it is drawn from.
    pub open spec fn valid(self) -> bool {
        &&& within(self.env_sustain, 400_000)
        &&& within(self.env_decay, 400_000)
        &&& (self.duty matches Some(v) ==> within(v, 600_000))
        &&& within(self.base_freq, 300_000)
        &&& within(self.freq_ramp, if self.repeat_speed is Some { 400_000 } else { 200_000 })
        &&& (self.repeat_speed matches Some(v) ==> within(v, 400_000))
        &&& (self.repeat_speed is Some ==> self.vibrato is None)
        &&& (self.vibrato matches Some(v) ==> within(v.0, 700_000) && within(v.1, 600_000))
    }

    /// A rising tone, sawtooth or square, that either repeats or may
    /// waver.
    pub open spec fn recipe(self) -> SynthParams {
        SynthParams {
            wave_type: if self.duty is None {
                WaveType::Sawtooth
            } else {
                WaveType::Square
            },
            duty: match self.duty {
                Some(v) => v,
                None => 0,
            },
            env_attack: 0,
            env_sustain: self.env_sustain,
            env_decay: (100_000 + self.env_decay) as i32,
            base_freq: (200_000 + self.base_freq) as i32,
            freq_ramp: if self.repeat_speed is Some {
                (100_000 + self.freq_ramp) as i32
            } else {
                (50_000 + self.freq_ramp) as i32
            },
            repeat_speed: match self.repeat_speed {
                Some(v) => (400_000 + v) as i32,
                None => 0,
            },
            vib_strength: match self.vibrato {
                Some(v) => v.0,
                None => 0,
            },
            vib_speed: match self.vibrato {
                Some(v) => v.1,
                None => 0,
            },
            ..SynthParams::spec_default()
        }
    }

    /// Computes `valid`.
    pub fn is_valid(&self) -> (ok: bool)
        ensures
            ok == self.valid(),
    {
        is_within(self.env_sustain, 400_000) && is_within(self.env_decay, 400_000)
            && is_within_if_drawn(self.duty, 600_000) && is_within(self.base_freq, 300_000)
            && is_within(
            self.freq_ramp,
            if self.repeat_speed.is_some() {
                400_000
            } else {
                200_000
            },
        ) && is_within_if_drawn(self.repeat_speed, 400_000) && !(self.repeat_speed.is_some()
            && self.vibrato.is_some()) && are_within_if_drawn(self.vibrato, 700_000, 600_000)
    }

    /// Computes `recipe`.
    pub fn params(&self) -> (p: SynthParams)
        requires
            self.valid(),
        ensures
            p == self.recipe(),
    {
        let mut p = SynthParams::default();
        p.env_attack = 0;
        p.env_sustain = self.env_sustain;
        p.env_decay = 100_000 + self.env_decay;
        match self.duty {
            Some(v) => {
                p.duty = v;
            },
            None => {
                p.wave_type = WaveType::Sawtooth;
            },
        }
        p.base_freq = 200_000 + self.base_freq;
        match self.repeat_speed {
            Some(v) => {
                p.freq_ramp = 100_000 + self.freq_ramp;
                p.repeat_speed = 400_000 + v;
            },
            None => {
                p.freq_ramp = 50_000 + self.freq_ramp;
                match self.vibrato {
                    Some(v) => {
                        p.vib_strength = v.0;
                        p.vib_speed = v.1;
                    },
                    None => {},
                }
            },
        }
        p
    }
}

/// Draws of the hit recipe.
#[derive(Clone, Copy, Debug, PartialEq, Eq)]
pub struct HitDraws {
    /// Square, sawtooth or noise.
    pub wave: WaveType,
    pub base_freq: i32,
    pub freq_ramp: i32,
    pub env_sustain: i32,
    pub env_decay: i32,
    /// The square duty, drawn for a square wave only.
    pub duty: Option<i32>,
    pub hpf_freq: Option<i32>,
}

impl HitDraws {
    /// Whether every draw lies in the range that it is drawn from.
    pub open spec fn valid(self) -> bool {
        &&& self.wave != WaveType::Sine
        &&& within(self.base_freq, 600_000)
        &&& within(self.freq_ramp, 400_000)
        &&& within(self.env_sustain, 100_000)
        &&& within(self.env_decay, 200_000)
        &&& (self.duty is Some <==> self.wave == WaveType::Square)
        &&& (self.duty matches Some(v) ==> within(v, 600_000))
        &&& (self.hpf_freq matches Some(v) ==> within(v, 300_000))
    }

    /// A short falling thud.
    pub open spec fn recipe(self) -> SynthParams {
        SynthParams {
            wave_type: self.wave,
            base_freq: (200_000 + self.base_freq) as i32,
            freq_ramp: (-300_000 - self.freq_ramp) as i32,
            env_attack: 0,
            env_sustain: self.env_sustain,
            env_decay: (100_000 + self.env_decay) as i32,
            duty: match self.duty {
                Some(v) => v,
                None => 0,
            },
            hpf_freq: match self.hpf_freq {
                Some(v) => v,
                None => 0,
            },
            ..SynthParams::spec_default()
        }
    }

    /// Computes `valid`.
    pub fn is_valid(&self) -> (ok: bool)
        ensures
            ok == self.valid(),
    {
        self.wave != WaveType::Sine && is_within(self.base_freq, 600_000) && is_within(
            self.freq_ramp,
            400_000,
        ) && is_within(self.env_sustain, 100_000) && is_within(self.env_decay, 200_000)
            && self.duty.is_some() == (self.wave == WaveType::Square) && is_within_if_drawn(
            self.duty,
            600_000,
        ) && is_within_if_drawn(self.hpf_freq, 300_000)
    }

    /// Computes `recipe`.
    pub fn params(&self) -> (p: SynthParams)
        requires
            self.valid(),
        ensures
            p == self.recipe(),
    {
        let mut p = SynthParams::default();
        p.wave_type = self.wave;
        p.base_freq = 200_000 + self.base_freq;
        p.freq_ramp = -300_000 - self.freq_ramp;
        p.env_attack = 0;
        p.env_sustain = self.env_sustain;
        p.env_decay = 100_000 + self.env_decay;
        match self.duty {
            Some(v) => {
                p.duty = v;
            },
            None => {},
        }
        match self.hpf_freq {
            Some(v) => {
                p.hpf_freq = v;
            },
            None => {},
        }
        p
    }
}

/// Draws of the jump recipe.
#[derive(Clone, Copy, Debug, PartialEq, Eq)]
pub struct JumpDraws {
    pub duty: i32,
    pub base_freq: i32,
    pub freq_ramp: i32,
    pub env_sustain: i32,
    pub env_decay: i32,
    pub hpf_freq: Option<i32>,
    /// How far the low-pass cutoff is pulled down from 1.
    pub lpf_freq: Option<i32>,
}

impl JumpDraws {
    /// Whether every draw lies in the range that it is drawn from.
    pub open spec fn valid(self) -> bool {
        &&& within(self.duty, 600_000)
        &&& within(self.base_freq, 300_000)
        &&& within(self.freq_ramp, 200_000)
        &&& within(self.env_sustain, 300_000)
        &&& within(self.env_decay, 200_000)
        &&& (self.hpf_freq matches Some(v) ==> within(v, 300_000))
        &&& (self.lpf_freq matches Some(v) ==> within(v, 600_000))
    }

    /// A rising square tone, filtered at a choice of ends.
    pub open spec fn recipe(self) -> SynthParams {
        SynthParams {
            wave_type: WaveType::Square,
            duty: self.duty,
            base_freq: (300_000 + self.base_freq) as i32,
            freq_ramp: (100_000 + self.freq_ramp) as i32,
            env_attack: 0,
            env_sustain: (100_000 + self.env_sustain) as i32,
            env_decay: (100_000 + self.env_decay) as i32,
            hpf_freq: match self.hpf_freq {
                Some(v) => v,
                None => 0,
            },
            lpf_freq: match self.lpf_freq {
                Some(v) => (ONE - v) as i32,
                None => ONE,
            },
            ..SynthParams::spec_default()
        }
    }

    /// Computes `valid`.
    pub fn is_valid(&self) -> (ok: bool)
        ensures
            ok == self.valid(),
    {
        is_within(self.duty, 600_000) && is_within(self.base_freq, 300_000) && is_within(
            self.freq_ramp,
            200_000,
        ) && is_within(self.env_sustain, 300_000) && is_within(self.env_decay, 200_000)
            && is_within_if_drawn(self.hpf_freq, 300_000) && is_within_if_drawn(
            self.lpf_freq,
            600_000,
        )
    }

    /// Computes `recipe`.
    pub fn params(&self) -> (p: SynthParams)
        requires
            self.valid(),
        ensures
            p == self.recipe(),
    {
        let mut p = SynthParams::default();
        p.wave_type = WaveType::Square;
        p.duty = self.duty;
        p.base_freq = 300_000 + self.base_freq;
        p.freq_ramp = 100_000 + self.freq_ramp;
        p.env_attack = 0;
        p.env_sustain = 100_000 + self.env_sustain;
        p.env_decay = 100_000 + self.env_decay;
        match self.hpf_freq {
            Some(v) => {
                p.hpf_freq = v;
            },
            None => {},
        }
        match self.lpf_freq {
            Some(v) => {
                p.lpf_freq = ONE - v;
            },
            None => {},
        }
        p
    }
}

/// Draws of the blip recipe.
#[derive(Clone, Copy, Debug, PartialEq, Eq)]
pub struct BlipDraws {
    /// Square or sawtooth.
    pub wave: WaveType,
    pub base_freq: i32,
    pub env_sustain: i32,
    pub env_decay: i32,
    /// The square duty, drawn for a square wave only.
    pub duty: Option<i32>,
}

impl BlipDraws {
    /// Whether every draw lies in the range that it is drawn from.
    pub open spec fn valid(self) -> bool {
        &&& (self.wave == WaveType::Square || self.wave == WaveType::Sawtooth)
        &&& within(self.base_freq, 400_000)
        &&& within(self.env_sustain, 100_000)
        &&& within(self.env_decay, 200_000)
        &&& (self.duty is Some <==> self.wave == WaveType::Square)
        &&& (self.duty matches Some(v) ==> within(v, 600_000))
    }

    /// A very short plain tone with the lows taken out.
    pub open spec fn recipe(self) -> SynthParams {
        SynthParams {
            wave_type: self.wave,
            base_freq: (200_000 + self.base_freq) as i32,
            env_attack: 0,
            env_sustain: (100_000 + self.env_sustain) as i32,
            env_decay: self.env_decay,
            hpf_freq: 100_000,
            duty: match self.duty {
                Some(v) => v,
                None => 0,
            },
            ..SynthParams::spec_default()
        }
    }

    /// Computes `valid`.
    pub fn is_valid(&self) -> (ok: bool)
        ensures
            ok == self.valid(),
    {
        (self.wave == WaveType::Square || self.wave == WaveType::Sawtooth) && is_within(
            self.base_freq,
            400_000,
        ) && is_within(self.env_sustain, 100_000) && is_within(self.env_decay, 200_000)
            && self.duty.is_some() == (self.wave == WaveType::Square) && is_within_if_drawn(
            self.duty,
            600_000,
        )
    }

    /// Computes `recipe`.
    pub fn params(&self) -> (p: SynthParams)
        requires
            self.valid(),
        ensures
            p == self.recipe(),
    {
        let mut p = SynthParams::default();
        p.wave_type = self.wave;
        p.base_freq = 200_000 + self.base_freq;
        p.env_attack = 0;
        p.env_sustain = 100_000 + self.env_sustain;
        p.env_decay = self.env_decay;
        p.hpf_freq = 100_000;
        match self.duty {
            Some(v) => {
                p.duty = v;
            },
            None => {},
        }
        p
    }
}

/// Draws of a full randomization. Where nothing else is said a draw comes
/// from [-1, 1).
#[derive(Clone, Copy, Debug, PartialEq, Eq)]
pub struct RandomDraws {
    pub wave: WaveType,
    pub base_freq: i32,
    /// For one vector in two the start frequency is drawn again, around
    /// 0.5.
    pub base_again: Option<i32>,
    pub freq_ramp: i32,
    pub freq_dramp: i32,
    pub duty: i32,
    pub duty_ramp: i32,
    pub vib_strength: i32,
    pub vib_speed: i32,
    pub env_attack: i32,
    pub env_sustain: i32,
    pub env_decay: i32,
    /// From [0, 0.8).
    pub env_punch: i32,
    /// What is added, beyond 0.2 each, to sustain and decay of an envelope
    /// that would be too short to hear; each from [0, 0.3).
    pub boost: Option<(i32, i32)>,
    pub lpf_resonance: i32,
    /// From [0, 1).
    pub lpf_freq: i32,
    pub lpf_ramp: i32,
    /// From [0, 1).
    pub hpf_freq: i32,
    pub hpf_ramp: i32,
    pub pha_offset: i32,
    pub pha_ramp: i32,
    pub repeat_speed: i32,
    pub arp_speed: i32,
    pub arp_mod: i32,
}

impl RandomDraws {
    /// The start frequency: the square of the first draw, or 0.5 and the
    /// cube of the second.
    pub open spec fn start_freq(self) -> int {
        match self.base_again {
            Some(v) => cubed(v as int) + 500_000,
            None => squared(self.base_freq as int),
        }
    }

    /// The frequency slide: the fifth power of its draw, turned round
    /// where it would run a high tone higher or a low tone lower.
    pub open spec fn slide(self) -> int {
        let ramp = fifth(self.freq_ramp as int);
        if self.start_freq() > 700_000 && ramp > 200_000 {
            -ramp
        } else if self.start_freq() < 200_000 && ramp < -50_000 {
            -ramp
        } else {
            ramp
        }
    }

    /// The envelope's three levels together, before any boost.
    pub open spec fn envelope_sum(self) -> int {
        cubed(self.env_attack as int) + squared(self.env_sustain as int) + self.env_decay
    }

    /// Whether the envelope would be too short to hear: under 0.2 in all.
    pub open spec fn too_short(self) -> bool {
        self.envelope_sum() < 200_000
    }

    /// The low-pass cutoff: 1 less the cube of its draw.
    pub open spec fn cutoff(self) -> int {
        ONE - cubed(self.lpf_freq as int)
    }

    /// The cutoff sweep: the cube of its draw, turned round where it would
    /// close a filter that is almost shut.
    pub open spec fn cutoff_sweep(self) -> int {
        let ramp = cubed(self.lpf_ramp as int);
        if self.cutoff() < 100_000 && ramp < -50_000 {
            -ramp
        } else {
            ramp
        }
    }

    /// Whether every draw lies in the range that it is drawn from.
    pub open spec fn valid(self) -> bool {
        &&& signed_unit(self.base_freq)
        &&& (self.base_again matches Some(v) ==> signed_unit(v))
        &&& signed_unit(self.freq_ramp)
        &&& signed_unit(self.freq_dramp)
        &&& signed_unit(self.duty)
        &&& signed_unit(self.duty_ramp)
        &&& signed_unit(self.vib_strength)
        &&& signed_unit(self.vib_speed)
        &&& signed_unit(self.env_attack)
        &&& signed_unit(self.env_sustain)
        &&& signed_unit(self.env_decay)
        &&& within(self.env_punch, 800_000)
        &&& (self.boost is Some <==> self.too_short())
        &&& (self.boost matches Some(v) ==> within(v.0, 300_000) && within(v.1, 300_000))
        &&& signed_unit(self.lpf_resonance)
        &&& within(self.lpf_freq, ONE as int)
        &&& signed_unit(self.lpf_ramp)
        &&& within(self.hpf_freq, ONE as int)
        &&& signed_unit(self.hpf_ramp)
        &&& signed_unit(self.pha_offset)
        &&& signed_unit(self.pha_ramp)
        &&& signed_unit(self.repeat_speed)
        &&& signed_unit(self.arp_speed)
        &&& signed_unit(self.arp_mod)
    }

    /// A whole vector from wide distributions. Squares, cubes and fifth
    /// powers gather most draws near 0, and an envelope too short to hear
    /// has its sustain and decay raised by 0.2 and a further draw each.
    pub open spec fn recipe(self) -> SynthParams {
        SynthParams {
            wave_type: self.wave,
            base_freq: self.start_freq() as i32,
            freq_limit: 0,
            freq_ramp: self.slide() as i32,
            freq_dramp: cubed(self.freq_dramp as int) as i32,
            duty: self.duty,
            duty_ramp: cubed(self.duty_ramp as int) as i32,
            vib_strength: cubed(self.vib_strength as int) as i32,
            vib_speed: self.vib_speed,
            env_attack: cubed(self.env_attack as int) as i32,
            env_sustain: match self.boost {
                Some(v) => (squared(self.env_sustain as int) + 200_000 + v.0) as i32,
                None => squared(self.env_sustain as int) as i32,
            },
            env_decay: match self.boost {
                Some(v) => (self.env_decay + 200_000 + v.1) as i32,
                None => self.env_decay,
            },
            env_punch: squared(self.env_punch as int) as i32,
            lpf_resonance: self.lpf_resonance,
            lpf_freq: self.cutoff() as i32,
            lpf_ramp: self.cutoff_sweep() as i32,
            hpf_freq: fifth(self.hpf_freq as int) as i32,
            hpf_ramp: fifth(self.hpf_ramp as int) as i32,
            pha_offset: cubed(self.pha_offset as int) as i32,
            pha_ramp: cubed(self.pha_ramp as int) as i32,
            repeat_speed: self.repeat_speed,
            arp_speed: self.arp_speed,
            arp_mod: self.arp_mod,
        }
    }

    /// Computes `valid`.
    pub fn is_valid(&self) -> (ok: bool)
        ensures
            ok == self.valid(),
    {
        let base_again = match self.base_again {
            Some(v) => is_signed_unit(v),
            None => true,
        };
        let ranges = is_signed_unit(self.base_freq) && base_again && is_signed_unit(self.freq_ramp)
            && is_signed_unit(self.freq_dramp) && is_signed_unit(self.duty) && is_signed_unit(
            self.duty_ramp,
        ) && is_signed_unit(self.vib_strength) && is_signed_unit(self.vib_speed)
            && is_signed_unit(self.env_attack) && is_signed_unit(self.env_sustain)
            && is_signed_unit(self.env_decay) && is_within(self.env_punch, 800_000)
            && are_within_if_drawn(self.boost, 300_000, 300_000) && is_signed_unit(
            self.lpf_resonance,
        ) && is_within(self.lpf_freq, ONE) && is_signed_unit(self.lpf_ramp) && is_within(
            self.hpf_freq,
            ONE,
        ) && is_signed_unit(self.hpf_ramp) && is_signed_unit(self.pha_offset) && is_signed_unit(
            self.pha_ramp,
        ) && is_signed_unit(self.repeat_speed) && is_signed_unit(self.arp_speed)
            && is_signed_unit(self.arp_mod);
        if !ranges {
            return false;
        }
        let short = RandomDraws::is_too_short(self.env_attack, self.env_sustain, self.env_decay);
        self.boost.is_some() == short
    }

    /// Computes `recipe`.
    pub fn params(&self) -> (p: SynthParams)
        requires
            self.valid(),
        ensures
            p == self.recipe(),
    {
        let mut p = SynthParams::default();
        p.wave_type = self.wave;
        p.base_freq = match self.base_again {
            Some(v) => cube_level(v) + 500_000,
            None => square_level(self.base_freq),
        };
        p.freq_limit = 0;
        p.freq_ramp = fifth_level(self.freq_ramp);
        if p.base_freq > 700_000 && p.freq_ramp > 200_000 {
            p.freq_ramp = -p.freq_ramp;
        } else if p.base_freq < 200_000 && p.freq_ramp < -50_000 {
            p.freq_ramp = -p.freq_ramp;
        }
        p.freq_dramp = cube_level(self.freq_dramp);
        p.duty = self.duty;
        p.duty_ramp = cube_level(self.duty_ramp);
        p.vib_strength = cube_level(self.vib_strength);
        p.vib_speed = self.vib_speed;
        p.env_attack = cube_level(self.env_attack);
        p.env_sustain = square_level(self.env_sustain);
        p.env_decay = self.env_decay;
        p.env_punch = square_level(self.env_punch);
        match self.boost {
            Some(v) => {
                p.env_sustain = p.env_sustain + 200_000 + v.0;
                p.env_decay = p.env_decay + 200_000 + v.1;
            },
            None => {},
        }
        p.lpf_resonance = self.lpf_resonance;
        p.lpf_freq = ONE - cube_level(self.lpf_freq);
        p.lpf_ramp = cube_level(self.lpf_ramp);
        if p.lpf_freq < 100_000 && p.lpf_ramp < -50_000 {
            p.lpf_ramp = -p.lpf_ramp;
        }
        p.hpf_freq = fifth_level(self.hpf_freq);
        p.hpf_ramp = fifth_level(self.hpf_ramp);
        p.pha_offset = cube_level(self.pha_offset);
        p.pha_ramp = cube_level(self.pha_ramp);
        p.repeat_speed = self.repeat_speed;
        p.arp_speed = self.arp_speed;
        p.arp_mod = self.arp_mod;
        p
    }

    /// Whether sustain and decay must be raised after these three draws:
    /// computes what `too_short` says of them.
    pub(crate) fn is_too_short(env_attack: i32, env_sustain: i32, env_decay: i32) -> (short: bool)
        requires
            signed_unit(env_attack),
            signed_unit(env_sustain),
            signed_unit(env_decay),
        ensures
            short == (cubed(env_attack as int) + squared(env_sustain as int) + env_decay
                < 200_000),
    {
        cube_level(env_attack) + square_level(env_sustain) + env_decay < 200_000
    }
}

/// The level `level` moved by `nudge`, kept inside the range of a level.
pub open spec fn nudged(level: i32, nudge: Option<i32>) -> i32 {
    match nudge {
        None => level,
        Some(step) => if level + step > i32::MAX {
            i32::MAX
        } else if level + step < i32::MIN {
            i32::MIN
        } else {
            (level + step) as i32
        },
    }
}

/// Whether `nudges` holds one entry for each control and no step beyond
/// 0.05 either way.
pub open spec fn valid_nudges(nudges: Seq<Option<i32>>) -> bool {
    &&& nudges.len() == LEVELS
    &&& forall|i: int|
        0 <= i < nudges.len() ==> (#[trigger] nudges[i] matches Some(step) ==> -NUDGE <= step
            <= NUDGE)
}

/// Whether `after` is `before` with each control moved by its entry of
/// `nudges`; the waveform stays.
pub open spec fn mutated(before: SynthParams, nudges: Seq<Option<i32>>, after: SynthParams) -> bool {
    &&& after.wave_type == before.wave_type
    &&& forall|i: int|
        0 <= i < LEVELS ==> #[trigger] after.levels()[i] == nudged(before.levels()[i], nudges[i])
}

/// Computes `nudged`.
pub fn nudge_level(level: i32, nudge: Option<i32>) -> (moved: i32)
    ensures
        moved == nudged(level, nudge),
{
    match nudge {
        None => level,
        Some(step) => {
            let wide: i64 = level as i64 + step as i64;
            if wide > i32::MAX as i64 {
                i32::MAX
            } else if wide < i32::MIN as i64 {
                i32::MIN
            } else {
                wide as i32
            }
        },
    }
}

/// Moves each control of `params` by its entry of `nudges`: an entry
/// `None` leaves the control alone, an entry `Some(step)` adds `step`.
pub fn mutate_with(params: SynthParams, nudges: &[Option<i32>; 22]) -> (after: SynthParams)
    ensures
        mutated(params, nudges@, after),
{
    let mut after = params;
    let mut i: usize = 0;
    while i < LEVELS
        invariant
            i <= LEVELS,
            after.wave_type == params.wave_type,
            forall|j: int| 0 <= j < i ==> #[trigger] after.levels()[j] == nudged(params.levels()[j], nudges@[j]),
            forall|j: int| i <= j < LEVELS ==> #[trigger] after.levels()[j] == params.levels()[j],
        decreases LEVELS - i,
    {
        let level = match after.level(i) {
            Some(v) => v,
            None => 0,
        };
        let moved = nudge_level(level, nudges[i]);
        after = after.with_level(i, moved);
        i += 1;
    }
    after
}

} // verus!
