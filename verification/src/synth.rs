//! The voice: parameters, integer state, noise table and random source.
//!
//! A voice makes no signal itself. For each output sample its owner asks
//! for the `cues`, does the frequency arithmetic that they call for, and
//! hands the outcome to `synth_sample`, which returns the frame of the
//! sample: where the envelope stands and, for every oversampling step,
//! where the oscillator stands and which slots of the phaser ring to touch.
//! The three moves of a sample can also be made one by one, with
//! `begin_sample`, `shape_sample` and `advance_phase`.

pub mod fixed;
pub mod params;
pub mod presets;
pub mod recipes;
pub mod state;

use crate::random::seeded;
use crate::random::uniform;
use crate::synth::params::SynthParams;
use crate::synth::params::WaveType;
use crate::synth::params::ONE;
use crate::synth::state::arpeggio_samples;
use crate::synth::state::delay_slots;
use crate::synth::state::period_samples;
use crate::synth::state::repeat_samples;
use crate::synth::state::stage_samples;
use crate::synth::state::Drive;
use crate::synth::state::SynthState;
use crate::synth::state::MIN_PERIOD;
use crate::synth::state::NOISE_SLOTS;
use crate::synth::state::OVERSAMPLING;
use crate::synth::state::RING;
use rand::rngs::StdRng;
use vstd::prelude::*;

verus! {

/// What the clocks ask for at the start of a sample.
#[derive(Clone, Copy, Debug, PartialEq, Eq, Structural)]
pub struct Cues {
    /// The repeat clock has reached its limit: the oscillator group starts
    /// over from the parameters.
    pub restart: bool,
    /// The arpeggio clock has reached its limit: the pitch jumps once.
    pub arpeggio: bool,
}

/// Where the envelope stands after a sample has been shaped.
#[derive(Clone, Copy, Debug, PartialEq, Eq, Structural)]
pub struct Gate {
    /// 0 attack, 1 sustain, 2 decay, 3 ended.
    pub stage: u8,
    /// Samples spent in the stage.
    pub time: u64,
    /// Length of the stage in samples; 0 once the envelope has ended.
    pub length: u64,
}

/// One oversampling step as the signal arithmetic needs it.
#[derive(Clone, Copy, Debug, PartialEq, Eq, Structural)]
pub struct Tap {
    /// Oscillator phase, below `period` where there is one.
    pub phase: i32,
    /// Oscillator period; 0 for a voice never triggered.
    pub period: i32,
    /// Whether the oscillator completed a period with this step.
    pub wrapped: bool,
    /// The noise table's entry for this phase, in [-1, 1].
    pub noise: i32,
    /// Ring slot to write the new value to.
    pub write: usize,
    /// Ring slot to read the delayed value from.
    pub read: usize,
}

/// Whether every element of `table` lies in [-1, 1].
pub open spec fn noise_in_range(table: Seq<i32>) -> bool {
    forall|i: int| 0 <= i < table.len() ==> -ONE <= #[trigger] table[i] <= ONE
}

/// What the clocks of a voice in state `s` ask for at its next sample;
/// `None` if it has stopped.
pub open spec fn cues_of(s: SynthState, p: SynthParams) -> Option<Cues> {
    if s.playing_sample {
        Some(Cues { restart: s.repeat_due(), arpeggio: s.after_repeat(p).arpeggio_due() })
    } else {
        None
    }
}

/// Where the envelope of a voice in state `s` stands.
pub open spec fn gate_of(s: SynthState) -> Gate {
    Gate {
        stage: s.env_stage,
        time: s.env_time,
        length: s.stage_len(s.env_stage as int) as u64,
    }
}

/// Whether `tap` is the oversampling step that leads on from `before`,
/// made with the noise table `table` and leaving it as `next`: the table
/// is filled anew where a noise oscillator completes a period and is left
/// alone otherwise, and the tap reads its noise from it after that.
pub open spec fn tap_fits(
    before: SynthState,
    wave: WaveType,
    table: Seq<i32>,
    next: Seq<i32>,
    tap: Tap,
) -> bool {
    let after = before.advanced();
    &&& tap.phase == after.phase
    &&& tap.period == after.period
    &&& tap.wrapped == before.wraps()
    &&& tap.write == before.ipp
    &&& tap.read == before.read_slot()
    &&& next.len() == NOISE_SLOTS
    &&& noise_in_range(next)
    &&& (!(before.wraps() && wave == WaveType::Noise) ==> next == table)
    &&& 0 <= after.noise_slot() < NOISE_SLOTS
    &&& tap.noise == next[after.noise_slot()]
}

/// Whether `taps` are the oversampling steps of one sample that lead on
/// from `mid`, with `tables[k]` the noise table before step `k` and
/// `tables[k + 1]` the table after it.
pub open spec fn taps_fit(
    mid: SynthState,
    wave: WaveType,
    tables: Seq<Seq<i32>>,
    taps: Seq<Tap>,
) -> bool {
    &&& taps.len() == OVERSAMPLING
    &&& tables.len() == OVERSAMPLING + 1
    &&& forall|k: int|
        #![trigger taps[k]]
        0 <= k < OVERSAMPLING ==> tap_fits(
            mid.advanced_by(k as nat),
            wave,
            tables[k],
            tables[k + 1],
            taps[k],
        )
}

/// Whether `taps` are the oversampling steps of one sample that lead on
/// from `mid` and take the noise table from `table` to `last`.
pub open spec fn frame_fits(
    mid: SynthState,
    wave: WaveType,
    table: Seq<i32>,
    last: Seq<i32>,
    taps: Seq<Tap>,
) -> bool {
    exists|tables: Seq<Seq<i32>>|
        {
            &&& #[trigger] taps_fit(mid, wave, tables, taps)
            &&& tables[0] == table
            &&& tables[OVERSAMPLING as int] == last
        }
}

/// One whole sample as the signal arithmetic needs it.
#[derive(Clone, Copy, Debug, PartialEq, Eq)]
pub struct Frame {
    /// What the clocks asked for.
    pub cues: Cues,
    /// Where the envelope stands.
    pub gate: Gate,
    /// The oversampling steps, in order.
    pub taps: [Tap; 8],
}

/// What a voice holds, as contracts see it.
pub struct SynthView {
    pub params: SynthParams,
    pub state: SynthState,
    pub noise: Seq<i32>,
}

impl SynthView {
    /// Well-formedness: a well-formed state and a full noise table with
    /// every entry in [-1, 1].
    pub open spec fn wf(self) -> bool {
        &&& self.state.wf()
        &&& self.noise.len() == NOISE_SLOTS
        &&& noise_in_range(self.noise)
    }
}

/// What a voice holds besides its random source, kept well-formed.
struct Core {
    params: SynthParams,
    state: SynthState,
    noise: [i32; 32],
}

impl Core {
    spec fn seen(self) -> SynthView {
        SynthView { params: self.params, state: self.state, noise: self.noise@ }
    }

    #[verifier::type_invariant]
    spec fn inv(self) -> bool {
        self.seen().wf()
    }
}

/// One voice of the synthesizer.
pub struct Synth {
    core: Core,
    rng: StdRng,
}

impl View for Synth {
    type V = SynthView;

    closed spec fn view(&self) -> SynthView {
        self.core.seen()
    }
}

impl Synth {
    /// A silent voice with the given parameters; `seed` fixes the noise
    /// that it will make.
    pub fn new(params: SynthParams, seed: u64) -> (synth: Synth)
        ensures
            synth@.wf(),
            synth@.params == params,
            synth@.state == SynthState::idle(),
            forall|i: int| 0 <= i < NOISE_SLOTS ==> synth@.noise[i] == 0,
    {
        Synth {
            core: Core { params, state: SynthState::default(), noise: [0;32] },
            rng: seeded(seed),
        }
    }

    /// The current parameters.
    pub fn params(&self) -> (p: SynthParams)
        ensures
            p == self@.params,
    {
        self.core.params
    }

    /// The current integer state.
    pub fn state(&self) -> (s: SynthState)
        ensures
            s == self@.state,
            s.wf(),
    {
        proof {
            use_type_invariant(&self.core);
        }
        self.core.state
    }

    /// Whether the voice is sounding.
    pub fn is_playing(&self) -> (playing: bool)
        ensures
            playing == self@.state.playing_sample,
    {
        self.core.state.playing_sample
    }

    /// Whether the low-pass filter is switched off, which it is exactly at
    /// cutoff 1.
    pub fn lowpass_bypassed(&self) -> (bypassed: bool)
        ensures
            bypassed == (self@.params.lpf_freq == ONE),
    {
        self.core.params.lpf_freq == ONE
    }

    /// Puts the default parameters in place. The state is left alone.
    pub fn reset_params(&mut self)
        ensures
            final(self)@.wf(),
            final(self)@.params == SynthParams::spec_default(),
            final(self)@.state == old(self)@.state,
            final(self)@.noise == old(self)@.noise,
    {
        proof {
            use_type_invariant(&self.core);
        }
        self.core.params = SynthParams::default();
    }

    /// Puts `params` in place. The state is left alone.
    pub fn set_params(&mut self, params: SynthParams)
        ensures
            final(self)@.wf(),
            final(self)@.params == params,
            final(self)@.state == old(self)@.state,
            final(self)@.noise == old(self)@.noise,
    {
        proof {
            use_type_invariant(&self.core);
        }
        self.core.params = params;
    }

    /// Fills the noise table with fresh values from [-1, 1].
    fn refresh_noise(&mut self)
        ensures
            final(self)@.wf(),
            final(self)@.params == old(self)@.params,
            final(self)@.state == old(self)@.state,
    {
        proof {
            use_type_invariant(&self.core);
        }
        let mut i: usize = 0;
        while i < NOISE_SLOTS
            invariant
                i <= NOISE_SLOTS,
                self@.wf(),
                self@.params == old(self)@.params,
                self@.state == old(self)@.state,
            decreases NOISE_SLOTS - i,
        {
            let value = uniform(&mut self.rng, -ONE, ONE + 1);
            self.core.noise[i] = value;
            i += 1;
        }
    }

    /// Starts the sound of the current parameters: the whole state is
    /// derived anew and the noise table is filled with fresh values.
    pub fn play_sample(&mut self)
        ensures
            final(self)@.wf(),
            final(self)@.params == old(self)@.params,
            final(self)@.state == SynthState::triggered(old(self)@.params),
    {
        proof {
            use_type_invariant(&self.core);
        }
        let p = self.core.params;
        self.core.state = SynthState {
            playing_sample: true,
            phase: 0,
            period: period_samples(p.base_freq),
            rep_time: 0,
            rep_limit: repeat_samples(p.repeat_speed),
            arp_time: 0,
            arp_limit: arpeggio_samples(p.arp_speed),
            env_stage: 0,
            env_time: 0,
            env_attack_len: stage_samples(p.env_attack),
            env_sustain_len: stage_samples(p.env_sustain),
            env_decay_len: stage_samples(p.env_decay),
            iphase: delay_slots(p.pha_offset),
            ipp: 0,
        };
        self.refresh_noise();
    }

    /// Puts `params` in place and starts their sound.
    pub fn trigger(&mut self, params: SynthParams)
        ensures
            final(self)@.wf(),
            final(self)@.params == params,
            final(self)@.state == SynthState::triggered(params),
    {
        self.set_params(params);
        self.play_sample();
    }

    /// Opens a sample: moves the repeat and arpeggio clocks and says what
    /// they ask for. A stopped voice gives `None` and stays as it is.
    pub fn begin_sample(&mut self) -> (cues: Option<Cues>)
        ensures
            final(self)@.wf(),
            final(self)@.params == old(self)@.params,
            final(self)@.noise == old(self)@.noise,
            final(self)@.state == old(self)@.state.begun(old(self)@.params),
            cues == cues_of(old(self)@.state, old(self)@.params),
    {
        proof {
            use_type_invariant(&self.core);
        }
        if !self.core.state.playing_sample {
            return None;
        }
        let mut s = self.core.state;
        let mut restart = false;
        if s.rep_limit != 0 {
            if s.rep_time + 1 >= s.rep_limit {
                restart = true;
                s.phase = 0;
                s.rep_time = 0;
                s.rep_limit = repeat_samples(self.core.params.repeat_speed);
                s.arp_time = 0;
                s.arp_limit = arpeggio_samples(self.core.params.arp_speed);
            } else {
                s.rep_time = s.rep_time + 1;
            }
        }
        let mut arpeggio = false;
        if s.arp_limit != 0 {
            s.arp_time = s.arp_time + 1;
            if s.arp_time >= s.arp_limit {
                arpeggio = true;
                s.arp_limit = 0;
            }
        }
        self.core.state = s;
        Some(Cues { restart, arpeggio })
    }

    /// Shapes the sample from what the signal arithmetic reports: fixes
    /// period and phaser delay, lets a cut period stop the voice if a
    /// frequency limit is set, and moves the envelope, whose new position
    /// is returned.
    pub fn shape_sample(&mut self, drive: Drive) -> (gate: Gate)
        ensures
            final(self)@.wf(),
            final(self)@.params == old(self)@.params,
            final(self)@.noise == old(self)@.noise,
            final(self)@.state == old(self)@.state.shaped(old(self)@.params, drive),
            gate == gate_of(final(self)@.state),
    {
        proof {
            use_type_invariant(&self.core);
        }
        let mut s = self.core.state;
        if drive.clamped && self.core.params.freq_limit > 0 {
            s.playing_sample = false;
        }
        s.period = if drive.period < MIN_PERIOD {
            MIN_PERIOD
        } else {
            drive.period
        };
        let wide: i64 = drive.delay as i64;
        let offset: i64 = if wide < 0 {
            -wide
        } else {
            wide
        };
        s.iphase = if offset > 1023 {
            RING - 1
        } else {
            offset as usize
        };
        if s.env_stage < 3 {
            let length = if s.env_stage == 0 {
                s.env_attack_len
            } else if s.env_stage == 1 {
                s.env_sustain_len
            } else {
                s.env_decay_len
            };
            if s.env_time + 1 > length {
                s.env_time = 0;
                s.env_stage = s.env_stage + 1;
                if s.env_stage == 3 {
                    s.playing_sample = false;
                }
            } else {
                s.env_time = s.env_time + 1;
            }
        }
        self.core.state = s;
        let length = if s.env_stage == 0 {
            s.env_attack_len
        } else if s.env_stage == 1 {
            s.env_sustain_len
        } else if s.env_stage == 2 {
            s.env_decay_len
        } else {
            0
        };
        Gate { stage: s.env_stage, time: s.env_time, length }
    }

    /// Makes one oversampling step: moves the oscillator phase and the
    /// ring cursor, and refills the noise table when a noise oscillator
    /// completes a period. A voice never triggered has period 0: it stays
    /// as it is, and its tap reads slot 0 of the noise table.
    pub fn advance_phase(&mut self) -> (tap: Tap)
        ensures
            final(self)@.wf(),
            final(self)@.params == old(self)@.params,
            final(self)@.state == old(self)@.state.advanced(),
            old(self)@.state.period == 0 ==> final(self)@ == old(self)@,
            tap_fits(
                old(self)@.state,
                old(self)@.params.wave_type,
                old(self)@.noise,
                final(self)@.noise,
                tap,
            ),
            tap.period != 0 ==> 0 <= tap.phase < tap.period,
            -ONE <= tap.noise <= ONE,
            tap.write < RING,
            tap.read < RING,
    {
        proof {
            use_type_invariant(&self.core);
        }
        let mut s = self.core.state;
        let write = s.ipp;
        let read = (s.ipp + RING - s.iphase) % RING;
        if s.period == 0 {
            let noise = self.core.noise[0];
            return Tap { phase: s.phase, period: 0, wrapped: false, noise, write, read };
        }
        let next = s.phase + 1;
        let wrapped = next >= s.period;
        s.phase = if wrapped {
            next % s.period
        } else {
            next
        };
        s.ipp = (s.ipp + 1) % RING;
        self.core.state = s;
        if wrapped {
            match self.core.params.wave_type {
                WaveType::Noise => {
                    self.refresh_noise();
                },
                _ => {},
            }
        }
        let wide: i64 = s.phase as i64 * 32;
        let slot: i64 = wide / (s.period as i64);
        assert(0 <= slot < 32) by (nonlinear_arith)
            requires
                0 <= s.phase < s.period,
                slot == (s.phase * 32) / (s.period as int),
        ;
        proof {
            use_type_invariant(&self.core);
        }
        let noise = self.core.noise[slot as usize];
        Tap { phase: s.phase, period: s.period, wrapped, noise, write, read }
    }

    /// What the clocks will ask for at the next sample, without moving
    /// them; `None` if the voice has stopped.
    pub fn cues(&self) -> (cues: Option<Cues>)
        ensures
            cues == cues_of(self@.state, self@.params),
    {
        proof {
            use_type_invariant(&self.core);
        }
        let s = self.core.state;
        if !s.playing_sample {
            return None;
        }
        let restart = s.rep_limit != 0 && s.rep_time + 1 >= s.rep_limit;
        let arpeggio = if restart {
            arpeggio_samples(self.core.params.arp_speed) == 1
        } else {
            s.arp_limit != 0 && s.arp_time + 1 >= s.arp_limit
        };
        Some(Cues { restart, arpeggio })
    }

    /// Makes one whole sample: moves the clocks, shapes the sample from
    /// `drive` and makes its oversampling steps. A stopped voice gives
    /// `None` and stays as it is.
    pub fn synth_sample(&mut self, drive: Drive) -> (frame: Option<Frame>)
        ensures
            final(self)@.wf(),
            final(self)@.params == old(self)@.params,
            final(self)@.state == old(self)@.state.sample(old(self)@.params, drive),
            frame is None <==> !old(self)@.state.playing_sample,
            frame is None ==> final(self)@.noise == old(self)@.noise,
            frame matches Some(f) ==> {
                let mid = old(self)@.state.begun(old(self)@.params).shaped(
                    old(self)@.params,
                    drive,
                );
                &&& Some(f.cues) == cues_of(old(self)@.state, old(self)@.params)
                &&& f.gate == gate_of(mid)
                &&& frame_fits(
                    mid,
                    old(self)@.params.wave_type,
                    old(self)@.noise,
                    final(self)@.noise,
                    f.taps@,
                )
            },
    {
        let cues = match self.begin_sample() {
            Some(c) => c,
            None => {
                return None;
            },
        };
        let gate = self.shape_sample(drive);
        let ghost mid = self@.state;
        let ghost wave = self@.params.wave_type;
        let ghost mut tables: Seq<Seq<i32>> = seq![self@.noise];
        let idle = Tap { phase: 0, period: 0, wrapped: false, noise: 0, write: 0, read: 0 };
        let mut taps: [Tap; 8] = [idle;8];
        let mut k: usize = 0;
        while k < OVERSAMPLING
            invariant
                k <= OVERSAMPLING,
                self@.wf(),
                self@.params == old(self)@.params,
                wave == self@.params.wave_type,
                self@.state == mid.advanced_by(k as nat),
                tables.len() == k + 1,
                tables[0] == old(self)@.noise,
                tables[k as int] == self@.noise,
                forall|j: int|
                    #![trigger taps@[j]]
                    0 <= j < k ==> tap_fits(
                        mid.advanced_by(j as nat),
                        wave,
                        tables[j],
                        tables[j + 1],
                        taps@[j],
                    ),
            decreases OVERSAMPLING - k,
        {
            let tap = self.advance_phase();
            taps[k] = tap;
            proof {
                tables = tables.push(self@.noise);
                assert(mid.advanced_by((k + 1) as nat) == mid.advanced_by(k as nat).advanced());
            }
            k += 1;
        }
        proof {
            assert(taps_fit(mid, wave, tables, taps@));
            assert(frame_fits(mid, wave, old(self)@.noise, self@.noise, taps@));
        }
        let frame = Frame { cues, gate, taps };
        Some(frame)
    }
}

} // verus!
