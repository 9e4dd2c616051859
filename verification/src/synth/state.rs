//! The integer state of a voice and the rules that advance it.
//!
//! A sample is made in three moves. `begun` advances the repeat and
//! arpeggio clocks. `shaped` takes what the signal arithmetic reports for
//! the sample (its `Drive`), fixes the oscillator period and the phaser
//! delay and advances the envelope. `advanced` is one oversampling step of
//! the oscillator phase and the phaser's ring cursor. All of them are total
//! functions on well-formed states.

use crate::synth::params::SynthParams;
use crate::synth::params::ONE;
use vstd::prelude::*;

verus! {

/// Length of the phaser's ring buffer.
pub const RING: usize = 1024;

/// Number of slots in the noise table.
pub const NOISE_SLOTS: usize = 32;

/// Shortest oscillator period.
pub const MIN_PERIOD: i32 = 8;

/// Oversampling steps per output sample.
pub const OVERSAMPLING: usize = 8;

/// Samples of an envelope stage whose level is `level`: `level² · 100000`,
/// rounded down.
pub open spec fn stage_length(level: int) -> int {
    level * level / 10_000_000
}

/// Samples between two events of a clock run at `speed`:
/// `(1 - speed)² · 20000 + 32`, rounded to the nearest integer.
pub open spec fn clock_limit(speed: int) -> int {
    ((ONE - speed) * (ONE - speed) + 25_000_000) / 50_000_000 + 32
}

/// Limit of the repeat clock; 0, which disables it, at speed 0.
pub open spec fn repeat_limit(speed: int) -> int {
    if speed == 0 {
        0
    } else {
        clock_limit(speed)
    }
}

/// Limit of the arpeggio clock; 0, which disables it, at speed 1.
pub open spec fn arpeggio_limit(speed: int) -> int {
    if speed == ONE {
        0
    } else {
        clock_limit(speed)
    }
}

/// Oscillator period at frequency `freq`: `100 / (freq² + 0.001)`, rounded
/// down and kept at `MIN_PERIOD` or above.
pub open spec fn base_period(freq: int) -> int {
    let period: int = 100_000_000_000_000int / (freq * freq + 1_000_000_000);
    if period < MIN_PERIOD {
        MIN_PERIOD as int
    } else {
        period
    }
}

/// Phaser delay at offset `offset`: `offset² · 1020`, rounded down and kept
/// inside the ring.
pub open spec fn phaser_delay(offset: int) -> int {
    let delay: int = offset * offset * 1020 / 1_000_000_000_000int;
    if delay > RING - 1 {
        RING - 1
    } else {
        delay
    }
}

/// The magnitude of `value`.
pub open spec fn magnitude(value: int) -> int {
    if value < 0 {
        -value
    } else {
        value
    }
}

/// The magnitude of `value`, computed.
fn magnitude_of(value: i32) -> (m: u64)
    ensures
        m == magnitude(value as int),
        m <= 0x8000_0000,
        m * m == value * value,
        m * m <= 0x4000_0000_0000_0000,
{
    let wide: i64 = value as i64;
    let m: u64 = if wide < 0 {
        (-wide) as u64
    } else {
        wide as u64
    };
    assert(m * m == value * value) by (nonlinear_arith)
        requires
            m == value || m == -value,
    ;
    assert(m * m <= 0x4000_0000_0000_0000) by (nonlinear_arith)
        requires
            m <= 0x8000_0000,
    ;
    m
}

/// Computes `stage_length`.
pub fn stage_samples(level: i32) -> (samples: u64)
    ensures
        samples == stage_length(level as int),
        samples <= 0x4000_0000_0000_0000,
{
    let m = magnitude_of(level);
    m * m / 10_000_000
}

/// Computes `clock_limit`.
pub fn clock_samples(speed: i32) -> (samples: u64)
    ensures
        samples == clock_limit(speed as int),
        32 <= samples < 0x7fff_ffff_ffff_ffff,
{
    let gap: i64 = ONE as i64 - speed as i64;
    let m: u64 = if gap < 0 {
        (-gap) as u64
    } else {
        gap as u64
    };
    assert(m * m == (ONE - speed) * (ONE - speed)) by (nonlinear_arith)
        requires
            m == ONE - speed || m == -(ONE - speed),
    ;
    assert(m * m <= 0x4400_0000_0000_0000) by (nonlinear_arith)
        requires
            m <= 0x8010_0000,
    ;
    (m * m + 25_000_000) / 50_000_000 + 32
}

/// Computes `repeat_limit`.
pub fn repeat_samples(speed: i32) -> (samples: u64)
    ensures
        samples == repeat_limit(speed as int),
        samples < 0x7fff_ffff_ffff_ffff,
        samples == 0 <==> speed == 0,
{
    if speed == 0 {
        0
    } else {
        clock_samples(speed)
    }
}

/// Computes `arpeggio_limit`.
pub fn arpeggio_samples(speed: i32) -> (samples: u64)
    ensures
        samples == arpeggio_limit(speed as int),
        samples < 0x7fff_ffff_ffff_ffff,
        samples == 0 <==> speed == ONE,
{
    if speed == ONE {
        0
    } else {
        clock_samples(speed)
    }
}

/// Computes `base_period`.
pub fn period_samples(freq: i32) -> (samples: i32)
    ensures
        samples == base_period(freq as int),
        MIN_PERIOD <= samples <= 100_000,
{
    let m = magnitude_of(freq);
    let divisor: u64 = m * m + 1_000_000_000;
    let period: u64 = 100_000_000_000_000 / divisor;
    assert(period <= 100_000) by (nonlinear_arith)
        requires
            divisor >= 1_000_000_000,
            period == 100_000_000_000_000int / (divisor as int),
    ;
    if period < 8 {
        MIN_PERIOD
    } else {
        period as i32
    }
}

/// Computes `phaser_delay`.
pub fn delay_slots(offset: i32) -> (slots: usize)
    ensures
        slots == phaser_delay(offset as int),
        slots < RING,
{
    let m = magnitude_of(offset);
    let wide: u128 = m as u128;
    assert(wide * wide * 1020 == offset * offset * 1020) by (nonlinear_arith)
        requires
            wide * wide == offset * offset,
    ;
    let delay: u128 = wide * wide * 1020 / 1_000_000_000_000;
    if delay > 1023 {
        RING - 1
    } else {
        delay as usize
    }
}

/// What the signal arithmetic reports for one sample.
#[derive(Clone, Copy, Debug, PartialEq, Eq, Structural)]
pub struct Drive {
    /// The oscillator period after slide and vibrato, before the floor.
    pub period: i32,
    /// Whether the period had to be cut at its upper bound.
    pub clamped: bool,
    /// The phaser offset, signed, before the ring bound.
    pub delay: i32,
}

/// Integer state of a voice.
#[derive(Clone, Copy, Debug, PartialEq, Eq, Structural)]
pub struct SynthState {
    pub playing_sample: bool,
    /// Oscillator phase, counted in oversampling steps.
    pub phase: i32,
    /// Oscillator period of the current sample; 0 until the first trigger.
    pub period: i32,
    pub rep_time: u64,
    /// 0 while the repeat clock is off.
    pub rep_limit: u64,
    pub arp_time: u64,
    /// 0 while the arpeggio clock is off or has fired.
    pub arp_limit: u64,
    /// 0 attack, 1 sustain, 2 decay, 3 ended.
    pub env_stage: u8,
    pub env_time: u64,
    pub env_attack_len: u64,
    pub env_sustain_len: u64,
    pub env_decay_len: u64,
    /// Phaser delay in ring slots.
    pub iphase: usize,
    /// Write cursor of the phaser ring.
    pub ipp: usize,
}

impl Default for SynthState {
    fn default() -> (s: SynthState)
        ensures
            s == SynthState::idle(),
    {
        SynthState {
            playing_sample: false,
            phase: 0,
            period: 0,
            rep_time: 0,
            rep_limit: 0,
            arp_time: 0,
            arp_limit: 0,
            env_stage: 0,
            env_time: 0,
            env_attack_len: 0,
            env_sustain_len: 0,
            env_decay_len: 0,
            iphase: 0,
            ipp: 0,
        }
    }
}

impl SynthState {
    /// Length of the envelope stage `stage`; 0 past the last stage.
    pub open spec fn stage_len(self, stage: int) -> int {
        if stage == 0 {
            self.env_attack_len as int
        } else if stage == 1 {
            self.env_sustain_len as int
        } else if stage == 2 {
            self.env_decay_len as int
        } else {
            0
        }
    }

    /// Well-formedness: every counter is inside its bound, an ended
    /// envelope has stopped the voice, and the period is `MIN_PERIOD` or
    /// more in every state but that of a voice never triggered, where it
    /// is 0.
    pub open spec fn wf(self) -> bool {
        &&& 0 <= self.phase < i32::MAX
        &&& (self.period == 0 || self.period >= MIN_PERIOD)
        &&& (self.playing_sample ==> self.period >= MIN_PERIOD)
        &&& (self.rep_limit != 0 ==> self.rep_time < self.rep_limit)
        &&& (self.arp_limit != 0 ==> self.arp_time < self.arp_limit)
        &&& self.env_stage <= 3
        &&& (self.env_stage == 3 ==> !self.playing_sample)
        &&& self.env_attack_len < u64::MAX
        &&& self.env_sustain_len < u64::MAX
        &&& self.env_decay_len < u64::MAX
        &&& (self.env_stage < 3 ==> self.env_time <= self.stage_len(self.env_stage as int))
        &&& self.iphase < RING
        &&& self.ipp < RING
    }

    /// The state of a voice that has never been triggered.
    pub open spec fn idle() -> SynthState {
        SynthState {
            playing_sample: false,
            phase: 0,
            period: 0,
            rep_time: 0,
            rep_limit: 0,
            arp_time: 0,
            arp_limit: 0,
            env_stage: 0,
            env_time: 0,
            env_attack_len: 0,
            env_sustain_len: 0,
            env_decay_len: 0,
            iphase: 0,
            ipp: 0,
        }
    }

    /// The state that a trigger derives from `p`.
    pub open spec fn triggered(p: SynthParams) -> SynthState {
        SynthState {
            playing_sample: true,
            phase: 0,
            period: base_period(p.base_freq as int) as i32,
            rep_time: 0,
            rep_limit: repeat_limit(p.repeat_speed as int) as u64,
            arp_time: 0,
            arp_limit: arpeggio_limit(p.arp_speed as int) as u64,
            env_stage: 0,
            env_time: 0,
            env_attack_len: stage_length(p.env_attack as int) as u64,
            env_sustain_len: stage_length(p.env_sustain as int) as u64,
            env_decay_len: stage_length(p.env_decay as int) as u64,
            iphase: phaser_delay(p.pha_offset as int) as usize,
            ipp: 0,
        }
    }

    /// Whether the repeat clock reaches its limit with the next sample.
    pub open spec fn repeat_due(self) -> bool {
        self.rep_limit != 0 && self.rep_time + 1 >= self.rep_limit
    }

    /// The state after the repeat clock has moved. A clock that is off
    /// stays where it is. At the limit the voice restarts: the clock and
    /// the oscillator phase return to 0 and both clocks are set up again
    /// from `p`; envelope, ring cursor and phaser delay are left alone.
    pub open spec fn after_repeat(self, p: SynthParams) -> SynthState {
        if self.rep_limit == 0 {
            self
        } else if self.repeat_due() {
            SynthState {
                phase: 0,
                rep_time: 0,
                rep_limit: repeat_limit(p.repeat_speed as int) as u64,
                arp_time: 0,
                arp_limit: arpeggio_limit(p.arp_speed as int) as u64,
                ..self
            }
        } else {
            SynthState { rep_time: (self.rep_time + 1) as u64, ..self }
        }
    }

    /// Whether the arpeggio clock reaches its limit with the next sample.
    pub open spec fn arpeggio_due(self) -> bool {
        self.arp_limit != 0 && self.arp_time + 1 >= self.arp_limit
    }

    /// The state after the arpeggio clock has moved. A clock that is off
    /// stays where it is; one that reaches its limit switches itself off.
    pub open spec fn after_arpeggio(self) -> SynthState {
        if self.arp_limit == 0 {
            self
        } else if self.arpeggio_due() {
            SynthState { arp_time: (self.arp_time + 1) as u64, arp_limit: 0, ..self }
        } else {
            SynthState { arp_time: (self.arp_time + 1) as u64, ..self }
        }
    }

    /// The state after both clocks have moved; a stopped voice stays as it
    /// is.
    pub open spec fn begun(self, p: SynthParams) -> SynthState {
        if self.playing_sample {
            self.after_repeat(p).after_arpeggio()
        } else {
            self
        }
    }

    /// Whether the envelope leaves its stage with the next sample.
    pub open spec fn stage_ends(self) -> bool {
        self.env_stage < 3 && self.env_time + 1 > self.stage_len(self.env_stage as int)
    }

    /// The state after the envelope has moved by one sample.
    pub open spec fn after_envelope(self) -> SynthState {
        if self.env_stage >= 3 {
            self
        } else if self.stage_ends() {
            SynthState {
                env_time: 0,
                env_stage: (self.env_stage + 1) as u8,
                playing_sample: self.playing_sample && self.env_stage < 2,
                ..self
            }
        } else {
            SynthState { env_time: (self.env_time + 1) as u64, ..self }
        }
    }

    /// The state after a sample has been shaped: a period cut at its bound
    /// stops the voice if a frequency limit is set, the period is floored
    /// at `MIN_PERIOD`, the envelope moves, and the phaser delay is the
    /// magnitude of the offset, kept inside the ring.
    pub open spec fn shaped(self, p: SynthParams, d: Drive) -> SynthState {
        let cut = SynthState {
            playing_sample: self.playing_sample && !(d.clamped && p.freq_limit > 0),
            period: if d.period < MIN_PERIOD {
                MIN_PERIOD
            } else {
                d.period
            },
            iphase: if magnitude(d.delay as int) > RING - 1 {
                (RING - 1) as usize
            } else {
                magnitude(d.delay as int) as usize
            },
            ..self
        };
        cut.after_envelope()
    }

    /// Whether the oscillator completes a period with the next step. A
    /// voice never triggered has no period to complete.
    pub open spec fn wraps(self) -> bool {
        self.period != 0 && self.phase + 1 >= self.period
    }

    /// The state after one oversampling step: the phase moves on by one and
    /// is reduced modulo the period when it reaches it; the ring cursor
    /// moves on by one slot. A voice never triggered, whose period is 0,
    /// stays as it is.
    pub open spec fn advanced(self) -> SynthState {
        if self.period == 0 {
            self
        } else {
            SynthState {
                phase: if self.wraps() {
                    ((self.phase + 1) % (self.period as int)) as i32
                } else {
                    (self.phase + 1) as i32
                },
                ipp: ((self.ipp + 1) % (RING as int)) as usize,
                ..self
            }
        }
    }

    /// The state after `n` oversampling steps.
    pub open spec fn advanced_by(self, n: nat) -> SynthState
        decreases n,
    {
        if n == 0 {
            self
        } else {
            self.advanced_by((n - 1) as nat).advanced()
        }
    }

    /// Slot of the noise table that the phase points at; slot 0 for a
    /// voice never triggered.
    pub open spec fn noise_slot(self) -> int {
        if self.period == 0 {
            0
        } else {
            self.phase * (NOISE_SLOTS as int) / (self.period as int)
        }
    }

    /// Ring slot that the phaser reads while the cursor stands at `ipp`.
    pub open spec fn read_slot(self) -> int {
        (self.ipp + RING - self.iphase) % (RING as int)
    }

    /// The state after one whole sample; a stopped voice stays as it is.
    pub open spec fn sample(self, p: SynthParams, d: Drive) -> SynthState {
        if self.playing_sample {
            self.begun(p).shaped(p, d).advanced_by(OVERSAMPLING as nat)
        } else {
            self
        }
    }

    /// The state after one sample for each element of `drives`, in order.
    pub open spec fn run(self, p: SynthParams, drives: Seq<Drive>) -> SynthState
        decreases drives.len(),
    {
        if drives.len() == 0 {
            self
        } else {
            self.run(p, drives.drop_last()).sample(p, drives.last())
        }
    }

    /// Upper bound on the samples that the envelope still lasts.
    pub open spec fn remaining(self) -> int {
        if self.env_stage == 0 {
            self.env_attack_len + self.env_sustain_len + self.env_decay_len + 3 - self.env_time
        } else if self.env_stage == 1 {
            self.env_sustain_len + self.env_decay_len + 2 - self.env_time
        } else if self.env_stage == 2 {
            self.env_decay_len + 1 - self.env_time
        } else {
            0
        }
    }
}

/// Every derived length and limit is non-negative and fits its field.
pub proof fn lemma_derived_bounds(level: i32)
    ensures
        0 <= stage_length(level as int) <= 0x4000_0000_0000_0000,
        32 <= clock_limit(level as int) < 0x7fff_ffff_ffff_ffff,
        MIN_PERIOD <= base_period(level as int) <= 100_000,
        0 <= phaser_delay(level as int) < RING,
{
    let v = level as int;
    assert(0 <= v * v <= 0x4000_0000_0000_0000) by (nonlinear_arith)
        requires
            -0x8000_0000 <= v <= 0x8000_0000,
    ;
    let g = ONE - v;
    assert(0 <= g * g <= 0x4400_0000_0000_0000) by (nonlinear_arith)
        requires
            -0x8010_0000 <= g <= 0x8010_0000,
    ;
    let divisor = v * v + 1_000_000_000;
    assert(0 <= 100_000_000_000_000int / divisor <= 100_000) by (nonlinear_arith)
        requires
            divisor >= 1_000_000_000,
    ;
    assert(0 <= v * v * 1020) by (nonlinear_arith)
        requires
            0 <= v * v,
    ;
}

/// A trigger leaves a well-formed, playing state at the start of the
/// attack, with a period of `MIN_PERIOD` or more.
pub proof fn lemma_triggered_wf(p: SynthParams)
    ensures
        SynthState::triggered(p).wf(),
        SynthState::triggered(p).playing_sample,
        SynthState::triggered(p).env_stage == 0,
        SynthState::triggered(p).env_time == 0,
        SynthState::triggered(p).rep_limit == repeat_limit(p.repeat_speed as int),
        SynthState::triggered(p).period >= MIN_PERIOD,
{
    lemma_derived_bounds(p.base_freq);
    lemma_derived_bounds(p.repeat_speed);
    lemma_derived_bounds(p.arp_speed);
    lemma_derived_bounds(p.env_attack);
    lemma_derived_bounds(p.env_sustain);
    lemma_derived_bounds(p.env_decay);
    lemma_derived_bounds(p.pha_offset);
}

/// Each move of a sample keeps a state well-formed, and an oversampling
/// step of a voice that has a period leaves the phase below it.
pub proof fn lemma_moves_keep_wf(s: SynthState, p: SynthParams, d: Drive)
    requires
        s.wf(),
    ensures
        s.begun(p).wf(),
        s.shaped(p, d).wf(),
        s.advanced().wf(),
        s.period != 0 ==> s.advanced().phase < s.period,
        s.sample(p, d).wf(),
{
    lemma_derived_bounds(p.repeat_speed);
    lemma_derived_bounds(p.arp_speed);
    assert(s.after_repeat(p).wf());
    assert(s.begun(p).wf());
    assert(s.shaped(p, d).wf());
    lemma_advanced_wf(s);
    lemma_advanced_by_wf(s.begun(p).shaped(p, d), OVERSAMPLING as nat);
}

/// An oversampling step keeps a state well-formed and everything but
/// phase and ring cursor as it was.
pub proof fn lemma_advanced_wf(s: SynthState)
    requires
        s.wf(),
    ensures
        s.advanced().wf(),
        s.period != 0 ==> 0 <= s.advanced().phase < s.period,
        s.period == 0 ==> s.advanced() == s,
        s.advanced() == (SynthState { phase: s.advanced().phase, ipp: s.advanced().ipp, ..s }),
{
    if s.period != 0 {
        let next = s.phase + 1;
        let period = s.period as int;
        assert(0 <= next % period < period) by (nonlinear_arith)
            requires
                period > 0,
        ;
    }
}

/// Oversampling steps keep a state well-formed and touch nothing but phase
/// and ring cursor.
pub proof fn lemma_advanced_by_wf(s: SynthState, n: nat)
    requires
        s.wf(),
    ensures
        s.advanced_by(n).wf(),
        s.advanced_by(n) == (SynthState {
            phase: s.advanced_by(n).phase,
            ipp: s.advanced_by(n).ipp,
            ..s
        }),
    decreases n,
{
    if n > 0 {
        lemma_advanced_by_wf(s, (n - 1) as nat);
        lemma_advanced_wf(s.advanced_by((n - 1) as nat));
    }
}

/// A restart returns the oscillator phase to 0 and leaves the envelope,
/// the ring cursor, the phaser delay and the playing flag as they were.
pub proof fn lemma_restart_keeps_envelope(s: SynthState, p: SynthParams)
    requires
        s.repeat_due(),
    ensures
        s.after_repeat(p).phase == 0,
        s.after_repeat(p).rep_time == 0,
        s.after_repeat(p).playing_sample == s.playing_sample,
        s.after_repeat(p).env_stage == s.env_stage,
        s.after_repeat(p).env_time == s.env_time,
        s.after_repeat(p).env_attack_len == s.env_attack_len,
        s.after_repeat(p).env_sustain_len == s.env_sustain_len,
        s.after_repeat(p).env_decay_len == s.env_decay_len,
        s.after_repeat(p).iphase == s.iphase,
        s.after_repeat(p).ipp == s.ipp,
        s.after_repeat(p).period == s.period,
{
}

/// One sample of a playing voice moves the envelope by exactly one sample:
/// the stage lengths stay, the stage does not fall, and the bound on what
/// is left of the envelope shrinks by one.
pub proof fn lemma_sample_moves_envelope(s: SynthState, p: SynthParams, d: Drive)
    requires
        s.wf(),
        s.playing_sample,
    ensures
        s.sample(p, d).env_attack_len == s.env_attack_len,
        s.sample(p, d).env_sustain_len == s.env_sustain_len,
        s.sample(p, d).env_decay_len == s.env_decay_len,
        s.sample(p, d).env_stage >= s.env_stage,
        s.sample(p, d).env_stage == s.env_stage ==> s.sample(p, d).env_time == s.env_time + 1,
        s.sample(p, d).remaining() == s.remaining() - 1,
        s.remaining() >= 1,
{
    lemma_moves_keep_wf(s, p, d);
    let b = s.begun(p);
    assert(b.env_stage == s.env_stage && b.env_time == s.env_time);
    assert(b.env_attack_len == s.env_attack_len);
    assert(b.env_sustain_len == s.env_sustain_len);
    assert(b.env_decay_len == s.env_decay_len);
    let h = b.shaped(p, d);
    lemma_advanced_by_wf(h, OVERSAMPLING as nat);
}

/// A stopped voice stays exactly as it is, whatever is run on it.
pub proof fn lemma_stopped_stays(s: SynthState, p: SynthParams, drives: Seq<Drive>)
    requires
        !s.playing_sample,
    ensures
        s.run(p, drives) == s,
    decreases drives.len(),
{
    if drives.len() > 0 {
        lemma_stopped_stays(s, p, drives.drop_last());
    }
}

/// Running samples keeps a state well-formed, never lowers the envelope
/// stage, never changes the stage lengths and never restarts a stopped
/// voice; while the voice plays, the bound on what is left of the envelope
/// has shrunk by one for each sample.
pub proof fn lemma_run_envelope(s: SynthState, p: SynthParams, drives: Seq<Drive>)
    requires
        s.wf(),
    ensures
        s.run(p, drives).wf(),
        s.run(p, drives).env_stage >= s.env_stage,
        s.run(p, drives).env_attack_len == s.env_attack_len,
        s.run(p, drives).env_sustain_len == s.env_sustain_len,
        s.run(p, drives).env_decay_len == s.env_decay_len,
        s.run(p, drives).playing_sample ==> s.playing_sample,
        s.run(p, drives).playing_sample ==> s.run(p, drives).remaining() == s.remaining()
            - drives.len(),
    decreases drives.len(),
{
    if drives.len() > 0 {
        let before = s.run(p, drives.drop_last());
        lemma_run_envelope(s, p, drives.drop_last());
        lemma_moves_keep_wf(before, p, drives.last());
        if before.playing_sample {
            lemma_sample_moves_envelope(before, p, drives.last());
        }
    }
}

/// The envelope ends every sound: once as many samples have been run as
/// the envelope can last, the voice has stopped.
pub proof fn lemma_envelope_ends(s: SynthState, p: SynthParams, drives: Seq<Drive>)
    requires
        s.wf(),
        drives.len() >= s.remaining(),
    ensures
        !s.run(p, drives).playing_sample,
{
    lemma_run_envelope(s, p, drives);
    let end = s.run(p, drives);
    if end.playing_sample {
        assert(end.env_stage < 3);
        assert(end.remaining() >= 1);
    }
}

/// Every sound ends: a voice triggered with `p` has stopped once it has
/// run for the three stage lengths and three samples more, whatever the
/// signal arithmetic reported on the way and whether it repeats or not.
pub proof fn lemma_sound_ends(p: SynthParams, drives: Seq<Drive>)
    requires
        drives.len() >= stage_length(p.env_attack as int) + stage_length(p.env_sustain as int)
            + stage_length(p.env_decay as int) + 3,
    ensures
        !SynthState::triggered(p).run(p, drives).playing_sample,
{
    lemma_triggered_wf(p);
    lemma_derived_bounds(p.env_attack);
    lemma_derived_bounds(p.env_sustain);
    lemma_derived_bounds(p.env_decay);
    lemma_envelope_ends(SynthState::triggered(p), p, drives);
}

/// The repeat clock of a voice that still plays after `drives.len()`
/// samples from its trigger stands at that number modulo its limit, so a
/// restart comes with every sample whose number is a multiple of the limit
/// and with no other.
pub proof fn lemma_repeat_boundary(p: SynthParams, drives: Seq<Drive>)
    requires
        p.repeat_speed != 0,
        SynthState::triggered(p).run(p, drives).playing_sample,
    ensures
        SynthState::triggered(p).run(p, drives).rep_limit == repeat_limit(p.repeat_speed as int),
        SynthState::triggered(p).run(p, drives).rep_time == drives.len() % (repeat_limit(
            p.repeat_speed as int,
        ) as nat),
        SynthState::triggered(p).run(p, drives).repeat_due() <==> (drives.len() + 1) % (
        repeat_limit(p.repeat_speed as int) as nat) == 0,
    decreases drives.len(),
{
    let start = SynthState::triggered(p);
    let limit = repeat_limit(p.repeat_speed as int);
    lemma_triggered_wf(p);
    lemma_derived_bounds(p.repeat_speed);
    let n = drives.len() as int;
    if drives.len() == 0 {
        assert(0int % limit == 0) by (nonlinear_arith)
            requires
                limit > 0,
        ;
    } else {
        let before = start.run(p, drives.drop_last());
        lemma_run_envelope(start, p, drives.drop_last());
        if !before.playing_sample {
            assert(before.sample(p, drives.last()) == before);
        }
        lemma_repeat_boundary(p, drives.drop_last());
        let b = before.begun(p);
        let h = b.shaped(p, drives.last());
        lemma_moves_keep_wf(before, p, drives.last());
        lemma_advanced_by_wf(h, OVERSAMPLING as nat);
        assert(start.run(p, drives).rep_time == b.rep_time);
        assert(start.run(p, drives).rep_limit == b.rep_limit);
        lemma_clock_step(n - 1, limit);
    }
    lemma_clock_step(n, limit);
    assert(limit > 1);
}

/// Counting modulo `limit`: the successor of `n` is either one more than
/// `n` modulo `limit` or, where that would reach `limit`, 0.
proof fn lemma_clock_step(n: int, limit: int)
    requires
        0 <= n,
        0 < limit,
    ensures
        0 <= n % limit < limit,
        (n + 1) % limit == if n % limit + 1 == limit {
            0
        } else {
            n % limit + 1
        },
{
    let q = n / limit;
    let r = n % limit;
    assert(n == q * limit + r && 0 <= r < limit) by (nonlinear_arith)
        requires
            q == n / limit,
            r == n % limit,
            0 < limit,
    ;
    if r + 1 == limit {
        assert((q + 1) * limit == q * limit + limit) by (nonlinear_arith);
        assert((n + 1) % limit == 0) by (nonlinear_arith)
            requires
                n + 1 == (q + 1) * limit,
                0 < limit,
        ;
    } else {
        assert((n + 1) % limit == r + 1) by (nonlinear_arith)
            requires
                n + 1 == q * limit + (r + 1),
                0 <= r + 1 < limit,
        ;
    }
}

} // verus!
