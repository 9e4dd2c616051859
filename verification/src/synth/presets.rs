//! Sound archetypes, their names, and the recipes that turn random draws
//! into parameter vectors.

use crate::random::flip;
use crate::random::pick_wave;
use crate::random::pick_weighted;
use crate::random::total_weight;
use crate::random::ratio;
use crate::random::seeded;
use crate::random::uniform;
use crate::synth::fixed::signed_unit;
use crate::synth::fixed::within;
use crate::synth::fixed::lemma_power_bounds;
use crate::synth::params::lemma_levels_determine;
use crate::synth::params::SynthParams;
use crate::synth::params::WaveType;
use crate::synth::params::LEVELS;
use crate::synth::params::ONE;
use crate::synth::recipes::mutate_with;
use crate::synth::recipes::mutated;
use crate::synth::recipes::nudged;
use crate::synth::recipes::valid_nudges;
use crate::synth::recipes::BlipDraws;
use crate::synth::recipes::CoinDraws;
use crate::synth::recipes::ExplosionDraws;
use crate::synth::recipes::HitDraws;
use crate::synth::recipes::JumpDraws;
use crate::synth::recipes::PowerUpDraws;
use crate::synth::recipes::RandomDraws;
use crate::synth::recipes::ShootDraws;
use crate::synth::recipes::NUDGE;
use rand::rngs::StdRng;
use vstd::prelude::*;

verus! {

/// A named recipe for a parameter vector.
#[derive(Clone, Copy, Debug, PartialEq, Eq, Structural)]
pub enum SoundType {
    PickupCoin,
    LaserShoot,
    Explosion,
    PowerUp,
    HitHurt,
    Jump,
    BlipSelect,
    Randomize,
}

impl Default for SoundType {
    fn default() -> (kind: SoundType)
        ensures
            kind == SoundType::PickupCoin,
    {
        SoundType::PickupCoin
    }
}

/// The error of a name that stands for no archetype.
#[derive(Clone, Copy, Debug, PartialEq, Eq, Structural)]
pub struct UnknownTag;

impl UnknownTag {
    /// What went wrong, in words.
    pub fn message(&self) -> (text: &'static str)
        ensures
            text@ == "unrecognized sound type"@,
    {
        "unrecognized sound type"
    }
}

/// `c` with an upper-case ASCII letter turned into its lower-case form.
pub open spec fn lower(c: char) -> char {
    if 'A' <= c && c <= 'Z' {
        ((c as u8) + 32) as char
    } else {
        c
    }
}

/// `s` with every upper-case ASCII letter turned into lower case.
pub open spec fn folded(s: Seq<char>) -> Seq<char> {
    s.map_values(|c: char| lower(c))
}

/// The archetype that a lower-case name stands for.
pub open spec fn alias_kind(name: Seq<char>) -> Option<SoundType> {
    if name == seq!['c', 'o', 'i', 'n'] || name == seq!['p', 'i', 'c', 'k', 'u', 'p'] {
        Some(SoundType::PickupCoin)
    } else if name == seq!['s', 'h', 'o', 'o', 't'] || name == seq!['l', 'a', 's', 'e', 'r'] {
        Some(SoundType::LaserShoot)
    } else if name == seq!['e', 'x', 'p', 'l', 'o', 's', 'i', 'o', 'n'] {
        Some(SoundType::Explosion)
    } else if name == seq!['p', 'o', 'w', 'e', 'r', 'u', 'p'] {
        Some(SoundType::PowerUp)
    } else if name == seq!['h', 'i', 't'] || name == seq!['h', 'u', 'r', 't'] {
        Some(SoundType::HitHurt)
    } else if name == seq!['j', 'u', 'm', 'p'] {
        Some(SoundType::Jump)
    } else if name == seq!['b', 'l', 'i', 'p'] || name == seq!['s', 'e', 'l', 'e', 'c', 't'] {
        Some(SoundType::BlipSelect)
    } else if name == seq!['r', 'a', 'n', 'd', 'o', 'm', 'i', 'z', 'e'] {
        Some(SoundType::Randomize)
    } else {
        None
    }
}

/// Length of the longest archetype name.
pub const LONGEST_TAG: usize = 9;

/// Computes `lower`.
fn lower_char(c: char) -> (l: char)
    ensures
        l == lower(c),
{
    if 'A' <= c && c <= 'Z' {
        ((c as u8) + 32) as char
    } else {
        c
    }
}

/// Whether `name` spells `word`.
fn spells(name: &Vec<char>, word: &[char]) -> (same: bool)
    ensures
        same == (name@ == word@),
{
    if name.len() != word.len() {
        return false;
    }
    let mut i: usize = 0;
    while i < name.len()
        invariant
            i <= name.len(),
            name.len() == word.len(),
            forall|j: int| 0 <= j < i ==> name@[j] == word@[j],
        decreases name.len() - i,
    {
        if name[i] != word[i] {
            return false;
        }
        i += 1;
    }
    assert(name@ =~= word@);
    true
}

impl SoundType {
    /// The archetype that `tag` names, whatever the case of its letters:
    /// `coin` or `pickup`, `shoot` or `laser`, `explosion`, `powerup`,
    /// `hit` or `hurt`, `jump`, `blip` or `select`, `randomize`. Any other
    /// text is an error.
    pub fn from_tag(tag: &str) -> (kind: Result<SoundType, UnknownTag>)
        ensures
            kind == match alias_kind(folded(tag@)) {
                Some(k) => Ok::<SoundType, UnknownTag>(k),
                None => Err::<SoundType, UnknownTag>(UnknownTag),
            },
    {
        let n = tag.unicode_len();
        if n > LONGEST_TAG {
            assert(folded(tag@).len() == n);
            return Err(UnknownTag);
        }
        let mut name: Vec<char> = Vec::new();
        let mut i: usize = 0;
        while i < n
            invariant
                i <= n,
                n == tag@.len(),
                name@ == folded(tag@.subrange(0, i as int)),
            decreases n - i,
        {
            let c = lower_char(tag.get_char(i));
            name.push(c);
            assert(name@ =~= folded(tag@.subrange(0, i + 1)));
            i += 1;
        }
        assert(tag@.subrange(0, n as int) =~= tag@);
        if spells(&name, &['c', 'o', 'i', 'n']) || spells(&name, &['p', 'i', 'c', 'k', 'u', 'p']) {
            Ok(SoundType::PickupCoin)
        } else if spells(&name, &['s', 'h', 'o', 'o', 't']) || spells(
            &name,
            &['l', 'a', 's', 'e', 'r'],
        ) {
            Ok(SoundType::LaserShoot)
        } else if spells(&name, &['e', 'x', 'p', 'l', 'o', 's', 'i', 'o', 'n']) {
            Ok(SoundType::Explosion)
        } else if spells(&name, &['p', 'o', 'w', 'e', 'r', 'u', 'p']) {
            Ok(SoundType::PowerUp)
        } else if spells(&name, &['h', 'i', 't']) || spells(&name, &['h', 'u', 'r', 't']) {
            Ok(SoundType::HitHurt)
        } else if spells(&name, &['j', 'u', 'm', 'p']) {
            Ok(SoundType::Jump)
        } else if spells(&name, &['b', 'l', 'i', 'p']) || spells(
            &name,
            &['s', 'e', 'l', 'e', 'c', 't'],
        ) {
            Ok(SoundType::BlipSelect)
        } else if spells(&name, &['r', 'a', 'n', 'd', 'o', 'm', 'i', 'z', 'e']) {
            Ok(SoundType::Randomize)
        } else {
            Err(UnknownTag)
        }
    }
}

/// Whether `p` is what the recipe of `kind` gives for some draws from its
/// ranges.
pub open spec fn is_preset(kind: SoundType, p: SynthParams) -> bool {
    match kind {
        SoundType::PickupCoin => exists|d: CoinDraws| #![trigger d.valid()] d.valid() && p == d.recipe(),
        SoundType::LaserShoot => exists|d: ShootDraws| #![trigger d.valid()] d.valid() && p == d.recipe(),
        SoundType::Explosion => exists|d: ExplosionDraws| #![trigger d.valid()] d.valid() && p == d.recipe(),
        SoundType::PowerUp => exists|d: PowerUpDraws| #![trigger d.valid()] d.valid() && p == d.recipe(),
        SoundType::HitHurt => exists|d: HitDraws| #![trigger d.valid()] d.valid() && p == d.recipe(),
        SoundType::Jump => exists|d: JumpDraws| #![trigger d.valid()] d.valid() && p == d.recipe(),
        SoundType::BlipSelect => exists|d: BlipDraws| #![trigger d.valid()] d.valid() && p == d.recipe(),
        SoundType::Randomize => exists|d: RandomDraws| #![trigger d.valid()] d.valid() && p == d.recipe(),
    }
}

/// Whether `after` is `before` with every control either left alone or
/// moved by a step of at most 0.05.
pub open spec fn is_mutation(before: SynthParams, after: SynthParams) -> bool {
    exists|nudges: Seq<Option<i32>>| #![trigger valid_nudges(nudges)] valid_nudges(nudges) && mutated(before, nudges, after)
}

/// The preset generator: the recipes and the random source they draw from.
pub struct SynthPreset {
    rng: StdRng,
}

impl SynthPreset {
    /// A generator whose draws are fixed by `seed`.
    pub fn new(seed: u64) -> SynthPreset {
        SynthPreset { rng: seeded(seed) }
    }

    /// A level between 0 and `range`: from [0, range) for a positive
    /// range, from (range, 0] for a negative one.
    pub fn frnd(&mut self, range: i32) -> (level: i32)
        ensures
            range > 0 ==> 0 <= level < range,
            range == 0 ==> level == 0,
            range < 0 ==> range < level <= 0,
    {
        if range > 0 {
            uniform(&mut self.rng, 0, range)
        } else if range < 0 {
            uniform(&mut self.rng, range + 1, 1)
        } else {
            0
        }
    }

    /// A level of [-1, 1).
    fn signed(&mut self) -> (level: i32)
        ensures
            signed_unit(level),
    {
        uniform(&mut self.rng, -ONE, ONE)
    }

    /// Two levels, of [0, first) and of [0, second).
    fn pair(&mut self, first: i32, second: i32) -> (levels: (i32, i32))
        requires
            first > 0,
            second > 0,
        ensures
            within(levels.0, first as int),
            within(levels.1, second as int),
    {
        let a = self.frnd(first);
        let b = self.frnd(second);
        (a, b)
    }

    /// One of `waves`.
    fn wave(&mut self, waves: &[WaveType]) -> (wave: WaveType)
        requires
            waves@.len() > 0,
        ensures
            waves@.contains(wave),
    {
        match pick_wave(&mut self.rng, waves) {
            Some(w) => w,
            None => waves[0],
        }
    }

    /// Makes the draws of the coin recipe, in the order of the recipe.
    fn draw_coin(&mut self) -> (d: CoinDraws)
        ensures
            d.valid(),
    {
        let base_freq = self.frnd(500_000);
        let env_sustain = self.frnd(100_000);
        let env_decay = self.frnd(400_000);
        let env_punch = self.frnd(300_000);
        let arp = if flip(&mut self.rng) {
            Some(self.pair(200_000, 400_000))
        } else {
            None
        };
        CoinDraws { base_freq, env_sustain, env_decay, env_punch, arp }
    }

    /// Makes the draws of the laser recipe, in the order of the recipe.
    fn draw_shoot(&mut self) -> (d: ShootDraws)
        ensures
            d.valid(),
    {
        let waves = [(WaveType::Square, 5u32), (WaveType::Sawtooth, 5u32), (WaveType::Sine, 2u32)];
        proof {
            let w = waves@;
            assert(w.drop_last().drop_last().drop_last().len() == 0);
            assert(total_weight(w.drop_last().drop_last().drop_last()) == 0);
            assert(total_weight(w.drop_last().drop_last()) == 5);
            assert(total_weight(w.drop_last()) == 10);
            assert(total_weight(w) == 12);
        }
        let wave = match pick_weighted(&mut self.rng, waves.as_slice()) {
            Some(w) => w,
            None => WaveType::Square,
        };
        let deep = ratio(&mut self.rng, 1, 3);
        let base_freq = self.frnd(if deep { 600_000 } else { 500_000 });
        let freq_limit = self.frnd(if deep { 100_000 } else { 600_000 });
        let freq_ramp = self.frnd(if deep { 300_000 } else { 200_000 });
        let narrow = flip(&mut self.rng);
        let duty = self.frnd(500_000);
        let duty_ramp = self.frnd(if narrow { 200_000 } else { 700_000 });
        let env_sustain = self.frnd(200_000);
        let env_decay = self.frnd(400_000);
        let env_punch = if flip(&mut self.rng) {
            Some(self.frnd(300_000))
        } else {
            None
        };
        let phaser = if ratio(&mut self.rng, 1, 3) {
            Some(self.pair(200_000, 200_000))
        } else {
            None
        };
        let hpf_freq = if flip(&mut self.rng) {
            Some(self.frnd(300_000))
        } else {
            None
        };
        ShootDraws {
            wave,
            deep,
            base_freq,
            freq_limit,
            freq_ramp,
            narrow,
            duty,
            duty_ramp,
            env_sustain,
            env_decay,
            env_punch,
            phaser,
            hpf_freq,
        }
    }

    /// Makes the draws of the explosion recipe, in the order of the recipe.
    fn draw_explosion(&mut self) -> (d: ExplosionDraws)
        ensures
            d.valid(),
    {
        let gentle = flip(&mut self.rng);
        let base_freq = self.frnd(if gentle { 400_000 } else { 700_000 });
        let freq_ramp = self.frnd(if gentle { 400_000 } else { 200_000 });
        let flat = ratio(&mut self.rng, 1, 4);
        let repeat_speed = if ratio(&mut self.rng, 1, 3) {
            Some(self.frnd(500_000))
        } else {
            None
        };
        let env_sustain = self.frnd(300_000);
        let env_decay = self.frnd(500_000);
        let phaser = if flip(&mut self.rng) {
            Some(self.pair(900_000, 300_000))
        } else {
            None
        };
        let env_punch = self.frnd(600_000);
        let vibrato = if flip(&mut self.rng) {
            Some(self.pair(700_000, 600_000))
        } else {
            None
        };
        let arp = if ratio(&mut self.rng, 1, 3) {
            Some(self.pair(300_000, 1_600_000))
        } else {
            None
        };
        ExplosionDraws {
            gentle,
            base_freq,
            freq_ramp,
            flat,
            repeat_speed,
            env_sustain,
            env_decay,
            phaser,
            env_punch,
            vibrato,
            arp,
        }
    }

    /// Makes the draws of the power-up recipe, in the order of the recipe.
    fn draw_powerup(&mut self) -> (d: PowerUpDraws)
        ensures
            d.valid(),
    {
        let env_sustain = self.frnd(400_000);
        let env_decay = self.frnd(400_000);
        let duty = if flip(&mut self.rng) {
            None
        } else {
            Some(self.frnd(600_000))
        };
        let repeating = flip(&mut self.rng);
        let base_freq = self.frnd(300_000);
        let freq_ramp = self.frnd(if repeating { 400_000 } else { 200_000 });
        let repeat_speed = if repeating {
            Some(self.frnd(400_000))
        } else {
            None
        };
        let vibrato = if !repeating && flip(&mut self.rng) {
            Some(self.pair(700_000, 600_000))
        } else {
            None
        };
        PowerUpDraws { env_sustain, env_decay, duty, base_freq, freq_ramp, repeat_speed, vibrato }
    }

    /// Makes the draws of the hit recipe, in the order of the recipe.
    fn draw_hit(&mut self) -> (d: HitDraws)
        ensures
            d.valid(),
    {
        let waves = [WaveType::Square, WaveType::Sawtooth, WaveType::Noise];
        let wave = self.wave(waves.as_slice());
        let base_freq = self.frnd(600_000);
        let freq_ramp = self.frnd(400_000);
        let env_sustain = self.frnd(100_000);
        let env_decay = self.frnd(200_000);
        let duty = match wave {
            WaveType::Square => Some(self.frnd(600_000)),
            _ => None,
        };
        let hpf_freq = if flip(&mut self.rng) {
            Some(self.frnd(300_000))
        } else {
            None
        };
        HitDraws { wave, base_freq, freq_ramp, env_sustain, env_decay, duty, hpf_freq }
    }

    /// Makes the draws of the jump recipe, in the order of the recipe.
    fn draw_jump(&mut self) -> (d: JumpDraws)
        ensures
            d.valid(),
    {
        let duty = self.frnd(600_000);
        let base_freq = self.frnd(300_000);
        let freq_ramp = self.frnd(200_000);
        let env_sustain = self.frnd(300_000);
        let env_decay = self.frnd(200_000);
        let hpf_freq = if flip(&mut self.rng) {
            Some(self.frnd(300_000))
        } else {
            None
        };
        let lpf_freq = if flip(&mut self.rng) {
            Some(self.frnd(600_000))
        } else {
            None
        };
        JumpDraws { duty, base_freq, freq_ramp, env_sustain, env_decay, hpf_freq, lpf_freq }
    }

    /// Makes the draws of the blip recipe, in the order of the recipe.
    fn draw_blip(&mut self) -> (d: BlipDraws)
        ensures
            d.valid(),
    {
        let waves = [WaveType::Square, WaveType::Sawtooth];
        let wave = self.wave(waves.as_slice());
        let base_freq = self.frnd(400_000);
        let env_sustain = self.frnd(100_000);
        let env_decay = self.frnd(200_000);
        let duty = match wave {
            WaveType::Square => Some(self.frnd(600_000)),
            _ => None,
        };
        BlipDraws { wave, base_freq, env_sustain, env_decay, duty }
    }

    /// Makes the draws of the randomization recipe, in the order of the recipe.
    fn draw_random(&mut self) -> (d: RandomDraws)
        ensures
            d.valid(),
    {
        let waves = [WaveType::Square, WaveType::Sawtooth, WaveType::Sine, WaveType::Noise];
        let wave = self.wave(waves.as_slice());
        let base_freq = self.signed();
        let base_again = if flip(&mut self.rng) {
            Some(self.signed())
        } else {
            None
        };
        let freq_ramp = self.signed();
        let freq_dramp = self.signed();
        let duty = self.signed();
        let duty_ramp = self.signed();
        let vib_strength = self.signed();
        let vib_speed = self.signed();
        let env_attack = self.signed();
        let env_sustain = self.signed();
        let env_decay = self.signed();
        let env_punch = self.frnd(800_000);
        let boost = if RandomDraws::is_too_short(env_attack, env_sustain, env_decay) {
            Some(self.pair(300_000, 300_000))
        } else {
            None
        };
        let lpf_resonance = self.signed();
        let lpf_freq = self.frnd(ONE);
        let lpf_ramp = self.signed();
        let hpf_freq = self.frnd(ONE);
        let hpf_ramp = self.signed();
        let pha_offset = self.signed();
        let pha_ramp = self.signed();
        let repeat_speed = self.signed();
        let arp_speed = self.signed();
        let arp_mod = self.signed();
        RandomDraws {
            wave,
            base_freq,
            base_again,
            freq_ramp,
            freq_dramp,
            duty,
            duty_ramp,
            vib_strength,
            vib_speed,
            env_attack,
            env_sustain,
            env_decay,
            env_punch,
            boost,
            lpf_resonance,
            lpf_freq,
            lpf_ramp,
            hpf_freq,
            hpf_ramp,
            pha_offset,
            pha_ramp,
            repeat_speed,
            arp_speed,
            arp_mod,
        }
    }

    /// A coin or pickup sound.
    pub fn coin(&mut self) -> (p: SynthParams)
        ensures
            is_preset(SoundType::PickupCoin, p),
    {
        let d = self.draw_coin();
        d.params()
    }

    /// A laser or shot.
    pub fn shoot(&mut self) -> (p: SynthParams)
        ensures
            is_preset(SoundType::LaserShoot, p),
    {
        let d = self.draw_shoot();
        d.params()
    }

    /// An explosion.
    pub fn explosion(&mut self) -> (p: SynthParams)
        ensures
            is_preset(SoundType::Explosion, p),
    {
        let d = self.draw_explosion();
        d.params()
    }

    /// A power-up.
    pub fn powerup(&mut self) -> (p: SynthParams)
        ensures
            is_preset(SoundType::PowerUp, p),
    {
        let d = self.draw_powerup();
        d.params()
    }

    /// A hit or hurt sound.
    pub fn hit(&mut self) -> (p: SynthParams)
        ensures
            is_preset(SoundType::HitHurt, p),
    {
        let d = self.draw_hit();
        d.params()
    }

    /// A jump.
    pub fn jump(&mut self) -> (p: SynthParams)
        ensures
            is_preset(SoundType::Jump, p),
    {
        let d = self.draw_jump();
        d.params()
    }

    /// A blip or select sound.
    pub fn blip(&mut self) -> (p: SynthParams)
        ensures
            is_preset(SoundType::BlipSelect, p),
    {
        let d = self.draw_blip();
        d.params()
    }

    /// A vector drawn from wide distributions, whatever stood before.
    pub fn randomize(&mut self) -> (p: SynthParams)
        ensures
            is_preset(SoundType::Randomize, p),
    {
        let d = self.draw_random();
        d.params()
    }

    /// A fresh parameter vector of the archetype `sound_type`.
    pub fn generate(&mut self, sound_type: SoundType) -> (p: SynthParams)
        ensures
            is_preset(sound_type, p),
    {
        match sound_type {
            SoundType::PickupCoin => self.coin(),
            SoundType::LaserShoot => self.shoot(),
            SoundType::Explosion => self.explosion(),
            SoundType::PowerUp => self.powerup(),
            SoundType::HitHurt => self.hit(),
            SoundType::Jump => self.jump(),
            SoundType::BlipSelect => self.blip(),
            SoundType::Randomize => self.randomize(),
        }
    }

    /// A variation of `params`: each control is, on the toss of a coin,
    /// left alone or moved by a step from [-0.05, 0.05].
    pub fn mutate(&mut self, params: SynthParams) -> (p: SynthParams)
        ensures
            is_mutation(params, p),
    {
        let mut nudges: [Option<i32>; 22] = [None;22];
        let mut i: usize = 0;
        while i < LEVELS
            invariant
                i <= LEVELS,
                forall|j: int|
                    0 <= j < LEVELS ==> (#[trigger] nudges@[j] matches Some(step) ==> -NUDGE
                        <= step <= NUDGE),
            decreases LEVELS - i,
        {
            if flip(&mut self.rng) {
                let step = uniform(&mut self.rng, -NUDGE, NUDGE + 1);
                nudges[i] = Some(step);
            }
            i += 1;
        }
        let p = mutate_with(params, &nudges);
        assert(valid_nudges(nudges@));
        p
    }
}

/// Whether every control of `p` lies between `low` and `high`.
pub open spec fn levels_between(p: SynthParams, low: int, high: int) -> bool {
    forall|i: int| 0 <= i < LEVELS ==> low <= #[trigger] p.levels()[i] <= high
}

/// Spells `levels_between` out control by control.
proof fn lemma_levels_between(p: SynthParams, low: int, high: int)
    requires
        low <= p.base_freq <= high,
        low <= p.freq_limit <= high,
        low <= p.freq_ramp <= high,
        low <= p.freq_dramp <= high,
        low <= p.duty <= high,
        low <= p.duty_ramp <= high,
        low <= p.vib_strength <= high,
        low <= p.vib_speed <= high,
        low <= p.env_attack <= high,
        low <= p.env_sustain <= high,
        low <= p.env_decay <= high,
        low <= p.env_punch <= high,
        low <= p.lpf_resonance <= high,
        low <= p.lpf_freq <= high,
        low <= p.lpf_ramp <= high,
        low <= p.hpf_freq <= high,
        low <= p.hpf_ramp <= high,
        low <= p.pha_offset <= high,
        low <= p.pha_ramp <= high,
        low <= p.repeat_speed <= high,
        low <= p.arp_speed <= high,
        low <= p.arp_mod <= high,
    ensures
        levels_between(p, low, high),
{
    let l = p.levels();
    assert forall|i: int| 0 <= i < LEVELS implies low <= #[trigger] l[i] <= high by {
        if i < 4 {
            assert(l[0] == p.base_freq && l[1] == p.freq_limit && l[2] == p.freq_ramp && l[3]
                == p.freq_dramp);
        } else if i < 8 {
            assert(l[4] == p.duty && l[5] == p.duty_ramp && l[6] == p.vib_strength && l[7]
                == p.vib_speed);
        } else if i < 12 {
            assert(l[8] == p.env_attack && l[9] == p.env_sustain && l[10] == p.env_decay && l[11]
                == p.env_punch);
        } else if i < 16 {
            assert(l[12] == p.lpf_resonance && l[13] == p.lpf_freq && l[14] == p.lpf_ramp
                && l[15] == p.hpf_freq);
        } else if i < 20 {
            assert(l[16] == p.hpf_ramp && l[17] == p.pha_offset && l[18] == p.pha_ramp && l[19]
                == p.repeat_speed);
        } else {
            assert(l[20] == p.arp_speed && l[21] == p.arp_mod);
        }
    }
}

/// The waveform of each archetype: explosions are noise, coins and jumps
/// are square, a laser is never noise, a hit never a sine, and power-ups
/// and blips are square or sawtooth.
pub proof fn lemma_preset_wave(kind: SoundType, p: SynthParams)
    requires
        is_preset(kind, p),
    ensures
        kind == SoundType::Explosion ==> p.wave_type == WaveType::Noise,
        kind == SoundType::PickupCoin || kind == SoundType::Jump ==> p.wave_type
            == WaveType::Square,
        kind == SoundType::LaserShoot ==> p.wave_type != WaveType::Noise,
        kind == SoundType::HitHurt ==> p.wave_type != WaveType::Sine,
        kind == SoundType::PowerUp || kind == SoundType::BlipSelect ==> p.wave_type
            == WaveType::Square || p.wave_type == WaveType::Sawtooth,
{
}

/// The seven named archetypes stay inside the controls' home ranges. More
/// than that: the start frequency is below 1, the low-pass cutoff is
/// positive, and there is no attack, no change of the slide, no resonance
/// and no sweep of either filter.
pub proof fn lemma_preset_domain(kind: SoundType, p: SynthParams)
    requires
        is_preset(kind, p),
        kind != SoundType::Randomize,
    ensures
        p.in_domain(),
        p.base_freq < ONE,
        0 < p.lpf_freq,
        p.env_attack == 0,
        p.freq_dramp == 0,
        p.lpf_resonance == 0,
        p.lpf_ramp == 0,
        p.hpf_ramp == 0,
        levels_between(p, -ONE as int, ONE as int),
{
    match kind {
        SoundType::Explosion => {
            let d = choose|d: ExplosionDraws| #![trigger d.valid()] d.valid() && p == d.recipe();
            let root = d.root_freq();
            assert(10_000 <= root * root / (ONE as int) < 810_000) by (nonlinear_arith)
                requires
                    100_000 <= root < 900_000,
            ;
        },
        _ => {},
    }
    lemma_levels_between(p, -ONE as int, ONE as int);
}

/// A full randomization sets no frequency limit, keeps the low-pass cutoff
/// positive and at most 1, the high-pass cutoff and the punch in [0, 1),
/// and every control in [-1, 1.5].
pub proof fn lemma_random_domain(p: SynthParams)
    requires
        is_preset(SoundType::Randomize, p),
    ensures
        p.freq_limit == 0,
        0 < p.lpf_freq <= ONE,
        0 <= p.hpf_freq < ONE,
        0 <= p.env_punch < ONE,
        levels_between(p, -ONE as int, 1_500_000),
{
    let d = choose|d: RandomDraws| #![trigger d.valid()] d.valid() && p == d.recipe();
    lemma_power_bounds(d.base_freq as int);
    if d.base_again is Some {
        lemma_power_bounds(d.base_again->0 as int);
    }
    lemma_power_bounds(d.freq_ramp as int);
    lemma_power_bounds(d.freq_dramp as int);
    lemma_power_bounds(d.duty_ramp as int);
    lemma_power_bounds(d.vib_strength as int);
    lemma_power_bounds(d.env_attack as int);
    lemma_power_bounds(d.env_sustain as int);
    let punch = d.env_punch as int;
    assert(0 <= punch * punch / (ONE as int) < ONE) by (nonlinear_arith)
        requires
            0 <= punch < 800_000,
    ;
    lemma_power_bounds(d.lpf_freq as int);
    lemma_power_bounds(d.lpf_ramp as int);
    lemma_power_bounds(d.hpf_freq as int);
    lemma_power_bounds(d.hpf_ramp as int);
    lemma_power_bounds(d.pha_offset as int);
    lemma_power_bounds(d.pha_ramp as int);
    lemma_levels_between(p, -ONE as int, 1_500_000);
}

/// A mutation moves no control by more than 0.05, leaves alone what its
/// coin spared, and keeps the waveform.
pub proof fn lemma_mutation_is_small(
    before: SynthParams,
    nudges: Seq<Option<i32>>,
    after: SynthParams,
)
    requires
        valid_nudges(nudges),
        mutated(before, nudges, after),
    ensures
        after.wave_type == before.wave_type,
        forall|i: int|
            0 <= i < LEVELS ==> -NUDGE <= #[trigger] after.levels()[i] - before.levels()[i]
                <= NUDGE,
        forall|i: int|
            0 <= i < LEVELS && nudges[i] is None ==> #[trigger] after.levels()[i]
                == before.levels()[i],
{
    assert forall|i: int| 0 <= i < LEVELS implies -NUDGE <= #[trigger] after.levels()[i]
        - before.levels()[i] <= NUDGE by {
        assert(nudges[i] matches Some(step) ==> -NUDGE <= step <= NUDGE);
    }
}

/// The outcome of a mutation is fixed by the vector and the steps.
pub proof fn lemma_mutation_is_determined(
    before: SynthParams,
    nudges: Seq<Option<i32>>,
    first: SynthParams,
    second: SynthParams,
)
    requires
        mutated(before, nudges, first),
        mutated(before, nudges, second),
    ensures
        first == second,
{
    assert forall|i: int| 0 <= i < LEVELS implies first.levels()[i] == second.levels()[i] by {
        assert(first.levels()[i] == nudged(before.levels()[i], nudges[i]));
        assert(second.levels()[i] == nudged(before.levels()[i], nudges[i]));
    }
    assert(first.levels() =~= second.levels());
    lemma_levels_determine(first, second);
}

} // verus!
