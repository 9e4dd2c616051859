use refexer::synth::params::SynthParams;
use refexer::synth::params::WaveType;
use refexer::synth::params::LEVELS;
use refexer::synth::params::ONE;
use refexer::synth::presets::SoundType;
use refexer::synth::presets::SynthPreset;
use refexer::synth::recipes::NUDGE;

const NAMED: [SoundType; 7] = [
    SoundType::PickupCoin,
    SoundType::LaserShoot,
    SoundType::Explosion,
    SoundType::PowerUp,
    SoundType::HitHurt,
    SoundType::Jump,
    SoundType::BlipSelect,
];

fn many(kind: SoundType) -> Vec<SynthParams> {
    let mut out = Vec::new();
    for seed in 0..300u64 {
        let mut preset = SynthPreset::new(seed);
        out.push(preset.generate(kind));
        out.push(preset.generate(kind));
    }
    out
}

fn count(all: &[SynthParams], test: fn(&SynthParams) -> bool) -> usize {
    all.iter().filter(|p| test(p)).count()
}

#[test]
fn the_same_seed_gives_the_same_presets() {
    for kind in NAMED.iter().chain([SoundType::Randomize].iter()) {
        let mut a = SynthPreset::new(42);
        let mut b = SynthPreset::new(42);
        for _ in 0..20 {
            assert_eq!(a.generate(*kind), b.generate(*kind));
        }
        assert_eq!(a.mutate(SynthParams::default()), b.mutate(SynthParams::default()));
    }
}

#[test]
fn different_seeds_give_different_presets() {
    for kind in NAMED.iter().chain([SoundType::Randomize].iter()) {
        let mut a = SynthPreset::new(1);
        let mut b = SynthPreset::new(2);
        let mut same = 0;
        for _ in 0..20 {
            if a.generate(*kind) == b.generate(*kind) {
                same += 1;
            }
        }
        assert!(same < 20);
    }
}

#[test]
fn successive_presets_differ() {
    let mut preset = SynthPreset::new(3);
    let first = preset.generate(SoundType::PickupCoin);
    let mut changed = false;
    for _ in 0..20 {
        if preset.generate(SoundType::PickupCoin) != first {
            changed = true;
        }
    }
    assert!(changed);
}

#[test]
fn explosions_are_noise() {
    for p in many(SoundType::Explosion) {
        assert_eq!(p.wave_type, WaveType::Noise);
    }
}

#[test]
fn named_presets_stay_in_the_home_ranges() {
    for kind in NAMED {
        for p in many(kind) {
            assert!(p.is_in_domain());
            assert!(0 < p.base_freq && p.base_freq < ONE);
            assert!(0 < p.lpf_freq && p.lpf_freq <= ONE);
            assert!(0 <= p.env_sustain && p.env_sustain <= ONE);
            assert!(0 <= p.env_decay && p.env_decay <= ONE);
            assert!(0 <= p.env_punch && p.env_punch <= ONE);
            assert_eq!(p.env_attack, 0);
            assert_eq!(p.freq_dramp, 0);
            assert_eq!(p.lpf_resonance, 0);
            assert_eq!(p.lpf_ramp, 0);
            assert_eq!(p.hpf_ramp, 0);
            for i in 0..LEVELS {
                let v = p.level(i).unwrap();
                assert!(-ONE <= v && v <= ONE);
            }
        }
    }
}

#[test]
fn coins_follow_their_recipe() {
    let all = many(SoundType::PickupCoin);
    for p in &all {
        assert_eq!(p.wave_type, WaveType::Square);
        assert!(400_000 <= p.base_freq && p.base_freq < 900_000);
        assert!(0 <= p.env_sustain && p.env_sustain < 100_000);
        assert!(100_000 <= p.env_decay && p.env_decay < 500_000);
        assert!(300_000 <= p.env_punch && p.env_punch < 600_000);
        if p.arp_speed == 0 {
            assert_eq!(p.arp_mod, 0);
        } else {
            assert!(500_000 <= p.arp_speed && p.arp_speed < 700_000);
            assert!(200_000 <= p.arp_mod && p.arp_mod < 600_000);
        }
        assert_eq!(p.lpf_freq, ONE);
        assert_eq!(p.repeat_speed, 0);
        assert_eq!(p.freq_ramp, 0);
    }
    let jumps = count(&all, |p| p.arp_speed != 0);
    assert!(200 < jumps && jumps < 400);
    assert!(count(&all, |p| p.base_freq > 650_000) > 100);
    assert!(count(&all, |p| p.base_freq < 650_000) > 100);
}

#[test]
fn shots_follow_their_recipe() {
    let all = many(SoundType::LaserShoot);
    for p in &all {
        assert_ne!(p.wave_type, WaveType::Noise);
        assert!(300_000 <= p.base_freq && p.base_freq < ONE);
        assert!(0 <= p.freq_limit && p.freq_limit < 800_000);
        assert!(-650_000 < p.freq_ramp && p.freq_ramp <= -150_000);
        assert!(0 <= p.duty && p.duty < 900_000);
        assert!(-700_000 < p.duty_ramp && p.duty_ramp < 200_000);
        assert!(100_000 <= p.env_sustain && p.env_sustain < 300_000);
        assert!(0 <= p.env_decay && p.env_decay < 400_000);
        assert!(0 <= p.env_punch && p.env_punch < 300_000);
        assert!(0 <= p.pha_offset && p.pha_offset < 200_000);
        assert!(-200_000 < p.pha_ramp && p.pha_ramp <= 0);
        assert!(0 <= p.hpf_freq && p.hpf_freq < 300_000);
    }
    let square = count(&all, |p| p.wave_type == WaveType::Square);
    let sawtooth = count(&all, |p| p.wave_type == WaveType::Sawtooth);
    let sine = count(&all, |p| p.wave_type == WaveType::Sine);
    assert!(180 < square && square < 320);
    assert!(180 < sawtooth && sawtooth < 320);
    assert!(50 < sine && sine < 150);
    assert!(count(&all, |p| p.env_decay > 200_000) > 200);
    assert!(count(&all, |p| p.env_decay < 200_000) > 200);
    let phased = count(&all, |p| p.pha_ramp != 0);
    assert!(120 < phased && phased < 280);
}

#[test]
fn explosions_follow_their_recipe() {
    let all = many(SoundType::Explosion);
    for p in &all {
        assert!(10_000 <= p.base_freq && p.base_freq < 810_000);
        assert!(-400_000 < p.freq_ramp && p.freq_ramp < 300_000);
        assert!(p.repeat_speed == 0 || (300_000 <= p.repeat_speed && p.repeat_speed < 800_000));
        assert!(100_000 <= p.env_sustain && p.env_sustain < 400_000);
        assert!(0 <= p.env_decay && p.env_decay < 500_000);
        assert!(-300_000 <= p.pha_offset && p.pha_offset < 600_000);
        assert!(-300_000 < p.pha_ramp && p.pha_ramp <= 0);
        assert!(200_000 <= p.env_punch && p.env_punch < 800_000);
        assert!(0 <= p.vib_strength && p.vib_strength < 700_000);
        assert!(0 <= p.vib_speed && p.vib_speed < 600_000);
        assert!(p.arp_speed == 0 || (600_000 <= p.arp_speed && p.arp_speed < 900_000));
        assert!(-800_000 < p.arp_mod && p.arp_mod <= 800_000);
    }
    let flat = count(&all, |p| p.freq_ramp == 0);
    assert!(90 < flat && flat < 220);
    let repeating = count(&all, |p| p.repeat_speed != 0);
    assert!(120 < repeating && repeating < 280);
    let jumping = count(&all, |p| p.arp_speed != 0);
    assert!(120 < jumping && jumping < 280);
}

#[test]
fn power_ups_follow_their_recipe() {
    let all = many(SoundType::PowerUp);
    for p in &all {
        assert!(p.wave_type == WaveType::Square || p.wave_type == WaveType::Sawtooth);
        if p.wave_type == WaveType::Sawtooth {
            assert_eq!(p.duty, 0);
        }
        assert!(0 <= p.duty && p.duty < 600_000);
        assert!(200_000 <= p.base_freq && p.base_freq < 500_000);
        assert!(0 <= p.env_sustain && p.env_sustain < 400_000);
        assert!(100_000 <= p.env_decay && p.env_decay < 500_000);
        if p.repeat_speed != 0 {
            assert!(400_000 <= p.repeat_speed && p.repeat_speed < 800_000);
            assert!(100_000 <= p.freq_ramp && p.freq_ramp < 500_000);
            assert_eq!(p.vib_strength, 0);
            assert_eq!(p.vib_speed, 0);
        } else {
            assert!(50_000 <= p.freq_ramp && p.freq_ramp < 250_000);
            assert!(0 <= p.vib_strength && p.vib_strength < 700_000);
            assert!(0 <= p.vib_speed && p.vib_speed < 600_000);
        }
    }
    let sawtooth = count(&all, |p| p.wave_type == WaveType::Sawtooth);
    assert!(220 < sawtooth && sawtooth < 380);
    let repeating = count(&all, |p| p.repeat_speed != 0);
    assert!(220 < repeating && repeating < 380);
    let wavering = count(&all, |p| p.vib_strength != 0);
    assert!(90 < wavering && wavering < 220);
}

#[test]
fn hits_follow_their_recipe() {
    let all = many(SoundType::HitHurt);
    for p in &all {
        assert_ne!(p.wave_type, WaveType::Sine);
        assert!(200_000 <= p.base_freq && p.base_freq < 800_000);
        assert!(-700_000 < p.freq_ramp && p.freq_ramp <= -300_000);
        assert!(0 <= p.env_sustain && p.env_sustain < 100_000);
        assert!(100_000 <= p.env_decay && p.env_decay < 300_000);
        assert!(0 <= p.duty && p.duty < 600_000);
        if p.wave_type != WaveType::Square {
            assert_eq!(p.duty, 0);
        }
        assert!(0 <= p.hpf_freq && p.hpf_freq < 300_000);
    }
    for wave in [WaveType::Square, WaveType::Sawtooth, WaveType::Noise] {
        let n = all.iter().filter(|p| p.wave_type == wave).count();
        assert!(140 < n && n < 260);
    }
}

#[test]
fn jumps_follow_their_recipe() {
    let all = many(SoundType::Jump);
    for p in &all {
        assert_eq!(p.wave_type, WaveType::Square);
        assert!(0 <= p.duty && p.duty < 600_000);
        assert!(300_000 <= p.base_freq && p.base_freq < 600_000);
        assert!(100_000 <= p.freq_ramp && p.freq_ramp < 300_000);
        assert!(100_000 <= p.env_sustain && p.env_sustain < 400_000);
        assert!(100_000 <= p.env_decay && p.env_decay < 300_000);
        assert!(0 <= p.hpf_freq && p.hpf_freq < 300_000);
        assert!(400_000 < p.lpf_freq && p.lpf_freq <= ONE);
    }
    let filtered = count(&all, |p| p.lpf_freq != ONE);
    assert!(220 < filtered && filtered < 380);
}

#[test]
fn blips_follow_their_recipe() {
    let all = many(SoundType::BlipSelect);
    for p in &all {
        assert!(p.wave_type == WaveType::Square || p.wave_type == WaveType::Sawtooth);
        assert!(200_000 <= p.base_freq && p.base_freq < 600_000);
        assert!(100_000 <= p.env_sustain && p.env_sustain < 200_000);
        assert!(0 <= p.env_decay && p.env_decay < 200_000);
        assert_eq!(p.hpf_freq, 100_000);
        assert!(0 <= p.duty && p.duty < 600_000);
        if p.wave_type == WaveType::Sawtooth {
            assert_eq!(p.duty, 0);
        }
    }
    let square = count(&all, |p| p.wave_type == WaveType::Square);
    assert!(220 < square && square < 380);
}

#[test]
fn randomized_vectors_stay_in_their_ranges() {
    let all = many(SoundType::Randomize);
    for p in &all {
        assert_eq!(p.freq_limit, 0);
        assert!(0 < p.lpf_freq && p.lpf_freq <= ONE);
        assert!(0 <= p.hpf_freq && p.hpf_freq < ONE);
        assert!(0 <= p.env_punch && p.env_punch < 640_000);
        for i in 0..LEVELS {
            let v = p.level(i).unwrap();
            assert!(-ONE <= v && v <= 1_500_000);
        }
        if p.base_freq > 700_000 {
            assert!(p.freq_ramp <= 200_000);
        }
        if p.base_freq < 200_000 {
            assert!(p.freq_ramp >= -50_000);
        }
        if p.lpf_freq < 100_000 {
            assert!(p.lpf_ramp >= -50_000);
        }
    }
    for wave in [WaveType::Square, WaveType::Sawtooth, WaveType::Sine, WaveType::Noise] {
        let n = all.iter().filter(|p| p.wave_type == wave).count();
        assert!(100 < n && n < 200);
    }
}

#[test]
fn randomize_is_the_randomize_archetype() {
    let mut a = SynthPreset::new(9);
    let mut b = SynthPreset::new(9);
    for _ in 0..10 {
        assert_eq!(a.randomize(), b.generate(SoundType::Randomize));
    }
}

#[test]
fn named_methods_are_their_archetypes() {
    let mut a = SynthPreset::new(10);
    let mut b = SynthPreset::new(10);
    assert_eq!(a.coin(), b.generate(SoundType::PickupCoin));
    assert_eq!(a.shoot(), b.generate(SoundType::LaserShoot));
    assert_eq!(a.explosion(), b.generate(SoundType::Explosion));
    assert_eq!(a.powerup(), b.generate(SoundType::PowerUp));
    assert_eq!(a.hit(), b.generate(SoundType::HitHurt));
    assert_eq!(a.jump(), b.generate(SoundType::Jump));
    assert_eq!(a.blip(), b.generate(SoundType::BlipSelect));
}

#[test]
fn frnd_draws_between_zero_and_the_range() {
    let mut preset = SynthPreset::new(4);
    let mut seen = Vec::new();
    for _ in 0..500 {
        let v = preset.frnd(10);
        assert!(0 <= v && v < 10);
        seen.push(v);
    }
    seen.sort();
    seen.dedup();
    assert_eq!(seen, vec![0, 1, 2, 3, 4, 5, 6, 7, 8, 9]);
    for _ in 0..500 {
        let v = preset.frnd(-10);
        assert!(-10 < v && v <= 0);
    }
    for _ in 0..10 {
        assert_eq!(preset.frnd(0), 0);
        assert_eq!(preset.frnd(1), 0);
        assert_eq!(preset.frnd(-1), 0);
    }
    let big = preset.frnd(i32::MAX);
    assert!(0 <= big && big < i32::MAX);
    let low = preset.frnd(i32::MIN);
    assert!(i32::MIN < low && low <= 0);
}

#[test]
fn mutation_moves_no_control_by_more_than_a_twentieth() {
    let mut preset = SynthPreset::new(8);
    let mut moved = 0;
    let mut spared = 0;
    let mut largest = 0;
    for _ in 0..200 {
        let before = preset.generate(SoundType::Randomize);
        let after = preset.mutate(before);
        assert_eq!(after.wave_type, before.wave_type);
        for i in 0..LEVELS {
            let shift = after.level(i).unwrap() - before.level(i).unwrap();
            assert!(-NUDGE <= shift && shift <= NUDGE);
            if shift == 0 {
                spared += 1;
            } else {
                moved += 1;
            }
            if shift.abs() > largest {
                largest = shift.abs();
            }
        }
    }
    assert!(1_900 < moved && moved < 2_500);
    assert!(1_900 < spared && spared < 2_500);
    assert!(largest > 49_000);
}
