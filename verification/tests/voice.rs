use refexer::synth::params::SynthParams;
use refexer::synth::params::WaveType;
use refexer::synth::params::ONE;
use refexer::synth::state::Drive;
use refexer::synth::state::SynthState;
use refexer::synth::state::OVERSAMPLING;
use refexer::synth::Cues;
use refexer::synth::Frame;
use refexer::synth::Gate;
use refexer::synth::Synth;
use refexer::synth::Tap;

fn steady(period: i32) -> Drive {
    Drive { period, clamped: false, delay: 0 }
}

fn one_sample(voice: &mut Synth, drive: Drive) -> Option<(Cues, Gate, Vec<Tap>)> {
    let cues = voice.begin_sample()?;
    let gate = voice.shape_sample(drive);
    let mut taps = Vec::new();
    for _ in 0..OVERSAMPLING {
        taps.push(voice.advance_phase());
    }
    Some((cues, gate, taps))
}

#[test]
fn a_new_voice_is_silent() {
    let mut voice = Synth::new(SynthParams::default(), 1);
    assert!(!voice.is_playing());
    assert_eq!(voice.state(), SynthState::default());
    assert_eq!(voice.params(), SynthParams::default());
    assert_eq!(voice.begin_sample(), None);
    assert_eq!(voice.state(), SynthState::default());
}

#[test]
fn idle_state_is_all_zero() {
    let s = SynthState::default();
    assert!(!s.playing_sample);
    assert_eq!(s.phase, 0);
    assert_eq!(s.period, 0);
    assert_eq!(s.rep_time, 0);
    assert_eq!(s.rep_limit, 0);
    assert_eq!(s.arp_time, 0);
    assert_eq!(s.arp_limit, 0);
    assert_eq!(s.env_stage, 0);
    assert_eq!(s.env_time, 0);
    assert_eq!(s.env_attack_len, 0);
    assert_eq!(s.env_sustain_len, 0);
    assert_eq!(s.env_decay_len, 0);
    assert_eq!(s.iphase, 0);
    assert_eq!(s.ipp, 0);
}

#[test]
fn a_voice_never_triggered_does_not_step() {
    let mut p = SynthParams::default();
    p.wave_type = WaveType::Noise;
    let mut voice = Synth::new(p, 1);
    for _ in 0..5 {
        let tap = voice.advance_phase();
        assert_eq!(tap, Tap { phase: 0, period: 0, wrapped: false, noise: 0, write: 0, read: 0 });
        assert_eq!(voice.state(), SynthState::default());
    }
}

#[test]
fn shaping_gives_a_voice_never_triggered_a_period() {
    let mut voice = Synth::new(SynthParams::default(), 1);
    voice.shape_sample(steady(0));
    assert_eq!(voice.state().period, 8);
    assert!(!voice.is_playing());
    let tap = voice.advance_phase();
    assert_eq!(tap.phase, 1);
    assert_eq!(tap.period, 8);
}

#[test]
fn every_trigger_gives_a_period_of_eight_or_more() {
    for base_freq in [i32::MIN, -ONE, 0, 1, ONE, 3_600_000, i32::MAX] {
        let mut p = SynthParams::default();
        p.base_freq = base_freq;
        let mut voice = Synth::new(p, 1);
        voice.play_sample();
        assert!(voice.state().period >= 8);
    }
}

#[test]
fn trigger_derives_the_state_from_the_parameters() {
    let mut voice = Synth::new(SynthParams::default(), 1);
    voice.play_sample();
    let s = voice.state();
    assert!(s.playing_sample);
    assert_eq!(s.phase, 0);
    assert_eq!(s.period, 1_098);
    assert_eq!(s.rep_time, 0);
    assert_eq!(s.rep_limit, 0);
    assert_eq!(s.arp_time, 0);
    assert_eq!(s.arp_limit, 20_032);
    assert_eq!(s.env_stage, 0);
    assert_eq!(s.env_time, 0);
    assert_eq!(s.env_attack_len, 0);
    assert_eq!(s.env_sustain_len, 9_000);
    assert_eq!(s.env_decay_len, 16_000);
    assert_eq!(s.iphase, 0);
    assert_eq!(s.ipp, 0);
}

#[test]
fn trigger_with_parameters_replaces_them() {
    let mut voice = Synth::new(SynthParams::default(), 1);
    let mut p = SynthParams::default();
    p.env_attack = 100_000;
    p.repeat_speed = 900_000;
    p.arp_speed = ONE;
    p.pha_offset = -500_000;
    p.base_freq = ONE;
    voice.trigger(p);
    assert_eq!(voice.params(), p);
    let s = voice.state();
    assert_eq!(s.env_attack_len, 1_000);
    assert_eq!(s.rep_limit, 232);
    assert_eq!(s.arp_limit, 0);
    assert_eq!(s.iphase, 255);
    assert_eq!(s.period, 99);
}

#[test]
fn reset_params_leaves_the_state_alone() {
    let mut p = SynthParams::default();
    p.wave_type = WaveType::Sine;
    p.env_sustain = 700_000;
    let mut voice = Synth::new(p, 1);
    voice.play_sample();
    let before = voice.state();
    voice.reset_params();
    assert_eq!(voice.params(), SynthParams::default());
    assert_eq!(voice.state(), before);
}

#[test]
fn set_params_leaves_the_state_alone() {
    let mut voice = Synth::new(SynthParams::default(), 1);
    voice.play_sample();
    let before = voice.state();
    let mut p = SynthParams::default();
    p.hpf_freq = 200_000;
    voice.set_params(p);
    assert_eq!(voice.params(), p);
    assert_eq!(voice.state(), before);
}

#[test]
fn first_sample_of_the_default_sound_is_in_the_high_half_of_the_square() {
    let mut voice = Synth::new(SynthParams::default(), 1);
    voice.trigger(SynthParams::default());
    let (cues, gate, taps) = one_sample(&mut voice, steady(1_098)).unwrap();
    assert_eq!(cues, Cues { restart: false, arpeggio: false });
    assert_eq!(gate, Gate { stage: 1, time: 0, length: 9_000 });
    assert_eq!(taps.len(), 8);
    for (k, tap) in taps.iter().enumerate() {
        assert_eq!(tap.phase, k as i32 + 1);
        assert_eq!(tap.period, 1_098);
        assert!(!tap.wrapped);
        assert!(2 * tap.phase < tap.period);
        assert_eq!(tap.write, k);
        assert_eq!(tap.read, k);
    }
    assert!(voice.is_playing());
}

#[test]
fn default_sound_ends_with_its_envelope() {
    let mut voice = Synth::new(SynthParams::default(), 1);
    voice.play_sample();
    let mut samples: u64 = 0;
    let mut last_stage = 0;
    while let Some((_, gate, _)) = one_sample(&mut voice, steady(1_098)) {
        samples += 1;
        assert!(gate.stage >= last_stage);
        last_stage = gate.stage;
        assert!(samples <= 25_003);
    }
    assert_eq!(samples, 25_003);
    assert_eq!(last_stage, 3);
    assert!(!voice.is_playing());
    let end = voice.state();
    for _ in 0..10 {
        assert_eq!(voice.begin_sample(), None);
        assert_eq!(voice.state(), end);
    }
}

#[test]
fn envelope_walks_through_its_stages() {
    let mut p = SynthParams::default();
    p.env_attack = 10_000;
    p.env_sustain = 10_000;
    p.env_decay = 10_000;
    let mut voice = Synth::new(p, 1);
    voice.play_sample();
    let mut gates = Vec::new();
    while voice.begin_sample().is_some() {
        gates.push(voice.shape_sample(steady(100)));
    }
    let mut expected = Vec::new();
    for time in 1..=10 {
        expected.push(Gate { stage: 0, time, length: 10 });
    }
    for time in 0..=10 {
        expected.push(Gate { stage: 1, time, length: 10 });
    }
    for time in 0..=10 {
        expected.push(Gate { stage: 2, time, length: 10 });
    }
    expected.push(Gate { stage: 3, time: 0, length: 0 });
    assert_eq!(gates, expected);
}

#[test]
fn repeat_restarts_the_phase_and_spares_the_envelope() {
    let mut p = SynthParams::default();
    p.repeat_speed = 900_000;
    p.env_sustain = ONE;
    let mut voice = Synth::new(p, 1);
    voice.play_sample();
    assert_eq!(voice.state().rep_limit, 232);
    let mut restarts = Vec::new();
    for n in 1..=700u64 {
        let before = voice.state();
        let cues = voice.begin_sample().unwrap();
        let after = voice.state();
        if cues.restart {
            restarts.push(n);
            assert_eq!(after.phase, 0);
            assert_eq!(after.rep_time, 0);
        } else {
            assert_eq!(after.phase, before.phase);
            assert_eq!(after.rep_time, n % 232);
        }
        assert_eq!(after.env_stage, before.env_stage);
        assert_eq!(after.env_time, before.env_time);
        assert_eq!(after.ipp, before.ipp);
        assert_eq!(after.iphase, before.iphase);
        assert_eq!(after.playing_sample, before.playing_sample);
        let gate = voice.shape_sample(steady(50));
        assert_eq!(gate, Gate { stage: 1, time: n - 1, length: 100_000 });
        for _ in 0..OVERSAMPLING {
            voice.advance_phase();
        }
    }
    assert_eq!(restarts, vec![232, 464, 696]);
}

#[test]
fn without_repeat_speed_nothing_restarts() {
    let mut voice = Synth::new(SynthParams::default(), 1);
    voice.play_sample();
    while let Some(cues) = voice.begin_sample() {
        assert!(!cues.restart);
        assert_eq!(voice.state().rep_time, 0);
        voice.shape_sample(steady(1_098));
    }
}

#[test]
fn arpeggio_fires_once() {
    let mut p = SynthParams::default();
    p.arp_speed = 900_000;
    p.env_sustain = ONE;
    let mut voice = Synth::new(p, 1);
    voice.play_sample();
    let mut fired = Vec::new();
    for n in 1..=2_000u64 {
        let cues = voice.begin_sample().unwrap();
        if cues.arpeggio {
            fired.push(n);
            assert_eq!(voice.state().arp_limit, 0);
        }
        voice.shape_sample(steady(50));
    }
    assert_eq!(fired, vec![232]);
}

#[test]
fn restart_arms_the_arpeggio_again() {
    let mut p = SynthParams::default();
    p.arp_speed = 900_000;
    p.repeat_speed = 800_000;
    p.env_sustain = ONE;
    let mut voice = Synth::new(p, 1);
    voice.play_sample();
    assert_eq!(voice.state().rep_limit, 832);
    let mut fired = Vec::new();
    let mut restarts = Vec::new();
    for n in 1..=2_000u64 {
        let cues = voice.begin_sample().unwrap();
        if cues.restart {
            restarts.push(n);
            assert_eq!(voice.state().arp_limit, 232);
        }
        if cues.arpeggio {
            fired.push(n);
        }
        voice.shape_sample(steady(50));
    }
    assert_eq!(restarts, vec![832, 1_664]);
    assert_eq!(fired, vec![232, 832 + 231, 1_664 + 231]);
}

#[test]
fn restart_takes_the_clock_limits_from_the_current_parameters() {
    let mut p = SynthParams::default();
    p.repeat_speed = ONE;
    p.env_sustain = ONE;
    let mut voice = Synth::new(p, 1);
    voice.play_sample();
    assert_eq!(voice.state().rep_limit, 32);
    p.repeat_speed = 0;
    voice.set_params(p);
    let mut restarts = 0;
    for _ in 0..200 {
        if voice.begin_sample().unwrap().restart {
            restarts += 1;
        }
        voice.shape_sample(steady(50));
    }
    assert_eq!(restarts, 1);
    assert_eq!(voice.state().rep_limit, 0);
}

#[test]
fn a_cut_period_stops_a_voice_with_a_frequency_limit() {
    let mut p = SynthParams::default();
    p.freq_limit = 1;
    let mut voice = Synth::new(p, 1);
    voice.play_sample();
    assert!(voice.begin_sample().is_some());
    voice.shape_sample(steady(500));
    assert!(voice.is_playing());
    assert!(voice.begin_sample().is_some());
    let gate = voice.shape_sample(Drive { period: 500, clamped: true, delay: 0 });
    assert_eq!(gate, Gate { stage: 1, time: 1, length: 9_000 });
    assert!(!voice.is_playing());
    assert_eq!(voice.begin_sample(), None);
}

#[test]
fn a_cut_period_goes_on_without_a_frequency_limit() {
    let mut p = SynthParams::default();
    p.freq_limit = 0;
    let mut voice = Synth::new(p, 1);
    voice.play_sample();
    for _ in 0..50 {
        assert!(voice.begin_sample().is_some());
        voice.shape_sample(Drive { period: 500, clamped: true, delay: 0 });
    }
    assert!(voice.is_playing());
    p.freq_limit = -1;
    voice.trigger(p);
    assert!(voice.begin_sample().is_some());
    voice.shape_sample(Drive { period: 500, clamped: true, delay: 0 });
    assert!(voice.is_playing());
}

#[test]
fn period_is_floored_at_eight() {
    let mut voice = Synth::new(SynthParams::default(), 1);
    voice.play_sample();
    for raw in [7, 0, -5, i32::MIN] {
        voice.begin_sample();
        voice.shape_sample(steady(raw));
        assert_eq!(voice.state().period, 8);
    }
    voice.begin_sample();
    voice.shape_sample(steady(8));
    assert_eq!(voice.state().period, 8);
    voice.begin_sample();
    voice.shape_sample(steady(9));
    assert_eq!(voice.state().period, 9);
    voice.begin_sample();
    voice.shape_sample(steady(i32::MAX));
    assert_eq!(voice.state().period, i32::MAX);
}

#[test]
fn phase_wraps_at_the_period() {
    let mut voice = Synth::new(SynthParams::default(), 1);
    voice.play_sample();
    voice.begin_sample();
    voice.shape_sample(steady(8));
    let mut phases = Vec::new();
    let mut wraps = Vec::new();
    for _ in 0..20 {
        let tap = voice.advance_phase();
        phases.push(tap.phase);
        wraps.push(tap.wrapped);
        assert_eq!(tap.period, 8);
    }
    assert_eq!(phases, vec![1, 2, 3, 4, 5, 6, 7, 0, 1, 2, 3, 4, 5, 6, 7, 0, 1, 2, 3, 4]);
    let expected: Vec<bool> = (1..=20).map(|k| k % 8 == 0).collect();
    assert_eq!(wraps, expected);
}

#[test]
fn a_phase_beyond_a_shrunken_period_is_reduced() {
    let mut voice = Synth::new(SynthParams::default(), 1);
    voice.play_sample();
    voice.begin_sample();
    voice.shape_sample(steady(1_000));
    for _ in 0..100 {
        voice.advance_phase();
    }
    assert_eq!(voice.state().phase, 100);
    voice.begin_sample();
    voice.shape_sample(steady(8));
    let tap = voice.advance_phase();
    assert!(tap.wrapped);
    assert_eq!(tap.phase, 101 % 8);
}

#[test]
fn phaser_delay_is_the_bounded_magnitude_of_the_offset() {
    let mut voice = Synth::new(SynthParams::default(), 1);
    voice.play_sample();
    for (raw, slots) in [(0, 0), (5, 5), (-5, 5), (1_023, 1_023), (1_024, 1_023), (-1_024, 1_023), (i32::MAX, 1_023), (i32::MIN, 1_023)] {
        voice.begin_sample();
        voice.shape_sample(Drive { period: 100, clamped: false, delay: raw });
        assert_eq!(voice.state().iphase, slots);
    }
}

#[test]
fn ring_cursor_turns_round_and_the_read_slot_trails_it() {
    let mut voice = Synth::new(SynthParams::default(), 1);
    voice.play_sample();
    voice.begin_sample();
    voice.shape_sample(Drive { period: 100, clamped: false, delay: -3 });
    for k in 0..2_100usize {
        let tap = voice.advance_phase();
        assert_eq!(tap.write, k % 1_024);
        assert_eq!(tap.read, (k + 1_024 - 3) % 1_024);
    }
}

#[test]
fn noise_stays_in_range_and_changes_when_the_period_turns() {
    let mut p = SynthParams::default();
    p.wave_type = WaveType::Noise;
    let mut voice = Synth::new(p, 11);
    voice.play_sample();
    voice.begin_sample();
    voice.shape_sample(steady(64));
    let mut first = Vec::new();
    for _ in 0..63 {
        let tap = voice.advance_phase();
        assert!(-ONE <= tap.noise && tap.noise <= ONE);
        first.push(tap.noise);
    }
    assert_eq!(first[1], first[2]);
    assert_eq!(first[3], first[4]);
    let mut distinct = first.clone();
    distinct.sort();
    distinct.dedup();
    assert!(distinct.len() > 16);
    let turn = voice.advance_phase();
    assert!(turn.wrapped);
    let mut second = vec![turn.noise];
    for _ in 0..63 {
        let tap = voice.advance_phase();
        assert!(-ONE <= tap.noise && tap.noise <= ONE);
        second.push(tap.noise);
    }
    assert_eq!(second[0], second[1]);
    assert_ne!(first[1..], second[2..]);
}

#[test]
fn other_waves_keep_their_noise_table() {
    let mut voice = Synth::new(SynthParams::default(), 11);
    voice.play_sample();
    voice.begin_sample();
    voice.shape_sample(steady(32));
    let mut first = Vec::new();
    for _ in 0..32 {
        first.push(voice.advance_phase().noise);
    }
    let mut second = Vec::new();
    for _ in 0..32 {
        second.push(voice.advance_phase().noise);
    }
    assert_eq!(first, second);
    let mut distinct = first.clone();
    distinct.sort();
    distinct.dedup();
    assert!(distinct.len() > 16);
}

#[test]
fn the_same_seed_makes_the_same_noise() {
    let mut p = SynthParams::default();
    p.wave_type = WaveType::Noise;
    let mut a = Synth::new(p, 5);
    let mut b = Synth::new(p, 5);
    let mut c = Synth::new(p, 6);
    a.play_sample();
    b.play_sample();
    c.play_sample();
    let mut same = true;
    for _ in 0..100 {
        let x = one_sample(&mut a, steady(16)).unwrap();
        let y = one_sample(&mut b, steady(16)).unwrap();
        let z = one_sample(&mut c, steady(16)).unwrap();
        assert_eq!(x, y);
        if x != z {
            same = false;
        }
    }
    assert!(!same);
}

#[test]
fn low_pass_is_bypassed_at_cutoff_one_only() {
    let mut p = SynthParams::default();
    assert!(Synth::new(p, 1).lowpass_bypassed());
    p.lpf_freq = ONE - 1;
    assert!(!Synth::new(p, 1).lowpass_bypassed());
    p.lpf_freq = ONE + 1;
    assert!(!Synth::new(p, 1).lowpass_bypassed());
    p.lpf_freq = 0;
    assert!(!Synth::new(p, 1).lowpass_bypassed());
}

#[test]
fn shaping_an_ended_envelope_changes_no_stage() {
    let mut p = SynthParams::default();
    p.env_sustain = 0;
    p.env_decay = 0;
    let mut voice = Synth::new(p, 1);
    voice.play_sample();
    let mut samples = 0;
    while voice.begin_sample().is_some() {
        voice.shape_sample(steady(100));
        samples += 1;
    }
    assert_eq!(samples, 3);
    let gate = voice.shape_sample(steady(100));
    assert_eq!(gate, Gate { stage: 3, time: 0, length: 0 });
    assert!(!voice.is_playing());
}

#[test]
fn cues_look_ahead_without_moving_the_clocks() {
    let mut p = SynthParams::default();
    p.repeat_speed = ONE;
    p.arp_speed = ONE - 1;
    p.env_sustain = ONE;
    let mut voice = Synth::new(p, 1);
    assert_eq!(voice.cues(), None);
    voice.play_sample();
    for _ in 0..200 {
        let before = voice.state();
        let ahead = voice.cues();
        assert_eq!(voice.state(), before);
        assert_eq!(voice.begin_sample(), ahead);
        voice.shape_sample(steady(40));
    }
}

#[test]
fn a_restart_puts_off_the_jump_of_an_equal_clock() {
    let mut p = SynthParams::default();
    p.repeat_speed = ONE;
    p.arp_speed = ONE - 1;
    p.env_sustain = ONE;
    let mut voice = Synth::new(p, 1);
    voice.play_sample();
    let mut restarts = Vec::new();
    let mut jumps = Vec::new();
    for n in 1..=100 {
        let cues = voice.begin_sample().unwrap();
        if cues.restart {
            restarts.push(n);
        }
        if cues.arpeggio {
            jumps.push(n);
        }
        voice.shape_sample(steady(40));
    }
    assert_eq!(restarts, vec![32, 64, 96]);
    assert_eq!(jumps, vec![63, 95]);
}

#[test]
fn a_whole_sample_is_its_three_moves() {
    let mut p = SynthParams::default();
    p.wave_type = WaveType::Noise;
    p.repeat_speed = 950_000;
    p.arp_speed = 900_000;
    p.env_sustain = 50_000;
    p.env_decay = 50_000;
    let mut whole = Synth::new(p, 77);
    let mut parts = Synth::new(p, 77);
    whole.play_sample();
    parts.play_sample();
    let mut samples = 0;
    loop {
        let drive = Drive { period: 8 + samples % 50, clamped: false, delay: samples - 300 };
        let ahead = whole.cues();
        let frame = whole.synth_sample(drive);
        match one_sample(&mut parts, drive) {
            Some((cues, gate, taps)) => {
                let frame = frame.unwrap();
                assert_eq!(ahead, Some(cues));
                assert_eq!(frame.cues, cues);
                assert_eq!(frame.gate, gate);
                assert_eq!(frame.taps.to_vec(), taps);
            }
            None => {
                assert_eq!(frame, None);
                assert_eq!(ahead, None);
                break;
            }
        }
        assert_eq!(whole.state(), parts.state());
        samples += 1;
    }
    assert_eq!(samples, 250 + 250 + 3);
}

#[test]
fn a_stopped_voice_makes_no_frame() {
    let mut voice = Synth::new(SynthParams::default(), 1);
    let silent: Option<Frame> = voice.synth_sample(steady(100));
    assert_eq!(silent, None);
    assert_eq!(voice.state(), SynthState::default());
}

#[test]
fn frames_of_the_default_sound_end_after_its_envelope() {
    let mut voice = Synth::new(SynthParams::default(), 1);
    voice.trigger(SynthParams::default());
    let mut frames = 0;
    while let Some(frame) = voice.synth_sample(steady(1_098)) {
        frames += 1;
        assert_eq!(frame.taps.len(), OVERSAMPLING);
        for tap in frame.taps.iter() {
            assert!(0 <= tap.phase && tap.phase < tap.period);
            assert!(tap.write < 1_024 && tap.read < 1_024);
        }
    }
    assert_eq!(frames, 25_003);
    assert_eq!(voice.state().phase, (25_003 * 8) % 1_098);
}
