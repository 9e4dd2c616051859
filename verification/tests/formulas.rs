use refexer::synth::params::ONE;
use refexer::synth::state::arpeggio_samples;
use refexer::synth::state::clock_samples;
use refexer::synth::state::delay_slots;
use refexer::synth::state::period_samples;
use refexer::synth::state::repeat_samples;
use refexer::synth::state::stage_samples;

#[test]
fn stage_length_is_the_square_times_a_hundred_thousand() {
    assert_eq!(stage_samples(0), 0);
    assert_eq!(stage_samples(300_000), 9_000);
    assert_eq!(stage_samples(400_000), 16_000);
    assert_eq!(stage_samples(ONE), 100_000);
    assert_eq!(stage_samples(-400_000), 16_000);
}

#[test]
fn stage_length_rounds_down() {
    assert_eq!(stage_samples(3_162), 0);
    assert_eq!(stage_samples(3_163), 1);
    assert_eq!(stage_samples(123_456), 1_524);
}

#[test]
fn stage_length_takes_any_level() {
    assert_eq!(stage_samples(i32::MAX), 461_168_601_413);
    assert_eq!(stage_samples(i32::MIN), 461_168_601_842);
}

#[test]
fn clock_limit_follows_its_formula() {
    assert_eq!(clock_samples(0), 20_032);
    assert_eq!(clock_samples(500_000), 5_032);
    assert_eq!(clock_samples(900_000), 232);
    assert_eq!(clock_samples(ONE), 32);
    assert_eq!(clock_samples(-ONE), 80_032);
}

#[test]
fn clock_limit_rounds_to_the_nearest() {
    assert_eq!(clock_samples(ONE - 4_999), 32);
    assert_eq!(clock_samples(ONE - 5_000), 33);
    assert_eq!(clock_samples(ONE + 5_000), 33);
    assert_eq!(clock_samples(ONE - 8_660), 33);
    assert_eq!(clock_samples(ONE - 8_661), 34);
}

#[test]
fn repeat_clock_is_off_at_speed_zero_only() {
    assert_eq!(repeat_samples(0), 0);
    assert_eq!(repeat_samples(1), 20_032);
    assert_eq!(repeat_samples(ONE), 32);
    assert_eq!(repeat_samples(700_000), 1_832);
    assert_eq!(repeat_samples(-1), 20_032);
}

#[test]
fn arpeggio_clock_is_off_at_speed_one_only() {
    assert_eq!(arpeggio_samples(ONE), 0);
    assert_eq!(arpeggio_samples(0), 20_032);
    assert_eq!(arpeggio_samples(ONE - 1), 32);
    assert_eq!(arpeggio_samples(600_000), 3_232);
}

#[test]
fn base_period_follows_its_formula() {
    assert_eq!(period_samples(300_000), 1_098);
    assert_eq!(period_samples(ONE), 99);
    assert_eq!(period_samples(0), 100_000);
    assert_eq!(period_samples(500_000), 398);
    assert_eq!(period_samples(-500_000), 398);
}

#[test]
fn base_period_is_never_under_eight() {
    assert_eq!(period_samples(3_500_000), 8);
    assert_eq!(period_samples(3_600_000), 8);
    assert_eq!(period_samples(i32::MAX), 8);
    assert_eq!(period_samples(i32::MIN), 8);
}

#[test]
fn phaser_delay_follows_its_formula() {
    assert_eq!(delay_slots(0), 0);
    assert_eq!(delay_slots(500_000), 255);
    assert_eq!(delay_slots(-500_000), 255);
    assert_eq!(delay_slots(ONE), 1_020);
    assert_eq!(delay_slots(100_000), 10);
}

#[test]
fn phaser_delay_stays_inside_the_ring() {
    assert_eq!(delay_slots(1_001_469), 1_022);
    assert_eq!(delay_slots(1_001_470), 1_023);
    assert_eq!(delay_slots(2_000_000), 1_023);
    assert_eq!(delay_slots(i32::MAX), 1_023);
    assert_eq!(delay_slots(i32::MIN), 1_023);
}
