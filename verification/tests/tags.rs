use refexer::synth::presets::SoundType;
use refexer::synth::presets::UnknownTag;

#[test]
fn every_alias_names_its_archetype() {
    assert_eq!(SoundType::from_tag("coin"), Ok(SoundType::PickupCoin));
    assert_eq!(SoundType::from_tag("pickup"), Ok(SoundType::PickupCoin));
    assert_eq!(SoundType::from_tag("shoot"), Ok(SoundType::LaserShoot));
    assert_eq!(SoundType::from_tag("laser"), Ok(SoundType::LaserShoot));
    assert_eq!(SoundType::from_tag("explosion"), Ok(SoundType::Explosion));
    assert_eq!(SoundType::from_tag("powerup"), Ok(SoundType::PowerUp));
    assert_eq!(SoundType::from_tag("hit"), Ok(SoundType::HitHurt));
    assert_eq!(SoundType::from_tag("hurt"), Ok(SoundType::HitHurt));
    assert_eq!(SoundType::from_tag("jump"), Ok(SoundType::Jump));
    assert_eq!(SoundType::from_tag("blip"), Ok(SoundType::BlipSelect));
    assert_eq!(SoundType::from_tag("select"), Ok(SoundType::BlipSelect));
    assert_eq!(SoundType::from_tag("randomize"), Ok(SoundType::Randomize));
}

#[test]
fn aliases_ignore_case() {
    assert_eq!(SoundType::from_tag("COIN"), Ok(SoundType::PickupCoin));
    assert_eq!(SoundType::from_tag("Laser"), Ok(SoundType::LaserShoot));
    assert_eq!(SoundType::from_tag("eXpLoSiOn"), Ok(SoundType::Explosion));
    assert_eq!(SoundType::from_tag("PowerUp"), Ok(SoundType::PowerUp));
    assert_eq!(SoundType::from_tag("RANDOMIZE"), Ok(SoundType::Randomize));
}

#[test]
fn other_text_is_an_error() {
    assert_eq!(SoundType::from_tag(""), Err(UnknownTag));
    assert_eq!(SoundType::from_tag("coins"), Err(UnknownTag));
    assert_eq!(SoundType::from_tag("coi"), Err(UnknownTag));
    assert_eq!(SoundType::from_tag(" coin"), Err(UnknownTag));
    assert_eq!(SoundType::from_tag("power-up"), Err(UnknownTag));
    assert_eq!(SoundType::from_tag("explosions"), Err(UnknownTag));
    assert_eq!(SoundType::from_tag("a very long name that stands for nothing"), Err(UnknownTag));
}

#[test]
fn only_ascii_letters_are_folded() {
    assert_eq!(SoundType::from_tag("pic\u{212A}up"), Err(UnknownTag));
    assert_eq!(SoundType::from_tag("j\u{fc}mp"), Err(UnknownTag));
    assert_eq!(SoundType::from_tag("[UMP"), Err(UnknownTag));
    assert_eq!(SoundType::from_tag("@OIN"), Err(UnknownTag));
}

#[test]
fn unknown_tag_has_a_message() {
    assert_eq!(UnknownTag.message(), "unrecognized sound type");
}

#[test]
fn default_archetype_is_the_coin() {
    assert_eq!(SoundType::default(), SoundType::PickupCoin);
}
