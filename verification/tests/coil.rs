use parakeet_ptt::coil::{profile_bin, LevelHistory, PROFILE_BINS};
use parakeet_ptt::protocol::FloatBits;

fn level(value: f32) -> FloatBits {
    FloatBits { bits: value.to_bits() }
}

#[test]
fn non_finite_levels_are_ignored() {
    let mut history = LevelHistory::new();
    history.push(0, level(f32::NAN));
    history.push(10, level(f32::INFINITY));
    history.push(20, level(f32::NEG_INFINITY));
    assert_eq!(history.len(), 0);
    history.push(30, level(f32::MAX));
    history.push(40, level(-0.0));
    assert_eq!(history.len(), 2);
}

#[test]
fn history_forgets_old_samples() {
    let mut history = LevelHistory::new();
    history.push(0, level(-30.0));
    history.push(10_000, level(-60.0));
    assert_eq!(history.len(), 1);
    assert_eq!(history.sample(0), (10_000, level(-60.0)));
    history.clear();
    assert_eq!(history.len(), 0);
}

#[test]
fn bins_run_from_old_to_new() {
    assert_eq!(profile_bin(1_000, 3_000), Some(0));
    assert_eq!(profile_bin(1_049, 3_000), Some(0));
    assert_eq!(profile_bin(1_050, 3_000), Some(1));
    assert_eq!(profile_bin(3_000, 3_000), Some(PROFILE_BINS - 1));
    assert_eq!(profile_bin(999, 3_000), None);
    assert_eq!(profile_bin(3_001, 3_000), None);
    assert_eq!(profile_bin(0, 500), Some(0));
}
