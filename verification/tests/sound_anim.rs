//! The sound-id mapping, the thermal default, and the animation clip vocabulary.
use gonedark::anim::{is_infantry, select_clip_for, AnimClip};
use gonedark::fade::fade_age;
use gonedark::mesh::ModelKind;
use gonedark::mix::{oneshot_sound, push_survivors, MAX_VOICES};
use gonedark::platform::{SoundId, ThermalState};

#[test]
fn oneshot_sound_maps_ids() {
    assert_eq!(oneshot_sound(1), SoundId::UnitDown);
    assert_eq!(oneshot_sound(2), SoundId::BaseHit);
    assert_eq!(oneshot_sound(3), SoundId::Capture);
    assert_eq!(oneshot_sound(4), SoundId::ProductionReady);
    assert_eq!(oneshot_sound(5), SoundId::HitConfirm);
    assert_eq!(oneshot_sound(0), SoundId::Gunfire);
    assert_eq!(oneshot_sound(99), SoundId::Gunfire);
}

#[test]
fn thermal_state_defaults_to_nominal_and_voice_cap_is_shared() {
    assert_eq!(ThermalState::default(), ThermalState::Nominal);
    assert_eq!(MAX_VOICES, 24);
}

#[test]
fn clip_u32_round_trips_and_defaults_to_idle() {
    for c in [
        AnimClip::Idle,
        AnimClip::Walk,
        AnimClip::Fire,
        AnimClip::Death,
    ] {
        assert_eq!(AnimClip::from_u32(c.as_u32()), c);
    }
    assert_eq!(AnimClip::from_u32(999), AnimClip::Idle); // out-of-range → default
    assert_eq!(AnimClip::default(), AnimClip::Idle);
}

#[test]
fn clip_discriminants_are_stable() {
    assert_eq!(AnimClip::Idle.as_u32(), 0);
    assert_eq!(AnimClip::Walk.as_u32(), 1);
    assert_eq!(AnimClip::Fire.as_u32(), 2);
    assert_eq!(AnimClip::Death.as_u32(), 3);
    assert_eq!(AnimClip::from_u32(4), AnimClip::Idle);
}

#[test]
fn clip_priority_death_then_fire_then_walk() {
    assert_eq!(select_clip_for(true, false, false), AnimClip::Idle);
    assert_eq!(select_clip_for(true, false, true), AnimClip::Walk);
    assert_eq!(select_clip_for(true, true, true), AnimClip::Fire);
    assert_eq!(select_clip_for(true, true, false), AnimClip::Fire);
    assert_eq!(select_clip_for(false, true, true), AnimClip::Death);
    assert_eq!(select_clip_for(false, false, false), AnimClip::Death);
}

#[test]
fn only_troopers_are_infantry() {
    assert!(is_infantry(ModelKind::Trooper));
    assert!(is_infantry(ModelKind::TrooperUs));
    assert!(is_infantry(ModelKind::TrooperFr));
    assert!(!is_infantry(ModelKind::Tank));
    assert!(!is_infantry(ModelKind::TankTurret));
    assert!(!is_infantry(ModelKind::CampHq));
    assert!(!is_infantry(ModelKind::Crate));
}

#[test]
fn fade_age_is_live_only_inside_the_window() {
    const DUR: u64 = 8;
    assert_eq!(fade_age(None, 100, DUR), None);
    assert_eq!(fade_age(Some(50), 50, DUR), Some(0));
    assert_eq!(fade_age(Some(0), DUR / 2, DUR), Some(4));
    assert_eq!(fade_age(Some(0), DUR - 1, DUR), Some(7));
    assert_eq!(fade_age(Some(0), DUR, DUR), None);
    assert_eq!(fade_age(Some(0), DUR + 100, DUR), None);
    assert_eq!(fade_age(Some(100), 50, DUR), None);
    assert_eq!(fade_age(Some(50), 50, 0), None);
}

/// Simulate a voice queue by its finished flags: keep the survivors, then append the new voice.
fn push_flag(queue: &mut Vec<bool>, new_finished: bool) {
    let keep = push_survivors(queue);
    let next: Vec<bool> = keep.iter().map(|&i| queue[i]).collect();
    *queue = next;
    queue.push(new_finished);
}

#[test]
fn push_survivors_keep_the_queue_within_the_cap() {
    let mut q = Vec::new();
    for _ in 0..(MAX_VOICES * 3) {
        push_flag(&mut q, false);
        assert!(q.len() <= MAX_VOICES, "len {} exceeded cap", q.len());
    }
    assert_eq!(q.len(), MAX_VOICES);
}

#[test]
fn push_survivors_prune_finished_before_dropping_the_oldest() {
    let mut q = vec![true; MAX_VOICES];
    q[3] = false;
    q[7] = false;
    assert_eq!(push_survivors(&q), vec![3, 7]);
    let all_done = vec![true; MAX_VOICES];
    assert_eq!(push_survivors(&all_done), Vec::<usize>::new());
}

#[test]
fn push_survivors_drop_only_the_oldest_of_a_full_live_queue() {
    let q = vec![false; MAX_VOICES];
    let expect: Vec<usize> = (1..MAX_VOICES).collect();
    assert_eq!(push_survivors(&q), expect);
}

#[test]
fn push_survivors_keep_everything_below_the_cap() {
    let q = vec![true, false, true];
    assert_eq!(push_survivors(&q), vec![0, 1, 2]);
    assert_eq!(push_survivors(&Vec::new()), Vec::<usize>::new());
}
