//! Unit animation clip vocabulary and the clip classifier.
use vstd::prelude::*;

use crate::mesh::ModelKind;
use crate::tokens::{hull_turret, token_model, weapon_model, Army};

verus! {

/// Which locomotion / action clip a unit is playing. Stored on a render instance as a `u32`
/// discriminant ([`AnimClip::as_u32`] / [`AnimClip::from_u32`]).
#[derive(Clone, Copy, Debug, PartialEq, Eq)]
pub enum AnimClip {
    /// Standing still and alive.
    Idle,
    /// Moving over the ground faster than the walk threshold.
    Walk,
    /// Discharging its weapon this tick (overrides locomotion).
    Fire,
    /// Not alive (overrides everything).
    Death,
}

/// The stable `u32` discriminant of a clip.
pub open spec fn clip_code(c: AnimClip) -> u32 {
    match c {
        AnimClip::Idle => 0,
        AnimClip::Walk => 1,
        AnimClip::Fire => 2,
        AnimClip::Death => 3,
    }
}

/// The clip a stored discriminant decodes to: codes `1..=3` name their clip, anything else is
/// the default `Idle`.
pub open spec fn clip_of_code(v: u32) -> AnimClip {
    if v == 1 {
        AnimClip::Walk
    } else if v == 2 {
        AnimClip::Fire
    } else if v == 3 {
        AnimClip::Death
    } else {
        AnimClip::Idle
    }
}

impl AnimClip {
    /// Stable discriminant stored on a render instance.
    pub fn as_u32(self) -> (r: u32)
        ensures
            r == clip_code(self),
    {
        match self {
            AnimClip::Idle => 0,
            AnimClip::Walk => 1,
            AnimClip::Fire => 2,
            AnimClip::Death => 3,
        }
    }

    /// Inverse of [`AnimClip::as_u32`]; an out-of-range value falls back to `Idle`.
    pub fn from_u32(v: u32) -> (r: AnimClip)
        ensures
            r == clip_of_code(v),
    {
        match v {
            1 => AnimClip::Walk,
            2 => AnimClip::Fire,
            3 => AnimClip::Death,
            _ => AnimClip::Idle,
        }
    }
}

impl Default for AnimClip {
    fn default() -> (r: AnimClip)
        ensures
            r == AnimClip::Idle,
    {
        AnimClip::Idle
    }
}

/// The clip a unit plays: death (not alive) overrides firing, which overrides walking (moving
/// faster than the walk threshold), which overrides idling.
pub open spec fn clip_for(alive: bool, firing: bool, moving: bool) -> AnimClip {
    if !alive {
        AnimClip::Death
    } else if firing {
        AnimClip::Fire
    } else if moving {
        AnimClip::Walk
    } else {
        AnimClip::Idle
    }
}

/// Pick the clip for a unit's presentation state. `moving` is whether its ground speed this
/// tick exceeds the walk threshold. The single place the priority order lives.
pub fn select_clip_for(alive: bool, firing: bool, moving: bool) -> (r: AnimClip)
    ensures
        r == clip_for(alive, firing, moving),
{
    if !alive {
        return AnimClip::Death;
    }
    if firing {
        return AnimClip::Fire;
    }
    if moving {
        AnimClip::Walk
    } else {
        AnimClip::Idle
    }
}

/// Whether a model is an infantry trooper, the only bodies that play the procedural locomotion
/// pose (a bob on a tank or building reads as a bug).
pub open spec fn is_infantry_model(kind: ModelKind) -> bool {
    kind == ModelKind::Trooper || kind == ModelKind::TrooperUs || kind == ModelKind::TrooperFr
}

/// Only infantry troopers (shared and faction silhouettes) animate.
pub fn is_infantry(kind: ModelKind) -> (r: bool)
    ensures
        r == is_infantry_model(kind),
{
    match kind {
        ModelKind::Trooper | ModelKind::TrooperUs | ModelKind::TrooperFr => true,
        _ => false,
    }
}

/// The priority order of the clip classifier: a dead unit plays death whatever else holds, a
/// live firing unit plays fire whether or not it moves, and only a live, quiet unit's motion
/// decides between walk and idle.
pub proof fn lemma_clip_priority(alive: bool, firing: bool, moving: bool)
    ensures
        !alive ==> clip_for(alive, firing, moving) == AnimClip::Death,
        alive && firing ==> clip_for(alive, firing, moving) == AnimClip::Fire,
        alive && !firing ==> (clip_for(alive, firing, moving) == AnimClip::Walk <==> moving),
        clip_for(alive, firing, moving) == AnimClip::Death <==> !alive,
{
}

/// Decoding a stored discriminant gives back the clip that wrote it.
pub proof fn lemma_clip_code_round_trip(c: AnimClip)
    ensures
        clip_of_code(clip_code(c)) == c,
{
}

/// The locomotion pose goes exactly to foot soldiers: a token's body is infantry iff the token is
/// a unit (not a building) on foot (not a tank chassis), whatever its army.
pub proof fn lemma_infantry_are_the_foot_soldiers(army: Army, building: bool, tank_chassis: bool)
    ensures
        is_infantry_model(token_model(army, building, tank_chassis)) <==> !building && !tank_chassis,
{
}

/// Every infantry model is some army's foot-soldier silhouette; no tank hull, turret or weapon
/// is infantry.
pub proof fn lemma_infantry_models_are_foot_silhouettes(kind: ModelKind)
    ensures
        is_infantry_model(kind) ==> exists|army: Army| kind == token_model(army, false, false),
        hull_turret(kind) is Some ==> !is_infantry_model(kind),
        forall|hull: ModelKind| hull_turret(hull) == Some(kind) ==> !is_infantry_model(kind),
        forall|army: Army| kind == #[trigger] weapon_model(army) ==> !is_infantry_model(kind),
{
    if is_infantry_model(kind) {
        if kind == ModelKind::Trooper {
            assert(kind == token_model(Army::Neutral, false, false));
        } else if kind == ModelKind::TrooperUs {
            assert(kind == token_model(Army::Us, false, false));
        } else {
            assert(kind == token_model(Army::Fr, false, false));
        }
    }
}

} // verus!
