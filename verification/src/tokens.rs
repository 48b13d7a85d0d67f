//! Which committed mesh draws a unit token: the army selects the silhouette (US, French, or the
//! shared greybox for non-aligned scenes), the archetype selects infantry vs tank chassis, and a
//! tank hull carries the turret of its own army; and which mesh parts, turning by which heading,
//! compose a drawn token.
use vstd::prelude::*;

use crate::mesh::{lemma_model_index_injective, model_index, ModelKind};

verus! {

/// A side's cosmetic identity. Presentation only: it picks silhouettes and names, never stats.
#[derive(Clone, Copy, PartialEq, Eq, Debug, Hash, Structural)]
pub enum Army {
    /// United States Army.
    Us,
    /// French Army.
    Fr,
    /// Non-aligned (legacy and debug scenes that never select an army).
    Neutral,
}

impl Army {
    /// Every army.
    pub const ALL: [Army; 3] = [Army::Us, Army::Fr, Army::Neutral];
}

/// The body mesh of a token: a building is the camp structure whatever its army; a unit is its
/// army's tank silhouette when it rides a tank chassis, else its army's infantry silhouette.
pub open spec fn token_model(army: Army, building: bool, tank_chassis: bool) -> ModelKind {
    if building {
        ModelKind::CampHq
    } else {
        match (army, tank_chassis) {
            (Army::Us, true) => ModelKind::TankUs,
            (Army::Us, false) => ModelKind::TrooperUs,
            (Army::Fr, true) => ModelKind::TankFr,
            (Army::Fr, false) => ModelKind::TrooperFr,
            (Army::Neutral, true) => ModelKind::Tank,
            (Army::Neutral, false) => ModelKind::Trooper,
        }
    }
}

/// The first-person weapon mesh of an army.
pub open spec fn weapon_model(army: Army) -> ModelKind {
    match army {
        Army::Us => ModelKind::WeaponRifleUs,
        Army::Fr => ModelKind::WeaponRifleFr,
        Army::Neutral => ModelKind::WeaponRifle,
    }
}

/// The independently slewing turret seated on a hull: every tank hull pairs with its own army's
/// turret; other bodies have none.
pub open spec fn hull_turret(hull: ModelKind) -> Option<ModelKind> {
    match hull {
        ModelKind::Tank => Some(ModelKind::TankTurret),
        ModelKind::TankUs => Some(ModelKind::TankTurretUs),
        ModelKind::TankFr => Some(ModelKind::TankTurretFr),
        _ => None,
    }
}

/// The human-readable name of an army.
pub open spec fn army_name(army: Army) -> Seq<char> {
    match army {
        Army::Us => "US Army"@,
        Army::Fr => "French Army"@,
        Army::Neutral => "Neutral"@,
    }
}

/// The body mesh of a token (see [`token_model`]). The caller classifies the archetype: heavy
/// and tank units ride the tank chassis; riflemen and medics are infantry.
pub fn model_for_unit(army: Army, building: bool, tank_chassis: bool) -> (r: ModelKind)
    ensures
        r == token_model(army, building, tank_chassis),
{
    if building {
        return ModelKind::CampHq;
    }
    match (army, tank_chassis) {
        (Army::Us, true) => ModelKind::TankUs,
        (Army::Us, false) => ModelKind::TrooperUs,
        (Army::Fr, true) => ModelKind::TankFr,
        (Army::Fr, false) => ModelKind::TrooperFr,
        (Army::Neutral, true) => ModelKind::Tank,
        (Army::Neutral, false) => ModelKind::Trooper,
    }
}

/// The first-person weapon viewmodel mesh for an embodied unit of `army`.
pub fn weapon_model_for(army: Army) -> (r: ModelKind)
    ensures
        r == weapon_model(army),
{
    match army {
        Army::Us => ModelKind::WeaponRifleUs,
        Army::Fr => ModelKind::WeaponRifleFr,
        Army::Neutral => ModelKind::WeaponRifle,
    }
}

/// The human-readable faction name for an army.
pub fn faction_name(army: Army) -> (r: &'static str)
    ensures
        r@ == army_name(army),
{
    match army {
        Army::Us => "US Army",
        Army::Fr => "French Army",
        Army::Neutral => "Neutral",
    }
}

/// The turret mesh seated atop a hull, if it is a tank hull.
pub fn turret_for(hull: ModelKind) -> (r: Option<ModelKind>)
    ensures
        r == hull_turret(hull),
{
    match hull {
        ModelKind::Tank => Some(ModelKind::TankTurret),
        ModelKind::TankUs => Some(ModelKind::TankTurretUs),
        ModelKind::TankFr => Some(ModelKind::TankTurretFr),
        _ => None,
    }
}

/// The instance flag of a territory control point, drawn as a hollow ring rather than a mesh.
pub const FLAG_RING: u32 = 2;

/// Which of a token's two headings a mesh part turns by.
#[derive(Clone, Copy, PartialEq, Eq, Debug, Structural)]
pub enum PartYaw {
    /// The body's hull heading.
    Hull,
    /// The independently slewing turret heading.
    Turret,
}

/// The mesh parts of a token with instance `flags` whose body is `body`: a control-point ring
/// draws none; any other token draws its body by the hull heading, and a tank hull adds its
/// turret by the turret heading.
pub open spec fn token_parts(flags: u32, body: ModelKind) -> Seq<(ModelKind, PartYaw)> {
    if flags & FLAG_RING != 0 {
        seq![]
    } else {
        match hull_turret(body) {
            Some(turret) => seq![(body, PartYaw::Hull), (turret, PartYaw::Turret)],
            None => seq![(body, PartYaw::Hull)],
        }
    }
}

/// The meshes that compose a token with instance `flags` and body model index `model`, each with
/// the heading it turns by; every part is drawn at the token's position and true scale.
pub fn token_mesh_parts(flags: u32, model: u32) -> (r: Vec<(ModelKind, PartYaw)>)
    requires
        flags & FLAG_RING != 0 || model < 19,
    ensures
        flags & FLAG_RING != 0 ==> r@.len() == 0,
        forall|body: ModelKind| model_index(body) == model ==> r@ == token_parts(flags, body),
{
    if flags & FLAG_RING != 0 {
        return Vec::new();
    }
    let body = match ModelKind::from_index(model) {
        Some(k) => k,
        None => {
            return Vec::new();
        },
    };
    let mut parts = vec![(body, PartYaw::Hull)];
    if let Some(turret) = turret_for(body) {
        parts.push((turret, PartYaw::Turret));
    }
    proof {
        assert forall|other: ModelKind| model_index(other) == model implies other == body by {
            lemma_model_index_injective(other, body);
        }
        assert(parts@ =~= token_parts(flags, body));
    }
    parts
}

/// Cosmetic identity is visible: two different armies never draw a unit (or carry a weapon)
/// with the same mesh, while buildings share the camp structure across armies.
pub proof fn lemma_armies_look_distinct(a: Army, b: Army, tank_chassis: bool)
    requires
        a != b,
    ensures
        token_model(a, false, tank_chassis) != token_model(b, false, tank_chassis),
        weapon_model(a) != weapon_model(b),
        token_model(a, true, tank_chassis) == token_model(b, true, tank_chassis),
{
}

/// Exactly the tank hulls carry a turret, and it is their own army's: the turret of a unit's
/// hull is the turret of the same army.
pub proof fn lemma_tank_hulls_carry_their_turret(army: Army, tank_chassis: bool)
    ensures
        hull_turret(token_model(army, false, tank_chassis)) is Some <==> tank_chassis,
        hull_turret(token_model(army, true, tank_chassis)) is None,
{
}

} // verus!
