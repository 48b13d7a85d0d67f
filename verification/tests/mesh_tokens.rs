//! The cooked-mesh parser and the token mesh tables.
use gonedark::mesh::{MeshCpu, MeshParseError, ModelKind, MESH_MAGIC};
use gonedark::tokens::{
    faction_name, model_for_unit, token_mesh_parts, turret_for, weapon_model_for, Army, PartYaw,
    FLAG_RING,
};

/// A minimal valid blob: one triangle (3 verts), sequential indices.
fn one_triangle_blob() -> Vec<u8> {
    let mut b = Vec::new();
    b.extend_from_slice(&MESH_MAGIC);
    b.extend_from_slice(&3u32.to_le_bytes()); // v_count
    b.extend_from_slice(&3u32.to_le_bytes()); // i_count
    for k in 0..3u32 {
        // pos
        for c in [k as f32, 0.0, 0.0] {
            b.extend_from_slice(&c.to_le_bytes());
        }
        // normal (+Z)
        for c in [0.0f32, 0.0, 1.0] {
            b.extend_from_slice(&c.to_le_bytes());
        }
    }
    for k in 0..3u32 {
        b.extend_from_slice(&k.to_le_bytes());
    }
    b
}

fn floats(words: [u32; 3]) -> [f32; 3] {
    [f32::from_bits(words[0]), f32::from_bits(words[1]), f32::from_bits(words[2])]
}

#[test]
fn parses_a_minimal_triangle() {
    let m = MeshCpu::parse(&one_triangle_blob()).expect("valid blob parses");
    assert_eq!(m.vertices.len(), 3);
    assert_eq!(m.indices, vec![0, 1, 2]);
    assert_eq!(floats(m.vertices[1].pos), [1.0, 0.0, 0.0]);
    assert_eq!(floats(m.vertices[0].normal), [0.0, 0.0, 1.0]);
}

#[test]
fn rejects_short_bad_magic_and_bad_length() {
    assert_eq!(MeshCpu::parse(&[0u8; 4]), Err(MeshParseError::TooShort));
    let mut wrong = one_triangle_blob();
    wrong[0] = b'X';
    assert_eq!(MeshCpu::parse(&wrong), Err(MeshParseError::BadMagic));
    let mut truncated = one_triangle_blob();
    truncated.pop();
    assert_eq!(MeshCpu::parse(&truncated), Err(MeshParseError::LengthMismatch));
}

#[test]
fn rejects_out_of_range_index() {
    let mut b = one_triangle_blob();
    // Overwrite the last index (offset 12 + 3*24 + 2*4) with 99.
    let o = 12 + 3 * 24 + 2 * 4;
    b[o..o + 4].copy_from_slice(&99u32.to_le_bytes());
    assert_eq!(MeshCpu::parse(&b), Err(MeshParseError::IndexOutOfRange));
}

#[test]
fn empty_mesh_and_huge_declared_counts() {
    let mut b = MESH_MAGIC.to_vec();
    b.extend_from_slice(&0u32.to_le_bytes());
    b.extend_from_slice(&0u32.to_le_bytes());
    let m = MeshCpu::parse(&b).expect("a zero-triangle blob is well formed");
    assert!(m.vertices.is_empty() && m.indices.is_empty());
    // Declared counts far past the blob never read out of bounds.
    let mut h = MESH_MAGIC.to_vec();
    h.extend_from_slice(&u32::MAX.to_le_bytes());
    h.extend_from_slice(&u32::MAX.to_le_bytes());
    assert_eq!(MeshCpu::parse(&h), Err(MeshParseError::LengthMismatch));
}

#[test]
fn vertex_words_are_the_little_endian_bit_patterns() {
    let mut b = one_triangle_blob();
    // Vertex 2, normal z (offset 12 + 2*24 + 20) := bytes 0x01 0x02 0x03 0x04.
    let o = 12 + 2 * 24 + 20;
    b[o..o + 4].copy_from_slice(&[1, 2, 3, 4]);
    let m = MeshCpu::parse(&b).unwrap();
    assert_eq!(m.vertices[2].normal[2], 0x0403_0201);
}

#[test]
fn model_kind_indices_follow_all() {
    for (i, k) in ModelKind::ALL.iter().enumerate() {
        assert_eq!(k.index(), i);
    }
}

#[test]
fn model_for_unit_maps_archetype_and_building() {
    // Neutral draws the shared greybox: a rifleman or medic is infantry, a heavy or tank rides
    // the tank chassis.
    assert_eq!(model_for_unit(Army::Neutral, false, false), ModelKind::Trooper);
    assert_eq!(model_for_unit(Army::Neutral, false, true), ModelKind::Tank);
    // A building is the camp structure regardless of army or chassis.
    assert_eq!(model_for_unit(Army::Neutral, true, true), ModelKind::CampHq);
    assert_eq!(model_for_unit(Army::Us, true, false), ModelKind::CampHq);
}

#[test]
fn model_for_unit_resolves_each_army_to_its_silhouette() {
    assert_eq!(model_for_unit(Army::Us, false, false), ModelKind::TrooperUs);
    assert_eq!(model_for_unit(Army::Us, false, true), ModelKind::TankUs);
    assert_eq!(model_for_unit(Army::Fr, false, false), ModelKind::TrooperFr);
    assert_eq!(model_for_unit(Army::Fr, false, true), ModelKind::TankFr);
}

#[test]
fn model_for_unit_total_distinct_and_panic_free() {
    for &tank in &[false, true] {
        for &building in &[false, true] {
            let neutral = model_for_unit(Army::Neutral, building, tank);
            let us = model_for_unit(Army::Us, building, tank);
            let fr = model_for_unit(Army::Fr, building, tank);
            for m in [neutral, us, fr] {
                assert!(m.index() < ModelKind::ALL.len());
            }
            if building {
                assert_eq!(us, ModelKind::CampHq);
                assert_eq!(fr, ModelKind::CampHq);
            } else {
                assert_ne!(us, neutral);
                assert_ne!(fr, neutral);
                assert_ne!(us, fr);
            }
        }
    }
}

#[test]
fn weapon_model_for_each_army_is_distinct() {
    assert_eq!(weapon_model_for(Army::Us), ModelKind::WeaponRifleUs);
    assert_eq!(weapon_model_for(Army::Fr), ModelKind::WeaponRifleFr);
    assert_eq!(weapon_model_for(Army::Neutral), ModelKind::WeaponRifle);
    let all: Vec<ModelKind> = Army::ALL.iter().map(|&a| weapon_model_for(a)).collect();
    for (i, a) in all.iter().enumerate() {
        for b in &all[i + 1..] {
            assert_ne!(a, b, "each army's viewmodel is a distinct mesh");
        }
    }
}

#[test]
fn faction_name_covers_every_army() {
    assert_eq!(faction_name(Army::Us), "US Army");
    assert_eq!(faction_name(Army::Fr), "French Army");
    assert_eq!(faction_name(Army::Neutral), "Neutral");
    for &a in &Army::ALL {
        assert!(!faction_name(a).is_empty(), "{a:?} has a name");
    }
}

#[test]
fn faction_tank_hulls_seat_their_own_turret() {
    assert_eq!(turret_for(ModelKind::TankUs), Some(ModelKind::TankTurretUs));
    assert_eq!(turret_for(ModelKind::TankFr), Some(ModelKind::TankTurretFr));
    assert_eq!(turret_for(ModelKind::Tank), Some(ModelKind::TankTurret));
    assert_eq!(turret_for(ModelKind::TrooperUs), None);
    assert_eq!(turret_for(ModelKind::CampHq), None);
}

#[test]
fn token_mesh_parts_decode_hull_turret_and_skip_rings() {
    let idx = |k: ModelKind| k.index() as u32;
    assert_eq!(token_mesh_parts(0, idx(ModelKind::Trooper)), vec![(ModelKind::Trooper, PartYaw::Hull)]);
    assert_eq!(
        token_mesh_parts(0, idx(ModelKind::Tank)),
        vec![(ModelKind::Tank, PartYaw::Hull), (ModelKind::TankTurret, PartYaw::Turret)]
    );
    assert_eq!(
        token_mesh_parts(0, idx(ModelKind::TankFr)),
        vec![(ModelKind::TankFr, PartYaw::Hull), (ModelKind::TankTurretFr, PartYaw::Turret)]
    );
    assert_eq!(token_mesh_parts(1, idx(ModelKind::CampHq)), vec![(ModelKind::CampHq, PartYaw::Hull)]);
    assert!(token_mesh_parts(FLAG_RING, 0).is_empty());
    assert!(token_mesh_parts(FLAG_RING | 1, 500).is_empty());
}

#[test]
fn model_from_index_inverts_index() {
    for (i, k) in ModelKind::ALL.iter().enumerate() {
        assert_eq!(ModelKind::from_index(i as u32), Some(*k));
    }
    assert_eq!(ModelKind::from_index(19), None);
}
