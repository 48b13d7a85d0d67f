//! Scenarios of the key-rebind model: shipped defaults, rebinding, reset and the blob codec.
use gonedark::keybind::{KeybindMap, RebindOutcome};
use gonedark::keys::{GameAction, KeyId};

#[test]
fn defaults_bind_the_historical_keys_and_are_conflict_free() {
    let map = KeybindMap::default();
    // The D90 host toggles.
    assert_eq!(map.key_for(GameAction::Pause), KeyId::Escape);
    assert_eq!(map.key_for(GameAction::ToggleFullscreen), KeyId::F11);
    assert_eq!(map.key_for(GameAction::ToggleDebugOverlay), KeyId::F3);
    // A sample of the Q27 gameplay defaults (the keys `DesktopInput` used to hardcode).
    assert_eq!(map.key_for(GameAction::Embody), KeyId::E);
    assert_eq!(map.key_for(GameAction::Surface), KeyId::Q);
    assert_eq!(map.key_for(GameAction::MoveUp), KeyId::W);
    assert_eq!(map.key_for(GameAction::Jump), KeyId::Space);
    assert_eq!(map.key_for(GameAction::OrderMenu), KeyId::F);
    assert_eq!(map.key_for(GameAction::OrderSlot10), KeyId::Digit0);
    assert_eq!(map.key_for(GameAction::BuildCamp), KeyId::B);
    assert_eq!(map.key_for(GameAction::Crouch), KeyId::C);
    assert_eq!(map.key_for(GameAction::SelectFire), KeyId::X);
    assert!(!map.has_conflict(), "shipped defaults must not conflict");
}

#[test]
fn every_action_has_a_default_and_no_overlapping_layer_shares_one() {
    // Default-map completeness: every action resolves to a key, and no two actions whose
    // layers can be live together share one (the flat-uniqueness rule of D90, relaxed only
    // across the mode-exclusive command/embodied split).
    let map = KeybindMap::default();
    for (i, &a) in GameAction::ALL.iter().enumerate() {
        let key = map.key_for(a); // total: every action has a binding
        for &b in &GameAction::ALL[i + 1..] {
            if map.key_for(b) == key {
                assert!(
                    !a.layer().conflicts_with(b.layer()),
                    "{a:?} and {b:?} share {key:?} but their layers overlap"
                );
            }
        }
    }
}

#[test]
fn the_shipped_r_key_is_shared_across_the_mode_exclusive_layers() {
    // R = train-Rifleman (command) AND reload (embodied) — the D42 mode-exclusive share the
    // layer rule exists to keep. `action_for` reports the first owner in ALL order (the
    // command-layer one); the PAL decode iterates ALL, so both fire.
    let map = KeybindMap::default();
    assert_eq!(map.key_for(GameAction::TrainRifleman), KeyId::R);
    assert_eq!(map.key_for(GameAction::Reload), KeyId::R);
    assert_eq!(map.action_for(KeyId::R), Some(GameAction::TrainRifleman));
}

#[test]
fn action_for_is_the_reverse_of_key_for_on_exclusively_held_keys() {
    let map = KeybindMap::default();
    for a in GameAction::ALL {
        let owner = map.action_for(map.key_for(a)).expect("bound key resolves");
        // The resolved owner holds the same key; it IS `a` unless the key is legitimately
        // shared across layers (the shipped R), where the first owner in ALL order wins.
        assert_eq!(map.key_for(owner), map.key_for(a));
    }
    // An unbound key routes to nothing (so a stray press does nothing).
    assert_eq!(map.action_for(KeyId::J), None);
}

#[test]
fn rebind_to_a_free_key_binds_and_reroutes() {
    let mut map = KeybindMap::default();
    assert_eq!(map.rebind(GameAction::Pause, KeyId::P), RebindOutcome::Bound);
    assert_eq!(map.key_for(GameAction::Pause), KeyId::P);
    // The new key now routes to Pause; the old one (Esc) is free.
    assert_eq!(map.action_for(KeyId::P), Some(GameAction::Pause));
    assert_eq!(map.action_for(KeyId::Escape), None);
}

#[test]
fn rebind_to_the_same_key_is_a_no_op() {
    let mut map = KeybindMap::default();
    assert_eq!(
        map.rebind(GameAction::Pause, KeyId::Escape),
        RebindOutcome::Unchanged
    );
    assert_eq!(map.key_for(GameAction::Pause), KeyId::Escape);
}

#[test]
fn rebind_to_a_taken_key_is_rejected_and_names_the_owner() {
    let mut map = KeybindMap::default();
    // F11 belongs to ToggleFullscreen; binding Pause to it must be refused, naming the owner.
    assert_eq!(
        map.rebind(GameAction::Pause, KeyId::F11),
        RebindOutcome::Conflict(GameAction::ToggleFullscreen)
    );
    // The map is untouched — Pause still on Esc, Fullscreen still on F11 (invariant held).
    assert_eq!(map.key_for(GameAction::Pause), KeyId::Escape);
    assert_eq!(map.key_for(GameAction::ToggleFullscreen), KeyId::F11);
    assert!(!map.has_conflict());
}

#[test]
fn rebind_conflicts_follow_the_layer_rule() {
    // Same layer: BuildCamp (command) can't take TrainRifleman's R (command).
    let mut map = KeybindMap::default();
    assert_eq!(
        map.rebind(GameAction::BuildCamp, KeyId::R),
        RebindOutcome::Conflict(GameAction::TrainRifleman)
    );
    // Global vs anything: Pause (global) can't take MoveUp's W (global) or Crouch's C (embodied).
    assert_eq!(
        map.rebind(GameAction::Pause, KeyId::W),
        RebindOutcome::Conflict(GameAction::MoveUp)
    );
    assert_eq!(
        map.rebind(GameAction::Pause, KeyId::C),
        RebindOutcome::Conflict(GameAction::Crouch)
    );
    // Anything vs Global: Jump (embodied) can't take MoveLeft's A (global).
    assert_eq!(
        map.rebind(GameAction::Jump, KeyId::A),
        RebindOutcome::Conflict(GameAction::MoveLeft)
    );
    // Cross-layer is allowed: Surface (embodied) may share Embody's E (command) — the
    // toggle-style bind a player might genuinely want.
    assert_eq!(map.rebind(GameAction::Surface, KeyId::E), RebindOutcome::Bound);
    assert_eq!(map.key_for(GameAction::Embody), KeyId::E);
    assert_eq!(map.key_for(GameAction::Surface), KeyId::E);
    assert!(!map.has_conflict(), "a cross-layer share is not a conflict");
}

#[test]
fn reset_restores_defaults() {
    let mut map = KeybindMap::default();
    map.rebind(GameAction::Pause, KeyId::P);
    map.rebind(GameAction::Jump, KeyId::G);
    map.reset();
    assert_eq!(map, KeybindMap::default());
}

#[test]
fn encode_decode_round_trips_defaults_and_a_remapped_map() {
    // Defaults round-trip.
    let def = KeybindMap::default();
    assert_eq!(KeybindMap::decode(&def.encode()), def);

    // A remapped map (host + gameplay rebinds) round-trips too — the identity contract.
    let mut map = KeybindMap::default();
    assert_eq!(map.rebind(GameAction::Pause, KeyId::P), RebindOutcome::Bound);
    assert_eq!(map.rebind(GameAction::Jump, KeyId::G), RebindOutcome::Bound);
    assert_eq!(map.rebind(GameAction::Embody, KeyId::T), RebindOutcome::Bound);
    assert_eq!(
        map.rebind(GameAction::ToggleFullscreen, KeyId::Backquote),
        RebindOutcome::Bound
    );
    assert_eq!(KeybindMap::decode(&map.encode()), map);
}

#[test]
fn decode_tolerates_garbage_and_out_of_range() {
    // Total garbage → shipped defaults (never panics).
    assert_eq!(KeybindMap::decode(""), KeybindMap::default());
    assert_eq!(KeybindMap::decode("not,a,blob"), KeybindMap::default());
    // Out-of-range / partly-bad ordinals keep each action's own default.
    //   field 0 = "9999" (out of range) → Pause keeps Esc
    //   field 1 = "18"   (KeyId::G, valid + free) → Fullscreen becomes G
    //   field 2 = ""     (missing) → DebugOverlay keeps F3
    let m = KeybindMap::decode("9999,18,");
    assert_eq!(m.key_for(GameAction::Pause), KeyId::Escape);
    assert_eq!(m.key_for(GameAction::ToggleFullscreen), KeyId::G);
    assert_eq!(m.key_for(GameAction::ToggleDebugOverlay), KeyId::F3);
    // …and the unspecified gameplay tail keeps its defaults.
    assert_eq!(m.key_for(GameAction::Embody), KeyId::E);
    assert_eq!(m.key_for(GameAction::SelectFire), KeyId::X);
}

#[test]
fn decode_accepts_a_pre_q27_three_field_blob() {
    // A D90-era blob carries only the three host toggles. It must keep decoding: the host
    // rebinds land, the gameplay keys (absent from the blob) stay at their defaults.
    // "27,10,2" = Pause→P, Fullscreen→F11, DebugOverlay→F3.
    let m = KeybindMap::decode("27,10,2");
    assert_eq!(m.key_for(GameAction::Pause), KeyId::P);
    assert_eq!(m.key_for(GameAction::ToggleFullscreen), KeyId::F11);
    assert_eq!(m.key_for(GameAction::ToggleDebugOverlay), KeyId::F3);
    assert_eq!(m.key_for(GameAction::MoveUp), KeyId::W);
    assert_eq!(m.key_for(GameAction::Reload), KeyId::R);
    // But a legacy host rebind that now collides with a gameplay default (Pause→B vs
    // BuildCamp's B; Global conflicts with Command) is a real ambiguity → whole map falls
    // back to the shipped defaults, per the corruption contract.
    let m = KeybindMap::decode("13,10,2");
    assert_eq!(m, KeybindMap::default());
}

#[test]
fn decode_rejects_a_duplicate_key_blob_to_defaults() {
    // A hand-edited blob that binds two overlapping-layer actions to the same ordinal
    // (Esc = 48 for both Pause and Fullscreen) is corrupt: the whole map falls back to
    // defaults rather than shipping a shared-key map.
    let m = KeybindMap::decode("48,48,2");
    assert_eq!(m, KeybindMap::default());
    assert!(!m.has_conflict());
}

#[test]
fn order_slots_map_to_the_zero_based_wire_slots() {
    // The ten vocabulary actions map onto wire slots 0–9 in order; nothing else has a slot.
    let slots: Vec<u8> = GameAction::ALL
        .into_iter()
        .filter_map(GameAction::order_slot)
        .collect();
    assert_eq!(slots, (0..10).collect::<Vec<u8>>());
    assert_eq!(GameAction::Embody.order_slot(), None);
    assert_eq!(GameAction::Pause.order_slot(), None);
}

#[test]
fn labels_are_non_empty_ascii() {
    for &k in &KeyId::ALL {
        assert!(!k.label().is_empty() && k.label().is_ascii());
    }
    for a in GameAction::ALL {
        assert!(!a.label().is_empty() && a.label().is_ascii());
    }
}

#[test]
fn key_and_action_ordinals_are_stable_and_total() {
    // Every KeyId round-trips through its ordinal, and ALL has no gaps/dupes.
    for (i, &k) in KeyId::ALL.iter().enumerate() {
        assert_eq!(k.index(), i);
        assert_eq!(KeyId::from_index(i), Some(k));
    }
    assert_eq!(KeyId::from_index(KeyId::ALL.len()), None);
    for (i, &a) in GameAction::ALL.iter().enumerate() {
        assert_eq!(a.index(), i);
        assert_eq!(GameAction::from_index(i), Some(a));
    }
    // The D90 host-toggle ordinals are FROZEN (pre-Q27 blobs address them by position).
    assert_eq!(GameAction::Pause.index(), 0);
    assert_eq!(GameAction::ToggleFullscreen.index(), 1);
    assert_eq!(GameAction::ToggleDebugOverlay.index(), 2);
}
