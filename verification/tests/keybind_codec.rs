//! Concrete checks of the keybind blob codec and the rebind rule beyond the shipped scenarios.
use gonedark::keybind::{KeybindMap, RebindOutcome};
use gonedark::keys::{BindLayer, GameAction, KeyId};

const DEFAULT_BLOB: &str =
    "48,10,2,16,28,34,30,12,15,50,17,39,40,41,42,43,44,45,46,47,38,13,29,19,32,14,29,35";

#[test]
fn default_map_encodes_to_the_shipped_ordinals() {
    assert_eq!(KeybindMap::default().encode(), DEFAULT_BLOB);
}

#[test]
fn encode_writes_two_digit_and_one_digit_ordinals() {
    let mut map = KeybindMap::default();
    assert_eq!(map.rebind(GameAction::Pause, KeyId::F1), RebindOutcome::Bound);
    assert_eq!(map.rebind(GameAction::Jump, KeyId::Backquote), RebindOutcome::Bound);
    let blob = map.encode();
    assert!(blob.starts_with("0,10,2,"));
    assert_eq!(blob.split(',').nth(9), Some("65"));
    assert_eq!(KeybindMap::decode(&blob), map);
}

#[test]
fn decode_trims_white_space_and_accepts_a_plus_sign() {
    // " 27 " (P, padded), "+18" (G, signed), "\u{3000}2\t" (F3, Unicode + ASCII white space).
    let m = KeybindMap::decode(" 27 ,+18,\u{3000}2\t");
    assert_eq!(m.key_for(GameAction::Pause), KeyId::P);
    assert_eq!(m.key_for(GameAction::ToggleFullscreen), KeyId::G);
    assert_eq!(m.key_for(GameAction::ToggleDebugOverlay), KeyId::F3);
}

#[test]
fn decode_rejects_signs_and_junk_field_by_field() {
    // "-27" and "++27" and "2 7" are not numbers; "66" is past the last key; "+" alone is empty.
    let m = KeybindMap::decode("-27,++27,2 7,66,+");
    assert_eq!(m, KeybindMap::default());
    // A huge ordinal (beyond any usize) is an unusable field too.
    let m = KeybindMap::decode("99999999999999999999999999,18");
    assert_eq!(m.key_for(GameAction::Pause), KeyId::Escape);
    assert_eq!(m.key_for(GameAction::ToggleFullscreen), KeyId::G);
}

#[test]
fn decode_ignores_fields_past_the_last_action() {
    let blob = format!("{},1,2,3", DEFAULT_BLOB);
    assert_eq!(KeybindMap::decode(&blob), KeybindMap::default());
}

#[test]
fn conflicting_owner_names_the_first_overlapping_holder() {
    let map = KeybindMap::default();
    // R is held by TrainRifleman (command) and Reload (embodied); for BuildCamp (command) only
    // the command holder blocks, for Pause (global) the first holder in order does.
    assert_eq!(map.conflicting_owner(GameAction::BuildCamp, KeyId::R), Some(GameAction::TrainRifleman));
    assert_eq!(map.conflicting_owner(GameAction::Jump, KeyId::R), Some(GameAction::Reload));
    assert_eq!(map.conflicting_owner(GameAction::Pause, KeyId::R), Some(GameAction::TrainRifleman));
    // An action never blocks itself, and a free key has no owner.
    assert_eq!(map.conflicting_owner(GameAction::Pause, KeyId::Escape), None);
    assert_eq!(map.conflicting_owner(GameAction::Pause, KeyId::J), None);
}

#[test]
fn layer_rule_is_symmetric_and_only_splits_command_from_embodied() {
    let all = [BindLayer::Global, BindLayer::Command, BindLayer::Embodied];
    for a in all {
        for b in all {
            assert_eq!(a.conflicts_with(b), b.conflicts_with(a));
        }
    }
    assert!(!BindLayer::Command.conflicts_with(BindLayer::Embodied));
    assert!(BindLayer::Global.conflicts_with(BindLayer::Embodied));
    assert!(BindLayer::Command.conflicts_with(BindLayer::Command));
}

#[test]
fn every_live_map_stays_conflict_free_under_any_rebind_sequence() {
    let mut map = KeybindMap::default();
    for (i, &a) in GameAction::ALL.iter().enumerate() {
        for step in 0..5 {
            let k = KeyId::ALL[(i * 7 + step * 13) % KeyId::ALL.len()];
            let before = map;
            match map.rebind(a, k) {
                RebindOutcome::Bound => assert_eq!(map.key_for(a), k),
                RebindOutcome::Unchanged => assert_eq!(map, before),
                RebindOutcome::Conflict(owner) => {
                    assert_eq!(map, before);
                    assert_eq!(map.key_for(owner), k);
                    assert!(owner.layer().conflicts_with(a.layer()));
                }
            }
            assert!(!map.has_conflict());
            assert_eq!(KeybindMap::decode(&map.encode()), map);
        }
    }
}
