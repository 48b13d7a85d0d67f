//! The HUD view descriptions: command panel, objective HUD, icons, picker rows, quad roles.
use gonedark::command_panel::{CommandPanelView, LineStyle, PanelLine};
use gonedark::icon::{icon_for_label, IconAccent, IconKind};
use gonedark::objective_hud::{ObjectiveHudView, ObjectiveStateView};
use gonedark::overlay::{
    button_label, faction_label, surface_choices, FactionTag, MarqueeRole, OverlaySurface, QuadRole,
};
use gonedark::picker::{row_text, EmbodyPicker, PickerRow};

fn objective(text: &str, progress: Option<(u32, u32)>) -> ObjectiveHudView {
    ObjectiveHudView {
        objective: text.to_string(),
        state: Some(ObjectiveStateView::Active),
        progress,
    }
}

#[test]
fn command_panel_empty_view_is_empty() {
    assert!(CommandPanelView::default().is_empty());
    let titled = CommandPanelView { title: "CAMP".to_string(), lines: vec![] };
    assert!(!titled.is_empty());
    let rows = CommandPanelView {
        title: String::new(),
        lines: vec![PanelLine::new("Resources 300".to_string(), LineStyle::Good)],
    };
    assert!(!rows.is_empty());
    assert_eq!(rows.lines[0].style, LineStyle::Good);
    assert_eq!(rows.lines[0].text, "Resources 300");
}

#[test]
fn objective_progress_row_only_with_a_positive_goal() {
    let v = objective("Take the enemy base", Some((2, 5)));
    assert!(!v.is_empty());
    assert_eq!(v.n_rows(), 2);
    assert_eq!(v.progress_text().as_deref(), Some("2 / 5"));
    let binary = objective("Reach the LZ", None);
    assert_eq!(binary.n_rows(), 1);
    assert_eq!(binary.progress_text(), None);
    let zero_goal = objective("Reach the LZ", Some((0, 0)));
    assert_eq!(zero_goal.n_rows(), 1);
    assert_eq!(zero_goal.progress_text(), None);
    assert!(ObjectiveHudView::default().is_empty());
    assert_eq!(objective("X", Some((1234, 4000000000))).progress_text().as_deref(), Some("1234 / 4000000000"));
}

#[test]
fn icon_indices_are_dense() {
    let all = [
        IconKind::Infantry,
        IconKind::Armor,
        IconKind::Build,
        IconKind::Upgrade,
        IconKind::Resources,
        IconKind::Objective,
        IconKind::Move,
        IconKind::Attack,
        IconKind::Hold,
        IconKind::Medic,
        IconKind::AntiTank,
    ];
    for (i, k) in all.iter().enumerate() {
        assert_eq!(k.index(), i as u32, "{k:?} index must equal its slot");
    }
}

#[test]
fn icon_for_label_covers_every_unit_kind_and_action() {
    for l in ["RIFLE", "RIFLEMAN", "INFANTRY"] {
        assert_eq!(icon_for_label(l), Some((IconKind::Infantry, IconAccent::Faction)));
    }
    for l in ["HEAVY", "TANK", "ARMOR"] {
        assert_eq!(icon_for_label(l), Some((IconKind::Armor, IconAccent::Faction)));
    }
    assert_eq!(icon_for_label("MEDIC"), Some((IconKind::Medic, IconAccent::Faction)));
    for l in ["ANTI-TANK", "ANTITANK", "AT"] {
        assert_eq!(icon_for_label(l), Some((IconKind::AntiTank, IconAccent::Faction)));
    }
    assert_eq!(icon_for_label("BUILD"), Some((IconKind::Build, IconAccent::Action)));
    assert_eq!(icon_for_label("UPGRADE"), Some((IconKind::Upgrade, IconAccent::Action)));
}

#[test]
fn unknown_labels_map_to_no_icon() {
    assert_eq!(icon_for_label("MYSTERY"), None);
    assert_eq!(icon_for_label("rifle"), None);
    assert_eq!(icon_for_label("RIFLE "), None);
    assert_eq!(icon_for_label(""), None);
}

#[test]
fn picker_rows_are_numbered_from_one() {
    let p = EmbodyPicker {
        rows: vec![
            PickerRow { label: "Tank".to_string(), embodiable: true },
            PickerRow { label: "Rifleman".to_string(), embodiable: false },
        ],
    };
    assert_eq!(row_text(0, &p.rows[0].label), "[1]  Tank");
    assert_eq!(row_text(1, &p.rows[1].label), "[2]  Rifleman");
    assert_eq!(row_text(9, "Drone"), "[10]  Drone");
    assert!(EmbodyPicker::default().rows.is_empty());
}

#[test]
fn quad_roles_are_distinct_values() {
    assert_ne!(QuadRole::Panel, QuadRole::PanelRim);
    assert_ne!(MarqueeRole::Fill, MarqueeRole::Border);
}

#[test]
fn overlay_choices_and_captions_line_up() {
    let surfaces = [
        OverlaySurface::Hidden,
        OverlaySurface::Paused,
        OverlaySurface::ReconnectPrompt,
        OverlaySurface::Summary,
    ];
    for s in surfaces {
        let choices = surface_choices(s);
        for slot in 0..4 {
            assert_eq!(!button_label(s, slot).is_empty(), slot < choices.len(), "{s:?} slot {slot}");
        }
        if let Some(first) = choices.first() {
            assert_eq!(*first, QuadRole::ButtonPrimary);
        }
    }
    assert_eq!(surface_choices(OverlaySurface::Paused), vec![QuadRole::ButtonPrimary, QuadRole::Button]);
    assert_eq!(surface_choices(OverlaySurface::Summary), vec![QuadRole::ButtonPrimary]);
    assert!(surface_choices(OverlaySurface::Hidden).is_empty());
    assert_eq!(button_label(OverlaySurface::Paused, 0), "RESUME");
    assert_eq!(button_label(OverlaySurface::Paused, 1), "QUIT");
    assert_eq!(button_label(OverlaySurface::ReconnectPrompt, 0), "RESUME");
    assert_eq!(button_label(OverlaySurface::ReconnectPrompt, 1), "LEAVE");
    assert_eq!(button_label(OverlaySurface::Summary, 0), "DISMISS");
    assert_eq!(button_label(OverlaySurface::Summary, 1), "");
    assert_eq!(button_label(OverlaySurface::Hidden, 0), "");
}

#[test]
fn faction_row_tags_are_distinct() {
    assert_eq!(faction_label(FactionTag::Player), "YOU");
    assert_eq!(faction_label(FactionTag::Enemy), "FOE");
    assert_eq!(faction_label(FactionTag::Neutral), "NEU");
}
