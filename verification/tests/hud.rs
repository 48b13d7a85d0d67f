use gonedark::hud::{alert_label, surface_reminder_text, AlertKind};

#[test]
fn alert_label_is_distinct_and_short_per_kind() {
    let kinds = [
        AlertKind::TakingFire,
        AlertKind::UnitLost,
        AlertKind::BaseUnderAttack,
        AlertKind::TerritoryLost,
    ];
    let labels: Vec<&str> = kinds.iter().map(|&k| alert_label(k)).collect();
    for l in &labels {
        assert!(!l.is_empty() && l.len() <= 4, "label {l:?} stays terse");
        assert!(
            l.chars().all(|c| c.is_ascii_uppercase()),
            "label {l:?} is drawable uppercase ASCII (in the font atlas)"
        );
    }
    for i in 0..labels.len() {
        for j in (i + 1)..labels.len() {
            assert_ne!(labels[i], labels[j], "labels must be unique");
        }
    }
}

#[test]
fn alert_labels_per_kind() {
    assert_eq!(alert_label(AlertKind::TakingFire), "FIRE");
    assert_eq!(alert_label(AlertKind::UnitLost), "LOST");
    assert_eq!(alert_label(AlertKind::BaseUnderAttack), "BASE");
    assert_eq!(alert_label(AlertKind::TerritoryLost), "TERR");
}

#[test]
fn surface_reminder_text_is_desktop_only() {
    assert_eq!(surface_reminder_text("[F] SURFACE", true), None);
    assert_eq!(surface_reminder_text("", false), None);
    assert_eq!(surface_reminder_text("", true), None);
    assert_eq!(surface_reminder_text("[F] SURFACE", false).as_deref(), Some("[F] SURFACE"));
}
