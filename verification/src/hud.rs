//! Text of the embodied HUD: the colour-blind cue of the alert thread (a short uppercase
//! abbreviation for each alert kind, drawn under its edge-ring marker so the kinds can be told
//! apart without hue) and the desktop surface-key reminder.
use vstd::prelude::*;

verus! {

/// What an edge-ring alert reports.
#[derive(Clone, Copy, PartialEq, Eq, Debug, Hash, Structural)]
pub enum AlertKind {
    /// A friendly unit is under fire.
    TakingFire,
    /// A friendly unit was destroyed.
    UnitLost,
    /// The home base is being attacked.
    BaseUnderAttack,
    /// A held control point was lost.
    TerritoryLost,
}

/// The abbreviation drawn under an alert of `kind`.
pub open spec fn alert_text(kind: AlertKind) -> Seq<char> {
    match kind {
        AlertKind::TakingFire => "FIRE"@,
        AlertKind::UnitLost => "LOST"@,
        AlertKind::BaseUnderAttack => "BASE"@,
        AlertKind::TerritoryLost => "TERR"@,
    }
}

/// Whether `s` is a terse label the marker font can draw: one to four uppercase ASCII letters.
pub open spec fn is_terse_caps(s: Seq<char>) -> bool {
    &&& 1 <= s.len() <= 4
    &&& forall|i: int| 0 <= i < s.len() ==> 'A' <= #[trigger] s[i] <= 'Z'
}

/// The short, non-colour abbreviation of an alert kind.
pub fn alert_label(kind: AlertKind) -> (r: &'static str)
    ensures
        r@ == alert_text(kind),
{
    match kind {
        AlertKind::TakingFire => "FIRE",
        AlertKind::UnitLost => "LOST",
        AlertKind::BaseUnderAttack => "BASE",
        AlertKind::TerritoryLost => "TERR",
    }
}

/// Every alert label is one to four uppercase letters, and two different kinds never share a
/// label.
pub proof fn lemma_alert_labels_terse_and_distinct(a: AlertKind, b: AlertKind)
    ensures
        is_terse_caps(alert_text(a)),
        a != b ==> alert_text(a) != alert_text(b),
{
    reveal_strlit("FIRE");
    reveal_strlit("LOST");
    reveal_strlit("BASE");
    reveal_strlit("TERR");
    if a != b {
        assert(alert_text(a)[0] != alert_text(b)[0] || alert_text(a)[1] != alert_text(b)[1]);
    }
}

/// The text of the desktop "surface" key reminder shown while embodied, or `None` where no
/// reminder is drawn: on touch screens (which already show a Surface button) and for an empty
/// label. `label` is the fully composed hint, such as `"[F] SURFACE"`.
pub fn surface_reminder_text(label: &str, is_touch: bool) -> (r: Option<String>)
    ensures
        r is None <==> (is_touch || label@.len() == 0),
        r is Some ==> r->0@ == label@,
{
    if is_touch || label.is_empty() {
        return None;
    }
    Some(String::from_str(label))
}

} // verus!
