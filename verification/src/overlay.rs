//! Semantic roles of the screen-space chrome quads (the in-session overlay and the band-select
//! marquee), so tint and structure are asserted without pixel matching, and the fixed per-surface
//! vocabulary of the overlay: its choice slots, their captions and the summary's row tags.
use vstd::prelude::*;

verus! {

/// A semantic role for an overlay quad.
#[derive(Clone, Copy, PartialEq, Eq, Debug, Structural)]
pub enum QuadRole {
    /// A full-screen dim scrim behind a panel.
    Scrim,
    /// A panel background.
    Panel,
    /// A neutral prompt accent (stalled reconnect).
    Accent,
    /// A warning accent (a confirmed desync).
    Warning,
    /// A victory accent on the summary.
    Win,
    /// A defeat/draw accent on the summary.
    Loss,
    /// A per-faction kill bar in the summary.
    DataBar,
    /// A per-faction territory bar in the summary.
    TerritoryBar,
    /// A per-faction resource bar in the summary.
    ResourceBar,
    /// A faint full-width track behind a data bar.
    BarTrack,
    /// A slightly larger, lighter quad behind a panel: its rim.
    PanelRim,
    /// A soft dark drop shadow behind a panel's rim.
    PanelShadow,
    /// A neutral actionable choice slot.
    Button,
    /// The primary actionable choice slot.
    ButtonPrimary,
}

/// A semantic role for a marquee quad.
#[derive(Clone, Copy, PartialEq, Eq, Debug, Structural)]
pub enum MarqueeRole {
    /// The translucent interior fill.
    Fill,
    /// One of the four bright border edges.
    Border,
}

/// Which in-session surface the overlay shows, its payload aside.
#[derive(Clone, Copy, PartialEq, Eq, Debug, Structural)]
pub enum OverlaySurface {
    /// Nothing drawn: the match is live.
    Hidden,
    /// The pause menu.
    Paused,
    /// The stalled-link / desync prompt.
    ReconnectPrompt,
    /// The end-of-match summary.
    Summary,
}

/// The choice slots a surface offers, in slot order; the affirmative slot is the primary one.
pub open spec fn choices_of(surface: OverlaySurface) -> Seq<QuadRole> {
    match surface {
        OverlaySurface::Hidden => seq![],
        OverlaySurface::Paused => seq![QuadRole::ButtonPrimary, QuadRole::Button],
        OverlaySurface::ReconnectPrompt => seq![QuadRole::ButtonPrimary, QuadRole::Button],
        OverlaySurface::Summary => seq![QuadRole::ButtonPrimary],
    }
}

/// The caption of choice slot `slot` of a surface; empty where the surface has no such slot.
pub open spec fn caption_of(surface: OverlaySurface, slot: int) -> Seq<char> {
    match surface {
        OverlaySurface::Paused => if slot == 0 {
            "RESUME"@
        } else if slot == 1 {
            "QUIT"@
        } else {
            ""@
        },
        OverlaySurface::ReconnectPrompt => if slot == 0 {
            "RESUME"@
        } else if slot == 1 {
            "LEAVE"@
        } else {
            ""@
        },
        OverlaySurface::Summary => if slot == 0 {
            "DISMISS"@
        } else {
            ""@
        },
        OverlaySurface::Hidden => ""@,
    }
}

/// The actionable choices `surface` offers, as the role each slot draws with.
pub fn surface_choices(surface: OverlaySurface) -> (r: Vec<QuadRole>)
    ensures
        r@ == choices_of(surface),
{
    match surface {
        OverlaySurface::Hidden => vec![],
        OverlaySurface::Paused => vec![QuadRole::ButtonPrimary, QuadRole::Button],
        OverlaySurface::ReconnectPrompt => vec![QuadRole::ButtonPrimary, QuadRole::Button],
        OverlaySurface::Summary => vec![QuadRole::ButtonPrimary],
    }
}

/// The caption choice slot `slot` of `surface` draws (empty for a slot the surface lacks).
pub fn button_label(surface: OverlaySurface, slot: usize) -> (r: &'static str)
    ensures
        r@ == caption_of(surface, slot as int),
{
    match (surface, slot) {
        (OverlaySurface::Paused, 0) => "RESUME",
        (OverlaySurface::Paused, 1) => "QUIT",
        (OverlaySurface::ReconnectPrompt, 0) => "RESUME",
        (OverlaySurface::ReconnectPrompt, 1) => "LEAVE",
        (OverlaySurface::Summary, 0) => "DISMISS",
        _ => "",
    }
}

/// The captions mirror the choice slots: a slot has a caption exactly when the surface offers
/// it, and a surface that offers any choice offers the primary one first.
pub proof fn lemma_captions_mirror_choices(surface: OverlaySurface, slot: int)
    requires
        0 <= slot,
    ensures
        caption_of(surface, slot).len() > 0 <==> slot < choices_of(surface).len(),
        choices_of(surface).len() > 0 ==> choices_of(surface)[0] == QuadRole::ButtonPrimary,
        forall|k: int|
            1 <= k < choices_of(surface).len() ==> #[trigger] choices_of(surface)[k]
                == QuadRole::Button,
{
    reveal_strlit("RESUME");
    reveal_strlit("QUIT");
    reveal_strlit("LEAVE");
    reveal_strlit("DISMISS");
    reveal_strlit("");
}

/// The side a summary row reports, from the local player's point of view.
#[derive(Clone, Copy, PartialEq, Eq, Debug, Structural)]
pub enum FactionTag {
    /// The local player.
    Player,
    /// The opponent.
    Enemy,
    /// Non-aligned.
    Neutral,
}

/// The uppercase row tag of a faction in the summary.
pub open spec fn faction_tag_text(faction: FactionTag) -> Seq<char> {
    match faction {
        FactionTag::Player => "YOU"@,
        FactionTag::Enemy => "FOE"@,
        FactionTag::Neutral => "NEU"@,
    }
}

/// A short label for a faction, tagging its summary row.
pub fn faction_label(faction: FactionTag) -> (r: &'static str)
    ensures
        r@ == faction_tag_text(faction),
{
    match faction {
        FactionTag::Player => "YOU",
        FactionTag::Enemy => "FOE",
        FactionTag::Neutral => "NEU",
    }
}

/// Different factions get different row tags, so a three-row summary stays unambiguous.
pub proof fn lemma_faction_labels_distinct(a: FactionTag, b: FactionTag)
    ensures
        a != b ==> faction_tag_text(a) != faction_tag_text(b),
{
    reveal_strlit("YOU");
    reveal_strlit("FOE");
    reveal_strlit("NEU");
    if a != b {
        assert(faction_tag_text(a)[0] != faction_tag_text(b)[0]);
    }
}

} // verus!
