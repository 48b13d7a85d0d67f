//! The tactical icon vocabulary of the command-view glyph pass, and which icon (and accent)
//! belongs beside each command-bar button label.
use vstd::prelude::*;

use crate::codec::same_text;

verus! {

/// One tactical icon. Its atlas index ([`IconKind::index`]) is its position in the generator's
/// icon list; new icons are appended.
#[derive(Clone, Copy, PartialEq, Eq, Debug, Structural)]
pub enum IconKind {
    /// A foot-soldier token: the rifleman / infantry train button.
    Infantry,
    /// A tank token: the heavy / armor train button.
    Armor,
    /// A hammer: build / construct.
    Build,
    /// A double chevron: upgrade a tier.
    Upgrade,
    /// A credits crystal: banked resources.
    Resources,
    /// A flag: mission objective / control point.
    Objective,
    /// An arrow: the move order.
    Move,
    /// A crosshair: the attack order.
    Attack,
    /// A shield: the hold-position stance.
    Hold,
    /// A cross: the medic train button.
    Medic,
    /// A launcher: the anti-tank train button.
    AntiTank,
}

/// The atlas index of an icon.
pub open spec fn icon_index(k: IconKind) -> u32 {
    match k {
        IconKind::Infantry => 0,
        IconKind::Armor => 1,
        IconKind::Build => 2,
        IconKind::Upgrade => 3,
        IconKind::Resources => 4,
        IconKind::Objective => 5,
        IconKind::Move => 6,
        IconKind::Attack => 7,
        IconKind::Hold => 8,
        IconKind::Medic => 9,
        IconKind::AntiTank => 10,
    }
}

impl IconKind {
    /// The icon's zero-based atlas index.
    pub fn index(self) -> (r: u32)
        ensures
            r == icon_index(self),
    {
        match self {
            IconKind::Infantry => 0,
            IconKind::Armor => 1,
            IconKind::Build => 2,
            IconKind::Upgrade => 3,
            IconKind::Resources => 4,
            IconKind::Objective => 5,
            IconKind::Move => 6,
            IconKind::Attack => 7,
            IconKind::Hold => 8,
            IconKind::Medic => 9,
            IconKind::AntiTank => 10,
        }
    }
}

/// The tint family an icon takes: unit buttons wear the player-faction colour, build and
/// upgrade action buttons the amber signal accent.
#[derive(Clone, Copy, PartialEq, Eq, Debug, Structural)]
pub enum IconAccent {
    /// The player-faction colour (unit kinds).
    Faction,
    /// The amber action accent (build, upgrade).
    Action,
}

/// The icon beside a command-bar button label, or `None` for a label outside the vocabulary.
pub open spec fn label_icon(label: Seq<char>) -> Option<(IconKind, IconAccent)> {
    if label == "RIFLE"@ || label == "RIFLEMAN"@ || label == "INFANTRY"@ {
        Some((IconKind::Infantry, IconAccent::Faction))
    } else if label == "HEAVY"@ || label == "TANK"@ || label == "ARMOR"@ {
        Some((IconKind::Armor, IconAccent::Faction))
    } else if label == "MEDIC"@ {
        Some((IconKind::Medic, IconAccent::Faction))
    } else if label == "ANTI-TANK"@ || label == "ANTITANK"@ || label == "AT"@ {
        Some((IconKind::AntiTank, IconAccent::Faction))
    } else if label == "BUILD"@ {
        Some((IconKind::Build, IconAccent::Action))
    } else if label == "UPGRADE"@ {
        Some((IconKind::Upgrade, IconAccent::Action))
    } else {
        None
    }
}

/// Map a button label to its icon and tint family; an unrecognised label gets no icon.
pub fn icon_for_label(label: &str) -> (r: Option<(IconKind, IconAccent)>)
    ensures
        r == label_icon(label@),
{
    if same_text(label, "RIFLE") || same_text(label, "RIFLEMAN") || same_text(label, "INFANTRY") {
        Some((IconKind::Infantry, IconAccent::Faction))
    } else if same_text(label, "HEAVY") || same_text(label, "TANK") || same_text(label, "ARMOR") {
        Some((IconKind::Armor, IconAccent::Faction))
    } else if same_text(label, "MEDIC") {
        Some((IconKind::Medic, IconAccent::Faction))
    } else if same_text(label, "ANTI-TANK") || same_text(label, "ANTITANK") || same_text(
        label,
        "AT",
    ) {
        Some((IconKind::AntiTank, IconAccent::Faction))
    } else if same_text(label, "BUILD") {
        Some((IconKind::Build, IconAccent::Action))
    } else if same_text(label, "UPGRADE") {
        Some((IconKind::Upgrade, IconAccent::Action))
    } else {
        None
    }
}

} // verus!
