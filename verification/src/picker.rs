//! The view description of the embody-unit picker: the selected units to choose from, in
//! selection order, and the numbered row text each is listed under.
use vstd::prelude::*;

use crate::codec::{decimal, decimal_string};

verus! {

/// One selectable row: a label (e.g. `"Tank"`) and whether the unit can be possessed.
#[derive(Clone, Debug, PartialEq)]
pub struct PickerRow {
    pub label: String,
    pub embodiable: bool,
}

/// The open picker: the rows to list, in selection order. Empty means nothing to draw.
#[derive(Clone, Debug, Default, PartialEq)]
pub struct EmbodyPicker {
    pub rows: Vec<PickerRow>,
}

/// The text of row `i` (0-based): its 1-based number in brackets, two spaces, then the label.
pub open spec fn row_text_of(i: nat, label: Seq<char>) -> Seq<char> {
    "["@ + decimal(i + 1) + "]  "@ + label
}

/// The text row `i` (0-based) is listed under, e.g. `"[1]  Tank"`.
pub fn row_text(i: u32, label: &str) -> (r: String)
    ensures
        r@ == row_text_of(i as nat, label@),
{
    let mut s = String::from_str("[");
    let n = decimal_string(i as u64 + 1);
    s.append(n.as_str());
    s.append("]  ");
    s.append(label);
    s
}

} // verus!
