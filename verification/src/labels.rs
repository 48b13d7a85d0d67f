//! Laws tying the rebind editor's labels to what they name: a key's label spells the key (its
//! function-key number, letter or digit, and for the paged navigation keys the arrow they page
//! along), and an action row's label names its order slot or the arrow direction it moves in.
use vstd::prelude::*;

use crate::codec::decimal;
use crate::keys::{
    action_label, action_order_slot, key_label, key_ordinal, GameAction, KeyId,
};

verus! {

/// The uppercase ASCII letter `n` places after `A`.
pub open spec fn upper_letter(n: int) -> char {
    (('A' as int) + n) as char
}

/// `s` with its ASCII capitals turned to lower case.
pub open spec fn ascii_lower(s: Seq<char>) -> Seq<char> {
    Seq::new(
        s.len(),
        |i: int|
            if 'A' <= s[i] && s[i] <= 'Z' {
                ((s[i] as int) + 32) as char
            } else {
                s[i]
            },
    )
}

/// The twelve function keys (ordinals 0 to 11) read `F` and their number, `F1` to `F12`.
pub proof fn lemma_function_key_labels(k: KeyId)
    requires
        key_ordinal(k) < 12,
    ensures
        key_label(k) == seq!['F'] + decimal((key_ordinal(k) + 1) as nat),
{
    match k {
        KeyId::F1 => {
            reveal_strlit("F1");
        },
        KeyId::F2 => {
            reveal_strlit("F2");
        },
        KeyId::F3 => {
            reveal_strlit("F3");
        },
        KeyId::F4 => {
            reveal_strlit("F4");
        },
        KeyId::F5 => {
            reveal_strlit("F5");
        },
        KeyId::F6 => {
            reveal_strlit("F6");
        },
        KeyId::F7 => {
            reveal_strlit("F7");
        },
        KeyId::F8 => {
            reveal_strlit("F8");
        },
        KeyId::F9 => {
            reveal_strlit("F9");
        },
        KeyId::F10 => {
            reveal_strlit("F10");
            assert(decimal(1) == seq!['1']);
        },
        KeyId::F11 => {
            reveal_strlit("F11");
            assert(decimal(1) == seq!['1']);
        },
        KeyId::F12 => {
            reveal_strlit("F12");
            assert(decimal(1) == seq!['1']);
        },
        _ => {},
    }
}

/// The letter keys (ordinals 12 to 37) read as their own capital letter, `A` to `Z` in order.
pub proof fn lemma_letter_key_labels(k: KeyId)
    requires
        12 <= key_ordinal(k) < 38,
    ensures
        key_label(k) == seq![upper_letter(key_ordinal(k) - 12)],
{
    match k {
        KeyId::A => {
            reveal_strlit("A");
        },
        KeyId::B => {
            reveal_strlit("B");
        },
        KeyId::C => {
            reveal_strlit("C");
        },
        KeyId::D => {
            reveal_strlit("D");
        },
        KeyId::E => {
            reveal_strlit("E");
        },
        KeyId::F => {
            reveal_strlit("F");
        },
        KeyId::G => {
            reveal_strlit("G");
        },
        KeyId::H => {
            reveal_strlit("H");
        },
        KeyId::I => {
            reveal_strlit("I");
        },
        KeyId::J => {
            reveal_strlit("J");
        },
        KeyId::K => {
            reveal_strlit("K");
        },
        KeyId::L => {
            reveal_strlit("L");
        },
        KeyId::M => {
            reveal_strlit("M");
        },
        KeyId::N => {
            reveal_strlit("N");
        },
        KeyId::O => {
            reveal_strlit("O");
        },
        KeyId::P => {
            reveal_strlit("P");
        },
        KeyId::Q => {
            reveal_strlit("Q");
        },
        KeyId::R => {
            reveal_strlit("R");
        },
        KeyId::S => {
            reveal_strlit("S");
        },
        KeyId::T => {
            reveal_strlit("T");
        },
        KeyId::U => {
            reveal_strlit("U");
        },
        KeyId::V => {
            reveal_strlit("V");
        },
        KeyId::W => {
            reveal_strlit("W");
        },
        KeyId::X => {
            reveal_strlit("X");
        },
        KeyId::Y => {
            reveal_strlit("Y");
        },
        KeyId::Z => {
            reveal_strlit("Z");
        },
        _ => {},
    }
}

/// The digit keys (ordinals 38 to 47) read as their digit, `0` to `9` in order.
pub proof fn lemma_digit_key_labels(k: KeyId)
    requires
        38 <= key_ordinal(k) < 48,
    ensures
        key_label(k) == decimal((key_ordinal(k) - 38) as nat),
{
    match k {
        KeyId::Digit0 => {
            reveal_strlit("0");
        },
        KeyId::Digit1 => {
            reveal_strlit("1");
        },
        KeyId::Digit2 => {
            reveal_strlit("2");
        },
        KeyId::Digit3 => {
            reveal_strlit("3");
        },
        KeyId::Digit4 => {
            reveal_strlit("4");
        },
        KeyId::Digit5 => {
            reveal_strlit("5");
        },
        KeyId::Digit6 => {
            reveal_strlit("6");
        },
        KeyId::Digit7 => {
            reveal_strlit("7");
        },
        KeyId::Digit8 => {
            reveal_strlit("8");
        },
        KeyId::Digit9 => {
            reveal_strlit("9");
        },
        _ => {},
    }
}

/// The paged navigation keys are named after the arrow they page along: `PageUp` is `Page`
/// followed by the up arrow's label, `PageDown` by the down arrow's, and the two arrows are
/// labelled differently.
pub proof fn lemma_page_keys_follow_their_arrow()
    ensures
        key_label(KeyId::PageUp) == "Page"@ + key_label(KeyId::Up),
        key_label(KeyId::PageDown) == "Page"@ + key_label(KeyId::Down),
        key_label(KeyId::Up) != key_label(KeyId::Down),
{
    reveal_strlit("Page");
    reveal_strlit("PageUp");
    reveal_strlit("PageDown");
    reveal_strlit("Up");
    reveal_strlit("Down");
    assert(key_label(KeyId::PageUp) =~= "Page"@ + key_label(KeyId::Up));
    assert(key_label(KeyId::PageDown) =~= "Page"@ + key_label(KeyId::Down));
    assert(key_label(KeyId::Up).len() != key_label(KeyId::Down).len());
}

/// The order-slot rows are numbered from one: the action on wire slot `n` reads `Order slot`
/// and `n + 1`.
pub proof fn lemma_order_slot_labels(a: GameAction)
    requires
        action_order_slot(a) is Some,
    ensures
        action_label(a) == "Order slot "@ + decimal((action_order_slot(a)->0 + 1) as nat),
{
    match a {
        GameAction::OrderSlot1 => {
            reveal_strlit("Order slot 1");
            reveal_strlit("Order slot ");
        },
        GameAction::OrderSlot2 => {
            reveal_strlit("Order slot 2");
            reveal_strlit("Order slot ");
        },
        GameAction::OrderSlot3 => {
            reveal_strlit("Order slot 3");
            reveal_strlit("Order slot ");
        },
        GameAction::OrderSlot4 => {
            reveal_strlit("Order slot 4");
            reveal_strlit("Order slot ");
        },
        GameAction::OrderSlot5 => {
            reveal_strlit("Order slot 5");
            reveal_strlit("Order slot ");
        },
        GameAction::OrderSlot6 => {
            reveal_strlit("Order slot 6");
            reveal_strlit("Order slot ");
        },
        GameAction::OrderSlot7 => {
            reveal_strlit("Order slot 7");
            reveal_strlit("Order slot ");
        },
        GameAction::OrderSlot8 => {
            reveal_strlit("Order slot 8");
            reveal_strlit("Order slot ");
        },
        GameAction::OrderSlot9 => {
            reveal_strlit("Order slot 9");
            reveal_strlit("Order slot ");
        },
        GameAction::OrderSlot10 => {
            reveal_strlit("Order slot 10");
            reveal_strlit("Order slot ");
            assert(decimal(1) == seq!['1']);
        },
        _ => {},
    }
}

/// Each movement row names the direction of the arrow key pointing the same way: the sideways
/// rows are `Move` and the left / right arrow's name, the forward / back rows end in `pan` and
/// the up / down arrow's name, in lower case.
pub proof fn lemma_movement_labels_name_their_arrow()
    ensures
        action_label(GameAction::MoveLeft) == "Move "@ + ascii_lower(key_label(KeyId::Left)),
        action_label(GameAction::MoveRight) == "Move "@ + ascii_lower(key_label(KeyId::Right)),
        action_label(GameAction::MoveUp).subrange(
            action_label(GameAction::MoveUp).len() - 6,
            action_label(GameAction::MoveUp).len() as int,
        ) == "pan "@ + ascii_lower(key_label(KeyId::Up)),
        action_label(GameAction::MoveDown).subrange(
            action_label(GameAction::MoveDown).len() - 8,
            action_label(GameAction::MoveDown).len() as int,
        ) == "pan "@ + ascii_lower(key_label(KeyId::Down)),
{
    reveal_strlit("Move ");
    reveal_strlit("pan ");
    reveal_strlit("Move left");
    reveal_strlit("Move right");
    reveal_strlit("Move forward / pan up");
    reveal_strlit("Move back / pan down");
    reveal_strlit("Left");
    reveal_strlit("Right");
    reveal_strlit("Up");
    reveal_strlit("Down");
    assert(action_label(GameAction::MoveLeft) =~= "Move "@ + ascii_lower(key_label(KeyId::Left)));
    assert(action_label(GameAction::MoveRight) =~= "Move "@ + ascii_lower(
        key_label(KeyId::Right),
    ));
    assert(action_label(GameAction::MoveUp).subrange(
        action_label(GameAction::MoveUp).len() - 6,
        action_label(GameAction::MoveUp).len() as int,
    ) =~= "pan "@ + ascii_lower(key_label(KeyId::Up)));
    assert(action_label(GameAction::MoveDown).subrange(
        action_label(GameAction::MoveDown).len() - 8,
        action_label(GameAction::MoveDown).len() as int,
    ) =~= "pan "@ + ascii_lower(key_label(KeyId::Down)));
}

} // verus!
