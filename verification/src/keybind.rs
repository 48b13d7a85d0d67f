//! The live key-to-action bindings of every rebindable desktop action, with the layered
//! no-shared-keys rule: two actions whose layers can be live at the same time never share a key
//! (the `Command` and `Embodied` layers are mode-exclusive, so they may).
//!
//! The map is invariant-holding: it starts conflict-free, [`KeybindMap::rebind`] refuses any
//! change that would break the rule, and [`KeybindMap::decode`] falls back to the defaults rather
//! than yield an ambiguous map. It persists as the comma-separated key ordinals of every action in
//! persistence order ([`KeybindMap::encode`]).
use vstd::prelude::*;

use crate::codec::{
    chars_of, decimal, decimal_string, free_of, join_with, lemma_parse_decimal, lemma_split_join,
    lemma_split_prefix, lemma_split_trailing_sep, parse_small, parse_unsigned, split_commas, split_on, trim, trim_bounds,
};
use crate::keys::{
    action_layer, action_ordinal, all_actions, default_key, key_at, key_ordinal,
    lemma_action_ordinal_round_trip, lemma_all_actions_ordinals, lemma_key_at_round_trip,
    lemma_key_ordinal_round_trip, lemma_layers_overlap_symmetric, layers_overlap, BindLayer,
    GameAction, KeyId, ACTION_COUNT,
};

verus! {

// ---------------------------------------------------------------------------------------------
// The model: one key per action, indexed by action ordinal.
// ---------------------------------------------------------------------------------------------

/// The layer of the action at ordinal `i`.
pub open spec fn layer_at(i: int) -> BindLayer {
    action_layer(all_actions()[i])
}

/// Actions `i` and `j` hold the same key although their layers can be live together.
pub open spec fn pair_conflicts(keys: Seq<KeyId>, i: int, j: int) -> bool {
    keys[i] == keys[j] && layers_overlap(layer_at(i), layer_at(j))
}

/// Whether any two overlapping-layer actions share a key.
pub open spec fn keys_conflict(keys: Seq<KeyId>) -> bool {
    exists|i: int, j: int| 0 <= i < j < keys.len() && #[trigger] pair_conflicts(keys, i, j)
}

/// The shipped bindings: every action on its default key.
pub open spec fn default_keys() -> Seq<KeyId> {
    Seq::new(ACTION_COUNT as nat, |i: int| default_key(all_actions()[i]))
}

/// Action ordinal `i` is an *other* action than `action`, holds `key`, and fires in a layer
/// that overlaps `action`'s: it would block binding `action` to `key`.
pub open spec fn blocks(keys: Seq<KeyId>, action: GameAction, key: KeyId, i: int) -> bool {
    &&& 0 <= i < ACTION_COUNT
    &&& all_actions()[i] != action
    &&& keys[i] == key
    &&& layers_overlap(layer_at(i), action_layer(action))
}

/// `owner` is the first action in persistence order that blocks binding `action` to `key`
/// (`None`: nothing blocks it).
pub open spec fn first_blocker_is(
    keys: Seq<KeyId>,
    action: GameAction,
    key: KeyId,
    owner: Option<GameAction>,
) -> bool {
    match owner {
        Some(b) => {
            &&& blocks(keys, action, key, action_ordinal(b) as int)
            &&& forall|i: int| 0 <= i < action_ordinal(b) ==> !blocks(keys, action, key, i)
        },
        None => forall|i: int| 0 <= i < ACTION_COUNT ==> !blocks(keys, action, key, i),
    }
}

/// `holder` is the first action in persistence order bound to `key` (`None`: the key is
/// unbound).
pub open spec fn first_holder_is(keys: Seq<KeyId>, key: KeyId, holder: Option<GameAction>) -> bool {
    match holder {
        Some(a) => {
            &&& keys[action_ordinal(a) as int] == key
            &&& forall|i: int| 0 <= i < action_ordinal(a) ==> keys[i] != key
        },
        None => forall|i: int| 0 <= i < ACTION_COUNT ==> keys[i] != key,
    }
}

// ---------------------------------------------------------------------------------------------
// The persisted blob
// ---------------------------------------------------------------------------------------------

/// The decimal ordinal of every bound key, in action order.
pub open spec fn key_fields(keys: Seq<KeyId>) -> Seq<Seq<char>> {
    Seq::new(keys.len(), |i: int| decimal(key_ordinal(keys[i])))
}

/// The encoded blob: the key ordinals of every action, comma-separated.
pub open spec fn encode_keys(keys: Seq<KeyId>) -> Seq<char> {
    join_with(key_fields(keys), ',')
}

/// The key a blob field names: its trimmed text parsed as an unsigned number, read as a key
/// ordinal. `None` when the field is not a number or names no key.
pub open spec fn field_key(field: Seq<char>) -> Option<KeyId> {
    match parse_unsigned(trim(field)) {
        Some(n) => key_at(n as int),
        None => None,
    }
}

/// The bindings a blob spells field by field: field `i` (split on `,`) binds action `i` when it
/// names a key; a missing or unusable field keeps that action's default. Fields past the last
/// action are ignored.
pub open spec fn blob_keys(blob: Seq<char>) -> Seq<KeyId> {
    let fields = split_on(blob, ',');
    Seq::new(
        ACTION_COUNT as nat,
        |i: int|
            if i < fields.len() && field_key(fields[i]) is Some {
                field_key(fields[i])->0
            } else {
                default_key(all_actions()[i])
            },
    )
}

/// The decoded bindings: the blob's bindings, or the defaults if those would share a key
/// between overlapping layers.
pub open spec fn decode_keys(blob: Seq<char>) -> Seq<KeyId> {
    if keys_conflict(blob_keys(blob)) {
        default_keys()
    } else {
        blob_keys(blob)
    }
}

// ---------------------------------------------------------------------------------------------
// Laws
// ---------------------------------------------------------------------------------------------

/// The shipped defaults bind every action and no two overlapping-layer actions share a key
/// (the only shared default, `R`, is held by a command action and an embodied one).
pub proof fn lemma_defaults_conflict_free()
    ensures
        default_keys().len() == ACTION_COUNT,
        !keys_conflict(default_keys()),
        forall|a: GameAction| default_keys()[action_ordinal(a) as int] == #[trigger] default_key(a),
{
    let d = default_keys();
    assert forall|i: int, j: int| 0 <= i < j < d.len() implies !#[trigger] pair_conflicts(
        d,
        i,
        j,
    ) by {
        assert(d[i] == default_key(all_actions()[i]));
        assert(d[j] == default_key(all_actions()[j]));
    }
    assert forall|a: GameAction| d[action_ordinal(a) as int] == #[trigger] default_key(a) by {
        lemma_action_ordinal_round_trip(a);
    }
}

/// Reading back an encoded map gives the same bindings: decoding is the inverse of encoding on
/// every conflict-free map.
pub proof fn lemma_decode_encode(keys: Seq<KeyId>)
    requires
        keys.len() == ACTION_COUNT,
        !keys_conflict(keys),
    ensures
        decode_keys(encode_keys(keys)) == keys,
{
    let fields = key_fields(keys);
    assert forall|i: int| 0 <= i < fields.len() implies free_of(#[trigger] fields[i], ',') by {
        lemma_key_ordinal_round_trip(keys[i]);
        lemma_parse_decimal(key_ordinal(keys[i]));
    }
    lemma_split_join(fields, ',');
    let bk = blob_keys(encode_keys(keys));
    assert forall|i: int| 0 <= i < ACTION_COUNT implies bk[i] == keys[i] by {
        lemma_key_ordinal_round_trip(keys[i]);
        lemma_parse_decimal(key_ordinal(keys[i]));
        assert(split_on(encode_keys(keys), ',')[i] == decimal(key_ordinal(keys[i])));
    }
    assert(bk =~= keys);
}

/// Whatever the blob holds, decoding yields a conflict-free map.
pub proof fn lemma_decode_conflict_free(blob: Seq<char>)
    ensures
        decode_keys(blob).len() == ACTION_COUNT,
        !keys_conflict(decode_keys(blob)),
{
    lemma_defaults_conflict_free();
}

/// Decoding is tolerant field by field: an action whose field is missing (a short, older blob),
/// unparseable or out of range keeps its shipped default key.
pub proof fn lemma_decode_keeps_default_for_unusable_fields(blob: Seq<char>, i: int)
    requires
        0 <= i < ACTION_COUNT,
        i >= split_on(blob, ',').len() || field_key(split_on(blob, ',')[i]) is None,
    ensures
        decode_keys(blob)[i] == default_key(all_actions()[i]),
{
}

/// Fields past the last action never matter: once a blob spells a field for every action,
/// appending more comma-separated fields (say, from a newer build with more actions) decodes to
/// the very same bindings.
pub proof fn lemma_decode_ignores_trailing_fields(blob: Seq<char>, extra: Seq<char>)
    requires
        split_on(blob, ',').len() >= ACTION_COUNT,
    ensures
        decode_keys(blob + seq![','] + extra) == decode_keys(blob),
{
    let x = blob + seq![','];
    lemma_split_trailing_sep(blob, ',');
    lemma_split_prefix(x, extra, ',');
    let f = split_on(blob, ',');
    let g = split_on(x + extra, ',');
    assert forall|i: int| 0 <= i < ACTION_COUNT implies #[trigger] g[i] == f[i] by {
        assert(split_on(x, ',')[i] == f[i]);
    }
    assert(blob_keys(x + extra) =~= blob_keys(blob));
}

/// A blob that rebinds one action, and otherwise names only default keys or nothing usable,
/// decodes to what rebinding that action from the defaults gives: whatever the field count, the
/// named key binds its action as long as nothing live alongside it already holds that key.
pub proof fn lemma_decode_single_rebind(blob: Seq<char>, i: int, key: KeyId)
    requires
        0 <= i < ACTION_COUNT,
        i < split_on(blob, ',').len(),
        field_key(split_on(blob, ',')[i]) == Some(key),
        forall|j: int|
            0 <= j < ACTION_COUNT && j != i && j < split_on(blob, ',').len() ==> {
                let named = #[trigger] field_key(split_on(blob, ',')[j]);
                named is None || named == Some(default_key(all_actions()[j]))
            },
        first_blocker_is(default_keys(), all_actions()[i], key, None),
    ensures
        decode_keys(blob) == default_keys().update(i, key),
{
    lemma_all_actions_ordinals(i);
    lemma_defaults_conflict_free();
    lemma_bind_unblocked_keeps_conflict_free(default_keys(), all_actions()[i], key);
    assert(blob_keys(blob) =~= default_keys().update(i, key));
}

/// The host toggles (ordinals 0 to 2: pause, fullscreen, debug overlay) and the four movement
/// actions (ordinals 5 to 8).
pub open spec fn is_host_or_movement(a: GameAction) -> bool {
    action_ordinal(a) <= 2 || (5 <= action_ordinal(a) && action_ordinal(a) <= 8)
}

/// The command-view actions: embody (ordinal 3) and the order menu, order slots, build, train
/// and upgrade actions (ordinals 10 to 24).
pub open spec fn is_command_view(a: GameAction) -> bool {
    action_ordinal(a) == 3 || (10 <= action_ordinal(a) && action_ordinal(a) <= 24)
}

/// The embodied actions: surface (ordinal 4), jump (9), crouch, reload and fire mode (25 to 27).
pub open spec fn is_embodied_only(a: GameAction) -> bool {
    action_ordinal(a) == 4 || action_ordinal(a) == 9 || (25 <= action_ordinal(a)
        && action_ordinal(a) <= 27)
}

/// Which actions may share a key: a host toggle or movement action clashes with every other
/// action; two command-view actions clash, as do two embodied ones; a command-view action and an
/// embodied one never clash, since the two views are never live together.
pub proof fn lemma_layer_sharing_rule(a: GameAction, b: GameAction)
    ensures
        is_host_or_movement(a) ==> layers_overlap(action_layer(a), action_layer(b))
            && layers_overlap(action_layer(b), action_layer(a)),
        is_command_view(a) && is_command_view(b) ==> layers_overlap(
            action_layer(a),
            action_layer(b),
        ),
        is_embodied_only(a) && is_embodied_only(b) ==> layers_overlap(
            action_layer(a),
            action_layer(b),
        ),
        is_command_view(a) && is_embodied_only(b) ==> !layers_overlap(
            action_layer(a),
            action_layer(b),
        ) && !layers_overlap(action_layer(b), action_layer(a)),
        is_host_or_movement(a) || is_command_view(a) || is_embodied_only(a),
{
    match a {
        GameAction::Pause => {},
        GameAction::ToggleFullscreen => {},
        GameAction::ToggleDebugOverlay => {},
        _ => {},
    }
}

/// A key held by a host toggle or a movement action cannot be taken by any other action: that
/// action blocks the rebind, so `rebind` answers with a conflict.
pub proof fn lemma_global_key_blocks_every_rebind(keys: Seq<KeyId>, holder: GameAction, action: GameAction)
    requires
        keys.len() == ACTION_COUNT,
        is_host_or_movement(holder),
        holder != action,
    ensures
        blocks(keys, action, keys[action_ordinal(holder) as int], action_ordinal(holder) as int),
{
    lemma_action_ordinal_round_trip(holder);
    lemma_layer_sharing_rule(holder, action);
}

/// Binding an action to a key nothing blocks keeps a conflict-free map conflict-free.
pub proof fn lemma_bind_unblocked_keeps_conflict_free(
    keys: Seq<KeyId>,
    action: GameAction,
    key: KeyId,
)
    requires
        keys.len() == ACTION_COUNT,
        !keys_conflict(keys),
        first_blocker_is(keys, action, key, None),
    ensures
        !keys_conflict(keys.update(action_ordinal(action) as int, key)),
{
    let p = action_ordinal(action) as int;
    lemma_action_ordinal_round_trip(action);
    let nk = keys.update(p, key);
    assert forall|i: int, j: int| 0 <= i < j < nk.len() implies !#[trigger] pair_conflicts(
        nk,
        i,
        j,
    ) by {
        if i == p {
            lemma_all_actions_ordinals(j);
            assert(!blocks(keys, action, key, j));
            lemma_layers_overlap_symmetric(layer_at(j), action_layer(action));
        } else if j == p {
            lemma_all_actions_ordinals(i);
            assert(!blocks(keys, action, key, i));
        } else {
            assert(!pair_conflicts(keys, i, j));
        }
    }
}

/// The first holder of the key bound to `a` exists and holds that same key: the reverse lookup
/// of a binding always resolves to an action bound to it.
pub proof fn lemma_holder_of_bound_key(keys: Seq<KeyId>, a: GameAction, holder: Option<GameAction>)
    requires
        keys.len() == ACTION_COUNT,
        first_holder_is(keys, keys[action_ordinal(a) as int], holder),
    ensures
        holder is Some,
        keys[action_ordinal(holder->0) as int] == keys[action_ordinal(a) as int],
        action_ordinal(holder->0) <= action_ordinal(a),
{
    lemma_action_ordinal_round_trip(a);
}

// ---------------------------------------------------------------------------------------------
// Executable map
// ---------------------------------------------------------------------------------------------

/// The outcome of a [`KeybindMap::rebind`] attempt.
#[derive(Clone, Copy, PartialEq, Eq, Debug, Structural)]
pub enum RebindOutcome {
    /// The action was bound to the new key.
    Bound,
    /// The action already held that key: nothing changed.
    Unchanged,
    /// Rejected: the key is held by an action in an overlapping layer (named here). The map is
    /// left untouched.
    Conflict(GameAction),
}

/// The live bindings: one [`KeyId`] per action, indexed by [`GameAction::index`]. Never holds
/// two overlapping-layer actions on one key.
#[derive(Clone, Copy, PartialEq, Eq, Debug)]
pub struct KeybindMap {
    keys: [KeyId; ACTION_COUNT],
}

impl View for KeybindMap {
    type V = Seq<KeyId>;

    closed spec fn view(&self) -> Seq<KeyId> {
        self.keys@
    }
}

/// Whether two overlapping-layer actions share a key in `keys`.
fn conflict_in(keys: &[KeyId; ACTION_COUNT]) -> (r: bool)
    ensures
        r == keys_conflict(keys@),
{
    let mut i: usize = 0;
    while i < ACTION_COUNT
        invariant
            i <= ACTION_COUNT,
            keys@.len() == ACTION_COUNT,
            forall|p: int, q: int|
                0 <= p < i && p < q < ACTION_COUNT ==> !#[trigger] pair_conflicts(keys@, p, q),
        decreases ACTION_COUNT - i,
    {
        let li = GameAction::nth(i).layer();
        let mut j: usize = i + 1;
        while j < ACTION_COUNT
            invariant
                i < ACTION_COUNT,
                i < j <= ACTION_COUNT,
                keys@.len() == ACTION_COUNT,
                li == layer_at(i as int),
                forall|p: int, q: int|
                    0 <= p < i && p < q < ACTION_COUNT ==> !#[trigger] pair_conflicts(keys@, p, q),
                forall|q: int| i < q < j ==> !#[trigger] pair_conflicts(keys@, i as int, q),
            decreases ACTION_COUNT - j,
        {
            let lj = GameAction::nth(j).layer();
            if keys[i] == keys[j] && li.conflicts_with(lj) {
                assert(pair_conflicts(keys@, i as int, j as int));
                return true;
            }
            j = j + 1;
        }
        i = i + 1;
    }
    false
}

/// The shipped default bindings.
fn default_key_array() -> (r: [KeyId; ACTION_COUNT])
    ensures
        r@ == default_keys(),
{
    let mut keys = [KeyId::Escape;ACTION_COUNT];
    let mut i: usize = 0;
    while i < ACTION_COUNT
        invariant
            i <= ACTION_COUNT,
            keys@.len() == ACTION_COUNT,
            forall|k: int| 0 <= k < i ==> keys@[k] == #[trigger] default_keys()[k],
        decreases ACTION_COUNT - i,
    {
        keys[i] = GameAction::nth(i).default_key();
        i = i + 1;
    }
    assert(keys@ =~= default_keys());
    keys
}

impl KeybindMap {
    /// Every live map is conflict-free.
    #[verifier::type_invariant]
    spec fn conflict_free(self) -> bool {
        !keys_conflict(self.keys@)
    }

    /// The bindings have one key per action.
    pub proof fn lemma_len(&self)
        ensures
            self@.len() == ACTION_COUNT,
    {
    }

    /// The key currently bound to `action`.
    pub fn key_for(&self, action: GameAction) -> (r: KeyId)
        ensures
            r == self@[action_ordinal(action) as int],
    {
        self.keys[action.index()]
    }

    /// The first action (in `GameAction::ALL` order) bound to `key`, if any. A key shared across
    /// the mode-exclusive layers resolves to its earlier (command-layer) owner.
    pub fn action_for(&self, key: KeyId) -> (r: Option<GameAction>)
        ensures
            first_holder_is(self@, key, r),
    {
        let mut i: usize = 0;
        while i < ACTION_COUNT
            invariant
                i <= ACTION_COUNT,
                self.keys@.len() == ACTION_COUNT,
                forall|k: int| 0 <= k < i ==> self.keys@[k] != key,
            decreases ACTION_COUNT - i,
        {
            if self.keys[i] == key {
                return Some(GameAction::nth(i));
            }
            i = i + 1;
        }
        None
    }

    /// The first *other* action holding `key` whose layer overlaps `action`'s: the binding that
    /// would block `action` from taking `key`. `None` when the key is free for `action`.
    pub fn conflicting_owner(&self, action: GameAction, key: KeyId) -> (r: Option<GameAction>)
        ensures
            first_blocker_is(self@, action, key, r),
    {
        let la = action.layer();
        let mut i: usize = 0;
        while i < ACTION_COUNT
            invariant
                i <= ACTION_COUNT,
                self.keys@.len() == ACTION_COUNT,
                la == action_layer(action),
                forall|k: int| 0 <= k < i ==> !blocks(self.keys@, action, key, k),
            decreases ACTION_COUNT - i,
        {
            let b = GameAction::nth(i);
            if b != action && self.keys[i] == key && b.layer().conflicts_with(la) {
                return Some(b);
            }
            i = i + 1;
        }
        None
    }

    /// Attempt to bind `action` to `key`, upholding the layered no-shared-keys rule: `Unchanged`
    /// if it already holds the key, `Conflict(owner)` (map untouched) if an overlapping-layer
    /// action owns it, otherwise the key is assigned and the result is `Bound`.
    pub fn rebind(&mut self, action: GameAction, key: KeyId) -> (r: RebindOutcome)
        ensures
            old(self)@[action_ordinal(action) as int] == key ==> r == RebindOutcome::Unchanged
                && final(self)@ == old(self)@,
            old(self)@[action_ordinal(action) as int] != key ==> match r {
                RebindOutcome::Unchanged => false,
                RebindOutcome::Conflict(owner) => first_blocker_is(
                    old(self)@,
                    action,
                    key,
                    Some(owner),
                ) && final(self)@ == old(self)@,
                RebindOutcome::Bound => first_blocker_is(old(self)@, action, key, None)
                    && final(self)@ == old(self)@.update(action_ordinal(action) as int, key),
            },
            !keys_conflict(final(self)@),
    {
        proof {
            use_type_invariant(&*self);
        }
        let p = action.index();
        if self.keys[p] == key {
            return RebindOutcome::Unchanged;
        }
        if let Some(owner) = self.conflicting_owner(action, key) {
            return RebindOutcome::Conflict(owner);
        }
        let mut keys = self.keys;
        keys[p] = key;
        proof {
            lemma_bind_unblocked_keeps_conflict_free(self.keys@, action, key);
            assert(keys@ =~= self.keys@.update(p as int, key));
        }
        *self = KeybindMap { keys };
        RebindOutcome::Bound
    }

    /// Restore every action to its shipped default binding.
    pub fn reset(&mut self)
        ensures
            final(self)@ == default_keys(),
    {
        *self = KeybindMap::default();
    }

    /// Whether any two overlapping-layer actions share a key. A live map never does.
    pub fn has_conflict(&self) -> (r: bool)
        ensures
            r == keys_conflict(self@),
            !r,
    {
        proof {
            use_type_invariant(self);
        }
        conflict_in(&self.keys)
    }

    /// Encode the map as each action's key ordinal, in `GameAction::ALL` order, comma-separated.
    pub fn encode(&self) -> (r: String)
        ensures
            r@ == encode_keys(self@),
    {
        let ghost fields = key_fields(self.keys@);
        let mut out = String::new();
        let mut i: usize = 0;
        proof {
            reveal_strlit(",");
        }
        while i < ACTION_COUNT
            invariant
                i <= ACTION_COUNT,
                self.keys@.len() == ACTION_COUNT,
                fields == key_fields(self.keys@),
                out@ == join_with(fields.take(i as int), ','),
                ","@ == seq![','],
            decreases ACTION_COUNT - i,
        {
            let n = self.keys[i].index();
            let d = decimal_string(n as u64);
            let ghost before = out@;
            if i > 0 {
                out.append(",");
            }
            out.append(d.as_str());
            assert(fields.take(i + 1).drop_last() =~= fields.take(i as int));
            assert(fields.take(i + 1).last() == fields[i as int]);
            if i == 0 {
                assert(join_with(fields.take(1), ',') == fields.take(1)[0]);
                assert(out@ =~= join_with(fields.take(1), ','));
            } else {
                assert(out@ =~= before + seq![','] + fields[i as int]);
            }
            i = i + 1;
        }
        assert(fields.take(ACTION_COUNT as int) =~= fields);
        out
    }

    /// Tolerantly decode an [`encode`](Self::encode) string. Every field that is missing,
    /// unparseable, or an out-of-range ordinal keeps that action's shipped default; if the result
    /// would let two overlapping-layer actions share a key, the whole map falls back to the
    /// defaults. Never panics.
    pub fn decode(s: &str) -> (r: KeybindMap)
        ensures
            r@ == decode_keys(s@),
    {
        let chars = chars_of(s);
        let fields = split_commas(&chars);
        let ghost sp = split_on(s@, ',');
        let mut keys = default_key_array();
        let mut i: usize = 0;
        while i < ACTION_COUNT
            invariant
                i <= ACTION_COUNT,
                keys@.len() == ACTION_COUNT,
                chars@ == s@,
                sp == split_on(s@, ','),
                fields@.len() == sp.len(),
                forall|k: int| 0 <= k < fields@.len() ==> (#[trigger] fields@[k])@ == sp[k],
                forall|k: int| 0 <= k < i ==> keys@[k] == #[trigger] blob_keys(s@)[k],
                forall|k: int| i <= k < ACTION_COUNT ==> keys@[k] == #[trigger] default_keys()[k],
            decreases ACTION_COUNT - i,
        {
            assert(keys@[i as int] == default_keys()[i as int]);
            if i < fields.len() {
                let f = &fields[i];
                assert(f@ == sp[i as int]);
                let (a, b) = trim_bounds(f);
                let ghost t = trim(f@);
                assert(f@.subrange(a as int, b as int) == t);
                match parse_small(f, a, b) {
                    Some(n) => {
                        assert(parse_unsigned(t) == Some(n as nat));
                        assert(field_key(sp[i as int]) == key_at(n as int));
                        if let Some(k) = KeyId::from_index(n as usize) {
                            keys[i] = k;
                        }
                    },
                    None => {
                        proof {
                            if parse_unsigned(t) is Some {
                                lemma_key_at_round_trip(parse_unsigned(t)->0 as int);
                            }
                        }
                        assert(field_key(sp[i as int]) is None);
                    },
                }
                assert(keys@[i as int] == blob_keys(s@)[i as int]);
            } else {
                assert(keys@[i as int] == default_keys()[i as int]);
                assert(blob_keys(s@)[i as int] == default_key(all_actions()[i as int]));
            }
            i = i + 1;
        }
        assert(keys@ =~= blob_keys(s@));
        if conflict_in(&keys) {
            proof {
                lemma_defaults_conflict_free();
            }
            KeybindMap::default()
        } else {
            KeybindMap { keys }
        }
    }
}

impl Default for KeybindMap {
    /// The shipped defaults: each action bound to its [`GameAction::default_key`].
    fn default() -> (r: KeybindMap)
        ensures
            r@ == default_keys(),
    {
        proof {
            lemma_defaults_conflict_free();
        }
        KeybindMap { keys: default_key_array() }
    }
}

} // verus!
