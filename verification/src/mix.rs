//! The integer side of the shared audio render path: the voice cap, which queued voices survive
//! when a new one is pushed, and the legacy one-shot id mapping every backend's fire-and-forget
//! path agrees on.
use vstd::prelude::*;

use crate::platform::SoundId;

verus! {

/// Max simultaneous voices a mixer keeps; shared by every backend so the cap behaves identically.
pub const MAX_VOICES: usize = 24;

/// The sound a legacy opaque one-shot id names: ids 1 to 5 name unit-down, base-hit, capture,
/// production-ready and hit-confirm; every other id is gunfire.
pub open spec fn oneshot_sound_of(sound_id: u32) -> SoundId {
    if sound_id == 1 {
        SoundId::UnitDown
    } else if sound_id == 2 {
        SoundId::BaseHit
    } else if sound_id == 3 {
        SoundId::Capture
    } else if sound_id == 4 {
        SoundId::ProductionReady
    } else if sound_id == 5 {
        SoundId::HitConfirm
    } else {
        SoundId::Gunfire
    }
}

/// Map the legacy opaque `play_oneshot` id onto a [`SoundId`].
pub fn oneshot_sound(sound_id: u32) -> (r: SoundId)
    ensures
        r == oneshot_sound_of(sound_id),
{
    match sound_id {
        1 => SoundId::UnitDown,
        2 => SoundId::BaseHit,
        3 => SoundId::Capture,
        4 => SoundId::ProductionReady,
        5 => SoundId::HitConfirm,
        _ => SoundId::Gunfire,
    }
}

/// The positions, in queue order, of the voices that have not finished playing.
pub open spec fn unfinished_indices(finished: Seq<bool>) -> Seq<int>
    decreases finished.len(),
{
    if finished.len() == 0 {
        Seq::empty()
    } else {
        let earlier = unfinished_indices(finished.drop_last());
        if finished.last() {
            earlier
        } else {
            earlier.push(finished.len() - 1)
        }
    }
}

/// The positions, in queue order, of the queued voices a mixer keeps when one more voice is
/// pushed, given which of them have finished: below the cap every voice stays; at the cap the
/// finished ones are pruned, and if that still leaves the mixer full the oldest survivor is
/// dropped too.
pub open spec fn push_survivors_of(finished: Seq<bool>) -> Seq<int> {
    if finished.len() < MAX_VOICES {
        Seq::new(finished.len(), |i: int| i)
    } else {
        let live = unfinished_indices(finished);
        if live.len() >= MAX_VOICES {
            live.drop_first()
        } else {
            live
        }
    }
}

/// `unfinished_indices` lists, in ascending order, exactly the positions whose voice is not
/// finished, so it is never longer than the queue.
pub proof fn lemma_unfinished_indices(finished: Seq<bool>)
    ensures
        unfinished_indices(finished).len() <= finished.len(),
        forall|k: int|
            0 <= k < unfinished_indices(finished).len() ==> {
                let i = #[trigger] unfinished_indices(finished)[k];
                0 <= i < finished.len() && !finished[i]
            },
        forall|k: int, l: int|
            0 <= k < l < unfinished_indices(finished).len() ==> unfinished_indices(finished)[k]
                < unfinished_indices(finished)[l],
        forall|i: int|
            0 <= i < finished.len() && !finished[i] ==> unfinished_indices(finished).contains(i),
    decreases finished.len(),
{
    if finished.len() > 0 {
        let earlier = finished.drop_last();
        lemma_unfinished_indices(earlier);
        let u = unfinished_indices(finished);
        let e = unfinished_indices(earlier);
        assert forall|i: int| 0 <= i < finished.len() && !finished[i] implies u.contains(i) by {
            if i < finished.len() - 1 {
                assert(!earlier[i]);
                let k = choose|k: int| 0 <= k < e.len() && e[k] == i;
                assert(u[k] == i);
            } else {
                assert(u[u.len() - 1] == i);
            }
        }
    }
}

/// The mixer's cap holds across a push: a mixer holding at most [`MAX_VOICES`] voices keeps at
/// most `MAX_VOICES - 1` of them, so with the new voice it is still within the cap.
pub proof fn lemma_push_keeps_cap(finished: Seq<bool>)
    requires
        finished.len() <= MAX_VOICES,
    ensures
        push_survivors_of(finished).len() + 1 <= MAX_VOICES,
{
    lemma_unfinished_indices(finished);
}

/// A push drops a voice that is still playing only when every queued voice is still playing
/// and the mixer is full: otherwise every unfinished voice survives.
pub proof fn lemma_push_spares_live_voices(finished: Seq<bool>, i: int)
    requires
        finished.len() <= MAX_VOICES,
        0 <= i < finished.len(),
        !finished[i],
        finished.len() < MAX_VOICES || exists|j: int| 0 <= j < finished.len() && finished[j],
    ensures
        push_survivors_of(finished).contains(i),
{
    lemma_unfinished_indices(finished);
    if finished.len() >= MAX_VOICES {
        let live = unfinished_indices(finished);
        let j = choose|j: int| 0 <= j < finished.len() && finished[j];
        if live.len() >= MAX_VOICES {
            // Every position would then be live, `j` among them.
            assert forall|k: int| 0 <= k < live.len() implies live[k] == k by {
                lemma_ascending_fill(live, finished.len() as int, k);
            }
            assert(live[j] == j);
            assert(false);
        }
    } else {
        assert(push_survivors_of(finished)[i] == i);
    }
}

/// A strictly ascending sequence of `n` values in `[0, n)` is `0, 1, ..., n - 1`.
proof fn lemma_ascending_fill(s: Seq<int>, n: int, k: int)
    requires
        s.len() == n,
        forall|a: int| 0 <= a < s.len() ==> 0 <= #[trigger] s[a] < n,
        forall|a: int, b: int| 0 <= a < b < s.len() ==> s[a] < s[b],
        0 <= k < n,
    ensures
        s[k] == k,
{
    lemma_ascending_lower(s, k);
    lemma_ascending_upper(s, n, k);
}

/// In a strictly ascending sequence of non-negative values, the `k`-th is at least `k`.
proof fn lemma_ascending_lower(s: Seq<int>, k: int)
    requires
        forall|a: int| 0 <= a < s.len() ==> 0 <= #[trigger] s[a],
        forall|a: int, b: int| 0 <= a < b < s.len() ==> s[a] < s[b],
        0 <= k < s.len(),
    ensures
        s[k] >= k,
    decreases k,
{
    if k > 0 {
        lemma_ascending_lower(s, k - 1);
        assert(s[k - 1] < s[k]);
    }
}

/// In a strictly ascending sequence of `n` values below `n`, the `k`-th is at most `k`.
proof fn lemma_ascending_upper(s: Seq<int>, n: int, k: int)
    requires
        s.len() == n,
        forall|a: int| 0 <= a < s.len() ==> #[trigger] s[a] < n,
        forall|a: int, b: int| 0 <= a < b < s.len() ==> s[a] < s[b],
        0 <= k < n,
    ensures
        s[k] <= k,
    decreases n - k,
{
    if k < n - 1 {
        lemma_ascending_upper(s, n, k + 1);
        assert(s[k] < s[k + 1]);
    }
}

/// The positions, in queue order, of the queued voices to keep before pushing a new voice,
/// given which of the queued voices have finished.
pub fn push_survivors(finished: &Vec<bool>) -> (r: Vec<usize>)
    ensures
        r@.len() == push_survivors_of(finished@).len(),
        forall|k: int| 0 <= k < r@.len() ==> r@[k] as int == #[trigger] push_survivors_of(finished@)[k],
{
    let n = finished.len();
    let mut kept: Vec<usize> = Vec::new();
    if n < MAX_VOICES {
        let mut i: usize = 0;
        while i < n
            invariant
                i <= n,
                n == finished@.len(),
                kept@.len() == i,
                forall|k: int| 0 <= k < i ==> kept@[k] as int == k,
            decreases n - i,
        {
            kept.push(i);
            i = i + 1;
        }
        return kept;
    }
    let mut i: usize = 0;
    while i < n
        invariant
            i <= n,
            n == finished@.len(),
            kept@.len() == unfinished_indices(finished@.subrange(0, i as int)).len(),
            forall|k: int|
                0 <= k < kept@.len() ==> kept@[k] as int == #[trigger] unfinished_indices(
                    finished@.subrange(0, i as int),
                )[k],
        decreases n - i,
    {
        assert(finished@.subrange(0, i as int + 1).drop_last() =~= finished@.subrange(0, i as int));
        if !finished[i] {
            kept.push(i);
        }
        i = i + 1;
    }
    assert(finished@.subrange(0, n as int) =~= finished@);
    if kept.len() >= MAX_VOICES {
        kept.remove(0);
    }
    kept
}

} // verus!
