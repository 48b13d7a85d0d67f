//! The shared linear fade-out clock of tick-stamped presentation effects (muzzle flash, impact
//! burst, hitmarker): an event stamps a tick, reads full-bright on that tick and ramps to dark
//! over a fixed window. This module decides *whether* a fade is live and how old it is; the
//! brightness is `1 - age / duration` on the presentation side.
use vstd::prelude::*;

verus! {

/// The age of a live fade: the effect started (`Some`), not in the future, and less than
/// `duration_ticks` ago. `None` whenever the fade is dark: never started, future-stamped, at or
/// past the window, or a zero-length window.
pub open spec fn live_age(started_tick: Option<u64>, tick: u64, duration_ticks: u64) -> Option<u64> {
    match started_tick {
        None => None,
        Some(started) => if tick < started || tick - started >= duration_ticks {
            None
        } else {
            Some((tick - started) as u64)
        },
    }
}

/// How many ticks a fade has been running, or `None` when it is dark.
pub fn fade_age(started_tick: Option<u64>, tick: u64, duration_ticks: u64) -> (r: Option<u64>)
    ensures
        r == live_age(started_tick, tick, duration_ticks),
        r is Some ==> r->0 < duration_ticks,
{
    match started_tick {
        None => None,
        Some(started) => {
            if tick < started {
                return None;
            }
            let age = tick - started;
            if age >= duration_ticks {
                None
            } else {
                Some(age)
            }
        },
    }
}

} // verus!
