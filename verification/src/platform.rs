//! The platform seam's integer vocabulary: the sound ids every backend mixes, the coarse thermal
//! pressure buckets, and the thin window / GPU / storage / transport traits the backends
//! implement. The float-carrying parts of the seam (clock, input frames, audio cues, power state)
//! live with the platform glue.
use vstd::prelude::*;

verus! {

/// A distinct game sound. The embodied audio mix is built from these; backends and the mix
/// layer share this one vocabulary.
#[derive(Clone, Copy, PartialEq, Eq, Debug, Hash, Structural)]
pub enum SoundId {
    /// A weapon firing somewhere on the field.
    Gunfire,
    /// One of your units died.
    UnitDown,
    /// A building of yours is being hit.
    BaseHit,
    /// A control point changed hands.
    Capture,
    /// A queued unit finished production.
    ProductionReady,
    /// The embodied "I hit him" confirmation blip.
    HitConfirm,
}

/// Coarse thermal pressure reported by the platform, collapsed to the four levels the render-cost
/// backoff reasons about. A rendering signal only, never a simulation input.
#[derive(Clone, Copy, PartialEq, Eq, Debug, Hash, Structural)]
pub enum ThermalState {
    /// No thermal pressure: full render freedom.
    Nominal,
    /// Mild warming: trim obvious waste.
    Fair,
    /// Sustained heat: shed render cost.
    Serious,
    /// Throttling imminent or active: keep the game running and cool.
    Critical,
}

impl Default for ThermalState {
    /// No reading yet means no pressure.
    fn default() -> (r: ThermalState)
        ensures
            r == ThermalState::Nominal,
    {
        ThermalState::Nominal
    }
}

/// A platform window / surface and its lifecycle.
pub trait Window {
    fn size(&self) -> (u32, u32);

    fn should_close(&self) -> bool;

    /// Pump native events; returns false when the app should exit.
    fn pump(&mut self) -> bool;
}

/// Render hardware interface: the GPU seam a concrete backend wraps.
pub trait Rhi {
    /// (Re)create the swapchain for a new surface size.
    fn resize(&mut self, width: u32, height: u32);

    /// Begin a frame; false means skip it (e.g. the surface was lost).
    fn begin_frame(&mut self) -> bool;

    /// Present the frame.
    fn end_frame(&mut self);
}

/// Persistent storage (settings, replays).
pub trait Storage {
    fn read(&self, key: &str) -> Option<Vec<u8>>;

    fn write(&mut self, key: &str, bytes: &[u8]);
}

/// Network transport: opaque whole frames out and in, in order per direction; the transport never
/// interprets them.
pub trait Transport {
    /// Hand one complete outbound frame to the transport, verbatim.
    fn send(&mut self, frame: &[u8]);

    /// Drain every inbound frame received since the last poll, in arrival order.
    fn poll(&mut self) -> Vec<Vec<u8>>;
}

} // verus!
