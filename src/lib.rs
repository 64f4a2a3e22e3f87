//! Reconstruction of gameplay events from a live telemetry stream: binary
//! payload decoding, a sliding event window, identity resolution through
//! summon chains, and correlation of aura removals with earlier applications.
//! Alongside sit the in-memory character/guild directory and reference data
//! that the resolver and the tooltips consult.

pub mod bytes;
pub mod payload;
pub mod unit;
pub mod event;
pub mod window;
pub mod dispel;
pub mod stream;
pub mod armory;
pub mod data;
pub mod tooltip;
