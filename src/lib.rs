//! Core of a controller redirector: tracks physical pads, mirrors them onto a
//! virtual controller bus, and gates start-up on a companion process.
//!
//! Everything here works on plain values. The platform input layer, the
//! virtual-bus transport, dialogs and timers live with the caller, which feeds
//! events in and carries out the actions that come back.

pub mod companion;
pub mod device;
pub mod gate;
pub mod handler;
pub mod input;
pub mod signals;
pub mod sdl_device_info;
pub mod sources;
pub mod tray;
pub mod waker;
