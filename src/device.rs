//! The logical controller and the records attached to it.

use vstd::prelude::*;

use crate::input::DeviceState;

verus! {

/// Device type requested from the virtual bus for every pad.
pub const DEFAULT_VIRTUAL_TYPE: &'static str = "xbox360";

/// Which path of the native input layer a raw source was opened through.
#[derive(Clone, Copy, Debug, PartialEq, Eq, Structural)]
pub enum RawKind {
    /// The low-level ("joystick") path; it never reports a bus handle.
    Joystick,
    /// The high-level ("gamepad") path; it can report a bus handle and
    /// yields the samples that are streamed.
    Gamepad,
}

/// One open raw source: the session identifier it was opened under and
/// the path it came through.
#[derive(Clone, Copy, Debug, PartialEq, Eq, Structural)]
pub struct RawSource {
    pub id: u32,
    pub kind: RawKind,
}

/// An endpoint on the virtual bus, as the bus reported it on creation.
#[derive(Clone, Debug)]
pub struct VirtualEndpoint {
    pub bus_id: u32,
    pub dev_id: String,
    pub device_type: String,
    pub vid: String,
    pub pid: String,
}

/// A logical controller, keyed by the raw subsystem's session identifier.
#[derive(Clone, Debug)]
pub struct Device {
    /// Session identifier shared by all raw sources of this pad.
    pub id: u32,
    /// Bus handle reported by the platform (0 = unresolved).
    pub steam_handle: u64,
    /// Last normalized input snapshot.
    pub state: DeviceState,
    /// Number of raw sources currently open for this pad.
    pub sdl_device_count: usize,
    /// Device type to request on the virtual bus.
    pub viiper_type: String,
    /// The virtual endpoint, once the bus created one.
    pub viiper_device: Option<VirtualEndpoint>,
    /// Whether the endpoint's stream is open.
    pub viiper_connected: bool,
    /// Bus handle the device held when its endpoint was requested
    /// (0 = no endpoint requested or held).
    pub endpoint_handle: u64,
}

/// A device record for pad `id` with no sources, no handle and no endpoint.
pub open spec fn blank_device(id: u32, viiper_type: String) -> Device {
    Device {
        id,
        steam_handle: 0,
        state: DeviceState::default_spec(),
        sdl_device_count: 0,
        viiper_type,
        viiper_device: None,
        viiper_connected: false,
        endpoint_handle: 0,
    }
}

impl DeviceState {
    /// The all-zero snapshot.
    pub open spec fn default_spec() -> DeviceState {
        DeviceState {
            input: crate::input::InputState { buttons: 0, lt: 0, rt: 0, lx: 0, ly: 0, rx: 0, ry: 0 },
        }
    }

    /// Makes the all-zero snapshot.
    pub fn zeroed() -> (r: DeviceState)
        ensures
            r == DeviceState::default_spec(),
    {
        DeviceState {
            input: crate::input::InputState { buttons: 0, lt: 0, rt: 0, lx: 0, ly: 0, rx: 0, ry: 0 },
        }
    }
}

impl Device {
    /// A record for pad `id`: no sources yet, unresolved, no endpoint, and
    /// the default virtual device type.
    pub fn new(id: u32) -> (r: Device)
        ensures
            r == blank_device(id, r.viiper_type),
            r.viiper_type@ == DEFAULT_VIRTUAL_TYPE@,
    {
        Device {
            id,
            steam_handle: 0,
            state: DeviceState::zeroed(),
            sdl_device_count: 0,
            viiper_type: DEFAULT_VIRTUAL_TYPE.to_string(),
            viiper_device: None,
            viiper_connected: false,
            endpoint_handle: 0,
        }
    }
}

impl Default for Device {
    fn default() -> (r: Device)
        ensures
            r == blank_device(0, r.viiper_type),
            r.viiper_type@ == DEFAULT_VIRTUAL_TYPE@,
    {
        Device::new(0)
    }
}

} // verus!
