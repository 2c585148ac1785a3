//! The device registry and the virtual-bus bookkeeping around it.
//!
//! The handler owns every open raw source (its handle `H` comes from the
//! caller's native input layer) and the logical devices built from them.
//! Each event returns the bridge work it calls for; the caller performs
//! that work on the transport and reports the outcome as a [`ViiperEvent`].

use std::collections::HashMap;

use vstd::prelude::*;

use crate::device::{blank_device, Device, RawKind, RawSource, VirtualEndpoint, DEFAULT_VIRTUAL_TYPE};
use crate::input::{normalized, rumble_intensity, InputState, PadSample};
use crate::sources::{
    count_sources, detach_index, find_gamepad, find_last_any, find_last_source,
    lemma_count_le_len, lemma_count_push, lemma_count_remove, lemma_count_zero, lemma_detach_index,
    lemma_last_source_of, source_matches,
};

verus! {

broadcast use vstd::std_specs::hash::group_hash_axioms;

/// A request to create a virtual endpoint for a device.
#[derive(Debug)]
pub struct CreateRequest {
    pub device_id: u32,
    /// The bus to add the endpoint to; `None` when no bus exists yet and one
    /// must be created first (and reported with [`ViiperEvent::BusCreated`]).
    pub bus_id: Option<u32>,
    pub device_type: String,
}

/// Work for the caller to carry out on the transport or the native layer.
#[derive(Debug)]
pub enum Action {
    /// Create an endpoint; report `DeviceCreated` or `ErrorCreateDevice`.
    CreateEndpoint(CreateRequest),
    /// Open the endpoint's stream; report `DeviceConnected` or
    /// `ErrorConnectDevice`.
    ConnectEndpoint { device_id: u32, bus_id: u32, dev_id: String },
    /// Send a snapshot over the device's open stream.
    PushState { device_id: u32, input: InputState },
    /// Close and drop the device's stream, if any, and remove `endpoint` from
    /// the bus when one is given.
    Disconnect { device_id: u32, endpoint: Option<VirtualEndpoint> },
    /// Remove an endpoint that no device holds from the bus.
    Discard { endpoint: VirtualEndpoint },
    /// Drive the motors of the raw source at index `source`.
    Rumble { source: usize, low: u16, high: u16 },
}

/// What the transport reports back.
#[derive(Debug)]
pub enum ViiperEvent {
    /// A bus was created for a request that carried no bus.
    BusCreated { bus_id: u32 },
    /// The remote side of a device's stream went away.
    ServerDisconnected { device_id: u32 },
    /// An endpoint was created for the device.
    DeviceCreated { device_id: u32, viiper_device: VirtualEndpoint },
    /// The device's stream is open.
    DeviceConnected { device_id: u32 },
    /// The host asked for force feedback (8-bit motor levels).
    DeviceRumble { device_id: u32, l: u8, r: u8 },
    /// Creating the device's endpoint failed.
    ErrorCreateDevice { device_id: u32 },
    /// Opening the device's stream failed.
    ErrorConnectDevice { device_id: u32 },
}

/// The registry of raw sources and logical devices, with the bridge state.
pub struct EventHandler<H> {
    sources: Vec<RawSource>,
    handles: Vec<H>,
    devices: HashMap<u32, Device>,
    viiper_bus: Option<u32>,
    bridge_enabled: bool,
}

/// What each device record keeps true: its key, its source count, and an
/// endpoint only after a request made while a nonzero bus handle was held.
pub open spec fn device_wf(d: Device, id: u32, n: nat) -> bool {
    &&& d.id == id
    &&& d.sdl_device_count == n
    &&& d.viiper_device is Some ==> d.endpoint_handle != 0
    &&& d.viiper_connected ==> d.viiper_device is Some
}

/// Whether attaching a source with bus-handle candidate `cand` to `prev`
/// triggers endpoint creation: the bridge is on, the device had no handle,
/// the candidate is nonzero, and no endpoint exists.
pub open spec fn attach_creates(prev: Device, cand: u64, enabled: bool) -> bool {
    enabled && cand != 0 && prev.steam_handle == 0 && prev.viiper_device is None
}

/// `prev` after one more source with candidate `cand` was attached.
pub open spec fn attached_device(prev: Device, cand: u64, enabled: bool) -> Device {
    Device {
        sdl_device_count: (prev.sdl_device_count + 1) as usize,
        steam_handle: if prev.steam_handle == 0 && cand != 0 {
            cand
        } else {
            prev.steam_handle
        },
        endpoint_handle: if attach_creates(prev, cand, enabled) {
            cand
        } else {
            prev.endpoint_handle
        },
        ..prev
    }
}

/// The bus-handle candidate of a source: the platform's value for a
/// high-level source, 0 for a low-level one.
pub open spec fn candidate_of(kind: RawKind, candidate: u64) -> u64 {
    match kind {
        RawKind::Gamepad => candidate,
        RawKind::Joystick => 0,
    }
}

/// The teardown owed for a device's endpoint: its stream closed and the
/// endpoint removed from the bus, when it has one.
pub open spec fn teardown_of(prev: Device) -> Option<Action> {
    if prev.viiper_device is Some {
        Some(Action::Disconnect { device_id: prev.id, endpoint: prev.viiper_device })
    } else {
        None
    }
}

/// `prev` after one of its sources was closed while others stay open. When
/// no high-level source of it is left (`teardown`), the endpoint
/// goes and the bus handle returns to unresolved.
pub open spec fn detached_device(prev: Device, teardown: bool) -> Device {
    if teardown {
        Device {
            sdl_device_count: (prev.sdl_device_count - 1) as usize,
            steam_handle: 0,
            viiper_device: None,
            viiper_connected: false,
            endpoint_handle: 0,
            ..prev
        }
    } else {
        Device { sdl_device_count: (prev.sdl_device_count - 1) as usize, ..prev }
    }
}

/// One entry of a handle sweep: pad `e.0`'s high-level source now resolves
/// to bus handle `e.1`. The device takes that handle; when it goes from
/// unresolved to a nonzero handle without an endpoint, creation is requested.
pub open spec fn refresh_step(
    devs: Map<u32, Device>,
    bus: Option<u32>,
    enabled: bool,
    e: (u32, u64),
) -> (Map<u32, Device>, Option<CreateRequest>) {
    if !devs.contains_key(e.0) {
        (devs, None)
    } else {
        let d = devs[e.0];
        let creates = enabled && d.steam_handle == 0 && e.1 != 0 && d.viiper_device is None;
        let d2 = Device {
            steam_handle: e.1,
            endpoint_handle: if creates {
                e.1
            } else {
                d.endpoint_handle
            },
            ..d
        };
        (
            devs.insert(e.0, d2),
            if creates {
                Some(CreateRequest { device_id: e.0, bus_id: bus, device_type: d.viiper_type })
            } else {
                None
            },
        )
    }
}

/// A whole handle sweep, entry by entry: the devices afterwards and the
/// creation requests in order.
pub open spec fn refresh_all(
    devs: Map<u32, Device>,
    bus: Option<u32>,
    enabled: bool,
    es: Seq<(u32, u64)>,
) -> (Map<u32, Device>, Seq<CreateRequest>)
    decreases es.len(),
{
    if es.len() == 0 {
        (devs, Seq::empty())
    } else {
        let prev = refresh_all(devs, bus, enabled, es.drop_last());
        let step = refresh_step(prev.0, bus, enabled, es.last());
        (
            step.0,
            match step.1 {
                Some(c) => prev.1.push(c),
                None => prev.1,
            },
        )
    }
}

/// Entries of a sweep that name the same pad carry the same handle.
pub open spec fn consistent_pads(es: Seq<(u32, u64)>) -> bool {
    forall|i: int, j: int|
        0 <= i < es.len() && 0 <= j < es.len() && #[trigger] es[i].0 == #[trigger] es[j].0
            ==> es[i].1 == es[j].1
}

/// A sweep keeps the set of devices.
pub proof fn lemma_refresh_keeps_keys(
    devs: Map<u32, Device>,
    bus: Option<u32>,
    en: bool,
    es: Seq<(u32, u64)>,
)
    ensures
        refresh_all(devs, bus, en, es).0.dom() == devs.dom(),
    decreases es.len(),
{
    if es.len() > 0 {
        lemma_refresh_keeps_keys(devs, bus, en, es.drop_last());
        let prev = refresh_all(devs, bus, en, es.drop_last()).0;
        if prev.contains_key(es.last().0) {
            assert(refresh_step(prev, bus, en, es.last()).0.dom() =~= prev.dom());
        }
    }
}

/// After a sweep whose entries agree per pad, each listed pad that has a
/// device holds the handle the sweep gave it.
pub proof fn lemma_refresh_settles(
    devs: Map<u32, Device>,
    bus: Option<u32>,
    en: bool,
    es: Seq<(u32, u64)>,
)
    requires
        consistent_pads(es),
    ensures
        forall|i: int|
            0 <= i < es.len() && devs.contains_key(#[trigger] es[i].0) ==> refresh_all(
                devs,
                bus,
                en,
                es,
            ).0[es[i].0].steam_handle == es[i].1,
    decreases es.len(),
{
    if es.len() > 0 {
        let front = es.drop_last();
        assert(consistent_pads(front)) by {
            assert forall|i: int, j: int|
                0 <= i < front.len() && 0 <= j < front.len() && #[trigger] front[i].0
                    == #[trigger] front[j].0 implies front[i].1 == front[j].1 by {
                assert(front[i] == es[i] && front[j] == es[j]);
            }
        }
        lemma_refresh_settles(devs, bus, en, front);
        lemma_refresh_keeps_keys(devs, bus, en, front);
        assert forall|i: int|
            0 <= i < es.len() && devs.contains_key(#[trigger] es[i].0) implies refresh_all(
            devs,
            bus,
            en,
            es,
        ).0[es[i].0].steam_handle == es[i].1 by {
            if i < es.len() - 1 {
                assert(front[i] == es[i]);
                if es[i].0 == es[es.len() - 1].0 {
                    assert(es[i].1 == es[es.len() - 1].1);
                }
            }
        }
    }
}

/// A sweep that finds every listed pad already at its listed handle
/// changes nothing and requests nothing.
pub proof fn lemma_refresh_settled_noop(
    devs: Map<u32, Device>,
    bus: Option<u32>,
    en: bool,
    es: Seq<(u32, u64)>,
)
    requires
        forall|i: int|
            0 <= i < es.len() && devs.contains_key(#[trigger] es[i].0) ==> devs[es[i].0].steam_handle
                == es[i].1,
    ensures
        refresh_all(devs, bus, en, es) == (devs, Seq::<CreateRequest>::empty()),
    decreases es.len(),
{
    if es.len() > 0 {
        let front = es.drop_last();
        assert forall|i: int|
            0 <= i < front.len() && devs.contains_key(#[trigger] front[i].0) implies devs[front[i].0].steam_handle
            == front[i].1 by {
            assert(front[i] == es[i]);
        }
        lemma_refresh_settled_noop(devs, bus, en, front);
        let e = es.last();
        assert(es[es.len() - 1] == e);
        if devs.contains_key(e.0) {
            let d = devs[e.0];
            let d2 = Device { steam_handle: e.1, endpoint_handle: d.endpoint_handle, ..d };
            assert(d2 == d);
            assert(devs.insert(e.0, d2) =~= devs);
        }
    }
}

/// Running the handle sweep twice over the same sources, with no attach or
/// detach in between, makes no bridge request the second time and leaves
/// the devices as the first run left them. Entries naming the same pad
/// (several high-level sources of one pad) must carry the same handle, as
/// they do when the platform reports one handle per pad.
pub proof fn lemma_refresh_idempotent(
    devs: Map<u32, Device>,
    bus: Option<u32>,
    enabled: bool,
    es: Seq<(u32, u64)>,
)
    requires
        consistent_pads(es),
    ensures
        refresh_all(refresh_all(devs, bus, enabled, es).0, bus, enabled, es) == (
            refresh_all(devs, bus, enabled, es).0,
            Seq::<CreateRequest>::empty(),
        ),
{
    let first = refresh_all(devs, bus, enabled, es).0;
    lemma_refresh_settles(devs, bus, enabled, es);
    lemma_refresh_keeps_keys(devs, bus, enabled, es);
    assert forall|i: int|
        0 <= i < es.len() && first.contains_key(#[trigger] es[i].0) implies first[es[i].0].steam_handle
        == es[i].1 by {
        assert(devs.contains_key(es[i].0));
    }
    lemma_refresh_settled_noop(first, bus, enabled, es);
}

/// What a sample of pad `d` does. An unresolved device takes the
/// platform's current handle instead of sampling, and requests its endpoint
/// when that handle is nonzero and it has none. A resolved device stores the
/// normalized snapshot and, with the bridge on: when its stream is open,
/// pushes it; when it has neither an endpoint nor a request outstanding (an
/// earlier creation failed), requests the endpoint again; when it has an
/// endpoint whose stream is not open (an earlier connection failed), asks
/// for the stream again.
pub open spec fn sample_outcome(
    d: Device,
    sample: PadSample,
    cand: u64,
    bus: Option<u32>,
    enabled: bool,
) -> (Device, Option<Action>) {
    if d.steam_handle == 0 {
        if cand == 0 {
            (d, None)
        } else {
            let creates = enabled && d.viiper_device is None;
            (
                Device {
                    steam_handle: cand,
                    endpoint_handle: if creates {
                        cand
                    } else {
                        d.endpoint_handle
                    },
                    ..d
                },
                if creates {
                    Some(
                        Action::CreateEndpoint(
                            CreateRequest { device_id: d.id, bus_id: bus, device_type: d.viiper_type },
                        ),
                    )
                } else {
                    None
                },
            )
        }
    } else {
        let retry_create = enabled && d.viiper_device is None && d.endpoint_handle == 0;
        (
            Device {
                state: crate::input::DeviceState { input: normalized(sample) },
                endpoint_handle: if retry_create {
                    d.steam_handle
                } else {
                    d.endpoint_handle
                },
                ..d
            },
            if !enabled {
                None
            } else if d.viiper_connected {
                Some(Action::PushState { device_id: d.id, input: normalized(sample) })
            } else if retry_create {
                Some(
                    Action::CreateEndpoint(
                        CreateRequest { device_id: d.id, bus_id: bus, device_type: d.viiper_type },
                    ),
                )
            } else {
                match d.viiper_device {
                    Some(ep) => Some(
                        Action::ConnectEndpoint {
                            device_id: d.id,
                            bus_id: ep.bus_id,
                            dev_id: ep.dev_id,
                        },
                    ),
                    None => None,
                }
            },
        )
    }
}

/// The devices after the transport lost pad `id`'s endpoint: that device
/// alone loses its endpoint, its stream and any outstanding request, and
/// keeps everything else, bus handle included. Its next sample asks for the
/// endpoint again (see [`sample_outcome`]).
pub open spec fn bus_lost(devs: Map<u32, Device>, id: u32) -> Map<u32, Device> {
    if devs.contains_key(id) {
        devs.insert(
            id,
            Device { viiper_device: None, viiper_connected: false, endpoint_handle: 0, ..devs[id] },
        )
    } else {
        devs
    }
}

/// Losing one pad's endpoint clears the endpoint and the stream of exactly
/// that pad; every other device keeps its record, endpoint included.
pub proof fn lemma_bus_loss_isolated(devs: Map<u32, Device>, id: u32, other: u32)
    requires
        other != id,
    ensures
        bus_lost(devs, id).dom() == devs.dom(),
        devs.contains_key(id) ==> bus_lost(devs, id)[id].viiper_device is None && !bus_lost(
            devs,
            id,
        )[id].viiper_connected,
        devs.contains_key(id) ==> bus_lost(devs, id)[id].steam_handle == devs[id].steam_handle
            && bus_lost(devs, id)[id].sdl_device_count == devs[id].sdl_device_count
            && bus_lost(devs, id)[id].id == devs[id].id,
        devs.contains_key(other) ==> bus_lost(devs, id)[other] == devs[other],
{
    if devs.contains_key(id) {
        assert(bus_lost(devs, id).dom() =~= devs.dom());
    }
}

/// The creation request for `d` on `bus`.
pub open spec fn request_for(d: Device, bus: Option<u32>) -> CreateRequest {
    CreateRequest { device_id: d.id, bus_id: bus, device_type: d.viiper_type }
}

/// One more source with candidate `cand` for an existing device: counted,
/// and the device takes the handle and requests its endpoint as
/// [`attached_device`] and [`attach_creates`] say.
fn handle_existing_device_connect(
    device: &mut Device,
    cand: u64,
    enabled: bool,
    bus: Option<u32>,
) -> (r: Option<CreateRequest>)
    requires
        old(device).sdl_device_count < usize::MAX,
    ensures
        *final(device) == attached_device(*old(device), cand, enabled),
        r == if attach_creates(*old(device), cand, enabled) {
            Some(request_for(*old(device), bus))
        } else {
            None
        },
{
    let creates = enabled && cand != 0 && device.steam_handle == 0 && device.viiper_device.is_none();
    device.sdl_device_count = device.sdl_device_count + 1;
    if device.steam_handle == 0 && cand != 0 {
        device.steam_handle = cand;
    }
    if creates {
        device.endpoint_handle = cand;
        Some(
            CreateRequest {
                device_id: device.id,
                bus_id: bus,
                device_type: device.viiper_type.clone(),
            },
        )
    } else {
        None
    }
}

/// The device made by the first source of pad `which`, with candidate
/// `cand`: one source, the candidate as its handle, and an endpoint request
/// when that handle is nonzero.
pub fn handle_new_device(which: u32, cand: u64, enabled: bool, bus: Option<u32>) -> (r: (
    Device,
    Option<CreateRequest>,
))
    ensures
        r.0.viiper_type@ == DEFAULT_VIRTUAL_TYPE@,
        r.0 == attached_device(blank_device(which, r.0.viiper_type), cand, enabled),
        r.1 == if attach_creates(blank_device(which, r.0.viiper_type), cand, enabled) {
            Some(request_for(blank_device(which, r.0.viiper_type), bus))
        } else {
            None
        },
{
    let mut d = Device::new(which);
    let r = handle_existing_device_connect(&mut d, cand, enabled, bus);
    (d, r)
}

impl<H> EventHandler<H> {
    /// The open raw sources, oldest first.
    pub closed spec fn source_list(&self) -> Seq<RawSource> {
        self.sources@
    }

    /// The handles of the open raw sources, in the same order.
    pub closed spec fn handle_list(&self) -> Seq<H> {
        self.handles@
    }

    /// The logical devices by session identifier.
    pub closed spec fn device_map(&self) -> Map<u32, Device> {
        self.devices@
    }

    /// The shared virtual bus, once created.
    pub closed spec fn bus(&self) -> Option<u32> {
        self.viiper_bus
    }

    /// Whether a transport client is configured.
    pub closed spec fn bridge_enabled(&self) -> bool {
        self.bridge_enabled
    }

    /// Number of open sources of pad `id`.
    pub open spec fn source_count(&self, id: u32) -> nat {
        count_sources(self.source_list(), id, false)
    }

    /// Number of open high-level sources of pad `id`.
    pub open spec fn gamepad_count(&self, id: u32) -> nat {
        count_sources(self.source_list(), id, true)
    }

    /// The registry's invariant: one handle per source, a device exactly
    /// for the identifiers with open sources, and each record consistent.
    pub closed spec fn wf(&self) -> bool {
        &&& self.handles@.len() == self.sources@.len()
        &&& forall|id: u32|
            #![trigger self.devices@.contains_key(id)]
            #![trigger count_sources(self.sources@, id, false)]
            self.devices@.contains_key(id) <==> count_sources(self.sources@, id, false) > 0
        &&& forall|id: u32| #[trigger]
            self.devices@.contains_key(id) ==> device_wf(
                self.devices@[id],
                id,
                count_sources(self.sources@, id, false),
            )
    }

    /// An empty registry; the bridge works only when `bridge_enabled` (a
    /// transport client is configured).
    pub fn new(bridge_enabled: bool) -> (r: EventHandler<H>)
        ensures
            r.wf(),
            r.source_list() == Seq::<RawSource>::empty(),
            r.device_map() == Map::<u32, Device>::empty(),
            r.bus() == None::<u32>,
            r.bridge_enabled() == bridge_enabled,
    {
        let r = EventHandler {
            sources: Vec::new(),
            handles: Vec::new(),
            devices: HashMap::new(),
            viiper_bus: None,
            bridge_enabled,
        };
        assert(r.devices@ =~= Map::<u32, Device>::empty());
        r
    }

    /// A raw source of pad `which` was opened through path `kind`, with
    /// `candidate` the bus handle the platform reports for it (ignored for
    /// a low-level source). The source is tracked; an existing device counts
    /// one more source and takes the handle if it had none; otherwise a new
    /// device is made. Endpoint creation is requested when the device gains
    /// its first nonzero handle and has no endpoint.
    pub fn on_pad_added(&mut self, which: u32, kind: RawKind, handle: H, candidate: u64) -> (r:
        Option<CreateRequest>)
        requires
            old(self).wf(),
            old(self).source_list().len() < usize::MAX,
        ensures
            final(self).wf(),
            final(self).source_list() == old(self).source_list().push(
                RawSource { id: which, kind },
            ),
            final(self).handle_list() == old(self).handle_list().push(handle),
            final(self).source_count(which) == old(self).source_count(which) + 1,
            final(self).device_map().contains_key(which),
            final(self).device_map()[which].sdl_device_count == old(self).source_count(which) + 1,
            (forall|id: u32|
                #[trigger] old(self).device_map().contains_key(id) && old(self).device_map()[id].viiper_device is Some
                    ==> old(self).device_map()[id].steam_handle != 0) ==> (forall|id: u32|
                #[trigger] final(self).device_map().contains_key(id) && final(self).device_map()[id].viiper_device is Some
                    ==> final(self).device_map()[id].steam_handle != 0),
            final(self).gamepad_count(which) == old(self).gamepad_count(which) + if kind
                == RawKind::Gamepad {
                1nat
            } else {
                0nat
            },
            final(self).bus() == old(self).bus(),
            final(self).bridge_enabled() == old(self).bridge_enabled(),
            ({
                let cand = candidate_of(kind, candidate);
                let prev = if old(self).device_map().contains_key(which) {
                    old(self).device_map()[which]
                } else {
                    blank_device(which, final(self).device_map()[which].viiper_type)
                };
                &&& !old(self).device_map().contains_key(which) ==> prev.viiper_type@
                    == DEFAULT_VIRTUAL_TYPE@
                &&& final(self).device_map() == old(self).device_map().insert(
                    which,
                    attached_device(prev, cand, old(self).bridge_enabled()),
                )
                &&& r == if attach_creates(prev, cand, old(self).bridge_enabled()) {
                    Some(
                        CreateRequest {
                            device_id: which,
                            bus_id: old(self).bus(),
                            device_type: prev.viiper_type,
                        },
                    )
                } else {
                    None
                }
            }),
    {
        let cand: u64 = match kind {
            RawKind::Gamepad => candidate,
            RawKind::Joystick => 0,
        };
        let ghost old_sources = self.sources@;
        let new_source = RawSource { id: which, kind };
        self.sources.push(new_source);
        self.handles.push(handle);
        proof {
            assert forall|id: u32| #[trigger]
                count_sources(self.sources@, id, false) == count_sources(old_sources, id, false)
                    + if id == which {
                    1nat
                } else {
                    0nat
                } by {
                lemma_count_push(old_sources, new_source, id, false);
            }
            lemma_count_push(old_sources, new_source, which, true);
            lemma_count_le_len(old_sources, which, false);
        }
        let (d, r) = match self.devices.remove(&which) {
            Some(mut d) => {
                let r = handle_existing_device_connect(
                    &mut d,
                    cand,
                    self.bridge_enabled,
                    self.viiper_bus,
                );
                (d, r)
            },
            None => handle_new_device(which, cand, self.bridge_enabled, self.viiper_bus),
        };
        self.devices.insert(which, d);
        r
    }

    /// A raw source of pad `which`, opened through path `kind`, was closed.
    /// The most recently opened source of that pad and path is dropped, or,
    /// when the pad has none through that path, its most recent source; a
    /// pad with no source left is a no-op. When the pad's last source goes,
    /// its device is removed; when no high-level source of it is left, the
    /// endpoint is torn down but the device kept. The returned action
    /// carries the teardown for the caller.
    pub fn on_pad_removed(&mut self, which: u32, kind: RawKind) -> (r: Option<Action>)
        requires
            old(self).wf(),
        ensures
            final(self).wf(),
            final(self).bus() == old(self).bus(),
            final(self).bridge_enabled() == old(self).bridge_enabled(),
            old(self).source_count(which) == 0 ==> {
                &&& final(self).source_list() == old(self).source_list()
                &&& final(self).handle_list() == old(self).handle_list()
                &&& final(self).device_map() == old(self).device_map()
                &&& r is None
            },
            old(self).source_count(which) > 0 ==> final(self).source_count(which) == old(
                self,
            ).source_count(which) - 1,
            old(self).source_count(which) > 0 ==> {
                let k = detach_index(old(self).source_list(), which, kind);
                let prev = old(self).device_map()[which];
                let teardown = final(self).gamepad_count(which) == 0;
                &&& 0 <= k < old(self).source_list().len()
                &&& old(self).source_list()[k].id == which
                &&& final(self).source_list() == old(self).source_list().remove(k)
                &&& final(self).handle_list() == old(self).handle_list().remove(k)
                &&& old(self).source_count(which) == 1 ==> final(self).device_map() == old(
                    self,
                ).device_map().remove(which) && r == teardown_of(prev)
                &&& old(self).source_count(which) > 1 ==> final(self).device_map() == old(
                    self,
                ).device_map().insert(which, detached_device(prev, teardown)) && r == if teardown {
                    teardown_of(prev)
                } else {
                    None
                }
            },
    {
        proof {
            lemma_last_source_of(self.sources@, which, kind);
            lemma_detach_index(self.sources@, which, kind);
        }
        let k = match find_last_source(&self.sources, which, kind) {
            Some(k) => k,
            None => match find_last_any(&self.sources, which) {
                Some(k) => k,
                None => {
                    return None;
                },
            },
        };
        let ghost old_sources = self.sources@;
        proof {
            assert(source_matches(old_sources[k as int], which, false));
        }
        let _removed = self.sources.remove(k);
        let _closed = self.handles.remove(k);
        proof {
            assert forall|id: u32| #[trigger]
                count_sources(self.sources@, id, false) + (if id == which {
                    1nat
                } else {
                    0nat
                }) == count_sources(old_sources, id, false) by {
                lemma_count_remove(old_sources, k as int, id, false);
            }
        }
        let ghost old_devices = self.devices@;
        let mut d = self.devices.remove(&which).unwrap();
        if d.sdl_device_count == 1 {
            return match d.viiper_device {
                Some(ep) => Some(Action::Disconnect { device_id: d.id, endpoint: Some(ep) }),
                None => None,
            };
        }
        d.sdl_device_count = d.sdl_device_count - 1;
        proof {
            lemma_count_zero(self.sources@, which, true);
        }
        let teardown = find_gamepad(&self.sources, which).is_none();
        let mut r = None;
        if teardown {
            let ep = d.viiper_device.take();
            d.steam_handle = 0;
            d.viiper_connected = false;
            d.endpoint_handle = 0;
            r = match ep {
                Some(ep) => Some(Action::Disconnect { device_id: d.id, endpoint: Some(ep) }),
                None => None,
            };
        }
        self.devices.insert(which, d);
        assert(self.devices@ =~= old_devices.insert(which, d));
        r
    }

    /// The sweep after a generic "something changed" notification, which
    /// does not say which pad changed: `resolved` lists, for every open
    /// high-level source, its pad and the bus handle re-queried from the
    /// platform. Each device takes its new handle; one that goes from
    /// unresolved to a nonzero handle without an endpoint gets a creation
    /// request.
    pub fn on_steam_handle_updated(&mut self, resolved: &Vec<(u32, u64)>) -> (r: Vec<
        CreateRequest,
    >)
        requires
            old(self).wf(),
        ensures
            final(self).wf(),
            final(self).source_list() == old(self).source_list(),
            final(self).handle_list() == old(self).handle_list(),
            final(self).bus() == old(self).bus(),
            final(self).bridge_enabled() == old(self).bridge_enabled(),
            (final(self).device_map(), r@) == refresh_all(
                old(self).device_map(),
                old(self).bus(),
                old(self).bridge_enabled(),
                resolved@,
            ),
    {
        let ghost old_devices = self.devices@;
        let mut out: Vec<CreateRequest> = Vec::new();
        let mut i: usize = 0;
        proof {
            assert(resolved@.take(0) =~= Seq::<(u32, u64)>::empty());
        }
        while i < resolved.len()
            invariant
                i <= resolved@.len(),
                self.wf(),
                self.sources@ == old(self).sources@,
                self.handles@ == old(self).handles@,
                self.viiper_bus == old(self).viiper_bus,
                self.bridge_enabled == old(self).bridge_enabled,
                (self.devices@, out@) == refresh_all(
                    old_devices,
                    self.viiper_bus,
                    self.bridge_enabled,
                    resolved@.take(i as int),
                ),
            decreases resolved@.len() - i,
        {
            let (id, h) = resolved[i];
            proof {
                assert(resolved@.take(i + 1).drop_last() =~= resolved@.take(i as int));
                assert(resolved@.take(i + 1).last() == resolved@[i as int]);
            }
            let ghost before = self.devices@;
            match self.devices.remove(&id) {
                None => {},
                Some(mut d) => {
                    let creates = self.bridge_enabled && d.steam_handle == 0 && h != 0
                        && d.viiper_device.is_none();
                    d.steam_handle = h;
                    if creates {
                        d.endpoint_handle = h;
                        out.push(
                            CreateRequest {
                                device_id: id,
                                bus_id: self.viiper_bus,
                                device_type: d.viiper_type.clone(),
                            },
                        );
                    }
                    self.devices.insert(id, d);
                    proof {
                        assert(self.devices@ =~= before.insert(id, d));
                    }
                },
            }
            i = i + 1;
        }
        proof {
            assert(resolved@.take(i as int) =~= resolved@);
        }
        out
    }

    /// A sample arrived for pad `which`: `sample` is what its high-level
    /// source reads now and `candidate` the bus handle the platform reports
    /// for it. Ignored when the pad has no device or no high-level source;
    /// otherwise see [`sample_outcome`].
    pub fn on_pad_event(&mut self, which: u32, sample: &PadSample, candidate: u64) -> (r: Option<
        Action,
    >)
        requires
            old(self).wf(),
        ensures
            final(self).wf(),
            final(self).source_list() == old(self).source_list(),
            final(self).handle_list() == old(self).handle_list(),
            final(self).bus() == old(self).bus(),
            final(self).bridge_enabled() == old(self).bridge_enabled(),
            !old(self).device_map().contains_key(which) || old(self).gamepad_count(which) == 0 ==> {
                &&& final(self).device_map() == old(self).device_map()
                &&& r is None
            },
            old(self).device_map().contains_key(which) && old(self).gamepad_count(which) > 0 ==> {
                let out = sample_outcome(
                    old(self).device_map()[which],
                    *sample,
                    candidate,
                    old(self).bus(),
                    old(self).bridge_enabled(),
                );
                &&& final(self).device_map() == old(self).device_map().insert(which, out.0)
                &&& r == out.1
            },
    {
        proof {
            lemma_count_zero(self.sources@, which, true);
        }
        if find_gamepad(&self.sources, which).is_none() {
            return None;
        }
        let ghost before = self.devices@;
        let mut d = match self.devices.remove(&which) {
            Some(d) => d,
            None => {
                return None;
            },
        };
        let mut r = None;
        if d.steam_handle == 0 {
            if candidate != 0 {
                let creates = self.bridge_enabled && d.viiper_device.is_none();
                d.steam_handle = candidate;
                if creates {
                    d.endpoint_handle = candidate;
                    r = Some(
                        Action::CreateEndpoint(
                            CreateRequest {
                                device_id: d.id,
                                bus_id: self.viiper_bus,
                                device_type: d.viiper_type.clone(),
                            },
                        ),
                    );
                }
            }
        } else {
            d.state.update_from_sdl_gamepad(sample);
            let retry_create = self.bridge_enabled && d.viiper_device.is_none()
                && d.endpoint_handle == 0;
            if !self.bridge_enabled {
            } else if d.viiper_connected {
                r = Some(Action::PushState { device_id: d.id, input: d.state.input });
            } else if retry_create {
                d.endpoint_handle = d.steam_handle;
                r = Some(
                    Action::CreateEndpoint(
                        CreateRequest {
                            device_id: d.id,
                            bus_id: self.viiper_bus,
                            device_type: d.viiper_type.clone(),
                        },
                    ),
                );
            } else {
                r = match &d.viiper_device {
                    Some(ep) => Some(
                        Action::ConnectEndpoint {
                            device_id: d.id,
                            bus_id: ep.bus_id,
                            dev_id: ep.dev_id.clone(),
                        },
                    ),
                    None => None,
                };
            }
        }
        self.devices.insert(which, d);
        proof {
            assert(self.devices@ =~= before.insert(which, d));
        }
        r
    }

    /// A report from the transport.
    /// - `BusCreated`: the bus is remembered for later requests.
    /// - `ServerDisconnected`: see [`bus_lost`]; the stream is dropped.
    /// - `DeviceCreated`: stored on a device that has a request outstanding
    ///   and no endpoint yet, whose stream is then to be opened; otherwise
    ///   the stray endpoint is to be removed from the bus.
    /// - `DeviceConnected`: marks a device with an endpoint as streaming.
    /// - `DeviceRumble`: forwarded, scaled to the native range, to the pad's
    ///   first high-level source.
    /// - `ErrorCreateDevice`: the outstanding request of a device without
    ///   an endpoint is dropped.
    /// - `ErrorConnectDevice`: nothing changes.
    pub fn on_viiper_event(&mut self, event: ViiperEvent) -> (out: Option<Action>)
        requires
            old(self).wf(),
        ensures
            final(self).wf(),
            final(self).source_list() == old(self).source_list(),
            final(self).handle_list() == old(self).handle_list(),
            final(self).bridge_enabled() == old(self).bridge_enabled(),
            ({
                let devs = old(self).device_map();
                match event {
                    ViiperEvent::BusCreated { bus_id } => {
                        &&& final(self).bus() == Some(bus_id)
                        &&& final(self).device_map() == devs
                        &&& out is None
                    },
                    ViiperEvent::ServerDisconnected { device_id } => {
                        &&& final(self).bus() == old(self).bus()
                        &&& final(self).device_map() == bus_lost(devs, device_id)
                        &&& out == Some(Action::Disconnect { device_id, endpoint: None })
                    },
                    ViiperEvent::DeviceCreated { device_id, viiper_device } => {
                        &&& final(self).bus() == old(self).bus()
                        &&& if devs.contains_key(device_id) && devs[device_id].endpoint_handle != 0
                            && devs[device_id].viiper_device is None {
                            &&& final(self).device_map() == devs.insert(
                                device_id,
                                Device { viiper_device: Some(viiper_device), ..devs[device_id] },
                            )
                            &&& out == Some(
                                Action::ConnectEndpoint {
                                    device_id,
                                    bus_id: viiper_device.bus_id,
                                    dev_id: viiper_device.dev_id,
                                },
                            )
                        } else {
                            &&& final(self).device_map() == devs
                            &&& out == Some(Action::Discard { endpoint: viiper_device })
                        }
                    },
                    ViiperEvent::DeviceConnected { device_id } => {
                        &&& final(self).bus() == old(self).bus()
                        &&& out is None
                        &&& final(self).device_map() == if devs.contains_key(device_id)
                            && devs[device_id].viiper_device is Some {
                            devs.insert(device_id, Device { viiper_connected: true, ..devs[device_id] })
                        } else {
                            devs
                        }
                    },
                    ViiperEvent::DeviceRumble { device_id, l, r } => {
                        &&& final(self).bus() == old(self).bus()
                        &&& final(self).device_map() == devs
                        &&& match out {
                            Some(Action::Rumble { source, low, high }) => {
                                &&& source < old(self).source_list().len()
                                &&& source_matches(old(self).source_list()[source as int], device_id, true)
                                &&& forall|j: int|
                                    0 <= j < source ==> !source_matches(
                                        #[trigger] old(self).source_list()[j],
                                        device_id,
                                        true,
                                    )
                                &&& low == l as int * 257
                                &&& high == r as int * 257
                            },
                            Some(_) => false,
                            None => old(self).gamepad_count(device_id) == 0,
                        }
                    },
                    ViiperEvent::ErrorCreateDevice { device_id } => {
                        &&& final(self).bus() == old(self).bus()
                        &&& out is None
                        &&& final(self).device_map() == if devs.contains_key(device_id)
                            && devs[device_id].viiper_device is None {
                            devs.insert(device_id, Device { endpoint_handle: 0, ..devs[device_id] })
                        } else {
                            devs
                        }
                    },
                    ViiperEvent::ErrorConnectDevice { device_id } => {
                        &&& final(self).bus() == old(self).bus()
                        &&& final(self).device_map() == devs
                        &&& out is None
                    },
                }
            }),
    {
        let ghost before = self.devices@;
        match event {
            ViiperEvent::BusCreated { bus_id } => {
                self.viiper_bus = Some(bus_id);
                None
            },
            ViiperEvent::ServerDisconnected { device_id } => {
                if let Some(mut d) = self.devices.remove(&device_id) {
                    d.viiper_device = None;
                    d.viiper_connected = false;
                    d.endpoint_handle = 0;
                    self.devices.insert(device_id, d);
                    proof {
                        assert(self.devices@ =~= bus_lost(before, device_id));
                    }
                }
                Some(Action::Disconnect { device_id, endpoint: None })
            },
            ViiperEvent::DeviceCreated { device_id, viiper_device } => {
                if let Some(mut d) = self.devices.remove(&device_id) {
                    if d.endpoint_handle != 0 && d.viiper_device.is_none() {
                        let bus_id = viiper_device.bus_id;
                        let dev_id = viiper_device.dev_id.clone();
                        d.viiper_device = Some(viiper_device);
                        self.devices.insert(device_id, d);
                        proof {
                            assert(self.devices@ =~= before.insert(device_id, d));
                        }
                        return Some(Action::ConnectEndpoint { device_id, bus_id, dev_id });
                    }
                    self.devices.insert(device_id, d);
                    proof {
                        assert(self.devices@ =~= before);
                    }
                }
                Some(Action::Discard { endpoint: viiper_device })
            },
            ViiperEvent::DeviceConnected { device_id } => {
                if let Some(mut d) = self.devices.remove(&device_id) {
                    if d.viiper_device.is_some() {
                        d.viiper_connected = true;
                    }
                    self.devices.insert(device_id, d);
                    proof {
                        assert(self.devices@ =~= before.insert(device_id, d));
                    }
                }
                None
            },
            ViiperEvent::DeviceRumble { device_id, l, r } => {
                match find_gamepad(&self.sources, device_id) {
                    Some(source) => Some(
                        Action::Rumble {
                            source,
                            low: rumble_intensity(l),
                            high: rumble_intensity(r),
                        },
                    ),
                    None => None,
                }
            },
            ViiperEvent::ErrorCreateDevice { device_id } => {
                if let Some(mut d) = self.devices.remove(&device_id) {
                    if d.viiper_device.is_none() {
                        d.endpoint_handle = 0;
                    }
                    self.devices.insert(device_id, d);
                    proof {
                        assert(self.devices@ =~= before.insert(device_id, d));
                    }
                }
                None
            },
            ViiperEvent::ErrorConnectDevice { device_id: _ } => None,
        }
    }

    /// The logical devices.
    pub fn devices(&self) -> (r: &HashMap<u32, Device>)
        ensures
            r@ == self.device_map(),
    {
        &self.devices
    }

    /// The shared virtual bus, if one was created.
    pub fn viiper_bus(&self) -> (r: Option<u32>)
        ensures
            r == self.bus(),
    {
        self.viiper_bus
    }

    /// The bus to add `req`'s endpoint to: the shared bus if one exists by
    /// now (an earlier request may have created it), else the request's
    /// own; `None` means a bus must be created first.
    pub fn bus_for_request(&self, req: &CreateRequest) -> (r: Option<u32>)
        ensures
            r == if self.bus() is Some {
                self.bus()
            } else {
                req.bus_id
            },
    {
        match self.viiper_bus {
            Some(b) => Some(b),
            None => req.bus_id,
        }
    }

    /// Number of open raw sources.
    pub fn source_len(&self) -> (r: usize)
        requires
            self.wf(),
        ensures
            r == self.source_list().len(),
            r == self.handle_list().len(),
    {
        self.sources.len()
    }

    /// Identity of the raw source at index `i`.
    pub fn source_info(&self, i: usize) -> (r: RawSource)
        requires
            i < self.source_list().len(),
        ensures
            r == self.source_list()[i as int],
    {
        self.sources[i]
    }

    /// Handle of the raw source at index `i`.
    pub fn source(&self, i: usize) -> (r: &H)
        requires
            self.wf(),
            i < self.source_list().len(),
        ensures
            *r == self.handle_list()[i as int],
    {
        &self.handles[i]
    }

    /// Mutable handle of the raw source at index `i` (to drive its motors).
    /// Nothing but that handle changes.
    pub fn source_mut(&mut self, i: usize) -> (r: &mut H)
        requires
            old(self).wf(),
            i < old(self).source_list().len(),
        ensures
            *r == old(self).handle_list()[i as int],
            final(self).handle_list() == old(self).handle_list().update(i as int, *final(r)),
            final(self).source_list() == old(self).source_list(),
            final(self).device_map() == old(self).device_map(),
            final(self).bus() == old(self).bus(),
            final(self).bridge_enabled() == old(self).bridge_enabled(),
            final(self).wf(),
    {
        &mut self.handles[i]
    }

    /// Index of the first high-level source of pad `which`, the one that
    /// is sampled and rumbled.
    pub fn gamepad_of(&self, which: u32) -> (r: Option<usize>)
        ensures
            match r {
                Some(k) => k < self.source_list().len() && source_matches(
                    self.source_list()[k as int],
                    which,
                    true,
                ) && forall|j: int|
                    0 <= j < k ==> !source_matches(#[trigger] self.source_list()[j], which, true),
                None => self.gamepad_count(which) == 0,
            },
    {
        find_gamepad(&self.sources, which)
    }

    /// Indices of all open high-level sources, in order: the sources the
    /// handle sweep re-queries.
    pub fn gamepad_sources(&self) -> (r: Vec<usize>)
        ensures
            forall|k: int|
                0 <= k < r@.len() ==> r@[k] < self.source_list().len()
                    && self.source_list()[#[trigger] r@[k] as int].kind == RawKind::Gamepad,
            forall|k: int, m: int| 0 <= k < m < r@.len() ==> #[trigger] r@[k] < #[trigger] r@[m],
            forall|i: int|
                0 <= i < self.source_list().len() && #[trigger] self.source_list()[i].kind
                    == RawKind::Gamepad ==> r@.contains(i as usize),
    {
        let mut r: Vec<usize> = Vec::new();
        let mut i: usize = 0;
        while i < self.sources.len()
            invariant
                i <= self.sources@.len(),
                forall|k: int|
                    0 <= k < r@.len() ==> #[trigger] r@[k] < i && self.sources@[r@[k] as int].kind
                        == RawKind::Gamepad,
                forall|k: int, m: int| 0 <= k < m < r@.len() ==> #[trigger] r@[k] < #[trigger] r@[m],
                forall|j: int|
                    0 <= j < i && #[trigger] self.sources@[j].kind == RawKind::Gamepad
                        ==> r@.contains(j as usize),
            decreases self.sources@.len() - i,
        {
            if self.sources[i].kind == RawKind::Gamepad {
                let ghost prev = r@;
                r.push(i);
                proof {
                    assert forall|j: int|
                        0 <= j < i + 1 && #[trigger] self.sources@[j].kind == RawKind::Gamepad
                            implies r@.contains(j as usize) by {
                        if j < i {
                            let w = choose|w: int| 0 <= w < prev.len() && prev[w] == j as usize;
                            assert(r@[w] == j as usize);
                        } else {
                            assert(r@[prev.len() as int] == i);
                        }
                    }
                }
            }
            i = i + 1;
        }
        r
    }
}

/// Every state of the registry has a device for a pad exactly while that
/// pad has open raw sources, and the device counts them. With
/// `lemma_count_push` (attach adds one source of the pad) and
/// `lemma_detach_count` (detach of a pad with sources removes one), the
/// device exists after any run of attach and detach events exactly when
/// more sources were opened than closed.
pub proof fn lemma_presence_tracks_sources<H>(h: EventHandler<H>, id: u32)
    requires
        h.wf(),
    ensures
        h.device_map().contains_key(id) <==> h.source_count(id) > 0,
        h.device_map().contains_key(id) ==> h.device_map()[id].sdl_device_count == h.source_count(
            id,
        ),
        h.device_map().contains_key(id) ==> h.device_map()[id].id == id,
{
}

/// A detach of a pad with open sources closes exactly one of them,
/// whichever path it names; a detach of a pad without sources closes none.
pub proof fn lemma_detach_count(s: Seq<RawSource>, id: u32, kind: RawKind)
    ensures
        count_sources(s, id, false) > 0 ==> count_sources(
            s.remove(detach_index(s, id, kind)),
            id,
            false,
        ) == count_sources(s, id, false) - 1,
        count_sources(s, id, false) == 0 <==> detach_index(s, id, kind) == -1,
{
    lemma_detach_index(s, id, kind);
    if count_sources(s, id, false) > 0 {
        lemma_count_remove(s, detach_index(s, id, kind), id, false);
    }
}

/// No device holds an endpoint unless it was requested while the device
/// held a nonzero bus handle (the handle is kept as `endpoint_handle`),
/// and none streams without an endpoint.
pub proof fn lemma_endpoint_needs_handle<H>(h: EventHandler<H>, id: u32)
    requires
        h.wf(),
        h.device_map().contains_key(id),
    ensures
        h.device_map()[id].viiper_device is Some ==> h.device_map()[id].endpoint_handle != 0,
        h.device_map()[id].viiper_connected ==> h.device_map()[id].viiper_device is Some,
{
}

} // verus!
