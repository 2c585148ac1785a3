use sisr::device::{RawKind, VirtualEndpoint};
use sisr::handler::{Action, CreateRequest, EventHandler, ViiperEvent};
use sisr::input::PadSample;

fn endpoint(bus_id: u32, dev_id: &str) -> VirtualEndpoint {
    VirtualEndpoint {
        bus_id,
        dev_id: dev_id.to_string(),
        device_type: "xbox360".to_string(),
        vid: "0x045e".to_string(),
        pid: "0x028e".to_string(),
    }
}

fn expect_create(r: Option<CreateRequest>, id: u32, bus: Option<u32>) {
    let req = r.expect("a creation request");
    assert_eq!(req.device_id, id);
    assert_eq!(req.bus_id, bus);
    assert_eq!(req.device_type, "xbox360");
}

#[test]
fn low_then_high_level_attach_and_detach() {
    let mut h: EventHandler<&str> = EventHandler::new(true);

    assert!(h.on_pad_added(7, RawKind::Joystick, "joy", 0).is_none());
    let d = &h.devices()[&7];
    assert_eq!((d.id, d.sdl_device_count, d.steam_handle), (7, 1, 0));

    let r = h.on_pad_added(7, RawKind::Gamepad, "pad", 12345);
    expect_create(r, 7, None);
    let d = &h.devices()[&7];
    assert_eq!((d.sdl_device_count, d.steam_handle), (2, 12345));

    assert!(h.on_viiper_event(ViiperEvent::BusCreated { bus_id: 1 }).is_none());
    match h.on_viiper_event(ViiperEvent::DeviceCreated { device_id: 7, viiper_device: endpoint(1, "1") }) {
        Some(Action::ConnectEndpoint { device_id, bus_id, dev_id }) => {
            assert_eq!((device_id, bus_id, dev_id.as_str()), (7, 1, "1"));
        }
        other => panic!("unexpected {:?}", other),
    }
    assert!(h.on_viiper_event(ViiperEvent::DeviceConnected { device_id: 7 }).is_none());
    assert!(h.devices()[&7].viiper_connected);

    match h.on_pad_removed(7, RawKind::Gamepad) {
        Some(Action::Disconnect { device_id: 7, endpoint: Some(ep) }) => assert_eq!(ep.dev_id, "1"),
        other => panic!("unexpected {:?}", other),
    }
    let d = &h.devices()[&7];
    assert_eq!(d.sdl_device_count, 1);
    assert!(d.viiper_device.is_none());
    assert!(!d.viiper_connected);
    assert_eq!(h.source_len(), 1);
    assert_eq!(*h.source(0), "joy");

    assert!(h.on_pad_removed(7, RawKind::Joystick).is_none());
    assert!(h.devices().is_empty());
    assert_eq!(h.source_len(), 0);
}

#[test]
fn device_exists_while_sources_are_open() {
    let mut h: EventHandler<u32> = EventHandler::new(true);
    let steps: [(bool, RawKind); 9] = [
        (true, RawKind::Joystick),
        (true, RawKind::Gamepad),
        (false, RawKind::Gamepad),
        (false, RawKind::Gamepad),
        (false, RawKind::Joystick),
        (true, RawKind::Joystick),
        (true, RawKind::Gamepad),
        (false, RawKind::Gamepad),
        (false, RawKind::Joystick),
    ];
    let mut open: i32 = 0;
    for (n, (attach, kind)) in steps.iter().enumerate() {
        if *attach {
            h.on_pad_added(3, *kind, n as u32, 0);
            open += 1;
        } else {
            h.on_pad_removed(3, *kind);
            if open > 0 {
                open -= 1;
            }
        }
        assert_eq!(h.devices().contains_key(&3), open > 0);
        if open > 0 {
            assert_eq!(h.devices()[&3].sdl_device_count, open as usize);
        }
        assert_eq!(h.source_len() as i32, open);
    }
}

#[test]
fn low_level_detach_keeps_endpoint() {
    let mut h: EventHandler<u8> = EventHandler::new(true);
    h.on_pad_added(7, RawKind::Joystick, 0, 0);
    h.on_pad_added(7, RawKind::Gamepad, 1, 12345);
    h.on_viiper_event(ViiperEvent::BusCreated { bus_id: 1 });
    h.on_viiper_event(ViiperEvent::DeviceCreated { device_id: 7, viiper_device: endpoint(1, "1") });
    h.on_viiper_event(ViiperEvent::DeviceConnected { device_id: 7 });
    assert!(h.on_pad_removed(7, RawKind::Joystick).is_none());
    let d = &h.devices()[&7];
    assert_eq!(d.sdl_device_count, 1);
    assert!(d.viiper_connected);
    assert_eq!(d.steam_handle, 12345);
    assert_eq!(h.source_len(), 1);
    assert_eq!(*h.source(0), 1);
    match h.on_pad_removed(7, RawKind::Gamepad) {
        Some(Action::Disconnect { device_id: 7, endpoint: Some(_) }) => {}
        other => panic!("unexpected {:?}", other),
    }
    assert!(h.devices().is_empty());
}

#[test]
fn detach_through_other_path_closes_a_source_of_the_pad() {
    let mut h: EventHandler<u8> = EventHandler::new(true);
    h.on_pad_added(1, RawKind::Joystick, 0, 0);
    h.on_pad_added(1, RawKind::Joystick, 1, 0);
    assert!(h.on_pad_removed(1, RawKind::Gamepad).is_none());
    assert_eq!(h.source_len(), 1);
    assert_eq!(*h.source(0), 0);
    assert_eq!(h.devices()[&1].sdl_device_count, 1);
    assert!(h.on_pad_removed(1, RawKind::Gamepad).is_none());
    assert!(h.devices().is_empty());
}

#[test]
fn detach_of_unknown_pad_is_a_no_op() {
    let mut h: EventHandler<u8> = EventHandler::new(true);
    h.on_pad_added(1, RawKind::Gamepad, 0, 0);
    assert!(h.on_pad_removed(2, RawKind::Gamepad).is_none());
    assert_eq!(h.source_len(), 1);
    assert!(h.devices().contains_key(&1));
}

#[test]
fn gamepad_without_handle_requests_nothing() {
    let mut h: EventHandler<u8> = EventHandler::new(true);
    assert!(h.on_pad_added(4, RawKind::Gamepad, 0, 0).is_none());
    assert_eq!(h.devices()[&4].steam_handle, 0);
    assert_eq!(h.devices()[&4].endpoint_handle, 0);
}

#[test]
fn joystick_candidate_is_ignored() {
    let mut h: EventHandler<u8> = EventHandler::new(true);
    assert!(h.on_pad_added(4, RawKind::Joystick, 0, 99).is_none());
    assert_eq!(h.devices()[&4].steam_handle, 0);
}

#[test]
fn disabled_bridge_requests_nothing() {
    let mut h: EventHandler<u8> = EventHandler::new(false);
    assert!(h.on_pad_added(4, RawKind::Gamepad, 0, 55).is_none());
    assert_eq!(h.devices()[&4].steam_handle, 55);
    assert!(h.on_steam_handle_updated(&vec![(4, 56)]).is_empty());
}

#[test]
fn created_endpoint_only_after_request() {
    let mut h: EventHandler<u8> = EventHandler::new(true);
    h.on_pad_added(5, RawKind::Joystick, 0, 0);
    match h.on_viiper_event(ViiperEvent::DeviceCreated { device_id: 5, viiper_device: endpoint(1, "9") }) {
        Some(Action::Discard { endpoint }) => assert_eq!(endpoint.dev_id, "9"),
        other => panic!("unexpected {:?}", other),
    }
    assert!(h.devices()[&5].viiper_device.is_none());
    assert!(matches!(
        h.on_viiper_event(ViiperEvent::DeviceCreated { device_id: 8, viiper_device: endpoint(1, "8") }),
        Some(Action::Discard { .. })
    ));
}

#[test]
fn refresh_twice_makes_no_second_request() {
    let mut h: EventHandler<u8> = EventHandler::new(true);
    h.on_pad_added(1, RawKind::Gamepad, 0, 0);
    h.on_pad_added(2, RawKind::Gamepad, 1, 0);
    h.on_pad_added(3, RawKind::Gamepad, 2, 77);
    let resolved = vec![(1, 10), (2, 0), (3, 77), (9, 5)];
    let first = h.on_steam_handle_updated(&resolved);
    assert_eq!(first.len(), 1);
    assert_eq!(first[0].device_id, 1);
    assert_eq!(h.devices()[&1].steam_handle, 10);
    assert_eq!(h.devices()[&1].endpoint_handle, 10);
    let second = h.on_steam_handle_updated(&resolved);
    assert!(second.is_empty());
    assert_eq!(h.devices()[&1].steam_handle, 10);
}

#[test]
fn refresh_lists_high_level_sources() {
    let mut h: EventHandler<u8> = EventHandler::new(true);
    h.on_pad_added(1, RawKind::Joystick, 10, 0);
    h.on_pad_added(1, RawKind::Gamepad, 11, 0);
    h.on_pad_added(2, RawKind::Gamepad, 12, 0);
    assert_eq!(h.gamepad_sources(), vec![1, 2]);
    assert_eq!(h.gamepad_of(1), Some(1));
    assert_eq!(h.gamepad_of(3), None);
    assert_eq!(h.source_info(2).id, 2);
}

fn sample() -> PadSample {
    PadSample {
        south: true,
        left_y: -32768,
        right_y: 100,
        trigger_left: 32767,
        trigger_right: -5,
        left_x: 12,
        ..PadSample::default()
    }
}

#[test]
fn unresolved_sample_resolves_instead_of_sampling() {
    let mut h: EventHandler<u8> = EventHandler::new(true);
    h.on_pad_added(6, RawKind::Gamepad, 0, 0);
    assert!(h.on_pad_event(6, &sample(), 0).is_none());
    match h.on_pad_event(6, &sample(), 4242) {
        Some(Action::CreateEndpoint(req)) => {
            assert_eq!(req.device_id, 6);
            assert_eq!(req.bus_id, None);
        }
        other => panic!("unexpected {:?}", other),
    }
    let d = &h.devices()[&6];
    assert_eq!(d.steam_handle, 4242);
    assert_eq!(d.state.input.buttons, 0);
}

#[test]
fn connected_sample_is_pushed() {
    let mut h: EventHandler<u8> = EventHandler::new(true);
    h.on_viiper_event(ViiperEvent::BusCreated { bus_id: 3 });
    let r = h.on_pad_added(6, RawKind::Gamepad, 0, 1);
    expect_create(r, 6, Some(3));
    h.on_viiper_event(ViiperEvent::DeviceCreated { device_id: 6, viiper_device: endpoint(3, "2") });
    // Not streaming yet: stored, and the stream is asked for.
    match h.on_pad_event(6, &sample(), 1) {
        Some(Action::ConnectEndpoint { device_id, bus_id, dev_id }) => {
            assert_eq!((device_id, bus_id, dev_id.as_str()), (6, 3, "2"));
        }
        other => panic!("unexpected {:?}", other),
    }
    assert_eq!(h.devices()[&6].state.input.ly, 32767);
    h.on_viiper_event(ViiperEvent::DeviceConnected { device_id: 6 });
    match h.on_pad_event(6, &sample(), 1) {
        Some(Action::PushState { device_id, input }) => {
            assert_eq!(device_id, 6);
            assert_eq!(input.buttons, 0x1000);
            assert_eq!(input.lt, 255);
            assert_eq!(input.rt, 0);
            assert_eq!(input.lx, 12);
            assert_eq!(input.ly, 32767);
            assert_eq!(input.ry, -100);
        }
        other => panic!("unexpected {:?}", other),
    }
}

#[test]
fn sample_without_gamepad_is_ignored() {
    let mut h: EventHandler<u8> = EventHandler::new(true);
    h.on_pad_added(6, RawKind::Joystick, 0, 0);
    assert!(h.on_pad_event(6, &sample(), 5).is_none());
    assert_eq!(h.devices()[&6].steam_handle, 0);
    assert!(h.on_pad_event(8, &sample(), 5).is_none());
}

fn connected(h: &mut EventHandler<u8>, id: u32, handle: u64, dev: &str) {
    h.on_pad_added(id, RawKind::Gamepad, 0, handle);
    h.on_viiper_event(ViiperEvent::DeviceCreated { device_id: id, viiper_device: endpoint(1, dev) });
    h.on_viiper_event(ViiperEvent::DeviceConnected { device_id: id });
}

#[test]
fn bus_loss_touches_only_the_affected_device() {
    let mut h: EventHandler<u8> = EventHandler::new(true);
    h.on_viiper_event(ViiperEvent::BusCreated { bus_id: 1 });
    connected(&mut h, 1, 100, "a");
    connected(&mut h, 2, 200, "b");
    match h.on_viiper_event(ViiperEvent::ServerDisconnected { device_id: 1 }) {
        Some(Action::Disconnect { device_id: 1, endpoint: None }) => {}
        other => panic!("unexpected {:?}", other),
    }
    let one = &h.devices()[&1];
    assert!(one.viiper_device.is_none());
    assert!(!one.viiper_connected);
    assert_eq!(one.sdl_device_count, 1);
    assert_eq!(one.steam_handle, 100);
    let two = &h.devices()[&2];
    assert!(two.viiper_connected);
    assert_eq!(two.viiper_device.as_ref().map(|e| e.dev_id.as_str()), Some("b"));
    assert_eq!(two.steam_handle, 200);
    // The next sample of the affected pad asks for its endpoint again.
    match h.on_pad_event(1, &sample(), 0) {
        Some(Action::CreateEndpoint(req)) => assert_eq!((req.device_id, req.bus_id), (1, Some(1))),
        other => panic!("unexpected {:?}", other),
    }
}

#[test]
fn request_bus_prefers_shared_bus() {
    let mut h: EventHandler<u8> = EventHandler::new(true);
    let req = h.on_pad_added(1, RawKind::Gamepad, 0, 5).expect("a creation request");
    assert_eq!(h.bus_for_request(&req), None);
    h.on_viiper_event(ViiperEvent::BusCreated { bus_id: 4 });
    assert_eq!(h.bus_for_request(&req), Some(4));
}

#[test]
fn rumble_goes_to_first_gamepad_scaled() {
    let mut h: EventHandler<u8> = EventHandler::new(true);
    h.on_pad_added(2, RawKind::Joystick, 0, 0);
    h.on_pad_added(2, RawKind::Gamepad, 1, 0);
    match h.on_viiper_event(ViiperEvent::DeviceRumble { device_id: 2, l: 255, r: 1 }) {
        Some(Action::Rumble { source, low, high }) => assert_eq!((source, low, high), (1, 65535, 257)),
        other => panic!("unexpected {:?}", other),
    }
    assert!(h.on_viiper_event(ViiperEvent::DeviceRumble { device_id: 9, l: 1, r: 1 }).is_none());
    *h.source_mut(1) = 42;
    assert_eq!(*h.source(1), 42);
}

#[test]
fn create_error_drops_request() {
    let mut h: EventHandler<u8> = EventHandler::new(true);
    h.on_pad_added(2, RawKind::Gamepad, 0, 9);
    assert_eq!(h.devices()[&2].endpoint_handle, 9);
    assert!(h.on_viiper_event(ViiperEvent::ErrorCreateDevice { device_id: 2 }).is_none());
    assert_eq!(h.devices()[&2].endpoint_handle, 0);
    assert!(h.on_viiper_event(ViiperEvent::ErrorConnectDevice { device_id: 2 }).is_none());
    assert_eq!(h.viiper_bus(), None);
}

#[test]
fn device_default_is_blank() {
    let d = sisr::device::Device::default();
    assert_eq!(d.id, 0);
    assert_eq!(d.viiper_type, "xbox360");
    assert_eq!(d.sdl_device_count, 0);
    assert!(d.viiper_device.is_none());
    let n = sisr::device::Device::new(5);
    assert_eq!(n.id, 5);
}

#[test]
fn failed_creation_is_retried_on_next_sample() {
    let mut h: EventHandler<u8> = EventHandler::new(true);
    h.on_pad_added(2, RawKind::Gamepad, 0, 9);
    h.on_viiper_event(ViiperEvent::ErrorCreateDevice { device_id: 2 });
    match h.on_pad_event(2, &sample(), 0) {
        Some(Action::CreateEndpoint(req)) => assert_eq!(req.device_id, 2),
        other => panic!("unexpected {:?}", other),
    }
    assert_eq!(h.devices()[&2].endpoint_handle, 9);
    assert!(h.on_pad_event(2, &sample(), 0).is_none());
}

#[test]
fn refresh_with_repeated_pad_is_idempotent() {
    let mut h: EventHandler<u8> = EventHandler::new(true);
    h.on_pad_added(1, RawKind::Gamepad, 0, 0);
    h.on_pad_added(1, RawKind::Gamepad, 1, 0);
    let resolved = vec![(1, 33), (1, 33)];
    assert_eq!(h.on_steam_handle_updated(&resolved).len(), 1);
    assert!(h.on_steam_handle_updated(&resolved).is_empty());
    assert_eq!(h.devices()[&1].steam_handle, 33);
}
