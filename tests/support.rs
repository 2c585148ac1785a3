use sisr::companion::{body_marks_control_surface, check_enable_file};
use sisr::sdl_device_info::{PropertyList, SdlDeviceInfo, SdlValue};
use sisr::signals::InterruptHandlers;
use sisr::tray::{handle_menu_event, toggle_label, TrayMenuEvent, WindowCommand};
use sisr::waker::WakerRegistry;

#[test]
fn probe_body_marker() {
    assert!(body_marks_control_surface(b"[{\"title\": \"Steam\"}]"));
    assert!(body_marks_control_surface(b"Steam"));
    assert!(!body_marks_control_surface(b"[{\"title\": \"steam\"}]"));
    assert!(!body_marks_control_surface(b"Stea"));
    assert!(!body_marks_control_surface(b""));
}

#[test]
fn enable_file_needs_install_and_marker() {
    assert!(check_enable_file(true, true));
    assert!(!check_enable_file(true, false));
    assert!(!check_enable_file(false, true));
}

#[test]
fn wakers_are_optional_and_swappable() {
    let mut w: WakerRegistry<u8, &str> = WakerRegistry::new();
    assert!(w.wake_input().is_none());
    assert!(w.wake_ui().is_none());
    let t = w.shutdown_targets(true, true);
    assert!(!t.input && !t.ui);
    w.set_input_waker(1);
    w.set_ui_waker("ui");
    w.set_input_waker(2);
    assert_eq!(w.wake_input(), Some(&2));
    assert_eq!(w.wake_ui(), Some(&"ui"));
    let t = w.shutdown_targets(false, true);
    assert!(!t.input && t.ui);
    assert_eq!(w.clear_ui_waker(), Some("ui"));
    assert!(w.wake_ui().is_none());
    assert_eq!(w.clear_input_waker(), Some(2));
}

#[test]
fn interrupt_handler_installed_once() {
    let mut hs: InterruptHandlers<u32> = InterruptHandlers::new();
    assert!(hs.register_ctrlc_handler(1));
    assert!(!hs.register_ctrlc_handler(2));
    hs.installation_failed();
    assert!(hs.register_ctrlc_handler(3));
    assert_eq!(hs.len(), 3);
    *hs.handler_mut(0) += 10;
    assert_eq!(*hs.handler_mut(0), 11);
}

#[test]
fn tray_toggle_text_and_commands() {
    assert_eq!(toggle_label(true, true, false), "Hide UI");
    assert_eq!(toggle_label(true, false, true), "Show UI");
    assert_eq!(toggle_label(false, false, true), "Hide Window");
    assert_eq!(toggle_label(false, true, false), "Show Window");

    let q = handle_menu_event(TrayMenuEvent::Quit, false, true);
    assert_eq!(q.command, WindowCommand::Shutdown);
    let t = handle_menu_event(TrayMenuEvent::ToggleWindow, true, true);
    assert_eq!((t.command, t.window_visible), (WindowCommand::ToggleUi, true));
    let t = handle_menu_event(TrayMenuEvent::ToggleWindow, false, true);
    assert_eq!((t.command, t.window_visible), (WindowCommand::HideWindow, false));
    let t = handle_menu_event(TrayMenuEvent::ToggleWindow, false, false);
    assert_eq!((t.command, t.window_visible), (WindowCommand::ShowWindow, true));
}

#[test]
fn property_names_stay_unique() {
    let mut p = PropertyList::new();
    p.insert("name".to_string(), SdlValue::String("pad".to_string()));
    p.insert("id".to_string(), SdlValue::U32(3));
    p.insert("name".to_string(), SdlValue::OptString(None));
    assert_eq!(p.len(), 2);
    assert_eq!(p.entry(0).0, "name");
    assert!(matches!(p.get(&"name".to_string()), Some(SdlValue::OptString(None))));
    assert!(matches!(p.get(&"id".to_string()), Some(SdlValue::U32(3))));
    assert!(p.get(&"path".to_string()).is_none());
    let mut nested = PropertyList::new();
    nested.insert("Axis 0".to_string(), SdlValue::Bool(true));
    p.insert("axes".to_string(), SdlValue::Nested(nested));
    let info = SdlDeviceInfo { is_gamepad: true, properties: p };
    assert_eq!(info.properties.position(&"axes".to_string()), Some(2));
}

#[test]
fn property_values_display() {
    assert_eq!(SdlValue::HexU16(Some(0x45e)).to_display_string(), "0x045E");
    assert_eq!(SdlValue::HexU16(Some(0xFFFF)).to_display_string(), "0xFFFF");
    assert_eq!(SdlValue::HexU16(None).to_display_string(), "N/A");
    assert_eq!(SdlValue::U16(0).to_display_string(), "0");
    assert_eq!(SdlValue::U32(4000000000).to_display_string(), "4000000000");
    assert_eq!(SdlValue::OptU16(Some(70)).to_display_string(), "70");
    assert_eq!(SdlValue::OptU16(None).to_display_string(), "N/A");
    assert_eq!(SdlValue::Bool(false).to_display_string(), "false");
    assert_eq!(SdlValue::Bool(true).to_display_string(), "true");
    assert_eq!(SdlValue::String("pad".to_string()).to_display_string(), "pad");
    assert_eq!(SdlValue::OptString(Some("x".to_string())).to_display_string(), "x");
    assert_eq!(SdlValue::OptString(None).to_display_string(), "N/A");
    let mut nested = PropertyList::new();
    nested.insert("a".to_string(), SdlValue::Bool(true));
    nested.insert("b".to_string(), SdlValue::Bool(true));
    assert_eq!(SdlValue::Nested(nested).to_display_string(), "(2 items)");
}
