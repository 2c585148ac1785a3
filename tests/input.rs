use sisr::input::{
    button_mask, invert_axis, normalize_trigger, rumble_intensity, DeviceState, PadSample,
    BUTTON_A, BUTTON_B, BUTTON_BACK, BUTTON_D_PAD_DOWN, BUTTON_D_PAD_LEFT, BUTTON_D_PAD_RIGHT,
    BUTTON_D_PAD_UP, BUTTON_GUIDE, BUTTON_L_SHOULDER, BUTTON_L_THUMB, BUTTON_R_SHOULDER,
    BUTTON_R_THUMB, BUTTON_START, BUTTON_X, BUTTON_Y,
};
use viiper_client::devices::xbox360;

#[test]
fn trigger_full_press_is_255() {
    assert_eq!(normalize_trigger(32767), 255);
}

#[test]
fn trigger_rest_and_noise_are_zero() {
    assert_eq!(normalize_trigger(0), 0);
    assert_eq!(normalize_trigger(-1), 0);
    assert_eq!(normalize_trigger(-32768), 0);
}

#[test]
fn trigger_midpoint_rounds_down() {
    assert_eq!(normalize_trigger(16384), 127);
    assert_eq!(normalize_trigger(128), 0);
    assert_eq!(normalize_trigger(129), 1);
}

#[test]
fn axis_up_maps_to_positive_max() {
    assert_eq!(invert_axis(-32768), 32767);
}

#[test]
fn axis_inversion_is_negation_elsewhere() {
    assert_eq!(invert_axis(32767), -32767);
    assert_eq!(invert_axis(0), 0);
    assert_eq!(invert_axis(-5), 5);
}

#[test]
fn button_bits_match_virtual_pad_layout() {
    assert_eq!(BUTTON_A, xbox360::BUTTON_A as u32);
    assert_eq!(BUTTON_B, xbox360::BUTTON_B as u32);
    assert_eq!(BUTTON_X, xbox360::BUTTON_X as u32);
    assert_eq!(BUTTON_Y, xbox360::BUTTON_Y as u32);
    assert_eq!(BUTTON_START, xbox360::BUTTON_START as u32);
    assert_eq!(BUTTON_BACK, xbox360::BUTTON_BACK as u32);
    assert_eq!(BUTTON_L_THUMB, xbox360::BUTTON_L_THUMB as u32);
    assert_eq!(BUTTON_R_THUMB, xbox360::BUTTON_R_THUMB as u32);
    assert_eq!(BUTTON_L_SHOULDER, xbox360::BUTTON_L_SHOULDER as u32);
    assert_eq!(BUTTON_R_SHOULDER, xbox360::BUTTON_R_SHOULDER as u32);
    assert_eq!(BUTTON_GUIDE, xbox360::BUTTON_GUIDE as u32);
    assert_eq!(BUTTON_D_PAD_UP, xbox360::BUTTON_D_PAD_UP as u32);
    assert_eq!(BUTTON_D_PAD_DOWN, xbox360::BUTTON_D_PAD_DOWN as u32);
    assert_eq!(BUTTON_D_PAD_LEFT, xbox360::BUTTON_D_PAD_LEFT as u32);
    assert_eq!(BUTTON_D_PAD_RIGHT, xbox360::BUTTON_D_PAD_RIGHT as u32);
}

#[test]
fn button_mask_collects_held_buttons() {
    let none = PadSample::default();
    assert_eq!(button_mask(&none), 0);
    let s = PadSample { south: true, north: true, dpad_left: true, guide: true, ..PadSample::default() };
    assert_eq!(button_mask(&s), 0x1000 | 0x8000 | 0x0004 | 0x0400);
    let all = PadSample {
        south: true,
        east: true,
        west: true,
        north: true,
        start: true,
        back: true,
        left_stick: true,
        right_stick: true,
        left_shoulder: true,
        right_shoulder: true,
        guide: true,
        dpad_up: true,
        dpad_down: true,
        dpad_left: true,
        dpad_right: true,
        ..PadSample::default()
    };
    assert_eq!(button_mask(&all), 0xF7FF);
}

#[test]
fn rumble_scales_to_full_range() {
    assert_eq!(rumble_intensity(0), 0);
    assert_eq!(rumble_intensity(255), 65535);
    assert_eq!(rumble_intensity(128), 32896);
}

#[test]
fn update_from_sample_normalizes_everything() {
    let mut st = DeviceState::default();
    let s = PadSample {
        east: true,
        left_x: -100,
        left_y: -32768,
        right_x: 300,
        right_y: 32767,
        trigger_left: -12,
        trigger_right: 32767,
        ..PadSample::default()
    };
    st.update_from_sdl_gamepad(&s);
    assert_eq!(st.input.buttons, 0x2000);
    assert_eq!(st.input.lx, -100);
    assert_eq!(st.input.ly, 32767);
    assert_eq!(st.input.rx, 300);
    assert_eq!(st.input.ry, -32767);
    assert_eq!(st.input.lt, 0);
    assert_eq!(st.input.rt, 255);
}
