use motion_core::competition::Autos;
use motion_core::driver::{driver_commands, DriverButtons, Spin};
use motion_core::screen::{in_range, next_page, GuiState, Touch};

fn tap(x: i16, y: i16) -> Touch {
    Touch { x, y, was_released: true, pressed: true }
}

#[test]
fn in_range_is_closed() {
    assert!(in_range(6, 234, (6, 237), (6, 234)));
    assert!(!in_range(5, 10, (6, 237), (6, 234)));
    assert!(!in_range(10, 235, (6, 237), (6, 234)));
}

#[test]
fn tap_flips_motor_and_sensor_panels() {
    assert_eq!(next_page(GuiState::MotorView, false, &tap(100, 100), true), (GuiState::SensorView, None));
    assert_eq!(next_page(GuiState::SensorView, false, &tap(100, 100), true), (GuiState::MotorView, None));
}

#[test]
fn held_touch_is_not_a_tap() {
    let held = Touch { x: 100, y: 100, was_released: false, pressed: true };
    assert_eq!(next_page(GuiState::MotorView, false, &held, true), (GuiState::MotorView, None));
}

#[test]
fn no_flip_without_telemetry() {
    assert_eq!(next_page(GuiState::MotorView, false, &tap(100, 100), false), (GuiState::MotorView, None));
}

#[test]
fn selector_request_opens_overview() {
    let idle = Touch { x: 0, y: 0, was_released: true, pressed: false };
    assert_eq!(next_page(GuiState::MotorView, true, &idle, true), (GuiState::AutoSelectorOverview, None));
}

#[test]
fn overview_choices() {
    let o = GuiState::AutoSelectorOverview;
    assert_eq!(next_page(o, false, &tap(50, 50), true), (GuiState::AutoSelectorMatch, None));
    assert_eq!(next_page(o, false, &tap(50, 150), true), (GuiState::MotorView, Some(Autos::Skills)));
    assert_eq!(next_page(o, false, &tap(200, 200), true), (GuiState::MotorView, Some(Autos::NoRoutine)));
    assert_eq!(next_page(o, false, &tap(200, 130), true), (o, None));
}

#[test]
fn match_selector_choices() {
    let m = GuiState::AutoSelectorMatch;
    assert_eq!(next_page(m, false, &tap(50, 40), true), (GuiState::MotorView, Some(Autos::Left)));
    assert_eq!(next_page(m, false, &tap(50, 130), true), (GuiState::MotorView, Some(Autos::Solo)));
    assert_eq!(next_page(m, false, &tap(50, 200), true), (GuiState::MotorView, Some(Autos::Right)));
    assert_eq!(next_page(m, false, &tap(50, 100), true), (GuiState::MotorView, None));
}

#[test]
fn other_pages_return_to_motors() {
    let idle = Touch { x: 0, y: 0, was_released: true, pressed: false };
    assert_eq!(next_page(GuiState::ControlsView, false, &idle, true), (GuiState::MotorView, None));
}

fn buttons() -> DriverButtons {
    DriverButtons {
        up_now: false,
        left_now: false,
        right_now: false,
        b_now: false,
        x_now: false,
        r1_held: false,
        r2_held: false,
        l1_held: false,
        l2_held: false,
    }
}

#[test]
fn idle_buttons_stop_everything() {
    let c = driver_commands(&buttons());
    assert_eq!(c.intake, Spin::Stopped);
    assert_eq!(c.indexer, Spin::Stopped);
    assert!(!c.start_recording && !c.open_selector && !c.toggle_matchload && !c.toggle_descore);
}

#[test]
fn forward_wins_over_reverse() {
    let c = driver_commands(&DriverButtons { r1_held: true, r2_held: true, l2_held: true, ..buttons() });
    assert_eq!(c.intake, Spin::Forward);
    assert_eq!(c.indexer, Spin::Reverse);
}

#[test]
fn recording_needs_both_buttons() {
    assert!(!driver_commands(&DriverButtons { up_now: true, ..buttons() }).start_recording);
    assert!(driver_commands(&DriverButtons { up_now: true, left_now: true, ..buttons() }).start_recording);
}

#[test]
fn toggles_and_selector() {
    let c = driver_commands(&DriverButtons { b_now: true, x_now: true, right_now: true, ..buttons() });
    assert!(c.toggle_matchload && c.toggle_descore && c.open_selector);
}
