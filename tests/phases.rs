use motion_core::competition::{select_auto, Autos, CompContState, CompController, MenuButtons, RobotTick};

fn none() -> MenuButtons {
    MenuButtons {
        a_now: false,
        b_now: false,
        x_now: false,
        x_held: false,
        r1_held: false,
        r2_held: false,
        up_now: false,
        down_now: false,
        left_now: false,
        right_now: false,
    }
}

#[test]
fn controller_starts_off() {
    let c = CompController::new();
    assert_eq!(c.state, CompContState::Off);
    assert_eq!(c.auto, Autos::NoRoutine);
    assert!(c.awaiting_start);
    assert!(!c.sim_match);
    assert_eq!(c.match_start_timer.max_time, 3_000_000_000);
}

#[test]
fn off_ignores_menu_buttons() {
    let mut c = CompController::new();
    let b = MenuButtons { up_now: true, ..none() };
    assert!(!c.controller_handle(&b));
    assert_eq!(c.state, CompContState::Off);
    assert!(!c.sim_match);
}

#[test]
fn reset_combo_opens_menu() {
    let mut c = CompController::new();
    let b = MenuButtons { x_held: true, r1_held: true, r2_held: true, x_now: true, ..none() };
    assert!(!c.controller_handle(&b));
    assert_eq!(c.state, CompContState::Disabled);
    assert!(c.awaiting_start);
}

#[test]
fn menu_selects_and_counts_down() {
    let mut c = CompController::new();
    c.menu_input(&MenuButtons { x_held: true, r1_held: true, r2_held: true, ..none() });
    assert!(!c.menu_input(&MenuButtons { up_now: true, ..none() }));
    assert_eq!(c.state, CompContState::Auto);
    assert!(c.sim_match);
    assert!(c.menu_input(&MenuButtons { a_now: true, ..none() }));
    assert!(c.match_start_timer.running);
}

#[test]
fn a_is_ignored_while_disabled() {
    let mut c = CompController::new();
    c.state = CompContState::Disabled;
    assert!(!c.menu_input(&MenuButtons { a_now: true, ..none() }));
    assert!(!c.match_start_timer.running);
}

#[test]
fn menu_skills_choices() {
    let mut c = CompController::new();
    c.state = CompContState::Disabled;
    c.menu_input(&MenuButtons { down_now: true, ..none() });
    assert_eq!(c.state, CompContState::Skills);
    assert_eq!(c.auto, Autos::Skills);
    c.menu_input(&MenuButtons { left_now: true, ..none() });
    assert_eq!(c.auto, Autos::SkillsDriver);
    c.menu_input(&MenuButtons { right_now: true, ..none() });
    assert_eq!(c.state, CompContState::Driver);
    c.menu_input(&MenuButtons { b_now: true, ..none() });
    assert_eq!(c.state, CompContState::Disabled);
    assert!(!c.sim_match);
    c.menu_input(&MenuButtons { x_now: true, ..none() });
    assert_eq!(c.state, CompContState::Off);
}

#[test]
fn finished_countdown_starts_period() {
    let mut c = CompController::new();
    c.state = CompContState::Driver;
    c.sim_match = true;
    c.match_start_timer.finished = true;
    c.begin_match_if_due();
    assert!(!c.awaiting_start);
    assert!(c.driver_timer.running);
    assert!(!c.auto_timer.running);
    assert!(!c.match_start_timer.finished);
}

#[test]
fn waiting_menu_ticks_idle() {
    let mut c = CompController::new();
    c.state = CompContState::Auto;
    assert_eq!(c.comp_controller_update(), RobotTick::Idle);
    assert_eq!(c.state, CompContState::Auto);
}

#[test]
fn off_runs_driver_control() {
    let mut c = CompController::new();
    assert_eq!(c.comp_controller_update(), RobotTick::Driver);
    assert_eq!(c.state, CompContState::Off);
}

#[test]
fn skills_picks_routine() {
    let mut c = CompController::new();
    c.state = CompContState::Skills;
    c.awaiting_start = false;
    c.auto = Autos::Skills;
    assert_eq!(c.comp_controller_update(), RobotTick::Autonomous);
    c.awaiting_start = false;
    c.auto = Autos::SkillsDriver;
    assert_eq!(c.comp_controller_update(), RobotTick::Driver);
    assert!(c.awaiting_start);
}

#[test]
fn finished_auto_period_hands_to_driver() {
    let mut c = CompController::new();
    c.state = CompContState::Auto;
    c.sim_match = true;
    c.auto_timer.finished = true;
    c.update_state();
    assert_eq!(c.state, CompContState::Driver);
    assert!(c.sim_match);
    assert!(c.awaiting_start);
}

#[test]
fn finished_driver_period_ends_match() {
    let mut c = CompController::new();
    c.state = CompContState::Driver;
    c.sim_match = true;
    c.driver_timer.finished = true;
    c.update_state();
    assert_eq!(c.state, CompContState::Disabled);
    assert!(!c.sim_match);
}

#[test]
fn select_auto_last_match() {
    let keys = vec![Autos::NoRoutine, Autos::Left, Autos::Skills, Autos::Left];
    assert_eq!(select_auto(&keys, Autos::Left), 3);
    assert_eq!(select_auto(&keys, Autos::Skills), 2);
}

#[test]
fn select_auto_falls_back_to_last() {
    let keys = vec![Autos::NoRoutine, Autos::Left];
    assert_eq!(select_auto(&keys, Autos::Right), 1);
}

#[test]
fn defaults() {
    assert_eq!(Autos::default(), Autos::NoRoutine);
    assert_eq!(CompContState::default(), CompContState::Disabled);
}
