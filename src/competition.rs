//! Phase selection for matches and skills runs practised without a field
//! controller: a menu driven by controller buttons, a start countdown, and
//! timers that end each period.

use vstd::prelude::*;
use crate::timer::Timer;

verus! {

/// The autonomous routines the robot knows.
#[derive(Debug, Clone, Copy, PartialEq, Eq, Structural)]
pub enum Autos {
    Left,
    Right,
    Solo,
    Skills,
    SkillsDriver,
    NoRoutine,
    Recorded,
}

impl Default for Autos {
    fn default() -> (r: Autos)
        ensures
            r == Autos::NoRoutine,
    {
        Autos::NoRoutine
    }
}

/// The phase the practice controller is in.
#[derive(Debug, Clone, Copy, PartialEq, Eq, Structural)]
pub enum CompContState {
    Disabled,
    Auto,
    Driver,
    Skills,
    Off,
}

impl Default for CompContState {
    fn default() -> (r: CompContState)
        ensures
            r == CompContState::Disabled,
    {
        CompContState::Disabled
    }
}

/// The buttons the menu reads in one poll: `*_now` means newly pressed on
/// this poll, `*_held` means down.
#[derive(Debug, Clone, Copy, PartialEq, Eq, Structural)]
pub struct MenuButtons {
    pub a_now: bool,
    pub b_now: bool,
    pub x_now: bool,
    pub x_held: bool,
    pub r1_held: bool,
    pub r2_held: bool,
    pub up_now: bool,
    pub down_now: bool,
    pub left_now: bool,
    pub right_now: bool,
}

/// Which robot routine a control tick runs.
#[derive(Debug, Clone, Copy, PartialEq, Eq, Structural)]
pub enum RobotTick {
    Idle,
    Autonomous,
    Driver,
}

/// The menu's part of the controller state: phase, routine, whether a
/// simulated match is set up, and whether it waits for its start.
pub struct MenuState {
    pub state: CompContState,
    pub auto: Autos,
    pub sim_match: bool,
    pub awaiting_start: bool,
}

/// X with both rear right triggers held: back to the menu.
pub open spec fn reset_combo(b: MenuButtons) -> bool {
    b.x_held && b.r1_held && b.r2_held
}

/// The menu state after the reset combination is looked at.
pub open spec fn after_combo(m: MenuState, b: MenuButtons) -> MenuState {
    if reset_combo(b) && (m.state == CompContState::Off || !m.awaiting_start) {
        MenuState { state: CompContState::Disabled, sim_match: false, awaiting_start: true, ..m }
    } else {
        m
    }
}

/// The menu accepts selections only while waiting for a start and not off.
pub open spec fn menu_open(m: MenuState) -> bool {
    m.awaiting_start && m.state != CompContState::Off
}

/// The menu state after one selection, and whether the start countdown
/// begins; the first button that applies, in this order, wins.
pub open spec fn menu_choice(m: MenuState, b: MenuButtons) -> (MenuState, bool) {
    if b.a_now && m.state != CompContState::Disabled {
        (m, true)
    } else if b.b_now {
        (MenuState { state: CompContState::Disabled, sim_match: false, ..m }, false)
    } else if b.x_now && !(b.r1_held && b.r2_held) {
        (MenuState { state: CompContState::Off, ..m }, false)
    } else if b.up_now {
        (MenuState { state: CompContState::Auto, sim_match: true, ..m }, false)
    } else if b.down_now {
        (MenuState { state: CompContState::Skills, auto: Autos::Skills, sim_match: true, ..m }, false)
    } else if b.right_now {
        (MenuState { state: CompContState::Driver, sim_match: true, ..m }, false)
    } else if b.left_now {
        (MenuState { state: CompContState::Skills, auto: Autos::SkillsDriver, sim_match: true, ..m }, false)
    } else {
        (m, false)
    }
}

/// The menu state once a due match has started: it no longer waits.
pub open spec fn started_if(m: MenuState, due: bool) -> MenuState {
    MenuState { awaiting_start: m.awaiting_start && !due, ..m }
}

/// One poll of the menu takes `m0` to `m1` and reports `countdown`: the
/// reset combination first, then a selection if the menu is open.
pub open spec fn menu_step(m0: MenuState, b: MenuButtons, m1: MenuState, countdown: bool) -> bool {
    let m = after_combo(m0, b);
    if menu_open(m) {
        m1 == menu_choice(m, b).0 && countdown == menu_choice(m, b).1
    } else {
        m1 == m && !countdown
    }
}

/// The phase after a period's timer is checked: a finished autonomous period
/// hands over to driver control, a finished driver or skills period ends.
pub open spec fn phase_after_timers(
    state: CompContState,
    auto_done: bool,
    driver_done: bool,
    skills_done: bool,
) -> CompContState {
    match state {
        CompContState::Auto => if auto_done { CompContState::Driver } else { state },
        CompContState::Driver => if driver_done { CompContState::Disabled } else { state },
        CompContState::Skills => if skills_done { CompContState::Disabled } else { state },
        _ => state,
    }
}

/// The routine a phase runs.
pub open spec fn tick_for(state: CompContState, auto: Autos) -> RobotTick {
    match state {
        CompContState::Disabled => RobotTick::Idle,
        CompContState::Auto => RobotTick::Autonomous,
        CompContState::Driver => RobotTick::Driver,
        CompContState::Skills => if auto == Autos::SkillsDriver { RobotTick::Driver } else { RobotTick::Autonomous },
        CompContState::Off => RobotTick::Driver,
    }
}

/// The practice competition controller.
pub struct CompController {
    pub state: CompContState,
    pub auto: Autos,
    pub auto_timer: Timer,
    pub driver_timer: Timer,
    pub skills_timer: Timer,
    pub sim_match: bool,
    pub awaiting_start: bool,
    pub match_start_timer: Timer,
}

impl CompController {
    pub open spec fn menu(&self) -> MenuState {
        MenuState {
            state: self.state,
            auto: self.auto,
            sim_match: self.sim_match,
            awaiting_start: self.awaiting_start,
        }
    }

    /// The period timers keep their counts.
    pub open spec fn period_timers_kept(&self, old: &CompController) -> bool {
        &&& Timer::same_count(self.auto_timer, old.auto_timer)
        &&& Timer::same_count(self.driver_timer, old.driver_timer)
        &&& Timer::same_count(self.skills_timer, old.skills_timer)
    }

    /// Off, with the menu waiting, and timers of 15 s (autonomous), 105 s
    /// (driver), 60 s (skills) and 3 s (start countdown).
    pub fn new() -> (r: CompController)
        ensures
            r.state == CompContState::Off,
            r.auto == Autos::NoRoutine,
            !r.sim_match,
            r.awaiting_start,
            r.auto_timer.max_time == 15_000_000_000,
            r.driver_timer.max_time == 105_000_000_000,
            r.skills_timer.max_time == 60_000_000_000,
            r.match_start_timer.max_time == 3_000_000_000,
            !r.auto_timer.running && !r.auto_timer.finished && r.auto_timer.time == 0,
            !r.driver_timer.running && !r.driver_timer.finished && r.driver_timer.time == 0,
            !r.skills_timer.running && !r.skills_timer.finished && r.skills_timer.time == 0,
            !r.match_start_timer.running && !r.match_start_timer.finished
                && r.match_start_timer.time == 0,
    {
        CompController {
            state: CompContState::Off,
            auto: Autos::NoRoutine,
            auto_timer: Timer::new(15_000),
            driver_timer: Timer::new(105_000),
            skills_timer: Timer::new(60_000),
            sim_match: false,
            awaiting_start: true,
            match_start_timer: Timer::new(3_000),
        }
    }

    /// Once the start countdown of a simulated match has finished: leaves
    /// the menu, clears the countdown and starts the selected period's timer.
    pub fn begin_match_if_due(&mut self)
        ensures
            ({
                let due = old(self).sim_match && old(self).match_start_timer.finished;
                &&& final(self).state == old(self).state
                &&& final(self).auto == old(self).auto
                &&& final(self).sim_match == old(self).sim_match
                &&& final(self).awaiting_start == (old(self).awaiting_start && !due)
                &&& due ==> !final(self).match_start_timer.running
                    && !final(self).match_start_timer.finished
                    && final(self).match_start_timer.time == 0
                    && final(self).match_start_timer.max_time == old(self).match_start_timer.max_time
                &&& !due ==> Timer::same_count(final(self).match_start_timer, old(self).match_start_timer)
                &&& if due && old(self).state == CompContState::Auto {
                    Timer::is_started_from(final(self).auto_timer, old(self).auto_timer)
                } else {
                    Timer::same_count(final(self).auto_timer, old(self).auto_timer)
                }
                &&& if due && old(self).state == CompContState::Driver {
                    Timer::is_started_from(final(self).driver_timer, old(self).driver_timer)
                } else {
                    Timer::same_count(final(self).driver_timer, old(self).driver_timer)
                }
                &&& if due && old(self).state == CompContState::Skills {
                    Timer::is_started_from(final(self).skills_timer, old(self).skills_timer)
                } else {
                    Timer::same_count(final(self).skills_timer, old(self).skills_timer)
                }
            }),
    {
        if self.sim_match && self.match_start_timer.finished {
            self.awaiting_start = false;
            self.match_start_timer.reset();
            match self.state {
                CompContState::Auto => {
                    self.auto_timer.start();
                },
                CompContState::Driver => {
                    self.driver_timer.start();
                },
                CompContState::Skills => {
                    self.skills_timer.start();
                },
                _ => {},
            }
        }
    }

    /// Applies one poll of the buttons to the menu. Returns whether the start
    /// countdown began, in which case the controller should rumble.
    pub fn menu_input(&mut self, b: &MenuButtons) -> (countdown: bool)
        ensures
            menu_step(old(self).menu(), *b, final(self).menu(), countdown),
            countdown ==> Timer::is_started_from(final(self).match_start_timer, old(self).match_start_timer),
            !countdown ==> Timer::same_count(final(self).match_start_timer, old(self).match_start_timer),
            final(self).period_timers_kept(old(self)),
    {
        if b.x_held && b.r1_held && b.r2_held && (self.state == CompContState::Off || !self.awaiting_start) {
            self.awaiting_start = true;
            self.state = CompContState::Disabled;
            self.sim_match = false;
        }
        if !self.awaiting_start || self.state == CompContState::Off {
            return false;
        }
        if b.a_now && self.state != CompContState::Disabled {
            self.match_start_timer.start();
            true
        } else {
            if b.b_now {
                self.state = CompContState::Disabled;
                self.sim_match = false;
            } else if b.x_now && !(b.r1_held && b.r2_held) {
                self.state = CompContState::Off;
            } else if b.up_now {
                self.state = CompContState::Auto;
                self.sim_match = true;
            } else if b.down_now {
                self.state = CompContState::Skills;
                self.auto = Autos::Skills;
                self.sim_match = true;
            } else if b.right_now {
                self.state = CompContState::Driver;
                self.sim_match = true;
            } else if b.left_now {
                self.state = CompContState::Skills;
                self.auto = Autos::SkillsDriver;
                self.sim_match = true;
            }
            false
        }
    }

    /// One poll of the controller: advances the start countdown, starts a
    /// match whose countdown is over, then applies the buttons to the menu.
    /// Returns whether the countdown began (rumble the controller).
    pub fn controller_handle(&mut self, b: &MenuButtons) -> (countdown: bool)
        ensures
            exists|due: bool|
                (due ==> old(self).sim_match) && menu_step(
                    #[trigger] started_if(old(self).menu(), due),
                    *b,
                    final(self).menu(),
                    countdown,
                ),
            countdown ==> final(self).match_start_timer.running,
            final(self).auto_timer.max_time == old(self).auto_timer.max_time,
            final(self).driver_timer.max_time == old(self).driver_timer.max_time,
            final(self).skills_timer.max_time == old(self).skills_timer.max_time,
    {
        self.match_start_timer.update();
        let due = self.sim_match && self.match_start_timer.finished;
        self.begin_match_if_due();
        let ghost mid = self.menu();
        let countdown = self.menu_input(b);
        assert(menu_step(mid, *b, self.menu(), countdown));
        assert(mid == started_if(old(self).menu(), due));
        countdown
    }

    /// Ends periods whose timers have finished and reopens the menu.
    pub fn update_state(&mut self)
        ensures
            final(self).awaiting_start,
            final(self).state == phase_after_timers(
                old(self).state,
                old(self).auto_timer.finished,
                old(self).driver_timer.finished,
                old(self).skills_timer.finished,
            ),
            final(self).auto == old(self).auto,
            final(self).sim_match == (old(self).sim_match && (final(self).state != CompContState::Disabled
                || old(self).state == CompContState::Disabled)),
            final(self).period_timers_kept(old(self)),
            Timer::same_count(final(self).match_start_timer, old(self).match_start_timer),
    {
        self.awaiting_start = true;
        match self.state {
            CompContState::Auto => {
                if self.auto_timer.finished {
                    self.state = CompContState::Driver;
                }
            },
            CompContState::Driver => {
                if self.driver_timer.finished {
                    self.state = CompContState::Disabled;
                    self.sim_match = false;
                }
            },
            CompContState::Skills => {
                if self.skills_timer.finished {
                    self.state = CompContState::Disabled;
                    self.sim_match = false;
                }
            },
            _ => {},
        }
    }

    /// One control tick: unless the menu is waiting, advances the running
    /// period's timer, names the routine to run, and ends finished periods.
    pub fn comp_controller_update(&mut self) -> (tick: RobotTick)
        ensures
            old(self).awaiting_start && old(self).state != CompContState::Off ==> {
                &&& tick == RobotTick::Idle
                &&& final(self).menu() == old(self).menu()
                &&& final(self).period_timers_kept(old(self))
            },
            !(old(self).awaiting_start && old(self).state != CompContState::Off) ==> {
                &&& tick == tick_for(old(self).state, old(self).auto)
                &&& final(self).awaiting_start
                &&& final(self).auto == old(self).auto
                &&& final(self).state == phase_after_timers(
                    old(self).state,
                    final(self).auto_timer.finished,
                    final(self).driver_timer.finished,
                    final(self).skills_timer.finished,
                )
            },
    {
        if self.awaiting_start && self.state != CompContState::Off {
            return RobotTick::Idle;
        }
        let tick = match self.state {
            CompContState::Disabled => RobotTick::Idle,
            CompContState::Auto => {
                self.auto_timer.update();
                RobotTick::Autonomous
            },
            CompContState::Driver => {
                self.driver_timer.update();
                RobotTick::Driver
            },
            CompContState::Skills => {
                self.skills_timer.update();
                if self.auto == Autos::SkillsDriver {
                    RobotTick::Driver
                } else {
                    RobotTick::Autonomous
                }
            },
            CompContState::Off => {
                self.driver_timer.unchecked_update();
                RobotTick::Driver
            },
        };
        self.update_state();
        tick
    }
}

/// Picks which of the registered routines (`keys`, in registration order)
/// runs: the last one registered under `selected`, else the last of all.
pub fn select_auto(keys: &Vec<Autos>, selected: Autos) -> (r: usize)
    requires
        keys.len() > 0,
    ensures
        r < keys.len(),
        keys@[r as int] == selected ==> forall|j: int| r < j < keys.len() ==> keys@[j] != selected,
        keys@[r as int] != selected ==> r == keys.len() - 1 && forall|j: int|
            0 <= j < keys.len() ==> keys@[j] != selected,
{
    let mut index = keys.len() - 1;
    let mut found = false;
    let mut i: usize = 0;
    while i < keys.len()
        invariant
            0 <= i <= keys.len(),
            index < keys.len(),
            found ==> index < i && keys@[index as int] == selected && forall|j: int|
                index < j < i ==> keys@[j] != selected,
            !found ==> index == keys.len() - 1 && forall|j: int| 0 <= j < i ==> keys@[j] != selected,
        decreases keys.len() - i,
    {
        if keys[i] == selected {
            index = i;
            found = true;
        }
        i = i + 1;
    }
    index
}

} // verus!
