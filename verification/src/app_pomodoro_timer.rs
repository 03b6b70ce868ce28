//! Pomodoro timer mini-application: a 25-minute work countdown and a
//! 5-minute rest countdown in turns, pausable, with the remaining time on
//! the 4-digit display and a phase picture on the graphic display.

use vstd::prelude::*;

use crate::app_context::AppContext;
use crate::app_context::AppFramework;
use crate::buzzer::QueueError;
use crate::display::CommandModel;
use crate::display::Point;
use crate::display::DISPLAY_QUEUE_CAPACITY;
use crate::keys::Button;
use crate::readout::convert_to_display_format;
use crate::readout::spec_time_frame;
use crate::volume::Volume;
use crate::volume::spec_to_percent;

verus! {

/// Asset index of the picture shown while working.
pub const IMAGE_POMODORO_WORKING: usize = 0;

/// Asset index of the picture shown while resting.
pub const IMAGE_POMODORO_RESTING: usize = 1;

/// Seconds of one work phase.
pub const WORKING_SECONDS: u32 = 25 * 60;

/// Seconds of one rest phase.
pub const RESTING_SECONDS: u32 = 5 * 60;

/// Phase of the timer.
#[derive(Clone, Copy, PartialEq, Eq, Structural, Debug)]
pub enum PomodoroState {
    Preparing,
    Working,
    WorkingPaused,
    Resting,
    RestingPaused,
}

/// The debug shortcut of the down button: a minute off while more than a
/// minute remains, ten seconds off while more than ten remain.
pub open spec fn pomodoro_debug_adjust(remaining: u32) -> u32 {
    if remaining > 60 {
        (remaining - 60) as u32
    } else if remaining > 10 {
        (remaining - 10) as u32
    } else {
        remaining
    }
}

/// One frame of the phase machine, after the debug shortcut and outside a
/// reset: the countdown ticks once a second in an active phase, the
/// start/stop button toggles the pause, and a countdown that hits zero
/// swaps the phase.
pub open spec fn pomodoro_step(
    state: PomodoroState,
    remaining: u32,
    start_stop: bool,
    second_tick: bool,
) -> (PomodoroState, u32) {
    match state {
        PomodoroState::Preparing => (
            if start_stop {
                PomodoroState::Working
            } else {
                PomodoroState::Preparing
            },
            remaining,
        ),
        PomodoroState::Working => {
            let rem = if second_tick {
                (remaining - 1) as u32
            } else {
                remaining
            };
            if rem == 0 {
                (PomodoroState::Resting, RESTING_SECONDS)
            } else {
                (
                    if start_stop {
                        PomodoroState::WorkingPaused
                    } else {
                        PomodoroState::Working
                    },
                    rem,
                )
            }
        },
        PomodoroState::WorkingPaused => (
            if start_stop {
                PomodoroState::Working
            } else {
                PomodoroState::WorkingPaused
            },
            remaining,
        ),
        PomodoroState::Resting => {
            let rem = if second_tick {
                (remaining - 1) as u32
            } else {
                remaining
            };
            if rem == 0 {
                (PomodoroState::Preparing, WORKING_SECONDS)
            } else {
                (
                    if start_stop {
                        PomodoroState::RestingPaused
                    } else {
                        PomodoroState::Resting
                    },
                    rem,
                )
            }
        },
        PomodoroState::RestingPaused => (
            if start_stop {
                PomodoroState::Resting
            } else {
                PomodoroState::RestingPaused
            },
            remaining,
        ),
    }
}

/// The picture batch a phase swap sends to the graphic display: wipe the
/// canvas, draw the phase picture, repaint.
pub open spec fn picture_batch(image_id: int) -> Seq<CommandModel> {
    seq![
        CommandModel::Clear,
        (CommandModel::DrawImage { image_id: image_id, x: 0, y: 0 }),
        CommandModel::Update,
    ]
}


/// When one pomodoro frame fails: outside a reset, the frame swaps the
/// phase picture and its three-command batch does not fit the display
/// queue.
pub open spec fn pomodoro_update_fails(
    pre: PomodoroTimer,
    ctx: AppContext,
    frame_count: u64,
) -> bool {
    let released = ctx.button.released() & Button::MASK;
    let start_stop = released & Button::A != 0;
    let reset = released & Button::B != 0;
    let down = released & Button::DOWN != 0;
    let rem_dbg = if down {
        pomodoro_debug_adjust(pre.remaining())
    } else {
        pre.remaining()
    };
    let second_tick = frame_count % 60 == 0;
    let swap_to_working = !reset && pre.state() is Preparing && start_stop;
    let swap_to_resting = !reset && pre.state() is Working && (if second_tick {
        rem_dbg - 1
    } else {
        rem_dbg as int
    }) == 0;
    (swap_to_working || swap_to_resting) && ctx.display.pending().len() + 3
        > DISPLAY_QUEUE_CAPACITY
}

/// What one pomodoro frame does: the full relation between the states
/// before and after [`PomodoroTimer::update`] and its result.
pub open spec fn pomodoro_update_post(
    pre: PomodoroTimer,
    post: PomodoroTimer,
    cpre: AppContext,
    cpost: AppContext,
    frame_count: u64,
    r: Result<(), QueueError>,
) -> bool {
    let released = cpre.button.released() & Button::MASK;
    let start_stop = released & Button::A != 0;
    let reset = released & Button::B != 0;
    let down = released & Button::DOWN != 0;
    let rem_dbg = if down {
        pomodoro_debug_adjust(pre.remaining())
    } else {
        pre.remaining()
    };
    let second_tick = frame_count % 60 == 0;
    let with_dot = frame_count % 60 < 30;
    let stepped = pomodoro_step(pre.state(), rem_dbg, start_stop, second_tick);
    let swap_to_working = !reset && pre.state() is Preparing && start_stop;
    let swap_to_resting = !reset && pre.state() is Working && (if second_tick {
        rem_dbg - 1
    } else {
        rem_dbg as int
    }) == 0;
    &&& post.wf()
    &&& cpost.button.released() == cpre.button.released() & !Button::MASK
    &&& cpost.button.history() == cpre.button.history()
    &&& cpost.led.brightness() == seq![
        spec_to_percent(cpre.volume) as u8,
        spec_to_percent(cpre.volume) as u8,
        spec_to_percent(cpre.volume) as u8,
        spec_to_percent(cpre.volume) as u8,
    ]
    &&& cpost.buzzer == cpre.buzzer
    &&& cpost.volume == cpre.volume
    &&& post.spec_finished() == pre.spec_finished()
    &&& (r is Err <==> pomodoro_update_fails(pre, cpre, frame_count))
    &&& r is Ok && reset ==> {
        &&& post.state() is Preparing
        &&& post.remaining() == WORKING_SECONDS
        &&& cpost.led.frame() == spec_time_frame(WORKING_SECONDS as int, false)
        &&& cpost.display.pending() == cpre.display.pending()
    }
    &&& r is Ok && !reset ==> {
        &&& post.state() == stepped.0
        &&& post.remaining() == stepped.1
        &&& cpost.led.frame() == (if pre.state() is Working || pre.state() is Resting {
            spec_time_frame(stepped.1 as int, with_dot)
        } else if down {
            spec_time_frame(rem_dbg as int, false)
        } else {
            cpre.led.frame()
        })
        &&& (swap_to_working ==> cpost.display.pending() == cpre.display.pending()
            + picture_batch(IMAGE_POMODORO_WORKING as int))
        &&& (swap_to_resting ==> cpost.display.pending() == cpre.display.pending()
            + picture_batch(IMAGE_POMODORO_RESTING as int))
        &&& (!swap_to_working && !swap_to_resting ==> cpost.display.pending()
            == cpre.display.pending())
    }
    &&& r is Err ==> post.state() == pre.state() && post.remaining() == rem_dbg
        && cpost.display.pending() == cpre.display.pending() && cpost.led.frame() == (if down {
        spec_time_frame(rem_dbg as int, false)
    } else {
        cpre.led.frame()
    })
}

/// What parking the pomodoro timer does: nothing, and it cannot fail.
pub open spec fn pomodoro_finalize_post(
    pre: PomodoroTimer,
    post: PomodoroTimer,
    cpre: AppContext,
    cpost: AppContext,
    r: Result<(), QueueError>,
) -> bool {
    r is Ok && post == pre && cpost == cpre
}

/// Pomodoro timer state.
pub struct PomodoroTimer {
    state: PomodoroState,
    remaining_time: u32,
    finished: bool,
}

impl PomodoroTimer {
    /// The current phase.
    pub closed spec fn state(self) -> PomodoroState {
        self.state
    }

    /// Remaining seconds of the current phase.
    pub closed spec fn remaining(self) -> u32 {
        self.remaining_time
    }

    /// Whether the application wants to exit.
    pub closed spec fn spec_finished(self) -> bool {
        self.finished
    }

    /// The remaining time never leaves 1..=1500: phase swaps reload it
    /// before it is shown, and the countdown never ticks below the swap.
    pub open spec fn wf(self) -> bool {
        1 <= self.remaining() <= WORKING_SECONDS
    }

    pub fn new() -> (r: PomodoroTimer)
        ensures
            r.state() is Preparing,
            r.remaining() == WORKING_SECONDS,
            !r.spec_finished(),
            r.wf(),
    {
        PomodoroTimer {
            state: PomodoroState::Preparing,
            remaining_time: WORKING_SECONDS,
            finished: false,
        }
    }

    pub fn get_name(&self) -> (r: &'static str)
        ensures
            r@ == "Pomodoro timer"@,
    {
        "Pomodoro timer"
    }

    pub fn initialize(&mut self, _context: &mut AppContext) -> (r: Result<(), QueueError>)
        ensures
            r is Ok,
            final(self).state() is Preparing,
            final(self).remaining() == WORKING_SECONDS,
            !final(self).spec_finished(),
            final(self).wf(),
            *final(_context) == *old(_context),
    {
        self.remaining_time = WORKING_SECONDS;
        self.state = PomodoroState::Preparing;
        self.finished = false;
        Ok(())
    }

    /// One frame: consume the released buttons, dim the display to the
    /// rotary control, apply the debug shortcut, a reset, or one step of
    /// the phase machine, and show the remaining time. A phase swap that
    /// needs the graphic display fails exactly when its three-command
    /// batch does not fit the queue, and then swaps nothing.
    pub fn update(&mut self, context: &mut AppContext, frame_count: u64) -> (r: Result<
        (),
        QueueError,
    >)
        requires
            old(self).wf(),
        ensures
            pomodoro_update_post(
                *old(self),
                *final(self),
                *old(context),
                *final(context),
                frame_count,
                r,
            ),
    {
        let released_button = context.button.was_released(Button::MASK);
        let was_start_stop_button_pressed = released_button & Button::A != 0;
        let was_reset_button_pressed = released_button & Button::B != 0;
        let was_down_button_pressed = released_button & Button::DOWN != 0;

        let raw_value = context.volume;
        let percent = Volume::to_percent(raw_value) as u8;
        context.led.set_brightness([percent, percent, percent, percent]);
        proof {
            assert(context.led.brightness() =~= seq![percent, percent, percent, percent]);
        }

        let sub_frame = frame_count % 60;
        let with_dot = sub_frame < 30;

        if was_down_button_pressed {
            if self.remaining_time > 60 {
                self.remaining_time = self.remaining_time - 60;
            } else if self.remaining_time > 10 {
                self.remaining_time = self.remaining_time - 10;
            }
            let display_format = convert_to_display_format(self.remaining_time, false);
            context.led.write(display_format);
        }

        if was_reset_button_pressed {
            self.state = PomodoroState::Preparing;
            self.remaining_time = WORKING_SECONDS;
            let display_format = convert_to_display_format(self.remaining_time, false);
            context.led.write(display_format);
            return Ok(());
        }

        match self.state {
            PomodoroState::Preparing => {
                if was_start_stop_button_pressed {
                    if !context.display.can_accept(3) {
                        return Err(QueueError::Full);
                    }
                    self.state = PomodoroState::Working;
                    let _ = context.display.clear();
                    let _ = context.display.draw_image(IMAGE_POMODORO_WORKING, Point::new(0, 0));
                    let _ = context.display.update();
                    proof {
                        assert(context.display.pending() =~= old(context).display.pending()
                            + picture_batch(IMAGE_POMODORO_WORKING as int));
                    }
                }
            },
            PomodoroState::Working => {
                let remaining_at_entry = self.remaining_time;
                if sub_frame == 0 {
                    self.remaining_time = self.remaining_time - 1;
                }
                if was_start_stop_button_pressed {
                    self.state = PomodoroState::WorkingPaused;
                }
                if self.remaining_time == 0 {
                    if !context.display.can_accept(3) {
                        self.state = PomodoroState::Working;
                        self.remaining_time = remaining_at_entry;
                        return Err(QueueError::Full);
                    }
                    self.remaining_time = RESTING_SECONDS;
                    self.state = PomodoroState::Resting;
                    let _ = context.display.clear();
                    let _ = context.display.draw_image(IMAGE_POMODORO_RESTING, Point::new(0, 0));
                    let _ = context.display.update();
                    proof {
                        assert(context.display.pending() =~= old(context).display.pending()
                            + picture_batch(IMAGE_POMODORO_RESTING as int));
                    }
                }
                let display_format = convert_to_display_format(self.remaining_time, with_dot);
                context.led.write(display_format);
            },
            PomodoroState::WorkingPaused => {
                if was_start_stop_button_pressed {
                    self.state = PomodoroState::Working;
                }
            },
            PomodoroState::Resting => {
                if sub_frame == 0 {
                    self.remaining_time = self.remaining_time - 1;
                }
                if was_start_stop_button_pressed {
                    self.state = PomodoroState::RestingPaused;
                }
                if self.remaining_time == 0 {
                    self.remaining_time = WORKING_SECONDS;
                    self.state = PomodoroState::Preparing;
                }
                let display_format = convert_to_display_format(self.remaining_time, with_dot);
                context.led.write(display_format);
            },
            PomodoroState::RestingPaused => {
                if was_start_stop_button_pressed {
                    self.state = PomodoroState::Resting;
                }
            },
        }
        Ok(())
    }

    pub fn finalize(&mut self, _context: &mut AppContext) -> (r: Result<(), QueueError>)
        ensures
            pomodoro_finalize_post(*old(self), *final(self), *old(_context), *final(_context), r),
    {
        Ok(())
    }

    pub fn is_finished(&self) -> (r: bool)
        ensures
            r == self.spec_finished(),
    {
        self.finished
    }

    /// The current phase, for observers.
    pub fn get_state(&self) -> (r: PomodoroState)
        ensures
            r == self.state(),
    {
        self.state
    }

    /// The remaining seconds, for observers.
    pub fn get_remaining(&self) -> (r: u32)
        ensures
            r == self.remaining(),
    {
        self.remaining_time
    }
}

impl AppFramework for PomodoroTimer {
    open spec fn inv(&self) -> bool {
        self.wf()
    }

    fn get_name(&self) -> &'static str {
        PomodoroTimer::get_name(self)
    }

    fn initialize(&mut self, context: &mut AppContext) -> Result<(), QueueError> {
        PomodoroTimer::initialize(self, context)
    }

    fn update(&mut self, context: &mut AppContext, frame_count: u64) -> Result<(), QueueError> {
        PomodoroTimer::update(self, context, frame_count)
    }

    fn finalize(&mut self, context: &mut AppContext) -> Result<(), QueueError> {
        PomodoroTimer::finalize(self, context)
    }

    fn is_finished(&self) -> bool {
        PomodoroTimer::is_finished(self)
    }
}

} // verus!
