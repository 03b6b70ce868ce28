//! Application framework and menu scheduler.
//!
//! One frame-paced state machine owns the whole user surface: in
//! `Selection` it browses the registered mini-applications, `AppRunning`
//! delegates each frame to the active one, and `ReturnToMenu` drains input
//! for a short cooldown after an application exits, so a button held
//! through the exit gesture cannot immediately re-enter an application.

use vstd::prelude::*;
use vstd::string::StringExecFns;

use crate::app_context::AppContext;
use crate::app_pomodoro_timer::PomodoroTimer;
use crate::app_pomodoro_timer::WORKING_SECONDS;
use crate::app_pomodoro_timer::pomodoro_update_fails;
use crate::app_pomodoro_timer::pomodoro_update_post;
use crate::app_pomodoro_timer::pomodoro_finalize_post;
use crate::app_slot_game::SlotGame;
use crate::app_slot_game::slot_update_post;
use crate::app_slot_game::slot_finalize_post;
use crate::app_toy_piano::ToyPiano;
use crate::app_toy_piano::piano_update_fails;
use crate::app_toy_piano::piano_update_post;
use crate::app_toy_piano::piano_finalize_fails;
use crate::app_toy_piano::piano_finalize_post;
use crate::buzzer::QueueError;
use crate::display::CommandModel;
use crate::display::DisplayDriver;
use crate::display::Point;
use crate::display::DISPLAY_QUEUE_CAPACITY;
use crate::keys::Button;
use crate::readout::selection_readout;
use crate::readout::spec_selection_readout;
use crate::volume::Volume;
use crate::volume::spec_to_percent;

verus! {

/// How many mini-applications are registered.
pub const APP_COUNT: usize = 3;

/// Cooldown of the return to the menu, in frames: half a second.
pub const RETURN_TO_MENU_FRAMES: u64 = 60 / 2;

/// State of the menu scheduler.
#[derive(Clone, Copy, PartialEq, Eq, Structural, Debug)]
pub enum MenuState {
    Selection,
    AppRunning,
    ReturnToMenu,
}

/// The registered mini-applications, in menu order. Each is created once
/// at startup, parked between activations and re-initialized on selection.
pub struct AppRegistry {
    pub pomodoro: PomodoroTimer,
    pub piano: ToyPiano,
    pub slot: SlotGame,
}

/// The menu name of the application at `index`.
pub open spec fn spec_app_name(index: int) -> Seq<char> {
    if index == 0 {
        "Pomodoro timer"@
    } else if index == 1 {
        "Toy piano"@
    } else {
        "Slot game"@
    }
}

/// That `post` is `pre` with exactly the application at `index` brought
/// back to its freshly initialized state, and the others parked untouched.
pub open spec fn app_initialized(pre: AppRegistry, post: AppRegistry, index: int) -> bool {
    if index == 0 {
        &&& post.pomodoro.state() is Preparing
        &&& post.pomodoro.remaining() == WORKING_SECONDS
        &&& !post.pomodoro.spec_finished()
        &&& post.piano == pre.piano
        &&& post.slot == pre.slot
    } else if index == 1 {
        &&& !post.piano.spec_finished()
        &&& post.piano.previous() == 0u8
        &&& post.pomodoro == pre.pomodoro
        &&& post.slot == pre.slot
    } else {
        post == pre
    }
}


/// When one frame of the application at `index` fails, judged from the
/// states before the frame: lifted from the applications' own contracts.
pub open spec fn app_update_fails(
    apps: AppRegistry,
    ctx: AppContext,
    index: int,
    frame_count: u64,
) -> bool {
    if index == 0 {
        pomodoro_update_fails(apps.pomodoro, ctx, frame_count)
    } else if index == 1 {
        piano_update_fails(apps.piano, ctx)
    } else {
        false
    }
}

/// What one frame of the application at `index` does: that application's
/// own update relation, with the other applications parked untouched.
pub open spec fn app_update_post(
    pre: AppRegistry,
    post: AppRegistry,
    cpre: AppContext,
    cpost: AppContext,
    index: int,
    frame_count: u64,
    r: Result<(), QueueError>,
) -> bool {
    if index == 0 {
        &&& pomodoro_update_post(pre.pomodoro, post.pomodoro, cpre, cpost, frame_count, r)
        &&& post.piano == pre.piano
        &&& post.slot == pre.slot
    } else if index == 1 {
        &&& piano_update_post(pre.piano, post.piano, cpre, cpost, r)
        &&& post.pomodoro == pre.pomodoro
        &&& post.slot == pre.slot
    } else {
        &&& slot_update_post(pre.slot, post.slot, cpre, cpost, r)
        &&& post.pomodoro == pre.pomodoro
        &&& post.piano == pre.piano
    }
}

/// When parking the application at `index` fails: only the toy piano can,
/// on a saturated tone queue.
pub open spec fn app_finalize_fails(ctx: AppContext, index: int) -> bool {
    index == 1 && piano_finalize_fails(ctx)
}

/// What parking the application at `index` does: that application's own
/// finalize relation, with the other applications untouched.
pub open spec fn app_finalize_post(
    pre: AppRegistry,
    post: AppRegistry,
    cpre: AppContext,
    cpost: AppContext,
    index: int,
    r: Result<(), QueueError>,
) -> bool {
    if index == 0 {
        &&& pomodoro_finalize_post(pre.pomodoro, post.pomodoro, cpre, cpost, r)
        &&& post.piano == pre.piano
        &&& post.slot == pre.slot
    } else if index == 1 {
        &&& piano_finalize_post(pre.piano, post.piano, cpre, cpost, r)
        &&& post.pomodoro == pre.pomodoro
        &&& post.slot == pre.slot
    } else {
        &&& slot_finalize_post(pre.slot, post.slot, cpre, cpost, r)
        &&& post.pomodoro == pre.pomodoro
        &&& post.piano == pre.piano
    }
}

impl AppRegistry {
    /// The per-application internal invariants, kept across frames.
    pub open spec fn wf(self) -> bool {
        self.pomodoro.wf() && self.slot.wf()
    }

    pub fn new() -> (r: AppRegistry)
        ensures
            r.wf(),
            r.pomodoro.state() is Preparing,
            !r.pomodoro.spec_finished(),
            !r.piano.spec_finished(),
            !r.slot.spec_finished(),
    {
        AppRegistry { pomodoro: PomodoroTimer::new(), piano: ToyPiano::new(), slot: SlotGame::new() }
    }

    /// The menu name of the application at `index`.
    pub fn app_name(&self, index: usize) -> (r: &'static str)
        requires
            index < APP_COUNT,
        ensures
            r@ == spec_app_name(index as int),
    {
        if index == 0 {
            self.pomodoro.get_name()
        } else if index == 1 {
            self.piano.get_name()
        } else {
            self.slot.get_name()
        }
    }

    /// Initializes exactly the application at `index` for a fresh run.
    pub fn initialize_app(&mut self, index: usize, context: &mut AppContext) -> (r: Result<
        (),
        QueueError,
    >)
        requires
            index < APP_COUNT,
            old(self).wf(),
        ensures
            r is Ok,
            final(self).wf(),
            app_initialized(*old(self), *final(self), index as int),
            *final(context) == *old(context),
    {
        if index == 0 {
            self.pomodoro.initialize(context)
        } else if index == 1 {
            self.piano.initialize(context)
        } else {
            self.slot.initialize(context)
        }
    }

    /// Runs one frame of the application at `index`.
    pub fn update_app(&mut self, index: usize, context: &mut AppContext, frame_count: u64) -> (r:
        Result<(), QueueError>)
        requires
            index < APP_COUNT,
            old(self).wf(),
        ensures
            final(self).wf(),
            app_update_post(
                *old(self),
                *final(self),
                *old(context),
                *final(context),
                index as int,
                frame_count,
                r,
            ),
            r is Err <==> app_update_fails(*old(self), *old(context), index as int, frame_count),
            index != 0 ==> final(self).pomodoro == old(self).pomodoro,
            index != 1 ==> final(self).piano == old(self).piano,
            index != 2 ==> final(self).slot == old(self).slot,
            spec_app_finished(*final(self), index as int) == spec_app_finished(
                *old(self),
                index as int,
            ),
            final(context).button.history() == old(context).button.history(),
            final(context).volume == old(context).volume,
    {
        if index == 0 {
            self.pomodoro.update(context, frame_count)
        } else if index == 1 {
            self.piano.update(context, frame_count)
        } else {
            self.slot.update(context, frame_count)
        }
    }

    /// Parks the application at `index` after its run.
    pub fn finalize_app(&mut self, index: usize, context: &mut AppContext) -> (r: Result<
        (),
        QueueError,
    >)
        requires
            index < APP_COUNT,
            old(self).wf(),
        ensures
            final(self).wf(),
            app_finalize_post(
                *old(self),
                *final(self),
                *old(context),
                *final(context),
                index as int,
                r,
            ),
            r is Err <==> app_finalize_fails(*old(context), index as int),
            *final(self) == *old(self),
            final(context).button == old(context).button,
            final(context).display == old(context).display,
            final(context).volume == old(context).volume,
    {
        if index == 0 {
            self.pomodoro.finalize(context)
        } else if index == 1 {
            self.piano.finalize(context)
        } else {
            self.slot.finalize(context)
        }
    }

    /// Whether the application at `index` wants to exit.
    pub fn is_app_finished(&self, index: usize) -> (r: bool)
        requires
            index < APP_COUNT,
        ensures
            r == spec_app_finished(*self, index as int),
    {
        if index == 0 {
            self.pomodoro.is_finished()
        } else if index == 1 {
            self.piano.is_finished()
        } else {
            self.slot.is_finished()
        }
    }
}

/// Whether the application at `index` wants to exit.
pub open spec fn spec_app_finished(apps: AppRegistry, index: int) -> bool {
    if index == 0 {
        apps.pomodoro.spec_finished()
    } else if index == 1 {
        apps.piano.spec_finished()
    } else {
        apps.slot.spec_finished()
    }
}

/// One menu line: the application's name behind the selection marker or
/// behind matching blanks.
pub open spec fn spec_menu_line(index: int, selected: int) -> Seq<char> {
    (if index == selected {
        "> "@
    } else {
        "  "@
    }) + spec_app_name(index)
}

/// The command batch one menu redraw enqueues: wipe the canvas, the
/// heading, one line per application with the selected one marked, then
/// the repaint.
pub open spec fn menu_commands(selected: int) -> Seq<CommandModel> {
    seq![
        CommandModel::Clear,
        (CommandModel::DrawText { text: "== Menu =="@, x: 0, y: 0 }),
        (CommandModel::DrawText { text: spec_menu_line(0, selected), x: 0, y: 10 }),
        (CommandModel::DrawText { text: spec_menu_line(1, selected), x: 0, y: 20 }),
        (CommandModel::DrawText { text: spec_menu_line(2, selected), x: 0, y: 30 }),
        CommandModel::Update,
    ]
}

/// Builds one menu line for the application at `index`.
fn menu_line(apps: &AppRegistry, index: usize, selected_index: usize) -> (r: String)
    requires
        index < APP_COUNT,
    ensures
        r@ == spec_menu_line(index as int, selected_index as int),
{
    let mut line: String = if index == selected_index {
        String::from_str("> ")
    } else {
        String::from_str("  ")
    };
    line.append(apps.app_name(index));
    line
}

/// Redraws the whole menu: fails exactly when its six-command batch does
/// not fit the display queue, and then enqueues nothing.
pub fn draw_menu(display: &mut DisplayDriver, apps: &AppRegistry, selected_index: usize) -> (r:
    Result<(), QueueError>)
    requires
        selected_index < APP_COUNT,
    ensures
        r is Err <==> old(display).pending().len() + 6 > DISPLAY_QUEUE_CAPACITY,
        r is Ok ==> final(display).pending() == old(display).pending() + menu_commands(
            selected_index as int,
        ),
        r is Err ==> final(display).pending() == old(display).pending(),
{
    if !display.can_accept(6) {
        return Err(QueueError::Full);
    }
    let _ = display.clear();
    let _ = display.draw_text(String::from_str("== Menu =="), Point::new(0, 0));
    let _ = display.draw_text(menu_line(apps, 0, selected_index), Point::new(0, 10));
    let _ = display.draw_text(menu_line(apps, 1, selected_index), Point::new(0, 20));
    let _ = display.draw_text(menu_line(apps, 2, selected_index), Point::new(0, 30));
    let _ = display.update();
    proof {
        assert(display.pending() =~= old(display).pending() + menu_commands(
            selected_index as int,
        ));
    }
    Ok(())
}

/// The menu scheduler: which application is selected, whether one is
/// running, and when a cooldown ends.
pub struct MenuScheduler {
    state: MenuState,
    selected_index: usize,
    return_to_menu_time: u64,
}

impl MenuScheduler {
    /// The scheduler state.
    pub closed spec fn state(self) -> MenuState {
        self.state
    }

    /// The index of the selected application.
    pub closed spec fn selected(self) -> int {
        self.selected_index as int
    }

    /// The frame at which the cooldown ends.
    pub closed spec fn return_time(self) -> u64 {
        self.return_to_menu_time
    }

    /// The selection always points at a registered application.
    pub open spec fn wf(self) -> bool {
        0 <= self.selected() < APP_COUNT
    }

    pub fn new() -> (r: MenuScheduler)
        ensures
            r.state() is Selection,
            r.selected() == 0,
            r.wf(),
    {
        MenuScheduler {
            state: MenuState::Selection,
            selected_index: 0,
            return_to_menu_time: 0,
        }
    }

    /// The scheduler state, for observers.
    pub fn get_state(&self) -> (r: MenuState)
        ensures
            r == self.state(),
    {
        self.state
    }

    /// The selected application index, for observers.
    pub fn get_selected_index(&self) -> (r: usize)
        ensures
            r as int == self.selected(),
    {
        self.selected_index
    }

    /// The frame at which the cooldown ends, for observers.
    pub fn get_return_time(&self) -> (r: u64)
        ensures
            r == self.return_time(),
    {
        self.return_to_menu_time
    }

    /// One frame of the scheduler. In `Selection` it shows the uptime
    /// readout, dims the display to the rotary control, moves the
    /// selection on up or down — wrapping around the registry — redraws
    /// the menu, and on confirm wipes the graphic display and initializes
    /// the selected application exactly once. In `AppRunning` it runs one
    /// frame of the active application, and when that application is
    /// finished — or every button is held down at once — finalizes it,
    /// redraws the menu and schedules the cooldown. In `ReturnToMenu` it
    /// drains and discards release events until the cooldown frame.
    ///
    /// A saturated display queue, or a failing application frame, is
    /// surfaced as the error of this frame; the scheduler state stays
    /// consistent and the next frame carries on.
    pub fn step(&mut self, apps: &mut AppRegistry, context: &mut AppContext, frame_count: u64) -> (r:
        Result<(), QueueError>)
        requires
            old(self).wf(),
            old(apps).wf(),
            frame_count <= u64::MAX - RETURN_TO_MENU_FRAMES,
        ensures
            final(self).wf(),
            final(apps).wf(),
            final(context).volume == old(context).volume,
            ({
                let released = old(context).button.released() & Button::MASK;
                let up = released & Button::UP != 0;
                let down = released & Button::DOWN != 0;
                let confirm = released & Button::A != 0;
                let navigate = up || down;
                let direction = if down {
                    1int
                } else {
                    (APP_COUNT - 1) as int
                };
                let new_selected = if navigate {
                    (old(self).selected() + direction) % (APP_COUNT as int)
                } else {
                    old(self).selected()
                };
                match old(self).state() {
                    MenuState::Selection => {
                        let nav_err = navigate && old(context).display.pending().len() + 6
                            > DISPLAY_QUEUE_CAPACITY;
                        let nav_cmds = if navigate {
                            menu_commands(new_selected)
                        } else {
                            Seq::<CommandModel>::empty()
                        };
                        let confirm_err = !nav_err && confirm && old(context).display.pending().len() + nav_cmds.len() + 2 > DISPLAY_QUEUE_CAPACITY;
                        &&& final(context).led.frame() == spec_selection_readout(
                            frame_count as int,
                        )
                        &&& final(context).led.brightness() == seq![
                            spec_to_percent(old(context).volume) as u8,
                            spec_to_percent(old(context).volume) as u8,
                            spec_to_percent(old(context).volume) as u8,
                            spec_to_percent(old(context).volume) as u8,
                        ]
                        &&& final(context).button.released() == old(context).button.released()
                            & !Button::MASK
                        &&& final(context).button.history() == old(context).button.history()
                        &&& final(self).selected() == new_selected
                        &&& final(self).return_time() == old(self).return_time()
                        &&& final(context).buzzer == old(context).buzzer
                        &&& (r is Err <==> nav_err || confirm_err)
                        &&& r is Ok ==> {
                            &&& final(self).state() == (if confirm {
                                MenuState::AppRunning
                            } else {
                                MenuState::Selection
                            })
                            &&& (confirm ==> app_initialized(
                                *old(apps),
                                *final(apps),
                                new_selected,
                            ) && final(context).display.pending() == old(context).display.pending() + nav_cmds + seq![
                                CommandModel::Clear,
                                CommandModel::Update,
                            ])
                            &&& (!confirm ==> *final(apps) == *old(apps) && final(context).display.pending() == old(context).display.pending() + nav_cmds)
                        }
                        &&& r is Err ==> {
                            &&& final(self).state() is Selection
                            &&& *final(apps) == *old(apps)
                            &&& (nav_err ==> final(context).display.pending() == old(context).display.pending())
                            &&& (confirm_err ==> final(context).display.pending() == old(context).display.pending() + nav_cmds)
                        }
                    },
                    MenuState::AppRunning => {
                        let idx = old(self).selected();
                        let all_pressed = old(context).button.history()[0] == Button::MASK;
                        let exit = spec_app_finished(*old(apps), idx) || all_pressed;
                        let update_failed = app_update_fails(
                            *old(apps),
                            *old(context),
                            idx,
                            frame_count,
                        );
                        &&& final(self).selected() == idx
                        &&& (update_failed ==> {
                            &&& r is Err
                            &&& app_update_post(
                                *old(apps),
                                *final(apps),
                                *old(context),
                                *final(context),
                                idx,
                                frame_count,
                                r,
                            )
                            &&& final(self).state() is AppRunning
                            &&& final(self).return_time() == old(self).return_time()
                        })
                        &&& (!update_failed && !exit ==> {
                            &&& r is Ok
                            &&& app_update_post(
                                *old(apps),
                                *final(apps),
                                *old(context),
                                *final(context),
                                idx,
                                frame_count,
                                r,
                            )
                            &&& final(self).state() is AppRunning
                            &&& final(self).return_time() == old(self).return_time()
                        })
                        &&& (!update_failed && exit ==> (exists|mid: AppContext|
                            {
                                &&& #[trigger] app_update_post(
                                    *old(apps),
                                    *final(apps),
                                    *old(context),
                                    mid,
                                    idx,
                                    frame_count,
                                    (Ok::<(), QueueError>(())),
                                )
                                &&& (if mid.display.pending().len() + 6 > DISPLAY_QUEUE_CAPACITY {
                                    &&& r is Err
                                    &&& *final(context) == mid
                                    &&& final(self).state() is AppRunning
                                    &&& final(self).return_time() == old(self).return_time()
                                } else if app_finalize_fails(mid, idx) {
                                    &&& r is Err
                                    &&& app_finalize_post(
                                        *final(apps),
                                        *final(apps),
                                        mid,
                                        *final(context),
                                        idx,
                                        r,
                                    )
                                    &&& final(self).state() is AppRunning
                                    &&& final(self).return_time() == old(self).return_time()
                                } else {
                                    exists|fin: AppContext|
                                        {
                                            &&& #[trigger] app_finalize_post(
                                                *final(apps),
                                                *final(apps),
                                                mid,
                                                fin,
                                                idx,
                                                (Ok::<(), QueueError>(())),
                                            )
                                            &&& r is Ok
                                            &&& final(self).state() is ReturnToMenu
                                            &&& final(self).return_time() == frame_count
                                                + RETURN_TO_MENU_FRAMES
                                            &&& final(context).display.pending()
                                                == fin.display.pending() + menu_commands(idx)
                                            &&& final(context).button == fin.button
                                            &&& final(context).buzzer == fin.buzzer
                                            &&& final(context).led == fin.led
                                            &&& final(context).volume == fin.volume
                                        }
                                })
                            }))
                    },
                    MenuState::ReturnToMenu => {
                        &&& r is Ok
                        &&& final(self).state() == (if frame_count >= old(self).return_time() {
                            MenuState::Selection
                        } else {
                            MenuState::ReturnToMenu
                        })
                        &&& final(self).selected() == old(self).selected()
                        &&& final(self).return_time() == old(self).return_time()
                        &&& *final(apps) == *old(apps)
                        &&& final(context).button.released() == old(context).button.released()
                            & !Button::MASK
                        &&& final(context).button.history() == old(context).button.history()
                        &&& final(context).led == old(context).led
                        &&& final(context).display == old(context).display
                        &&& final(context).buzzer == old(context).buzzer
                    },
                }
            }),
    {
        match self.state {
            MenuState::Selection => {
                let raw_value = context.volume;
                let percent = Volume::to_percent(raw_value) as u8;
                let frame = selection_readout(frame_count);
                context.led.write(frame);
                context.led.set_brightness([percent, percent, percent, percent]);
                proof {
                    assert(context.led.brightness() =~= seq![percent, percent, percent, percent]);
                }

                let released = context.button.was_released(Button::MASK);
                let is_up_event = released & Button::UP != 0;
                let is_down_event = released & Button::DOWN != 0;
                let is_run_event = released & Button::A != 0;

                if is_up_event || is_down_event {
                    let direction: usize = if is_down_event {
                        1
                    } else {
                        APP_COUNT - 1
                    };
                    self.selected_index = (self.selected_index + direction) % APP_COUNT;
                    match draw_menu(&mut context.display, apps, self.selected_index) {
                        Ok(_) => (),
                        Err(e) => {
                            return Err(e);
                        },
                    }
                }
                if is_run_event {
                    if !context.display.can_accept(2) {
                        return Err(QueueError::Full);
                    }
                    let ghost before_confirm = context.display.pending();
                    let _ = context.display.clear();
                    let _ = context.display.update();
                    proof {
                        assert(context.display.pending() =~= before_confirm + seq![
                            CommandModel::Clear,
                            CommandModel::Update,
                        ]);
                    }
                    match apps.initialize_app(self.selected_index, context) {
                        Ok(_) => (),
                        Err(e) => {
                            return Err(e);
                        },
                    }
                    self.state = MenuState::AppRunning;
                }
                Ok(())
            },
            MenuState::AppRunning => {
                let ghost idx = self.selected_index as int;
                match apps.update_app(self.selected_index, context, frame_count) {
                    Ok(_) => (),
                    Err(e) => {
                        return Err(e);
                    },
                }
                let ghost mid_ctx = *context;
                proof {
                    assert(app_update_post(
                        *old(apps),
                        *apps,
                        *old(context),
                        mid_ctx,
                        idx,
                        frame_count,
                        Ok::<(), QueueError>(()),
                    ));
                }
                let finished = apps.is_app_finished(self.selected_index);
                if finished || context.button.is_pressed_all() {
                    if !context.display.can_accept(6) {
                        return Err(QueueError::Full);
                    }
                    match apps.finalize_app(self.selected_index, context) {
                        Ok(_) => (),
                        Err(e) => {
                            proof {
                                assert(app_finalize_post(*apps, *apps, mid_ctx, *context, idx, Err::<(), QueueError>(e)));
                            }
                            return Err(e);
                        },
                    }
                    let ghost fin_ctx = *context;
                    proof {
                        assert(app_finalize_post(
                            *apps,
                            *apps,
                            mid_ctx,
                            fin_ctx,
                            idx,
                            Ok::<(), QueueError>(()),
                        ));
                    }
                    match draw_menu(&mut context.display, apps, self.selected_index) {
                        Ok(_) => (),
                        Err(e) => {
                            return Err(e);
                        },
                    }
                    self.return_to_menu_time = frame_count + RETURN_TO_MENU_FRAMES;
                    self.state = MenuState::ReturnToMenu;
                }
                Ok(())
            },
            MenuState::ReturnToMenu => {
                let _ = context.button.was_released(Button::MASK);
                if frame_count >= self.return_to_menu_time {
                    self.state = MenuState::Selection;
                }
                Ok(())
            },
        }
    }
}

} // verus!
