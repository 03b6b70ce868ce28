//! Slot game mini-application: three digits roll on the display, one
//! button starts the roll, another locks in the digits one by one, and
//! the up and down buttons tune the animation speed.

use vstd::prelude::*;

use crate::app_context::AppContext;
use crate::app_context::AppFramework;
use crate::buzzer::QueueError;
use crate::keys::Button;
use crate::segments::spec_digit_pattern;
use crate::segments::digit_pattern;

verus! {

/// Slowest animation the speed buttons can reach; keeps the per-digit
/// counters far from their type's range.
pub const SLOT_DELAY_MAX: u32 = 1_000_000;

/// Segment pattern of the rolling animation: step `animation` of the
/// transition that builds up digit `number`.
pub open spec fn spec_slot_pattern(number: int, animation: int) -> u8 {
    if number == 0 {
        if animation == 0 {
            0x10u8
        } else if animation == 1 {
            0x18u8
        } else if animation == 2 {
            0x3Cu8
        } else if animation == 3 {
            0x7Cu8
        } else if animation == 4 {
            0xFDu8
        } else {
            0x00u8
        }
    } else if number == 1 {
        if animation == 0 {
            0x00u8
        } else if animation == 1 {
            0x20u8
        } else if animation == 2 {
            0x20u8
        } else if animation == 3 {
            0x60u8
        } else if animation == 4 {
            0x61u8
        } else {
            0x00u8
        }
    } else if number == 2 {
        if animation == 0 {
            0x00u8
        } else if animation == 1 {
            0x18u8
        } else if animation == 2 {
            0x1Au8
        } else if animation == 3 {
            0x5Au8
        } else if animation == 4 {
            0xDBu8
        } else {
            0x00u8
        }
    } else if number == 3 {
        if animation == 0 {
            0x10u8
        } else if animation == 1 {
            0x30u8
        } else if animation == 2 {
            0x32u8
        } else if animation == 3 {
            0x72u8
        } else if animation == 4 {
            0xF3u8
        } else {
            0x00u8
        }
    } else if number == 4 {
        if animation == 0 {
            0x00u8
        } else if animation == 1 {
            0x20u8
        } else if animation == 2 {
            0x22u8
        } else if animation == 3 {
            0x26u8
        } else if animation == 4 {
            0x67u8
        } else {
            0x00u8
        }
    } else if number == 5 {
        if animation == 0 {
            0x10u8
        } else if animation == 1 {
            0x30u8
        } else if animation == 2 {
            0x32u8
        } else if animation == 3 {
            0x36u8
        } else if animation == 4 {
            0xB7u8
        } else {
            0x00u8
        }
    } else if number == 6 {
        if animation == 0 {
            0x10u8
        } else if animation == 1 {
            0x38u8
        } else if animation == 2 {
            0x3Au8
        } else if animation == 3 {
            0x3Eu8
        } else if animation == 4 {
            0xBFu8
        } else {
            0x00u8
        }
    } else if number == 7 {
        if animation == 0 {
            0x00u8
        } else if animation == 1 {
            0x20u8
        } else if animation == 2 {
            0x60u8
        } else if animation == 3 {
            0xE0u8
        } else if animation == 4 {
            0xE5u8
        } else {
            0x00u8
        }
    } else if number == 8 {
        if animation == 0 {
            0x10u8
        } else if animation == 1 {
            0x38u8
        } else if animation == 2 {
            0x3Au8
        } else if animation == 3 {
            0x7Eu8
        } else if animation == 4 {
            0xFFu8
        } else {
            0x00u8
        }
    } else if number == 9 {
        if animation == 0 {
            0x10u8
        } else if animation == 1 {
            0x30u8
        } else if animation == 2 {
            0x60u8
        } else if animation == 3 {
            0xE6u8
        } else if animation == 4 {
            0xF7u8
        } else {
            0x00u8
        }
    } else {
        0x00u8
    }
}

/// Looks up one step of the rolling animation of a digit.
pub fn slot_pattern(number: u8, animation: u8) -> (r: u8)
    requires
        number < 10,
        animation < 6,
    ensures
        r == spec_slot_pattern(number as int, animation as int),
{
    match number {
        0 => match animation {
            0 => 0x10,
            1 => 0x18,
            2 => 0x3C,
            3 => 0x7C,
            4 => 0xFD,
            _ => 0x00,
        },
        1 => match animation {
            0 => 0x00,
            1 => 0x20,
            2 => 0x20,
            3 => 0x60,
            4 => 0x61,
            _ => 0x00,
        },
        2 => match animation {
            0 => 0x00,
            1 => 0x18,
            2 => 0x1A,
            3 => 0x5A,
            4 => 0xDB,
            _ => 0x00,
        },
        3 => match animation {
            0 => 0x10,
            1 => 0x30,
            2 => 0x32,
            3 => 0x72,
            4 => 0xF3,
            _ => 0x00,
        },
        4 => match animation {
            0 => 0x00,
            1 => 0x20,
            2 => 0x22,
            3 => 0x26,
            4 => 0x67,
            _ => 0x00,
        },
        5 => match animation {
            0 => 0x10,
            1 => 0x30,
            2 => 0x32,
            3 => 0x36,
            4 => 0xB7,
            _ => 0x00,
        },
        6 => match animation {
            0 => 0x10,
            1 => 0x38,
            2 => 0x3A,
            3 => 0x3E,
            4 => 0xBF,
            _ => 0x00,
        },
        7 => match animation {
            0 => 0x00,
            1 => 0x20,
            2 => 0x60,
            3 => 0xE0,
            4 => 0xE5,
            _ => 0x00,
        },
        8 => match animation {
            0 => 0x10,
            1 => 0x38,
            2 => 0x3A,
            3 => 0x7E,
            4 => 0xFF,
            _ => 0x00,
        },
        _ => match animation {
            0 => 0x10,
            1 => 0x30,
            2 => 0x60,
            3 => 0xE6,
            4 => 0xF7,
            _ => 0x00,
        },
    }
}

/// The animation speed after the tuning buttons of one frame: up makes it
/// faster down to a delay of one, down makes it slower up to the cap.
pub open spec fn slot_adjust_delay(delay: u32, up: bool, down: bool) -> u32 {
    let faster = if up && delay > 1 {
        (delay - 1) as u32
    } else {
        delay
    };
    if down && faster < SLOT_DELAY_MAX {
        (faster + 1) as u32
    } else {
        faster
    }
}

/// One tick of a rolling digit counter: up by one, wrapping to zero at
/// the end of the full ten-digit animation cycle.
pub open spec fn spec_wrap_counter(v: u32, delay: u32) -> u32 {
    if v + 1 >= delay * 60 {
        0u32
    } else {
        (v + 1) as u32
    }
}

/// The digit a rolling counter locks in when it is stopped: its animation
/// cycle position, clamped to the digit range while a speed change has
/// left the counter beyond the current cycle.
pub open spec fn spec_slot_fix_value(v: u32, delay: u32) -> u8 {
    if v / delay / 6 > 9 {
        9u8
    } else {
        (v / delay / 6) as u8
    }
}

/// The segment pattern of one rolling counter position.
pub open spec fn spec_roll_digit(v: u32, delay: u32) -> u8 {
    spec_slot_pattern(v as int / (delay as int) / 6, v as int / (delay as int) % 6)
}

/// The display frame of the rolling state: locked digits show their
/// number, the rest show the rolling animation, and the fourth digit
/// stays dark.
pub open spec fn spec_slot_frame(
    count: int,
    fixed: Seq<u8>,
    internal: Seq<u32>,
    delay: u32,
) -> Seq<u8> {
    seq![
        if 0 < count {
            spec_digit_pattern(fixed[0] as int)
        } else {
            spec_roll_digit(internal[0], delay)
        },
        if 1 < count {
            spec_digit_pattern(fixed[1] as int)
        } else {
            spec_roll_digit(internal[1], delay)
        },
        if 2 < count {
            spec_digit_pattern(fixed[2] as int)
        } else {
            spec_roll_digit(internal[2], delay)
        },
        0u8,
    ]
}


/// What one slot-game frame does: the full relation between the states
/// before and after [`SlotGame::update`] and its result. It sends no
/// queue commands, so it never fails.
pub open spec fn slot_update_post(
    pre: SlotGame,
    post: SlotGame,
    cpre: AppContext,
    cpost: AppContext,
    r: Result<(), QueueError>,
) -> bool {
    let released = cpre.button.released() & Button::MASK;
    let roll = released & Button::A != 0;
    let select = released & Button::B != 0;
    let up = released & Button::UP != 0;
    let down = released & Button::DOWN != 0;
    &&& r is Ok
    &&& post.wf()
    &&& post.spec_finished() == pre.spec_finished()
    &&& cpost.button.released() == cpre.button.released() & !Button::MASK
    &&& cpost.button.history() == cpre.button.history()
    &&& cpost.buzzer == cpre.buzzer
    &&& cpost.display == cpre.display
    &&& cpost.volume == cpre.volume
    &&& cpost.led.brightness() == cpre.led.brightness()
    &&& match pre.state() {
        SlotState::Startup => {
            &&& cpost.led.frame() == cpre.led.frame()
            &&& post.delay() == pre.delay()
            &&& (roll ==> post.state() is Rolling && post.count() == 0 && post.internal()
                == seq![0u32, 0u32, 0u32] && post.fixed() == seq![0u8, 0u8, 0u8])
            &&& (!roll ==> post == pre)
        },
        SlotState::Rolling => {
            let delay2 = slot_adjust_delay(pre.delay(), up, down);
            let count2 = if select {
                (pre.count() + 1) as u8
            } else {
                pre.count()
            };
            let fixed2 = if select {
                pre.fixed().update(
                    pre.count() as int,
                    spec_slot_fix_value(pre.internal()[pre.count() as int], delay2),
                )
            } else {
                pre.fixed()
            };
            let internal2 = seq![
                spec_wrap_counter(pre.internal()[0], delay2),
                spec_wrap_counter(pre.internal()[1], delay2),
                spec_wrap_counter(pre.internal()[2], delay2),
            ];
            &&& post.delay() == delay2
            &&& post.count() == count2
            &&& post.fixed() == fixed2
            &&& post.internal() == internal2
            &&& post.state() == (if count2 == 3 {
                SlotState::Fixed
            } else {
                SlotState::Rolling
            })
            &&& cpost.led.frame() == spec_slot_frame(count2 as int, fixed2, internal2, delay2)
        },
        SlotState::Fixed => {
            &&& post.state() is Startup
            &&& post.count() == pre.count()
            &&& post.fixed() == pre.fixed()
            &&& post.internal() == pre.internal()
            &&& post.delay() == pre.delay()
            &&& cpost.led.frame() == cpre.led.frame()
        },
    }
}

/// What parking the slot game does: it blanks the 4-digit display and
/// cannot fail.
pub open spec fn slot_finalize_post(
    pre: SlotGame,
    post: SlotGame,
    cpre: AppContext,
    cpost: AppContext,
    r: Result<(), QueueError>,
) -> bool {
    &&& r is Ok
    &&& post == pre
    &&& cpost.led.frame() == seq![0u8, 0u8, 0u8, 0u8]
    &&& cpost.led.brightness() == cpre.led.brightness()
    &&& cpost.button == cpre.button
    &&& cpost.buzzer == cpre.buzzer
    &&& cpost.display == cpre.display
    &&& cpost.volume == cpre.volume
}

/// Phase of the slot machine.
#[derive(Clone, Copy, PartialEq, Eq, Structural, Debug)]
pub enum SlotState {
    Startup,
    Rolling,
    Fixed,
}

/// Slot game state.
pub struct SlotGame {
    finished: bool,
    state: SlotState,
    fixed_digit_count: u8,
    internal_number: [u32; 3],
    fixed_number: [u8; 3],
    animation_delay_param: u32,
}

impl SlotGame {
    /// The current phase.
    pub closed spec fn state(self) -> SlotState {
        self.state
    }

    /// How many digits are locked in.
    pub closed spec fn count(self) -> u8 {
        self.fixed_digit_count
    }

    /// The locked-in digits.
    pub closed spec fn fixed(self) -> Seq<u8> {
        self.fixed_number@
    }

    /// The rolling counters.
    pub closed spec fn internal(self) -> Seq<u32> {
        self.internal_number@
    }

    /// The animation delay: frames per animation step.
    pub closed spec fn delay(self) -> u32 {
        self.animation_delay_param
    }

    /// Whether the application wants to exit.
    pub closed spec fn spec_finished(self) -> bool {
        self.finished
    }

    /// Counters stay inside one animation cycle, locked digits are
    /// digits, and digits can be locked only while rolling.
    pub open spec fn wf(self) -> bool {
        &&& self.count() <= 3
        &&& (self.state() is Rolling ==> self.count() < 3)
        &&& 1 <= self.delay() <= SLOT_DELAY_MAX
        &&& (forall|i: int| 0 <= i < 3 ==> self.internal()[i] < self.delay() * 60)
        &&& (forall|i: int| 0 <= i < 3 ==> self.fixed()[i] <= 9)
    }

    pub fn new() -> (r: SlotGame)
        ensures
            !r.spec_finished(),
            r.state() is Startup,
            r.count() == 0,
            r.internal() == seq![0u32, 0u32, 0u32],
            r.fixed() == seq![0u8, 0u8, 0u8],
            r.delay() == 5,
            r.wf(),
    {
        let r = SlotGame {
            finished: false,
            state: SlotState::Startup,
            fixed_digit_count: 0,
            internal_number: [0u32, 0u32, 0u32],
            fixed_number: [0u8, 0u8, 0u8],
            animation_delay_param: 5,
        };
        proof {
            assert(r.internal_number@ =~= seq![0u32, 0u32, 0u32]);
            assert(r.fixed_number@ =~= seq![0u8, 0u8, 0u8]);
        }
        r
    }

    pub fn get_name(&self) -> (r: &'static str)
        ensures
            r@ == "Slot game"@,
    {
        "Slot game"
    }

    pub fn initialize(&mut self, _context: &mut AppContext) -> (r: Result<(), QueueError>)
        ensures
            r is Ok,
            *final(self) == *old(self),
            *final(_context) == *old(_context),
    {
        Ok(())
    }

    /// One frame of the slot machine: consume the released buttons and
    /// run one step of the phase machine; while rolling, tick the
    /// counters and redraw the three digits. Never fails: it sends no
    /// queue commands.
    #[verifier::rlimit(60)]
    pub fn update(&mut self, context: &mut AppContext, _frame_count: u64) -> (r: Result<
        (),
        QueueError,
    >)
        requires
            old(self).wf(),
        ensures
            slot_update_post(*old(self), *final(self), *old(context), *final(context), r),
    {
        let released_button = context.button.was_released(Button::MASK);
        let was_rolling_started = released_button & Button::A != 0;
        let was_number_selected = released_button & Button::B != 0;
        let was_button_up_pressed = released_button & Button::UP != 0;
        let was_button_down_pressed = released_button & Button::DOWN != 0;

        match self.state {
            SlotState::Startup => {
                if was_rolling_started {
                    self.state = SlotState::Rolling;
                    self.fixed_digit_count = 0;
                    self.fixed_number = [0u8, 0u8, 0u8];
                    self.internal_number = [0u32, 0u32, 0u32];
                    proof {
                        assert(self.internal_number@ =~= seq![0u32, 0u32, 0u32]);
                        assert(self.fixed_number@ =~= seq![0u8, 0u8, 0u8]);
                    }
                }
            },
            SlotState::Rolling => {
                proof {
                    assert(old(self).internal()[0] < old(self).delay() * 60);
                    assert(old(self).internal()[1] < old(self).delay() * 60);
                    assert(old(self).internal()[2] < old(self).delay() * 60);
                    assert(old(self).delay() * 60 <= 60_000_000);
                    assert(old(self).fixed()[0] <= 9);
                    assert(old(self).fixed()[1] <= 9);
                    assert(old(self).fixed()[2] <= 9);
                }
                if was_button_up_pressed {
                    if self.animation_delay_param > 1 {
                        self.animation_delay_param = self.animation_delay_param - 1;
                    }
                }
                if was_button_down_pressed {
                    if self.animation_delay_param < SLOT_DELAY_MAX {
                        self.animation_delay_param = self.animation_delay_param + 1;
                    }
                }

                if was_number_selected {
                    let index = self.fixed_digit_count as usize;
                    let q = self.internal_number[index] / self.animation_delay_param / 6;
                    let value: u8 = if q > 9 {
                        9
                    } else {
                        q as u8
                    };
                    self.fixed_number[index] = value;
                    self.fixed_digit_count = self.fixed_digit_count + 1;
                }

                let bound = self.animation_delay_param * 60;
                let w0 = self.internal_number[0];
                let w1 = self.internal_number[1];
                let w2 = self.internal_number[2];
                self.internal_number[0] = if w0 + 1 >= bound {
                    0
                } else {
                    w0 + 1
                };
                self.internal_number[1] = if w1 + 1 >= bound {
                    0
                } else {
                    w1 + 1
                };
                self.internal_number[2] = if w2 + 1 >= bound {
                    0
                } else {
                    w2 + 1
                };

                proof {
                    assert(self.internal()[0] < self.delay() * 60);
                    assert(self.internal()[1] < self.delay() * 60);
                    assert(self.internal()[2] < self.delay() * 60);
                    assert(self.fixed()[0] <= 9);
                    assert(self.fixed()[1] <= 9);
                }
                let d0 = self.display_digit(0);
                let d1 = self.display_digit(1);
                let d2 = self.display_digit(2);
                let frame: [u8; 4] = [d0, d1, d2, 0u8];
                context.led.write(frame);
                proof {
                    assert(context.led.frame() =~= spec_slot_frame(
                        self.count() as int,
                        self.fixed(),
                        self.internal(),
                        self.delay(),
                    ));
                    assert(self.internal() =~= seq![
                        spec_wrap_counter(old(self).internal()[0], self.delay()),
                        spec_wrap_counter(old(self).internal()[1], self.delay()),
                        spec_wrap_counter(old(self).internal()[2], self.delay()),
                    ]);
                }

                if self.fixed_digit_count == 3 {
                    self.state = SlotState::Fixed;
                }
            },
            SlotState::Fixed => {
                self.state = SlotState::Startup;
            },
        }
        Ok(())
    }

    /// The pattern digit `i` shows while rolling: its locked number, or
    /// its animation position.
    fn display_digit(&self, i: usize) -> (r: u8)
        requires
            i < 3,
            self.delay() >= 1,
            self.internal()[i as int] < self.delay() * 60,
            self.fixed()[i as int] <= 9,
        ensures
            r == (if i < self.count() {
                spec_digit_pattern(self.fixed()[i as int] as int)
            } else {
                spec_roll_digit(self.internal()[i as int], self.delay())
            }),
    {
        if i < self.fixed_digit_count as usize {
            digit_pattern(self.fixed_number[i])
        } else {
            let v = self.internal_number[i];
            let delay = self.animation_delay_param;
            proof {
                assert(v / delay < 60) by (nonlinear_arith)
                    requires
                        v < delay * 60,
                        delay >= 1,
                ;
            }
            let number = v / delay / 6;
            let animation = v / delay % 6;
            slot_pattern(number as u8, animation as u8)
        }
    }

    pub fn finalize(&mut self, context: &mut AppContext) -> (r: Result<(), QueueError>)
        ensures
            slot_finalize_post(*old(self), *final(self), *old(context), *final(context), r),
    {
        context.led.clear();
        Ok(())
    }

    pub fn is_finished(&self) -> (r: bool)
        ensures
            r == self.spec_finished(),
    {
        self.finished
    }

    /// The current phase, for observers.
    pub fn get_state(&self) -> (r: SlotState)
        ensures
            r == self.state(),
    {
        self.state
    }

    /// How many digits are locked in, for observers.
    pub fn get_fixed_digit_count(&self) -> (r: u8)
        ensures
            r == self.count(),
    {
        self.fixed_digit_count
    }

    /// The animation delay, for observers.
    pub fn get_animation_delay(&self) -> (r: u32)
        ensures
            r == self.delay(),
    {
        self.animation_delay_param
    }
}

impl AppFramework for SlotGame {
    open spec fn inv(&self) -> bool {
        self.wf()
    }

    fn get_name(&self) -> &'static str {
        SlotGame::get_name(self)
    }

    fn initialize(&mut self, context: &mut AppContext) -> Result<(), QueueError> {
        SlotGame::initialize(self, context)
    }

    fn update(&mut self, context: &mut AppContext, frame_count: u64) -> Result<(), QueueError> {
        SlotGame::update(self, context, frame_count)
    }

    fn finalize(&mut self, context: &mut AppContext) -> Result<(), QueueError> {
        SlotGame::finalize(self, context)
    }

    fn is_finished(&self) -> bool {
        SlotGame::is_finished(self)
    }
}

} // verus!
