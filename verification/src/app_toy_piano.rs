//! Toy piano mini-application: each button sounds one note of the scale,
//! the rotary control picks the octave, and the display shows the raw
//! control sample.

use vstd::prelude::*;

use crate::app_context::AppContext;
use crate::app_context::AppFramework;
use crate::buzzer::BuzzerCommand;
use crate::buzzer::BUZZER_QUEUE_CAPACITY;
use crate::buzzer::QueueError;
use crate::keys::Button;
use crate::readout::number_frame;
use crate::readout::spec_number_frame;

verus! {

/// Octave factor doubled (so the half octave stays an integer): the
/// rotary control splits its raw range into four octave bands.
pub open spec fn octave_doubled(raw: u16) -> u32 {
    if raw < 1000 {
        1u32
    } else if raw < 2000 {
        2u32
    } else if raw < 3000 {
        4u32
    } else {
        8u32
    }
}

/// Base frequency of a chord of pressed buttons, in the middle octave.
/// The six buttons give six notes; the seventh is the A and B buttons
/// together. Any other chord is no note.
pub open spec fn piano_base(key_status: u8) -> Option<u32> {
    if key_status == (Button::B | Button::A) {
        Some(988u32)
    } else if key_status == Button::UP {
        Some(523u32)
    } else if key_status == Button::LEFT {
        Some(587u32)
    } else if key_status == Button::DOWN {
        Some(659u32)
    } else if key_status == Button::RIGHT {
        Some(698u32)
    } else if key_status == Button::B {
        Some(783u32)
    } else if key_status == Button::A {
        Some(880u32)
    } else {
        None
    }
}

/// The frequency a chord sounds at under the octave the rotary control
/// selects.
pub open spec fn piano_frequency(key_status: u8, raw: u16) -> Option<u32> {
    match piano_base(key_status) {
        Some(base) => Some((base * octave_doubled(raw) / 2) as u32),
        None => None,
    }
}

/// The tone command one frame issues: none while the chord is unchanged;
/// a stop when every button was let go; a retune when the new chord is a
/// note.
pub open spec fn piano_tone_command(prev: u8, key_status: u8, raw: u16) -> Option<BuzzerCommand> {
    if prev == key_status {
        None
    } else if key_status == 0 {
        Some(BuzzerCommand::StopTone)
    } else {
        match piano_frequency(key_status, raw) {
            Some(f) => Some((BuzzerCommand::StartTone { frequency: f })),
            None => None,
        }
    }
}


/// When one toy-piano frame fails: a tone command is due and the tone
/// queue is saturated.
pub open spec fn piano_update_fails(pre: ToyPiano, ctx: AppContext) -> bool {
    piano_tone_command(pre.previous(), ctx.button.history()[0], ctx.volume) is Some
        && ctx.buzzer.pending().len() >= BUZZER_QUEUE_CAPACITY
}

/// What one toy-piano frame does: the full relation between the states
/// before and after [`ToyPiano::update`] and its result.
pub open spec fn piano_update_post(
    pre: ToyPiano,
    post: ToyPiano,
    cpre: AppContext,
    cpost: AppContext,
    r: Result<(), QueueError>,
) -> bool {
    let key = cpre.button.history()[0];
    let raw = cpre.volume;
    let cmd = piano_tone_command(pre.previous(), key, raw);
    &&& (r is Err <==> piano_update_fails(pre, cpre))
    &&& r is Ok ==> {
        &&& post.previous() == key
        &&& post.spec_finished() == pre.spec_finished()
        &&& (match cmd {
            Some(c) => cpost.buzzer.pending() == cpre.buzzer.pending().push(c),
            None => cpost.buzzer.pending() == cpre.buzzer.pending(),
        })
        &&& cpost.led.frame() == (if raw <= 9999 {
            spec_number_frame(raw as int)
        } else {
            cpre.led.frame()
        })
    }
    &&& r is Err ==> post == pre && cpost.buzzer.pending() == cpre.buzzer.pending()
        && cpost.led.frame() == cpre.led.frame()
    &&& cpost.button == cpre.button
    &&& cpost.display == cpre.display
    &&& cpost.volume == cpre.volume
    &&& cpost.led.brightness() == cpre.led.brightness()
}

/// When parking the toy piano fails: its stop command finds the tone
/// queue saturated.
pub open spec fn piano_finalize_fails(ctx: AppContext) -> bool {
    ctx.buzzer.pending().len() >= BUZZER_QUEUE_CAPACITY
}

/// What parking the toy piano does: the full relation between the states
/// before and after [`ToyPiano::finalize`] and its result.
pub open spec fn piano_finalize_post(
    pre: ToyPiano,
    post: ToyPiano,
    cpre: AppContext,
    cpost: AppContext,
    r: Result<(), QueueError>,
) -> bool {
    &&& (r is Err <==> piano_finalize_fails(cpre))
    &&& r is Ok ==> cpost.buzzer.pending() == cpre.buzzer.pending().push(BuzzerCommand::StopTone)
        && cpost.led.frame() == seq![0u8, 0u8, 0u8, 0u8]
    &&& r is Err ==> cpost.buzzer.pending() == cpre.buzzer.pending() && cpost.led.frame()
        == cpre.led.frame()
    &&& post == pre
    &&& cpost.button == cpre.button
    &&& cpost.display == cpre.display
    &&& cpost.led.brightness() == cpre.led.brightness()
    &&& cpost.volume == cpre.volume
}

/// Toy piano state: whether it wants to exit, and the chord of the
/// previous frame, so that only chord changes issue tone commands.
pub struct ToyPiano {
    finished: bool,
    previous_key_status: u8,
}

impl ToyPiano {
    /// The chord of the previous frame.
    pub closed spec fn previous(self) -> u8 {
        self.previous_key_status
    }

    /// Whether the application wants to exit.
    pub closed spec fn spec_finished(self) -> bool {
        self.finished
    }

    pub fn new() -> (r: ToyPiano)
        ensures
            !r.spec_finished(),
            r.previous() == 0u8,
    {
        ToyPiano { finished: false, previous_key_status: 0 }
    }

    pub fn get_name(&self) -> (r: &'static str)
        ensures
            r@ == "Toy piano"@,
    {
        "Toy piano"
    }

    pub fn initialize(&mut self, _context: &mut AppContext) -> (r: Result<(), QueueError>)
        ensures
            r is Ok,
            !final(self).spec_finished(),
            final(self).previous() == 0u8,
            *final(_context) == *old(_context),
    {
        self.finished = false;
        self.previous_key_status = 0;
        Ok(())
    }

    /// One frame: read the chord, issue the tone command the chord change
    /// calls for, and show the raw control sample on the display.
    /// Fails exactly when a command is due and the tone queue is
    /// saturated; everything is then left as it was.
    pub fn update(&mut self, context: &mut AppContext, _frame_count: u64) -> (r: Result<
        (),
        QueueError,
    >)
        ensures
            piano_update_post(*old(self), *final(self), *old(context), *final(context), r),
    {
        let key_status = context.button.get_status();
        let raw_value = context.volume;

        if self.previous_key_status != key_status {
            if key_status == 0 {
                match context.buzzer.stop_tone() {
                    Ok(_) => (),
                    Err(e) => {
                        return Err(e);
                    },
                }
            } else {
                let base: Option<u32> = if key_status == Button::B | Button::A {
                    Some(988)
                } else if key_status == Button::UP {
                    Some(523)
                } else if key_status == Button::LEFT {
                    Some(587)
                } else if key_status == Button::DOWN {
                    Some(659)
                } else if key_status == Button::RIGHT {
                    Some(698)
                } else if key_status == Button::B {
                    Some(783)
                } else if key_status == Button::A {
                    Some(880)
                } else {
                    None
                };
                let octave: u32 = if raw_value < 1000 {
                    1
                } else if raw_value < 2000 {
                    2
                } else if raw_value < 3000 {
                    4
                } else {
                    8
                };
                match base {
                    Some(value) => {
                        let frequency = value * octave / 2;
                        match context.buzzer.start_tone(frequency) {
                            Ok(_) => (),
                            Err(e) => {
                                return Err(e);
                            },
                        }
                    },
                    None => (),
                }
            }
        }
        if raw_value <= 9999 {
            let frame = number_frame(raw_value);
            context.led.write(frame);
        }
        self.previous_key_status = key_status;
        Ok(())
    }

    pub fn finalize(&mut self, context: &mut AppContext) -> (r: Result<(), QueueError>)
        ensures
            piano_finalize_post(*old(self), *final(self), *old(context), *final(context), r),
    {
        match context.buzzer.stop_tone() {
            Ok(_) => (),
            Err(e) => {
                return Err(e);
            },
        }
        context.led.clear();
        Ok(())
    }

    pub fn is_finished(&self) -> (r: bool)
        ensures
            r == self.spec_finished(),
    {
        self.finished
    }
}

impl AppFramework for ToyPiano {
    open spec fn inv(&self) -> bool {
        true
    }

    fn get_name(&self) -> &'static str {
        ToyPiano::get_name(self)
    }

    fn initialize(&mut self, context: &mut AppContext) -> Result<(), QueueError> {
        ToyPiano::initialize(self, context)
    }

    fn update(&mut self, context: &mut AppContext, frame_count: u64) -> Result<(), QueueError> {
        ToyPiano::update(self, context, frame_count)
    }

    fn finalize(&mut self, context: &mut AppContext) -> Result<(), QueueError> {
        ToyPiano::finalize(self, context)
    }

    fn is_finished(&self) -> bool {
        ToyPiano::is_finished(self)
    }
}

} // verus!
