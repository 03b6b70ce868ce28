//! Shared context and lifecycle contract of the mini-applications.
//!
//! The context bundles the four driver states and the analog control
//! sample of the current frame; the scheduler and the active
//! mini-application work on it each frame. Every mini-application
//! conforms to the same lifecycle: initialized on selection, updated once
//! per frame while active, finalized on deselection.

use vstd::prelude::*;

use crate::buzzer::BuzzerDriver;
use crate::buzzer::QueueError;
use crate::display::DisplayDriver;
use crate::keys::KeyMatrix;
use crate::led::LedDriver;

verus! {

/// Shared handles of one frame: the four driver states and the raw analog
/// control sample read for this frame.
pub struct AppContext {
    pub button: KeyMatrix,
    pub buzzer: BuzzerDriver,
    pub display: DisplayDriver,
    pub led: LedDriver,
    pub volume: u16,
}

impl AppContext {
    pub fn new() -> (r: AppContext)
        ensures
            r.button.history() == seq![0u8, 0u8, 0u8],
            r.button.released() == 0u8,
            r.button.wf(),
            r.buzzer.pending() == Seq::<crate::buzzer::BuzzerCommand>::empty(),
            r.display.pending() == Seq::<crate::display::CommandModel>::empty(),
            r.led.frame() == seq![0u8, 0u8, 0u8, 0u8],
            r.led.brightness() == seq![100u8, 100u8, 100u8, 100u8],
            r.volume == 0u16,
    {
        AppContext {
            button: KeyMatrix::new(),
            buzzer: BuzzerDriver::new(),
            display: DisplayDriver::new(),
            led: LedDriver::new(),
            volume: 0u16,
        }
    }
}

/// Lifecycle contract of a mini-application. The scheduler calls exactly
/// one of these per frame: `initialize` on selection, `update` while
/// active, `finalize` on deselection; `is_finished` tells the scheduler
/// the application wants to exit.
pub trait AppFramework {
    /// Internal well-formedness of the application's own state, kept from
    /// one lifecycle call to the next.
    spec fn inv(&self) -> bool;

    fn get_name(&self) -> &'static str;

    fn initialize(&mut self, context: &mut AppContext) -> (r: Result<(), QueueError>)
        requires
            old(self).inv(),
        ensures
            final(self).inv(),
    ;

    fn update(&mut self, context: &mut AppContext, frame_count: u64) -> (r: Result<(), QueueError>)
        requires
            old(self).inv(),
        ensures
            final(self).inv(),
    ;

    fn finalize(&mut self, context: &mut AppContext) -> (r: Result<(), QueueError>)
        requires
            old(self).inv(),
        ensures
            final(self).inv(),
    ;

    fn is_finished(&self) -> bool;
}

} // verus!
