use rustorch::advance_deadline;
use rustorch::convert_to_display_format;
use rustorch::digit_pattern;
use rustorch::frame_due;
use rustorch::number_frame;
use rustorch::selection_readout;
use rustorch::AppContext;
use rustorch::AppRegistry;
use rustorch::Button;
use rustorch::BuzzerCommand;
use rustorch::DisplayCommand;
use rustorch::MenuScheduler;
use rustorch::MenuState;
use rustorch::PomodoroState;
use rustorch::PomodoroTimer;
use rustorch::SlotGame;
use rustorch::SlotState;
use rustorch::ToyPiano;
use rustorch::RETURN_TO_MENU_FRAMES;

const TICK_HZ: u64 = 40_000_000;

/// Feeds the scan samples of one full press and release of `buttons`.
fn press_and_release(context: &mut AppContext, buttons: u8) {
    context.button.push_sample(buttons);
    context.button.push_sample(buttons);
    context.button.push_sample(0x00);
}

fn drain_display(context: &mut AppContext) -> Vec<DisplayCommand> {
    let mut drained = Vec::new();
    while let Some(cmd) = context.display.take_next() {
        drained.push(cmd);
    }
    drained
}

fn led_frame(context: &AppContext) -> [u8; 4] {
    [
        context.led.multiplex_step(0, TICK_HZ).segments,
        context.led.multiplex_step(1, TICK_HZ).segments,
        context.led.multiplex_step(2, TICK_HZ).segments,
        context.led.multiplex_step(3, TICK_HZ).segments,
    ]
}

#[test]
fn selection_up_on_first_index_wraps_to_last() {
    let mut scheduler = MenuScheduler::new();
    let mut apps = AppRegistry::new();
    let mut context = AppContext::new();
    assert_eq!(scheduler.get_selected_index(), 0);

    press_and_release(&mut context, Button::UP);
    assert!(scheduler.step(&mut apps, &mut context, 1).is_ok());
    assert_eq!(scheduler.get_selected_index(), 2);
    assert_eq!(scheduler.get_state(), MenuState::Selection);

    // the redraw marks the now-selected last application
    let drained = drain_display(&mut context);
    assert_eq!(drained.len(), 6);
    assert!(matches!(drained[0], DisplayCommand::Clear));
    match &drained[4] {
        DisplayCommand::DrawText { text, .. } => assert_eq!(text, "> Slot game"),
        _ => panic!("expected the slot game line"),
    }
    match &drained[2] {
        DisplayCommand::DrawText { text, .. } => assert_eq!(text, "  Pomodoro timer"),
        _ => panic!("expected the pomodoro line"),
    }
    assert!(matches!(drained[5], DisplayCommand::Update));
}

#[test]
fn selection_down_cycles_forward() {
    let mut scheduler = MenuScheduler::new();
    let mut apps = AppRegistry::new();
    let mut context = AppContext::new();

    for expected in [1usize, 2, 0] {
        press_and_release(&mut context, Button::DOWN);
        assert!(scheduler.step(&mut apps, &mut context, 1).is_ok());
        assert_eq!(scheduler.get_selected_index(), expected);
        drain_display(&mut context);
    }
}

#[test]
fn confirm_starts_the_selected_application_once() {
    let mut scheduler = MenuScheduler::new();
    let mut apps = AppRegistry::new();
    let mut context = AppContext::new();

    press_and_release(&mut context, Button::A);
    assert!(scheduler.step(&mut apps, &mut context, 1).is_ok());
    assert_eq!(scheduler.get_state(), MenuState::AppRunning);
    assert_eq!(scheduler.get_selected_index(), 0);
    assert_eq!(apps.pomodoro.get_state(), PomodoroState::Preparing);
    assert_eq!(apps.pomodoro.get_remaining(), 25 * 60);

    // the graphic display was wiped for the application
    let drained = drain_display(&mut context);
    assert_eq!(drained.len(), 2);
    assert!(matches!(drained[0], DisplayCommand::Clear));
    assert!(matches!(drained[1], DisplayCommand::Update));
}

#[test]
fn all_buttons_held_abort_the_running_application() {
    let mut scheduler = MenuScheduler::new();
    let mut apps = AppRegistry::new();
    let mut context = AppContext::new();

    press_and_release(&mut context, Button::A);
    assert!(scheduler.step(&mut apps, &mut context, 1).is_ok());
    assert_eq!(scheduler.get_state(), MenuState::AppRunning);
    drain_display(&mut context);

    // the running pomodoro timer is nowhere near finished
    assert!(!apps.pomodoro.is_finished());
    context.button.push_sample(Button::MASK);
    assert!(scheduler.step(&mut apps, &mut context, 10).is_ok());
    assert_eq!(scheduler.get_state(), MenuState::ReturnToMenu);
    assert_eq!(scheduler.get_return_time(), 10 + RETURN_TO_MENU_FRAMES);

    // the menu was redrawn on the way out
    let drained = drain_display(&mut context);
    assert_eq!(drained.len(), 6);
}

#[test]
fn cooldown_drains_input_then_returns_to_selection() {
    let mut scheduler = MenuScheduler::new();
    let mut apps = AppRegistry::new();
    let mut context = AppContext::new();

    press_and_release(&mut context, Button::A);
    assert!(scheduler.step(&mut apps, &mut context, 1).is_ok());
    context.button.push_sample(Button::MASK);
    assert!(scheduler.step(&mut apps, &mut context, 10).is_ok());
    assert_eq!(scheduler.get_state(), MenuState::ReturnToMenu);
    drain_display(&mut context);

    // a release that lands during the cooldown is discarded
    context.button.push_sample(Button::MASK);
    context.button.push_sample(0x00);
    assert!(scheduler.step(&mut apps, &mut context, 20).is_ok());
    assert_eq!(scheduler.get_state(), MenuState::ReturnToMenu);
    assert!(scheduler.step(&mut apps, &mut context, 10 + RETURN_TO_MENU_FRAMES).is_ok());
    assert_eq!(scheduler.get_state(), MenuState::Selection);

    // the drained press does not re-enter an application
    assert!(scheduler.step(&mut apps, &mut context, 41).is_ok());
    assert_eq!(scheduler.get_state(), MenuState::Selection);
}

#[test]
fn selection_shows_the_uptime_readout() {
    let mut scheduler = MenuScheduler::new();
    let mut apps = AppRegistry::new();
    let mut context = AppContext::new();
    context.volume = 1635;

    assert!(scheduler.step(&mut apps, &mut context, 600).is_ok());
    // 600 frames: 10 seconds and 0 tenths
    assert_eq!(
        led_frame(&context),
        [0x00, digit_pattern(1), digit_pattern(0) | 0x01, digit_pattern(0)]
    );
    // the rotary control dims all four digits alike
    assert_eq!(context.led.multiplex_step(0, 1_000_000).on_counts, 4000 * 50 / 100);
}

#[test]
fn pomodoro_counts_down_once_per_second() {
    let mut pomodoro = PomodoroTimer::new();
    let mut context = AppContext::new();
    assert!(pomodoro.initialize(&mut context).is_ok());

    press_and_release(&mut context, Button::A);
    assert!(pomodoro.update(&mut context, 1).is_ok());
    assert_eq!(pomodoro.get_state(), PomodoroState::Working);
    let drained = drain_display(&mut context);
    assert_eq!(drained.len(), 3);
    assert!(matches!(drained[1], DisplayCommand::DrawImage { .. }));

    // an ordinary frame does not tick the countdown
    assert!(pomodoro.update(&mut context, 2).is_ok());
    assert_eq!(pomodoro.get_remaining(), 25 * 60);
    // the drift-correction frame of each second does
    assert!(pomodoro.update(&mut context, 60).is_ok());
    assert_eq!(pomodoro.get_remaining(), 25 * 60 - 1);
    // 24:59 with the running dot
    assert_eq!(
        led_frame(&context),
        [
            digit_pattern(2),
            digit_pattern(4) | 0x01,
            digit_pattern(5),
            digit_pattern(9),
        ]
    );
}

#[test]
fn pomodoro_reset_restores_the_work_phase() {
    let mut pomodoro = PomodoroTimer::new();
    let mut context = AppContext::new();
    assert!(pomodoro.initialize(&mut context).is_ok());
    press_and_release(&mut context, Button::A);
    assert!(pomodoro.update(&mut context, 1).is_ok());
    drain_display(&mut context);
    assert!(pomodoro.update(&mut context, 60).is_ok());
    assert_eq!(pomodoro.get_remaining(), 25 * 60 - 1);

    press_and_release(&mut context, Button::B);
    assert!(pomodoro.update(&mut context, 61).is_ok());
    assert_eq!(pomodoro.get_state(), PomodoroState::Preparing);
    assert_eq!(pomodoro.get_remaining(), 25 * 60);
    assert_eq!(
        led_frame(&context),
        [
            digit_pattern(2),
            digit_pattern(5),
            digit_pattern(0),
            digit_pattern(0),
        ]
    );
}

#[test]
fn toy_piano_retunes_on_chord_changes_only() {
    let mut piano = ToyPiano::new();
    let mut context = AppContext::new();
    assert!(piano.initialize(&mut context).is_ok());
    context.volume = 0;

    // hold the up button: the note starts in the lowest octave
    context.button.push_sample(Button::UP);
    assert!(piano.update(&mut context, 1).is_ok());
    assert_eq!(
        context.buzzer.take_next(),
        Some(BuzzerCommand::StartTone { frequency: 523 / 2 })
    );
    // the chord is unchanged: no further command
    assert!(piano.update(&mut context, 2).is_ok());
    assert_eq!(context.buzzer.take_next(), None);

    // a higher octave band doubles the frequency
    context.volume = 2500;
    context.button.push_sample(Button::LEFT);
    assert!(piano.update(&mut context, 3).is_ok());
    assert_eq!(
        context.buzzer.take_next(),
        Some(BuzzerCommand::StartTone { frequency: 587 * 4 / 2 })
    );

    // letting go of every button silences
    context.button.push_sample(0x00);
    assert!(piano.update(&mut context, 4).is_ok());
    assert_eq!(context.buzzer.take_next(), Some(BuzzerCommand::StopTone));
}

#[test]
fn slot_game_locks_digits_one_by_one() {
    let mut slot = SlotGame::new();
    let mut context = AppContext::new();
    assert!(slot.initialize(&mut context).is_ok());

    press_and_release(&mut context, Button::A);
    assert!(slot.update(&mut context, 1).is_ok());
    assert_eq!(slot.get_state(), SlotState::Rolling);
    assert_eq!(slot.get_fixed_digit_count(), 0);

    // the first rolling frame shows animation step zero everywhere
    assert!(slot.update(&mut context, 2).is_ok());
    assert_eq!(led_frame(&context), [0x10, 0x10, 0x10, 0x00]);

    for locked in 1..=3u8 {
        press_and_release(&mut context, Button::B);
        assert!(slot.update(&mut context, 3).is_ok());
        assert_eq!(slot.get_fixed_digit_count(), locked);
    }
    assert_eq!(slot.get_state(), SlotState::Fixed);
    // the fixed phase falls through back to startup
    assert!(slot.update(&mut context, 4).is_ok());
    assert_eq!(slot.get_state(), SlotState::Startup);
}

#[test]
fn a_sixty_frame_window_schedules_exactly_one_second() {
    for start in [0u64, 1, 30, 59, 60, 61] {
        let mut deadline: i64 = 0;
        for frame in start..start + 60 {
            deadline = advance_deadline(deadline, frame);
        }
        assert_eq!(deadline, 1_000_000);
    }
}

#[test]
fn frame_deadline_is_16667_except_on_the_correction_frame() {
    assert_eq!(advance_deadline(0, 1), 16667);
    assert_eq!(advance_deadline(0, 59), 16667);
    assert_eq!(advance_deadline(0, 60), 16647);
    assert_eq!(advance_deadline(0, 0), 16647);
}

#[test]
fn a_passed_deadline_is_due_immediately() {
    assert!(frame_due(100, 100));
    assert!(frame_due(101, 100));
    assert!(!frame_due(99, 100));
}

#[test]
fn numeric_readouts_blank_leading_zeros() {
    assert_eq!(number_frame(7), [0, 0, 0, digit_pattern(7)]);
    assert_eq!(
        number_frame(123),
        [0, digit_pattern(1), digit_pattern(2), digit_pattern(3)]
    );
    assert_eq!(
        number_frame(9999),
        [
            digit_pattern(9),
            digit_pattern(9),
            digit_pattern(9),
            digit_pattern(9),
        ]
    );
}

#[test]
fn time_readout_pads_minutes_and_zero_fills_seconds() {
    assert_eq!(
        convert_to_display_format(65, true),
        [0, digit_pattern(1) | 0x01, digit_pattern(0), digit_pattern(5)]
    );
    assert_eq!(
        convert_to_display_format(1500, false),
        [
            digit_pattern(2),
            digit_pattern(5),
            digit_pattern(0),
            digit_pattern(0),
        ]
    );
}

#[test]
fn selection_readout_shows_seconds_and_tenths() {
    assert_eq!(
        selection_readout(0),
        [0, 0, digit_pattern(0) | 0x01, digit_pattern(0)]
    );
    assert_eq!(
        selection_readout(666),
        [0, digit_pattern(1), digit_pattern(1) | 0x01, digit_pattern(1)]
    );
}

#[test]
fn pomodoro_pause_freezes_the_countdown() {
    let mut pomodoro = PomodoroTimer::new();
    let mut context = AppContext::new();
    assert!(pomodoro.initialize(&mut context).is_ok());
    press_and_release(&mut context, Button::A);
    assert!(pomodoro.update(&mut context, 1).is_ok());
    drain_display(&mut context);

    press_and_release(&mut context, Button::A);
    assert!(pomodoro.update(&mut context, 2).is_ok());
    assert_eq!(pomodoro.get_state(), PomodoroState::WorkingPaused);
    // a second boundary passes without a tick while paused
    assert!(pomodoro.update(&mut context, 60).is_ok());
    assert_eq!(pomodoro.get_remaining(), 25 * 60);
    // resume
    press_and_release(&mut context, Button::A);
    assert!(pomodoro.update(&mut context, 61).is_ok());
    assert_eq!(pomodoro.get_state(), PomodoroState::Working);
}

#[test]
fn pomodoro_work_phase_ends_in_a_rest_phase() {
    let mut pomodoro = PomodoroTimer::new();
    let mut context = AppContext::new();
    assert!(pomodoro.initialize(&mut context).is_ok());
    press_and_release(&mut context, Button::A);
    assert!(pomodoro.update(&mut context, 1).is_ok());
    drain_display(&mut context);

    // shorten the work phase with the debug button down to its floor
    for frame in 0..40u64 {
        press_and_release(&mut context, Button::DOWN);
        assert!(pomodoro.update(&mut context, frame * 60 + 1).is_ok());
    }
    assert_eq!(pomodoro.get_remaining(), 10);
    // tick the rest of the phase away at the second boundaries
    for _ in 0..9 {
        assert!(pomodoro.update(&mut context, 60).is_ok());
    }
    assert_eq!(pomodoro.get_remaining(), 1);
    // the next second boundary swaps to the rest phase
    assert!(pomodoro.update(&mut context, 60).is_ok());
    assert_eq!(pomodoro.get_state(), PomodoroState::Resting);
    assert_eq!(pomodoro.get_remaining(), 5 * 60);
    let drained = drain_display(&mut context);
    assert_eq!(drained.len(), 3);
    match drained[1] {
        DisplayCommand::DrawImage { image_id, .. } => assert_eq!(image_id, 1),
        _ => panic!("expected the resting picture"),
    }
}

#[test]
fn pomodoro_phase_swap_fails_when_the_display_queue_is_full() {
    let mut pomodoro = PomodoroTimer::new();
    let mut context = AppContext::new();
    assert!(pomodoro.initialize(&mut context).is_ok());

    // leave no room for the three-command picture batch
    for _ in 0..8 {
        assert!(context.display.update().is_ok());
    }
    press_and_release(&mut context, Button::A);
    assert!(pomodoro.update(&mut context, 1).is_err());
    // nothing was swapped and nothing was enqueued
    assert_eq!(pomodoro.get_state(), PomodoroState::Preparing);
    assert_eq!(drain_display(&mut context).len(), 8);
}

#[test]
fn slot_speed_buttons_tune_the_animation_delay() {
    let mut slot = SlotGame::new();
    let mut context = AppContext::new();
    assert!(slot.initialize(&mut context).is_ok());
    press_and_release(&mut context, Button::A);
    assert!(slot.update(&mut context, 1).is_ok());
    assert_eq!(slot.get_animation_delay(), 5);

    press_and_release(&mut context, Button::UP);
    assert!(slot.update(&mut context, 2).is_ok());
    assert_eq!(slot.get_animation_delay(), 4);
    press_and_release(&mut context, Button::DOWN);
    assert!(slot.update(&mut context, 3).is_ok());
    assert_eq!(slot.get_animation_delay(), 5);
}

#[test]
fn toy_piano_sounds_the_seventh_note_on_the_chord() {
    let mut piano = ToyPiano::new();
    let mut context = AppContext::new();
    assert!(piano.initialize(&mut context).is_ok());
    context.volume = 0;
    context.button.push_sample(Button::A | Button::B);
    assert!(piano.update(&mut context, 1).is_ok());
    assert_eq!(
        context.buzzer.take_next(),
        Some(BuzzerCommand::StartTone { frequency: 988 / 2 })
    );
}

#[test]
fn toy_piano_surfaces_a_saturated_tone_queue() {
    let mut piano = ToyPiano::new();
    let mut context = AppContext::new();
    assert!(piano.initialize(&mut context).is_ok());
    for _ in 0..5 {
        assert!(context.buzzer.start_tone(1).is_ok());
    }
    context.button.push_sample(Button::UP);
    assert!(piano.update(&mut context, 1).is_err());
}
