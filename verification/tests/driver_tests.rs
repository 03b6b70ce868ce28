use rustorch::digit_pattern;
use rustorch::scan_phase;
use rustorch::segment_lines;
use rustorch::to_counter_value;
use rustorch::Button;
use rustorch::BuzzerCommand;
use rustorch::BuzzerDriver;
use rustorch::DisplayCommand;
use rustorch::DisplayDriver;
use rustorch::KeyMatrix;
use rustorch::LedDriver;
use rustorch::Point;
use rustorch::Screen;
use rustorch::ToneWorker;
use rustorch::Volume;

const TICK_HZ: u64 = 40_000_000;

fn frame_of(led: &LedDriver) -> [u8; 4] {
    [
        led.multiplex_step(0, TICK_HZ).segments,
        led.multiplex_step(1, TICK_HZ).segments,
        led.multiplex_step(2, TICK_HZ).segments,
        led.multiplex_step(3, TICK_HZ).segments,
    ]
}

#[test]
fn release_needs_two_pressed_samples_before_the_release() {
    let mut k = KeyMatrix::new();
    k.push_sample(Button::UP);
    k.push_sample(Button::UP);
    k.push_sample(0x00);
    assert_eq!(k.was_released(Button::MASK), Button::UP);
    // consumed: a second read finds nothing
    assert_eq!(k.was_released(Button::MASK), 0x00);
}

#[test]
fn single_sample_bounce_is_filtered() {
    let mut k = KeyMatrix::new();
    k.push_sample(Button::A);
    k.push_sample(0x00);
    k.push_sample(Button::A);
    k.push_sample(0x00);
    assert_eq!(k.was_released(Button::MASK), 0x00);
}

#[test]
fn release_event_is_sticky_until_consumed() {
    let mut k = KeyMatrix::new();
    k.push_sample(Button::B);
    k.push_sample(Button::B);
    k.push_sample(0x00);
    k.push_sample(0x00);
    k.push_sample(0x00);
    assert_eq!(k.was_released(Button::MASK), Button::B);
}

#[test]
fn reading_with_a_mask_clears_only_the_requested_bits() {
    let mut k = KeyMatrix::new();
    let both = Button::UP | Button::LEFT;
    k.push_sample(both);
    k.push_sample(both);
    k.push_sample(0x00);
    assert_eq!(k.was_released(Button::UP), Button::UP);
    // the other release is still pending
    assert_eq!(k.was_released(Button::MASK), Button::LEFT);
}

#[test]
fn status_reports_the_newest_sample() {
    let mut k = KeyMatrix::new();
    assert_eq!(k.get_status(), 0x00);
    assert!(!k.is_pressed_all());
    k.push_sample(Button::MASK);
    assert_eq!(k.get_status(), Button::MASK);
    assert!(k.is_pressed_all());
}

#[test]
fn scan_phases_map_input_lines_to_buttons() {
    assert_eq!(
        scan_phase(true, true, false, true, 0x00),
        Button::UP | Button::B
    );
    assert_eq!(
        scan_phase(false, true, true, true, 0x00),
        Button::LEFT | Button::DOWN | Button::A
    );
    // accumulation across the two phases
    let first = scan_phase(true, false, true, false, 0x00);
    let full = scan_phase(false, false, false, true, first);
    assert_eq!(full, Button::RIGHT | Button::A);
}

#[test]
fn brightness_zero_skips_the_on_phase() {
    assert_eq!(to_counter_value(0, TICK_HZ), 0);
    let mut led = LedDriver::new();
    led.set_brightness([0, 100, 100, 100]);
    assert_eq!(led.multiplex_step(0, TICK_HZ).on_counts, 0);
}

#[test]
fn brightness_full_spans_the_whole_period() {
    // 4 ms of on phase at 40 counts per microsecond
    assert_eq!(to_counter_value(100, TICK_HZ), 4000 * 40);
}

#[test]
fn brightness_duty_is_monotonic() {
    let mut previous = 0u64;
    for percent in 0..=100u8 {
        let counts = to_counter_value(percent, TICK_HZ);
        assert!(counts >= previous);
        previous = counts;
    }
}

#[test]
fn multiplex_cycles_the_four_digits() {
    let mut led = LedDriver::new();
    led.write([0x01, 0x02, 0x03, 0x04]);
    for i in 0..8u64 {
        let plan = led.multiplex_step(i, TICK_HZ);
        assert_eq!(plan.digit, (i % 4) as usize);
        assert_eq!(plan.segments, [0x01, 0x02, 0x03, 0x04][(i % 4) as usize]);
    }
}

#[test]
fn frame_writes_replace_all_digits_at_once() {
    let mut led = LedDriver::new();
    led.write([0x11, 0x22, 0x33, 0x44]);
    assert_eq!(frame_of(&led), [0x11, 0x22, 0x33, 0x44]);
    led.write([0x55, 0x66, 0x77, 0x88]);
    assert_eq!(frame_of(&led), [0x55, 0x66, 0x77, 0x88]);
    led.clear();
    assert_eq!(frame_of(&led), [0x00, 0x00, 0x00, 0x00]);
}

#[test]
fn write_format_parses_and_rejects() {
    let mut led = LedDriver::new();
    led.write_format(&"12".to_string());
    assert_eq!(frame_of(&led), [digit_pattern(1), digit_pattern(2), 0, 0]);
    // rejected text leaves the frame untouched
    led.write_format(&".9".to_string());
    assert_eq!(frame_of(&led), [digit_pattern(1), digit_pattern(2), 0, 0]);
}

#[test]
fn segment_lines_follow_the_pattern_bits() {
    let lines = segment_lines(0xFC);
    assert_eq!(lines, [true, true, true, true, true, true, false, false]);
    let dot_only = segment_lines(0x01);
    assert_eq!(dot_only, [false, false, false, false, false, false, false, true]);
}

#[test]
fn tone_commands_sound_in_submission_order() {
    let mut driver = BuzzerDriver::new();
    let mut worker = ToneWorker::new();
    assert!(driver.start_tone(440).is_ok());
    assert!(driver.start_tone(880).is_ok());
    assert!(driver.stop_tone().is_ok());

    let mut heard = Vec::new();
    while let Some(cmd) = driver.take_next() {
        heard.push(worker.apply_command(cmd));
    }
    assert_eq!(heard, vec![Some(440), Some(880), None]);
}

#[test]
fn tone_queue_reports_saturation() {
    let mut driver = BuzzerDriver::new();
    for _ in 0..5 {
        assert!(driver.start_tone(100).is_ok());
    }
    assert!(driver.stop_tone().is_err());
    // draining one slot makes room again
    assert_eq!(driver.take_next(), Some(BuzzerCommand::StartTone { frequency: 100 }));
    assert!(driver.stop_tone().is_ok());
}

#[test]
fn display_commands_keep_submission_order() {
    let mut driver = DisplayDriver::new();
    assert!(driver.clear().is_ok());
    assert!(driver.draw_text("hello".to_string(), Point::new(0, 10)).is_ok());
    assert!(driver.update().is_ok());

    assert!(matches!(driver.take_next(), Some(DisplayCommand::Clear)));
    match driver.take_next() {
        Some(DisplayCommand::DrawText { text, point }) => {
            assert_eq!(text, "hello");
            assert_eq!(point, Point::new(0, 10));
        }
        other => panic!("unexpected command: {:?}", other.is_some()),
    }
    assert!(matches!(driver.take_next(), Some(DisplayCommand::Update)));
    assert!(driver.take_next().is_none());
}

#[test]
fn display_queue_reports_saturation() {
    let mut driver = DisplayDriver::new();
    for _ in 0..10 {
        assert!(driver.update().is_ok());
    }
    assert!(driver.clear().is_err());
}

#[test]
fn screen_repaints_only_on_update() {
    let mut screen = Screen::new();
    screen.apply_command(DisplayCommand::DrawText {
        text: "menu".to_string(),
        point: Point::new(0, 0),
    });
    assert_eq!(screen.shown_commands().len(), 0);
    screen.apply_command(DisplayCommand::Update);
    assert_eq!(screen.shown_commands().len(), 1);
    match &screen.shown_commands()[0] {
        DisplayCommand::DrawText { text, .. } => assert_eq!(text, "menu"),
        _ => panic!("expected the drawn text"),
    }
    // a clear wipes the canvas but not the device until the next update
    screen.apply_command(DisplayCommand::Clear);
    assert_eq!(screen.canvas_commands().len(), 0);
    assert_eq!(screen.shown_commands().len(), 1);
    screen.apply_command(DisplayCommand::Update);
    assert_eq!(screen.shown_commands().len(), 0);
}

#[test]
fn volume_percent_scales_and_clamps() {
    assert_eq!(Volume::to_percent(0), 0);
    assert_eq!(Volume::to_percent(1635), 50);
    assert_eq!(Volume::to_percent(3270), 100);
    // out-of-range samples clamp rather than overflow
    assert_eq!(Volume::to_percent(4095), 100);
    assert_eq!(Volume::to_percent(u16::MAX), 100);
}

#[test]
fn a_multiplex_cycle_shows_a_single_frame() {
    let mut led = LedDriver::new();
    led.write([0xA0, 0xB0, 0xC0, 0xD0]);
    let cycle = led.plan_cycle(TICK_HZ);
    // one snapshot covers the whole cycle: every digit of the old frame
    led.write([0x0A, 0x0B, 0x0C, 0x0D]);
    let segments: Vec<u8> = cycle.iter().map(|p| p.segments).collect();
    assert_eq!(segments, vec![0xA0, 0xB0, 0xC0, 0xD0]);
    for (k, plan) in cycle.iter().enumerate() {
        assert_eq!(plan.digit, k);
    }
}
