//! Core framework of a small handheld gadget: a debounced button-matrix
//! scanner, a multiplexed 4-digit 7-segment display driver with per-digit
//! brightness, asynchronous command queues for a buzzer and an auxiliary
//! graphic display, and a frame-paced menu scheduler that runs a set of
//! mini-applications over those drivers.
//!
//! Hardware access (GPIO, ADC, I2C, timers, threads) stays outside this
//! crate; every type here models the state that the firmware shares between
//! its execution contexts, and every public function carries a contract that
//! pins down how that state evolves.

mod app_context;
mod app_pomodoro_timer;
mod app_slot_game;
mod app_toy_piano;
mod buzzer;
mod display;
mod frame;
mod keys;
mod led;
mod menu;
mod parser;
mod readout;
mod segments;
mod volume;

pub use keys::Button;
pub use keys::KeyMatrix;
pub use keys::bit_set;
pub use keys::scan_phase;
pub use keys::spec_scan_phase;
pub use keys::spec_release_mask;
pub use keys::step_history;
pub use keys::step_released;
pub use keys::run_history;
pub use app_context::AppContext;
pub use app_context::AppFramework;
pub use app_pomodoro_timer::PomodoroTimer;
pub use app_pomodoro_timer::PomodoroState;
pub use app_pomodoro_timer::pomodoro_step;
pub use app_pomodoro_timer::pomodoro_debug_adjust;
pub use app_pomodoro_timer::picture_batch;
pub use app_pomodoro_timer::IMAGE_POMODORO_WORKING;
pub use app_pomodoro_timer::IMAGE_POMODORO_RESTING;
pub use app_pomodoro_timer::WORKING_SECONDS;
pub use app_pomodoro_timer::RESTING_SECONDS;
pub use app_slot_game::SlotGame;
pub use app_slot_game::SlotState;
pub use app_slot_game::SLOT_DELAY_MAX;
pub use app_slot_game::slot_adjust_delay;
pub use app_slot_game::spec_wrap_counter;
pub use app_slot_game::spec_slot_fix_value;
pub use app_slot_game::spec_roll_digit;
pub use app_slot_game::spec_slot_frame;
pub use app_slot_game::spec_slot_pattern;
pub use app_slot_game::slot_pattern;
pub use app_toy_piano::ToyPiano;
pub use app_toy_piano::octave_doubled;
pub use app_toy_piano::piano_base;
pub use app_toy_piano::piano_frequency;
pub use app_toy_piano::piano_tone_command;
pub use buzzer::BuzzerCommand;
pub use buzzer::BuzzerDriver;
pub use buzzer::ToneWorker;
pub use buzzer::QueueError;
pub use buzzer::BUZZER_QUEUE_CAPACITY;
pub use buzzer::spec_apply_tone;
pub use buzzer::run_tone;
pub use buzzer::tone_trace;
pub use buzzer::lemma_tone_sequence;
pub use display::Point;
pub use display::DisplayCommand;
pub use display::DisplayDriver;
pub use display::CommandModel;
pub use display::Screen;
pub use display::DISPLAY_QUEUE_CAPACITY;
pub use display::cmd_model;
pub use display::models;
pub use display::run_canvas;
pub use keys::run_released;
pub use keys::lemma_release_mask_bit;
pub use keys::lemma_consume_bits;
pub use keys::lemma_release_bit_iff;
pub use frame::FRAMES_PER_SECOND;
pub use frame::MICRO_SECONDS_PER_FRAME;
pub use frame::MICRO_SECONDS_ADJUSTMENT;
pub use frame::spec_frame_increment;
pub use frame::advance_deadline;
pub use frame::frame_due;
pub use frame::window_sum;
pub use frame::corrections_in;
pub use frame::lemma_window_sum_counts;
pub use frame::lemma_corrections_prepend;
pub use frame::lemma_corrections_shift;
pub use frame::lemma_corrections_base;
pub use frame::lemma_window_is_one_second;
pub use led::LedDriver;
pub use led::MULTIPLEX_PERIOD_MS;
pub use led::MAX_TICK_HZ;
pub use led::spec_on_counts;
pub use led::to_counter_value;
pub use led::DigitPlan;
pub use led::segment_lines;
pub use led::lemma_duty_zero;
pub use led::lemma_duty_full;
pub use led::lemma_duty_monotone;
pub use menu::MenuState;
pub use menu::MenuScheduler;
pub use menu::AppRegistry;
pub use menu::APP_COUNT;
pub use menu::RETURN_TO_MENU_FRAMES;
pub use menu::spec_app_name;
pub use menu::spec_app_finished;
pub use menu::app_initialized;
pub use menu::spec_menu_line;
pub use menu::menu_commands;
pub use menu::draw_menu;
pub use parser::parse;
pub use parser::spec_parse;
pub use parser::spec_parse_from;
pub use parser::is_digit_char;
pub use segments::digit_pattern;
pub use segments::spec_digit_pattern;
pub use readout::number_frame;
pub use readout::spec_number_frame;
pub use readout::convert_to_display_format;
pub use readout::spec_time_frame;
pub use readout::selection_readout;
pub use readout::spec_selection_readout;
pub use segments::DOT_BIT;
pub use volume::Volume;
pub use volume::VOLUME_RAW_FULL_SCALE;
pub use volume::spec_to_percent;
