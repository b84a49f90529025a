use bela::{Bela, BelaHw, InitSettings};

#[test]
fn new_builder_keeps_every_engine_default() {
    let b = Bela::new(0u8);
    let s = &b.settings;
    assert!(s.period_size.is_none());
    assert!(s.use_analog.is_none());
    assert!(s.use_digital.is_none());
    assert!(s.num_analog_in_channels.is_none());
    assert!(s.num_analog_out_channels.is_none());
    assert!(s.num_digital_channels.is_none());
    assert!(s.begin_muted.is_none());
    assert!(s.num_mux_channels.is_none());
    assert!(s.audio_expander_inputs.is_none());
    assert!(s.audio_expander_outputs.is_none());
    assert!(s.pru_number.is_none());
    assert!(s.pru_filename.is_none());
    assert!(s.detect_underruns.is_none());
    assert!(s.verbose.is_none());
    assert!(s.enable_led.is_none());
    assert!(s.stop_button_pin.is_none());
    assert!(s.high_performance_mode.is_none());
    assert!(s.interleave.is_none());
    assert!(s.analog_outputs_persist.is_none());
    assert!(s.uniform_sample_rate.is_none());
    assert!(s.audio_thread_stack_size.is_none());
    assert!(s.auxiliary_task_stack_size.is_none());
    assert!(s.amp_mute_pin.is_none());
    assert!(s.board.is_none());
    assert_eq!(b.constructor, 0u8);
}

#[test]
fn default_settings_hold_no_overrides() {
    let s = InitSettings::default();
    assert!(s.period_size.is_none());
    assert!(s.board.is_none());
}

#[test]
fn setters_record_exactly_their_own_override() {
    let b = Bela::new(1u8)
        .period_size(64)
        .use_analog(true)
        .use_digital(false)
        .num_analog_in_channels(8)
        .num_analog_out_channels(4)
        .num_digital_channels(16)
        .begin_muted(true)
        .num_mux_channels(2)
        .audio_expander_inputs(3)
        .audio_expander_outputs(5)
        .detect_underruns(false)
        .verbose(true)
        .enable_led(false)
        .high_performance_mode(true)
        .interleave(false)
        .analog_outputs_persist(true)
        .uniform_sample_rate(false)
        .audio_thread_stack_size(1 << 16)
        .auxiliary_task_stack_size(1 << 15)
        .board(BelaHw::BelaMini);
    let s = &b.settings;
    assert_eq!(s.period_size, Some(64));
    assert_eq!(s.use_analog, Some(true));
    assert_eq!(s.use_digital, Some(false));
    assert_eq!(s.num_analog_in_channels, Some(8));
    assert_eq!(s.num_analog_out_channels, Some(4));
    assert_eq!(s.num_digital_channels, Some(16));
    assert_eq!(s.begin_muted, Some(true));
    assert_eq!(s.num_mux_channels, Some(2));
    assert_eq!(s.audio_expander_inputs, Some(3));
    assert_eq!(s.audio_expander_outputs, Some(5));
    assert_eq!(s.detect_underruns, Some(false));
    assert_eq!(s.verbose, Some(true));
    assert_eq!(s.enable_led, Some(false));
    assert_eq!(s.high_performance_mode, Some(true));
    assert_eq!(s.interleave, Some(false));
    assert_eq!(s.analog_outputs_persist, Some(true));
    assert_eq!(s.uniform_sample_rate, Some(false));
    assert_eq!(s.audio_thread_stack_size, Some(1 << 16));
    assert_eq!(s.auxiliary_task_stack_size, Some(1 << 15));
    assert_eq!(s.board, Some(BelaHw::BelaMini));
    // Untouched settings stay with the engine.
    assert!(s.pru_number.is_none());
    assert!(s.stop_button_pin.is_none());
    assert!(s.amp_mute_pin.is_none());
    assert_eq!(b.constructor, 1u8);
}

#[test]
fn button_pins_store_the_pin_or_minus_one() {
    let b = Bela::new(()).stop_button_pin(Some(5)).amp_mute_pin(None);
    assert_eq!(b.settings.stop_button_pin, Some(5));
    assert_eq!(b.settings.amp_mute_pin, Some(-1));
    let b = Bela::new(()).stop_button_pin(None).amp_mute_pin(Some(0));
    assert_eq!(b.settings.stop_button_pin, Some(-1));
    assert_eq!(b.settings.amp_mute_pin, Some(0));
}

#[test]
fn pru_settings_are_recorded() {
    let mut name = [0u8; 256];
    name[0] = b'p';
    name[1] = b'r';
    name[2] = b'u';
    let b = Bela::new(()).pru_number(1).pru_filename(name);
    assert_eq!(b.settings.pru_number, Some(1));
    let stored = b.settings.pru_filename.expect("the override is recorded");
    assert_eq!(stored[0], b'p');
    assert_eq!(stored[255], 0);
}
