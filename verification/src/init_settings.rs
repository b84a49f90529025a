use vstd::prelude::*;

use crate::bela_hw::BelaHw;

verus! {

/// The builder's pending overrides to the engine's default settings.
///
/// The engine owns the defaults; a field left at `None` keeps them.
/// Numeric fields carry the exact representation the engine's
/// settings block uses, so applying an override is a plain store.
pub struct InitSettings {
    /// Analog frames per period (buffer).
    pub period_size: Option<i32>,
    /// Whether to use the analog input and output.
    pub use_analog: Option<bool>,
    /// Whether to use the digital input and output.
    pub use_digital: Option<bool>,
    /// Requested analog input channels.
    pub num_analog_in_channels: Option<i32>,
    /// Requested analog output channels.
    pub num_analog_out_channels: Option<i32>,
    /// Requested digital channels.
    pub num_digital_channels: Option<i32>,
    /// Whether to begin with speakers muted.
    pub begin_muted: Option<bool>,
    /// Requested multiplexer channels.
    pub num_mux_channels: Option<i32>,
    /// Requested audio expander inputs.
    pub audio_expander_inputs: Option<u32>,
    /// Requested audio expander outputs.
    pub audio_expander_outputs: Option<u32>,
    /// Which PRU (0 or 1) the code shall run on.
    pub pru_number: Option<i32>,
    /// External PRU .bin file to load; all zeroes keeps the built-in
    /// PRU code.
    pub pru_filename: Option<[u8; 256]>,
    /// Whether to detect and log underruns.
    pub detect_underruns: Option<bool>,
    /// Whether to log verbosely.
    pub verbose: Option<bool>,
    /// Whether to blink the LED while running.
    pub enable_led: Option<bool>,
    /// Stop button pin, `-1` for none.
    pub stop_button_pin: Option<i32>,
    /// Whether to enable high performance mode.
    pub high_performance_mode: Option<bool>,
    /// Whether to interleave audio samples.
    pub interleave: Option<bool>,
    /// Whether analog outputs persist.
    pub analog_outputs_persist: Option<bool>,
    /// Whether analog inputs are resampled to audio rate.
    pub uniform_sample_rate: Option<bool>,
    /// Requested audio thread stack size.
    pub audio_thread_stack_size: Option<u32>,
    /// Requested stack size for auxiliary task threads.
    pub auxiliary_task_stack_size: Option<u32>,
    /// Amplifier mute button pin, `-1` for none.
    pub amp_mute_pin: Option<i32>,
    /// User-selected board, instead of the detected hardware.
    pub board: Option<BelaHw>,
}

impl InitSettings {
    /// No overrides: the engine's defaults are kept untouched.
    pub open spec fn spec_default() -> InitSettings {
        InitSettings {
            period_size: None,
            use_analog: None,
            use_digital: None,
            num_analog_in_channels: None,
            num_analog_out_channels: None,
            num_digital_channels: None,
            begin_muted: None,
            num_mux_channels: None,
            audio_expander_inputs: None,
            audio_expander_outputs: None,
            pru_number: None,
            pru_filename: None,
            detect_underruns: None,
            verbose: None,
            enable_led: None,
            stop_button_pin: None,
            high_performance_mode: None,
            interleave: None,
            analog_outputs_persist: None,
            uniform_sample_rate: None,
            audio_thread_stack_size: None,
            auxiliary_task_stack_size: None,
            amp_mute_pin: None,
            board: None,
        }
    }
}

impl Default for InitSettings {
    /// No overrides: the engine's defaults are kept untouched.
    fn default() -> (r: InitSettings)
        ensures
            r == InitSettings::spec_default(),
    {
        InitSettings {
            period_size: None,
            use_analog: None,
            use_digital: None,
            num_analog_in_channels: None,
            num_analog_out_channels: None,
            num_digital_channels: None,
            begin_muted: None,
            num_mux_channels: None,
            audio_expander_inputs: None,
            audio_expander_outputs: None,
            pru_number: None,
            pru_filename: None,
            detect_underruns: None,
            verbose: None,
            enable_led: None,
            stop_button_pin: None,
            high_performance_mode: None,
            interleave: None,
            analog_outputs_persist: None,
            uniform_sample_rate: None,
            audio_thread_stack_size: None,
            auxiliary_task_stack_size: None,
            amp_mute_pin: None,
            board: None,
        }
    }
}

} // verus!
