use vstd::prelude::*;

use crate::bela_hw::BelaHw;
use crate::init_settings::InitSettings;

verus! {

/// The engine's settings word for an optional button pin: the pin
/// number, or `-1` for none.
pub open spec fn pin_code(val: Option<i8>) -> i32 {
    match val {
        Some(v) => v as i32,
        None => -1i32,
    }
}

/// Builder for a run: the application constructor to hand the engine,
/// and the settings overrides collected so far.
///
/// Created by [`Bela::new`]; the setters return the builder so calls
/// chain. Each setter records exactly its own override and touches
/// nothing else.
pub struct Bela<Constructor> {
    /// Overrides to the engine's default settings.
    pub settings: InitSettings,
    /// Application constructor, consumed during setup.
    pub constructor: Constructor,
}

impl<Constructor> Bela<Constructor> {
    /// A builder with no overrides around `constructor`.
    pub fn new(constructor: Constructor) -> (r: Self)
        ensures
            r.settings == InitSettings::spec_default(),
            r.constructor == constructor,
    {
        Self { settings: InitSettings::default(), constructor }
    }

    /// Set number of analog frames per period (buffer). Number of
    /// audio frames depends on relative sample rates of the two: by
    /// default, audio runs at twice the sample rate, so has twice the
    /// period size.
    pub fn period_size(self, size: usize) -> (r: Self)
        requires
            size <= i32::MAX,
        ensures
            r.settings == (InitSettings { period_size: Some(size as i32), ..self.settings }),
            r.constructor == self.constructor,
    {
        let mut b = self;
        b.settings.period_size = Some(size as i32);
        b
    }

    /// Set whether to use the analog input and output.
    pub fn use_analog(self, use_analog: bool) -> (r: Self)
        ensures
            r.settings == (InitSettings { use_analog: Some(use_analog), ..self.settings }),
            r.constructor == self.constructor,
    {
        let mut b = self;
        b.settings.use_analog = Some(use_analog);
        b
    }

    /// Set whether to use the digital input and output.
    pub fn use_digital(self, use_digital: bool) -> (r: Self)
        ensures
            r.settings == (InitSettings { use_digital: Some(use_digital), ..self.settings }),
            r.constructor == self.constructor,
    {
        let mut b = self;
        b.settings.use_digital = Some(use_digital);
        b
    }

    /// Set number of requested analog input channels.
    pub fn num_analog_in_channels(self, num: usize) -> (r: Self)
        requires
            num <= i32::MAX,
        ensures
            r.settings == (InitSettings {
                num_analog_in_channels: Some(num as i32),
                ..self.settings
            }),
            r.constructor == self.constructor,
    {
        let mut b = self;
        b.settings.num_analog_in_channels = Some(num as i32);
        b
    }

    /// Set number of requested analog output channels.
    pub fn num_analog_out_channels(self, num: usize) -> (r: Self)
        requires
            num <= i32::MAX,
        ensures
            r.settings == (InitSettings {
                num_analog_out_channels: Some(num as i32),
                ..self.settings
            }),
            r.constructor == self.constructor,
    {
        let mut b = self;
        b.settings.num_analog_out_channels = Some(num as i32);
        b
    }

    /// Set number of requested digital channels.
    pub fn num_digital_channels(self, num: usize) -> (r: Self)
        requires
            num <= i32::MAX,
        ensures
            r.settings == (InitSettings {
                num_digital_channels: Some(num as i32),
                ..self.settings
            }),
            r.constructor == self.constructor,
    {
        let mut b = self;
        b.settings.num_digital_channels = Some(num as i32);
        b
    }

    /// Set whether the application should begin with speakers muted.
    pub fn begin_muted(self, val: bool) -> (r: Self)
        ensures
            r.settings == (InitSettings { begin_muted: Some(val), ..self.settings }),
            r.constructor == self.constructor,
    {
        let mut b = self;
        b.settings.begin_muted = Some(val);
        b
    }

    /// Set the number of requested multiplexer channels.
    pub fn num_mux_channels(self, val: usize) -> (r: Self)
        requires
            val <= i32::MAX,
        ensures
            r.settings == (InitSettings { num_mux_channels: Some(val as i32), ..self.settings }),
            r.constructor == self.constructor,
    {
        let mut b = self;
        b.settings.num_mux_channels = Some(val as i32);
        b
    }

    /// Set the number of requested audio expander inputs.
    pub fn audio_expander_inputs(self, val: usize) -> (r: Self)
        requires
            val <= u32::MAX,
        ensures
            r.settings == (InitSettings {
                audio_expander_inputs: Some(val as u32),
                ..self.settings
            }),
            r.constructor == self.constructor,
    {
        let mut b = self;
        b.settings.audio_expander_inputs = Some(val as u32);
        b
    }

    /// Set the number of requested audio expander outputs.
    pub fn audio_expander_outputs(self, val: usize) -> (r: Self)
        requires
            val <= u32::MAX,
        ensures
            r.settings == (InitSettings {
                audio_expander_outputs: Some(val as u32),
                ..self.settings
            }),
            r.constructor == self.constructor,
    {
        let mut b = self;
        b.settings.audio_expander_outputs = Some(val as u32);
        b
    }

    /// Set the PRU (0 or 1) on which the code shall run.
    pub fn pru_number(self, val: i32) -> (r: Self)
        requires
            val == 0 || val == 1,
        ensures
            r.settings == (InitSettings { pru_number: Some(val), ..self.settings }),
            r.constructor == self.constructor,
    {
        let mut b = self;
        b.settings.pru_number = Some(val);
        b
    }

    /// The external PRU .bin file to load; all zeroes keeps the
    /// built-in PRU code. Whether the file is sound is the caller's
    /// to ascertain.
    pub fn pru_filename(self, val: [u8; 256]) -> (r: Self)
        ensures
            r.settings == (InitSettings { pru_filename: Some(val), ..self.settings }),
            r.constructor == self.constructor,
    {
        let mut b = self;
        b.settings.pru_filename = Some(val);
        b
    }

    /// Enable or disable underrun detection and logging.
    pub fn detect_underruns(self, val: bool) -> (r: Self)
        ensures
            r.settings == (InitSettings { detect_underruns: Some(val), ..self.settings }),
            r.constructor == self.constructor,
    {
        let mut b = self;
        b.settings.detect_underruns = Some(val);
        b
    }

    /// Enable or disable verbose logging.
    pub fn verbose(self, val: bool) -> (r: Self)
        ensures
            r.settings == (InitSettings { verbose: Some(val), ..self.settings }),
            r.constructor == self.constructor,
    {
        let mut b = self;
        b.settings.verbose = Some(val);
        b
    }

    /// Enable or disable the blinking LED that shows a run is going.
    pub fn enable_led(self, val: bool) -> (r: Self)
        ensures
            r.settings == (InitSettings { enable_led: Some(val), ..self.settings }),
            r.constructor == self.constructor,
    {
        let mut b = self;
        b.settings.enable_led = Some(val);
        b
    }

    /// Set or disable the stop button pin (0-127).
    pub fn stop_button_pin(self, val: Option<i8>) -> (r: Self)
        requires
            val matches Some(v) ==> v >= 0,
        ensures
            r.settings == (InitSettings {
                stop_button_pin: Some(pin_code(val)),
                ..self.settings
            }),
            r.constructor == self.constructor,
    {
        let code: i32 = match val {
            Some(v) => v as i32,
            None => -1,
        };
        let mut b = self;
        b.settings.stop_button_pin = Some(code);
        b
    }

    /// Enable or disable high performance mode. May hurt IDE and
    /// system responsiveness.
    pub fn high_performance_mode(self, val: bool) -> (r: Self)
        ensures
            r.settings == (InitSettings { high_performance_mode: Some(val), ..self.settings }),
            r.constructor == self.constructor,
    {
        let mut b = self;
        b.settings.high_performance_mode = Some(val);
        b
    }

    /// Enable or disable interleaving of audio samples.
    pub fn interleave(self, val: bool) -> (r: Self)
        ensures
            r.settings == (InitSettings { interleave: Some(val), ..self.settings }),
            r.constructor == self.constructor,
    {
        let mut b = self;
        b.settings.interleave = Some(val);
        b
    }

    /// Set whether analog outputs should persist.
    pub fn analog_outputs_persist(self, val: bool) -> (r: Self)
        ensures
            r.settings == (InitSettings { analog_outputs_persist: Some(val), ..self.settings }),
            r.constructor == self.constructor,
    {
        let mut b = self;
        b.settings.analog_outputs_persist = Some(val);
        b
    }

    /// Set whether analog inputs are resampled to audio rate.
    pub fn uniform_sample_rate(self, val: bool) -> (r: Self)
        ensures
            r.settings == (InitSettings { uniform_sample_rate: Some(val), ..self.settings }),
            r.constructor == self.constructor,
    {
        let mut b = self;
        b.settings.uniform_sample_rate = Some(val);
        b
    }

    /// Set the requested audio thread stack size.
    pub fn audio_thread_stack_size(self, num: usize) -> (r: Self)
        requires
            num <= u32::MAX,
        ensures
            r.settings == (InitSettings {
                audio_thread_stack_size: Some(num as u32),
                ..self.settings
            }),
            r.constructor == self.constructor,
    {
        let mut b = self;
        b.settings.audio_thread_stack_size = Some(num as u32);
        b
    }

    /// Set the requested stack size for all auxiliary task threads.
    pub fn auxiliary_task_stack_size(self, num: usize) -> (r: Self)
        requires
            num <= u32::MAX,
        ensures
            r.settings == (InitSettings {
                auxiliary_task_stack_size: Some(num as u32),
                ..self.settings
            }),
            r.constructor == self.constructor,
    {
        let mut b = self;
        b.settings.auxiliary_task_stack_size = Some(num as u32);
        b
    }

    /// Set or disable the amplifier mute button pin (0-127).
    pub fn amp_mute_pin(self, val: Option<i8>) -> (r: Self)
        requires
            val matches Some(v) ==> v >= 0,
        ensures
            r.settings == (InitSettings { amp_mute_pin: Some(pin_code(val)), ..self.settings }),
            r.constructor == self.constructor,
    {
        let code: i32 = match val {
            Some(v) => v as i32,
            None => -1,
        };
        let mut b = self;
        b.settings.amp_mute_pin = Some(code);
        b
    }

    /// Set the board to work with, instead of the detected hardware.
    pub fn board(self, board: BelaHw) -> (r: Self)
        ensures
            r.settings == (InitSettings { board: Some(board), ..self.settings }),
            r.constructor == self.constructor,
    {
        let mut b = self;
        b.settings.board = Some(board);
        b
    }
}

} // verus!
