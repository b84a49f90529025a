use vstd::prelude::*;

use core::marker::PhantomData;
use crate::auxiliary_task::{AuxiliaryTask, EngineReplies};
use crate::digital::{
    direction_is_input, lemma_with_direction_bit, lemma_with_value_bit, value_bit,
    with_direction_bit, with_value_bit, DigitalDirection,
};
use crate::error::Error;

verus! {

/// Tag type marking a context handed to `setup`.
pub struct SetupTag;

/// Tag type marking a context handed to `render`.
pub struct RenderTag;

/// One invocation's snapshot of the engine's buffer descriptor.
///
/// The engine hands user code a fresh context on every callback; the
/// phase tag decides at compile time which operations are reachable.
/// Introspection is available under either tag; mutable buffer access,
/// the digital pin codec and task scheduling only under [`RenderTag`];
/// auxiliary-task creation only under [`SetupTag`].
///
/// Audio and analog samples are carried as the raw 32-bit patterns the
/// engine's buffers hold; nothing here reads a sample as a number, so
/// the codec and the views are independent of the sample encoding.
#[verifier::reject_recursive_types(StateTag)]
pub struct Context<StateTag> {
    pub audio_frames: usize,
    pub audio_in_channels: usize,
    pub audio_out_channels: usize,
    pub analog_frames: usize,
    pub analog_in_channels: usize,
    pub analog_out_channels: usize,
    pub digital_frames: usize,
    pub digital_channels: usize,
    pub audio_sample_rate: u32,
    pub analog_sample_rate: u32,
    pub digital_sample_rate: u32,
    pub audio_frames_elapsed: usize,
    pub multiplexer_channels: usize,
    pub multiplexer_starting_channel: usize,
    pub audio_expander_enabled: u32,
    pub flags: u32,
    pub audio_in: Vec<u32>,
    pub audio_out: Vec<u32>,
    pub analog_in: Vec<u32>,
    pub analog_out: Vec<u32>,
    pub digital: Vec<u32>,
    pub multiplexer_analog_in: Option<Vec<u32>>,
    pub engine: EngineReplies,
    pub tag: PhantomData<StateTag>,
}

/// Type alias for a context within `setup`.
pub type SetupContext = Context<SetupTag>;

/// Type alias for a context within `render`.
pub type RenderContext = Context<RenderTag>;

impl<StateTag> Context<StateTag> {
    /// Every view is exactly `frames * channels` words long, and the
    /// digital channel count fits the 16 value bits of a frame's word.
    pub open spec fn wf(&self) -> bool {
        &&& self.audio_in@.len() == self.audio_frames * self.audio_in_channels
        &&& self.audio_out@.len() == self.audio_frames * self.audio_out_channels
        &&& self.analog_in@.len() == self.analog_frames * self.analog_in_channels
        &&& self.analog_out@.len() == self.analog_frames * self.analog_out_channels
        &&& self.digital@.len() == self.digital_frames * self.digital_channels
        &&& (self.multiplexer_analog_in matches Some(m) ==> m@.len() == self.analog_frames
            * self.multiplexer_channels)
        &&& self.digital_channels <= 16
    }

    pub fn audio_frames(&self) -> (r: usize)
        ensures
            r == self.audio_frames,
    {
        self.audio_frames
    }

    pub fn audio_in_channels(&self) -> (r: usize)
        ensures
            r == self.audio_in_channels,
    {
        self.audio_in_channels
    }

    pub fn audio_out_channels(&self) -> (r: usize)
        ensures
            r == self.audio_out_channels,
    {
        self.audio_out_channels
    }

    pub fn analog_frames(&self) -> (r: usize)
        ensures
            r == self.analog_frames,
    {
        self.analog_frames
    }

    pub fn analog_in_channels(&self) -> (r: usize)
        ensures
            r == self.analog_in_channels,
    {
        self.analog_in_channels
    }

    pub fn analog_out_channels(&self) -> (r: usize)
        ensures
            r == self.analog_out_channels,
    {
        self.analog_out_channels
    }

    pub fn digital_frames(&self) -> (r: usize)
        ensures
            r == self.digital_frames,
    {
        self.digital_frames
    }

    pub fn digital_channels(&self) -> (r: usize)
        ensures
            r == self.digital_channels,
    {
        self.digital_channels
    }

    /// The audio sample rate, as the raw bit pattern of the engine's
    /// reported floating-point rate.
    pub fn audio_sample_rate(&self) -> (r: u32)
        ensures
            r == self.audio_sample_rate,
    {
        self.audio_sample_rate
    }

    /// The analog sample rate, as the raw bit pattern of the engine's
    /// reported floating-point rate.
    pub fn analog_sample_rate(&self) -> (r: u32)
        ensures
            r == self.analog_sample_rate,
    {
        self.analog_sample_rate
    }

    /// The digital sample rate, as the raw bit pattern of the engine's
    /// reported floating-point rate.
    pub fn digital_sample_rate(&self) -> (r: u32)
        ensures
            r == self.digital_sample_rate,
    {
        self.digital_sample_rate
    }

    pub fn audio_frames_elapsed(&self) -> (r: usize)
        ensures
            r == self.audio_frames_elapsed,
    {
        self.audio_frames_elapsed
    }

    pub fn multiplexer_channels(&self) -> (r: usize)
        ensures
            r == self.multiplexer_channels,
    {
        self.multiplexer_channels
    }

    pub fn multiplexer_starting_channel(&self) -> (r: usize)
        ensures
            r == self.multiplexer_starting_channel,
    {
        self.multiplexer_starting_channel
    }

    pub fn audio_expander_enabled(&self) -> (r: u32)
        ensures
            r == self.audio_expander_enabled,
    {
        self.audio_expander_enabled
    }

    pub fn flags(&self) -> (r: u32)
        ensures
            r == self.flags,
    {
        self.flags
    }
}

/// `frames * channels` words fit behind any frame index once there is
/// at least one channel.
proof fn lemma_frame_in_view(frames: usize, channels: usize, frame: usize)
    by (nonlinear_arith)
    requires
        frame < frames,
        1 <= channels,
    ensures
        frame < frames * channels,
{
}

/// Set the value bit of `channel` in every word from `frame` to the
/// end of the view.
fn write_value_from(digital: &mut Vec<u32>, frame: usize, channel: u32, value: bool)
    requires
        frame <= old(digital)@.len(),
        channel < 16,
    ensures
        final(digital)@.len() == old(digital)@.len(),
        forall|j: int| 0 <= j < frame ==> final(digital)@[j] == old(digital)@[j],
        forall|j: int|
            frame <= j < old(digital)@.len() ==> final(digital)@[j] == with_value_bit(
                old(digital)@[j],
                channel,
                value,
            ),
{
    let mask: u32 = 1u32 << (channel + 16);
    let mut i = frame;
    while i < digital.len()
        invariant
            frame <= i <= digital@.len(),
            digital@.len() == old(digital)@.len(),
            channel < 16,
            mask == 1u32 << ((channel + 16) as u32),
            forall|j: int| 0 <= j < frame ==> digital@[j] == old(digital)@[j],
            forall|j: int|
                frame <= j < i ==> digital@[j] == with_value_bit(
                    old(digital)@[j],
                    channel,
                    value,
                ),
            forall|j: int| i <= j < digital@.len() ==> digital@[j] == old(digital)@[j],
        decreases digital@.len() - i,
    {
        let w = digital[i];
        let nw = if value {
            w | mask
        } else {
            w & !mask
        };
        digital.set(i, nw);
        i += 1;
    }
}

/// Set the direction bit of `channel` in every word from `frame` to
/// the end of the view.
fn write_direction_from(digital: &mut Vec<u32>, frame: usize, channel: u32, mode: DigitalDirection)
    requires
        frame <= old(digital)@.len(),
        channel < 16,
    ensures
        final(digital)@.len() == old(digital)@.len(),
        forall|j: int| 0 <= j < frame ==> final(digital)@[j] == old(digital)@[j],
        forall|j: int|
            frame <= j < old(digital)@.len() ==> final(digital)@[j] == with_direction_bit(
                old(digital)@[j],
                channel,
                mode,
            ),
{
    let mask: u32 = 1u32 << channel;
    let set_bit = match mode {
        DigitalDirection::Input => true,
        DigitalDirection::Output => false,
    };
    let mut i = frame;
    while i < digital.len()
        invariant
            frame <= i <= digital@.len(),
            digital@.len() == old(digital)@.len(),
            channel < 16,
            mask == 1u32 << channel,
            set_bit == (mode is Input),
            forall|j: int| 0 <= j < frame ==> digital@[j] == old(digital)@[j],
            forall|j: int|
                frame <= j < i ==> digital@[j] == with_direction_bit(
                    old(digital)@[j],
                    channel,
                    mode,
                ),
            forall|j: int| i <= j < digital@.len() ==> digital@[j] == old(digital)@[j],
        decreases digital@.len() - i,
    {
        let w = digital[i];
        let nw = if set_bit {
            w | mask
        } else {
            w & !mask
        };
        digital.set(i, nw);
        i += 1;
    }
}

// Capabilities reachable only while rendering: mutable buffer access,
// the digital pin codec and task scheduling. None of these exists on a
// setup-tagged context, so the render-only set is closed off at
// compile time rather than by a runtime check.
impl Context<RenderTag> {
    /// View of the audio output region, `audio_frames *
    /// audio_out_channels` raw sample words.
    pub fn audio_out(&mut self) -> (r: &mut Vec<u32>)
        ensures
            *r == old(self).audio_out,
            *final(self) == (Context { audio_out: *final(r), ..*old(self) }),
    {
        &mut self.audio_out
    }

    /// View of the audio input region, `audio_frames *
    /// audio_in_channels` raw sample words.
    pub fn audio_in(&self) -> (r: &Vec<u32>)
        ensures
            *r == self.audio_in,
    {
        &self.audio_in
    }

    /// Mutable view of the digital region, `digital_frames *
    /// digital_channels` packed direction/value words.
    pub fn digital_mut(&mut self) -> (r: &mut Vec<u32>)
        ensures
            *r == old(self).digital,
            *final(self) == (Context { digital: *final(r), ..*old(self) }),
    {
        &mut self.digital
    }

    /// View of the digital region.
    pub fn digital(&self) -> (r: &Vec<u32>)
        ensures
            *r == self.digital,
    {
        &self.digital
    }

    /// View of the analog output region, `analog_frames *
    /// analog_out_channels` raw sample words.
    pub fn analog_out(&mut self) -> (r: &mut Vec<u32>)
        ensures
            *r == old(self).analog_out,
            *final(self) == (Context { analog_out: *final(r), ..*old(self) }),
    {
        &mut self.analog_out
    }

    /// View of the analog input region, `analog_frames *
    /// analog_in_channels` raw sample words.
    pub fn analog_in(&self) -> (r: &Vec<u32>)
        ensures
            *r == self.analog_in,
    {
        &self.analog_in
    }

    /// View of the multiplexed analog inputs, present only when the
    /// multiplexer is enabled.
    pub fn multiplexer_analog_in(&self) -> (r: Option<&Vec<u32>>)
        ensures
            r is Some <==> self.multiplexer_analog_in is Some,
            r matches Some(m) ==> *m == self.multiplexer_analog_in->0,
    {
        match &self.multiplexer_analog_in {
            Some(m) => Some(m),
            None => None,
        }
    }

    /// The value bit of `channel` at frame `frame`.
    pub fn digital_read(&self, frame: usize, channel: usize) -> (r: bool)
        requires
            self.wf(),
            frame < self.digital_frames,
            channel < self.digital_channels,
        ensures
            r == value_bit(self.digital@[frame as int], channel as u32),
    {
        proof {
            lemma_frame_in_view(self.digital_frames, self.digital_channels, frame);
        }
        let w = self.digital[frame];
        (w & (1u32 << ((channel as u32) + 16))) != 0
    }

    /// Set the value bit of `channel` from frame `frame` through the
    /// end of the current buffer.
    pub fn digital_write(&mut self, frame: usize, channel: usize, value: bool)
        requires
            old(self).wf(),
            frame < old(self).digital_frames,
            channel < old(self).digital_channels,
        ensures
            final(self).digital@.len() == old(self).digital@.len(),
            forall|j: int| 0 <= j < frame ==> final(self).digital@[j] == old(self).digital@[j],
            forall|j: int|
                frame <= j < old(self).digital@.len() ==> final(self).digital@[j]
                    == with_value_bit(old(self).digital@[j], channel as u32, value),
            forall|j: int|
                frame <= j < old(self).digital@.len() ==> value_bit(
                    final(self).digital@[j],
                    channel as u32,
                ) == value,
            *final(self) == (Context { digital: final(self).digital, ..*old(self) }),
            final(self).wf(),
    {
        proof {
            lemma_frame_in_view(self.digital_frames, self.digital_channels, frame);
        }
        write_value_from(&mut self.digital, frame, channel as u32, value);
        proof {
            assert forall|j: int| frame <= j < old(self).digital@.len() implies value_bit(
                self.digital@[j],
                channel as u32,
            ) == value by {
                lemma_with_value_bit(
                    old(self).digital@[j],
                    channel as u32,
                    value,
                    channel as u32,
                );
            }
        }
    }

    /// Set the value bit of `channel` at frame `frame` only.
    pub fn digital_write_once(&mut self, frame: usize, channel: usize, value: bool)
        requires
            old(self).wf(),
            frame < old(self).digital_frames,
            channel < old(self).digital_channels,
        ensures
            final(self).digital@.len() == old(self).digital@.len(),
            forall|j: int|
                0 <= j < old(self).digital@.len() && j != frame ==> final(self).digital@[j] == old(
                    self,
                ).digital@[j],
            final(self).digital@[frame as int] == with_value_bit(
                old(self).digital@[frame as int],
                channel as u32,
                value,
            ),
            value_bit(final(self).digital@[frame as int], channel as u32) == value,
            *final(self) == (Context { digital: final(self).digital, ..*old(self) }),
            final(self).wf(),
    {
        proof {
            lemma_frame_in_view(self.digital_frames, self.digital_channels, frame);
            lemma_with_value_bit(
                self.digital@[frame as int],
                channel as u32,
                value,
                channel as u32,
            );
        }
        let w = self.digital[frame];
        let mask: u32 = 1u32 << ((channel as u32) + 16);
        let nw = if value {
            w | mask
        } else {
            w & !mask
        };
        self.digital.set(frame, nw);
    }

    /// Set the direction of `channel` from frame `frame` through the
    /// end of the current buffer.
    pub fn pin_mode(&mut self, frame: usize, channel: usize, mode: DigitalDirection)
        requires
            old(self).wf(),
            frame < old(self).digital_frames,
            channel < old(self).digital_channels,
        ensures
            final(self).digital@.len() == old(self).digital@.len(),
            forall|j: int| 0 <= j < frame ==> final(self).digital@[j] == old(self).digital@[j],
            forall|j: int|
                frame <= j < old(self).digital@.len() ==> final(self).digital@[j]
                    == with_direction_bit(old(self).digital@[j], channel as u32, mode),
            forall|j: int|
                frame <= j < old(self).digital@.len() ==> direction_is_input(
                    final(self).digital@[j],
                    channel as u32,
                ) == (mode is Input),
            *final(self) == (Context { digital: final(self).digital, ..*old(self) }),
            final(self).wf(),
    {
        proof {
            lemma_frame_in_view(self.digital_frames, self.digital_channels, frame);
        }
        write_direction_from(&mut self.digital, frame, channel as u32, mode);
        proof {
            assert forall|j: int|
                frame <= j < old(self).digital@.len() implies direction_is_input(
                self.digital@[j],
                channel as u32,
            ) == (mode is Input) by {
                lemma_with_direction_bit(
                    old(self).digital@[j],
                    channel as u32,
                    mode,
                    channel as u32,
                );
            }
        }
    }

    /// Set the direction of `channel` at frame `frame` only.
    pub fn pin_mode_once(&mut self, frame: usize, channel: usize, mode: DigitalDirection)
        requires
            old(self).wf(),
            frame < old(self).digital_frames,
            channel < old(self).digital_channels,
        ensures
            final(self).digital@.len() == old(self).digital@.len(),
            forall|j: int|
                0 <= j < old(self).digital@.len() && j != frame ==> final(self).digital@[j] == old(
                    self,
                ).digital@[j],
            final(self).digital@[frame as int] == with_direction_bit(
                old(self).digital@[frame as int],
                channel as u32,
                mode,
            ),
            direction_is_input(final(self).digital@[frame as int], channel as u32)
                == (mode is Input),
            *final(self) == (Context { digital: final(self).digital, ..*old(self) }),
            final(self).wf(),
    {
        proof {
            lemma_frame_in_view(self.digital_frames, self.digital_channels, frame);
            lemma_with_direction_bit(
                self.digital@[frame as int],
                channel as u32,
                mode,
                channel as u32,
            );
        }
        let w = self.digital[frame];
        let mask: u32 = 1u32 << (channel as u32);
        let nw = match mode {
            DigitalDirection::Input => w | mask,
            DigitalDirection::Output => w & !mask,
        };
        self.digital.set(frame, nw);
    }

    /// Enqueue a created task for out-of-band execution.
    ///
    /// Succeeds exactly when the engine's status reply is `0`; a
    /// nonzero status is surfaced as [`Error::Task`]. The reply is
    /// consumed from this context's modelled engine; everything else
    /// is left untouched. The decision is
    /// [`schedule_from_status`](crate::auxiliary_task::schedule_from_status);
    /// the code that enqueues on the running engine takes the status
    /// from the engine itself and routes it through that same
    /// function, not through this context.
    #[allow(unused_variables)]
    pub fn schedule_auxiliary_task(&mut self, task: &AuxiliaryTask) -> (r: Result<(), Error>)
        ensures
            r is Ok <==> old(self).engine.next_schedule() == 0,
            r is Err ==> r == Err::<(), Error>(Error::Task),
            final(self).engine.schedule_task@ == old(self).engine.after_schedule(),
            final(self).engine.create_task@ == old(self).engine.create_task@,
            *final(self) == (Context { engine: final(self).engine, ..*old(self) }),
    {
        let status = match self.engine.schedule_task.pop() {
            Some(s) => s,
            None => 0,
        };
        crate::auxiliary_task::schedule_from_status(status)
    }
}

// The one capability reachable only during setup: creating auxiliary
// tasks, which may allocate and so must stay off the render path.
impl Context<SetupTag> {
    /// Register `task` with the engine as an out-of-band callable
    /// under `name` at priority `priority`.
    ///
    /// Ownership of the callable passes to the engine for the rest of
    /// the process's life; the engine offers no unregister path.
    /// Succeeds with a handle exactly when the engine's reply is a
    /// non-null handle; a null reply is surfaced as
    /// [`Error::CreateTask`]. The reply is consumed from this
    /// context's modelled engine, and the callable is consumed either
    /// way; everything else is left untouched. The decision is
    /// [`task_from_handle`](crate::auxiliary_task::task_from_handle);
    /// the code that registers against the running engine takes the
    /// handle from the engine itself and routes it through that same
    /// function, not through this context. The name must be globally
    /// unique across cooperating processes, which cannot be checked
    /// here.
    #[allow(unused_variables)]
    pub fn create_auxiliary_task<Auxiliary: FnMut() + Send + 'static>(
        &mut self,
        task: Box<Auxiliary>,
        priority: i32,
        name: &str,
    ) -> (r: Result<AuxiliaryTask, Error>)
        ensures
            r is Ok <==> old(self).engine.next_create() != 0,
            r matches Ok(t) ==> t.spec_handle() == old(self).engine.next_create(),
            r is Err ==> r == Err::<AuxiliaryTask, Error>(Error::CreateTask),
            final(self).engine.create_task@ == old(self).engine.after_create(),
            final(self).engine.schedule_task@ == old(self).engine.schedule_task@,
            *final(self) == (Context { engine: final(self).engine, ..*old(self) }),
    {
        let handle = match self.engine.create_task.pop() {
            Some(h) => h,
            None => 0,
        };
        crate::auxiliary_task::task_from_handle(handle)
    }
}

} // verus!
