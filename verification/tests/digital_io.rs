use core::marker::PhantomData;

use bela::{Context, DigitalDirection, EngineReplies, RenderContext, RenderTag};

fn render_context(digital_frames: usize, digital_channels: usize) -> RenderContext {
    Context::<RenderTag> {
        audio_frames: 0,
        audio_in_channels: 0,
        audio_out_channels: 0,
        analog_frames: 0,
        analog_in_channels: 0,
        analog_out_channels: 0,
        digital_frames,
        digital_channels,
        audio_sample_rate: 0,
        analog_sample_rate: 0,
        digital_sample_rate: 0,
        audio_frames_elapsed: 0,
        multiplexer_channels: 0,
        multiplexer_starting_channel: 0,
        audio_expander_enabled: 0,
        flags: 0,
        audio_in: vec![],
        audio_out: vec![],
        analog_in: vec![],
        analog_out: vec![],
        digital: vec![0u32; digital_frames * digital_channels],
        multiplexer_analog_in: None,
        engine: EngineReplies {
            create_task: vec![],
            schedule_task: vec![],
        },
        tag: PhantomData,
    }
}

#[test]
fn digital_read_reads_the_value_bit() {
    let mut ctx = render_context(8, 16);
    ctx.digital[5] = 1 << 16;
    assert!(ctx.digital_read(5, 0));
    assert!(!ctx.digital_read(5, 1));
    assert!(!ctx.digital_read(4, 0));
    ctx.digital[5] |= 1 << (3 + 16);
    assert!(ctx.digital_read(5, 3));
}

#[test]
fn digital_write_persists_to_end_of_buffer() {
    let mut ctx = render_context(8, 16);
    ctx.digital_write(2, 0, true);
    assert!(!ctx.digital_read(0, 0));
    assert!(!ctx.digital_read(1, 0));
    for frame in 2..8 {
        assert!(ctx.digital_read(frame, 0));
    }
    // The whole tail of the view is written, not just the frame-indexed words.
    for word in &ctx.digital[2..] {
        assert_eq!(word & (1 << 16), 1 << 16);
    }
    ctx.digital_write(4, 0, false);
    assert!(ctx.digital_read(2, 0));
    assert!(ctx.digital_read(3, 0));
    for frame in 4..8 {
        assert!(!ctx.digital_read(frame, 0));
    }
}

#[test]
fn write_once_overrides_only_its_own_frame() {
    // A persisting write at frame 2, then a write-once of the opposite
    // value at frame 2: frame 2 reads false, frames after it still true.
    let mut ctx = render_context(8, 16);
    ctx.digital_write(2, 0, true);
    ctx.digital_write_once(2, 0, false);
    assert!(!ctx.digital_read(2, 0));
    for frame in 3..8 {
        assert!(ctx.digital_read(frame, 0));
    }
    assert!(!ctx.digital_read(0, 0));
    assert!(!ctx.digital_read(1, 0));
}

#[test]
fn pin_mode_sets_direction_from_frame_onward() {
    let mut ctx = render_context(4, 16);
    ctx.pin_mode(1, 2, DigitalDirection::Input);
    assert_eq!(ctx.digital[0] & (1 << 2), 0);
    for word in &ctx.digital[1..] {
        assert_eq!(word & (1 << 2), 1 << 2);
    }
    // Value bits stay untouched.
    for word in ctx.digital.iter() {
        assert_eq!(word >> 16, 0);
    }
    ctx.pin_mode(2, 2, DigitalDirection::Output);
    assert_eq!(ctx.digital[1] & (1 << 2), 1 << 2);
    assert_eq!(ctx.digital[2] & (1 << 2), 0);
    assert_eq!(ctx.digital[3] & (1 << 2), 0);
}

#[test]
fn pin_mode_once_touches_one_frame() {
    let mut ctx = render_context(4, 16);
    ctx.pin_mode_once(2, 0, DigitalDirection::Input);
    assert_eq!(ctx.digital[2] & 1, 1);
    assert_eq!(ctx.digital[1] & 1, 0);
    assert_eq!(ctx.digital[3] & 1, 0);
    ctx.pin_mode_once(2, 0, DigitalDirection::Output);
    assert_eq!(ctx.digital[2] & 1, 0);
}

#[test]
fn same_frame_channels_do_not_cross_talk() {
    // Channel 0 becomes an output driven high, channel 1 an input, both
    // at frame 3: each channel's bits read back independently.
    let mut ctx = render_context(8, 16);
    ctx.pin_mode_once(3, 0, DigitalDirection::Output);
    ctx.digital_write_once(3, 0, true);
    ctx.pin_mode_once(3, 1, DigitalDirection::Input);
    let word = ctx.digital[3];
    assert_eq!(word & 1, 0, "channel 0 direction must stay output");
    assert!(ctx.digital_read(3, 0), "channel 0 value must stay high");
    assert_eq!(word & (1 << 1), 1 << 1, "channel 1 direction must be input");
    assert!(!ctx.digital_read(3, 1), "channel 1 value must stay untouched");
}

#[test]
fn writes_to_distinct_channels_keep_other_bits() {
    let mut ctx = render_context(2, 16);
    ctx.digital[0] = 0xffff_0000;
    ctx.digital_write_once(0, 7, false);
    assert_eq!(ctx.digital[0], 0xffff_0000 & !(1 << (7 + 16)));
    ctx.digital[1] = 0x0000_ffff;
    ctx.pin_mode_once(1, 9, DigitalDirection::Output);
    assert_eq!(ctx.digital[1], 0x0000_ffff & !(1 << 9));
}
