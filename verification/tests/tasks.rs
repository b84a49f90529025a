use core::marker::PhantomData;

use bela::{
    schedule_from_status, task_from_handle, Context, EngineReplies, Error, RenderContext,
    RenderTag, SetupContext, SetupTag,
};

fn setup_context(create_task: Vec<u64>) -> SetupContext {
    Context::<SetupTag> {
        audio_frames: 0,
        audio_in_channels: 0,
        audio_out_channels: 0,
        analog_frames: 0,
        analog_in_channels: 0,
        analog_out_channels: 0,
        digital_frames: 0,
        digital_channels: 0,
        audio_sample_rate: 0,
        analog_sample_rate: 0,
        digital_sample_rate: 0,
        audio_frames_elapsed: 0,
        multiplexer_channels: 0,
        multiplexer_starting_channel: 0,
        audio_expander_enabled: 0,
        flags: 0,
        audio_in: vec![],
        audio_out: vec![],
        analog_in: vec![],
        analog_out: vec![],
        digital: vec![],
        multiplexer_analog_in: None,
        engine: EngineReplies {
            create_task,
            schedule_task: vec![],
        },
        tag: PhantomData,
    }
}

fn render_context(schedule_task: Vec<i32>) -> RenderContext {
    Context::<RenderTag> {
        audio_frames: 0,
        audio_in_channels: 0,
        audio_out_channels: 0,
        analog_frames: 0,
        analog_in_channels: 0,
        analog_out_channels: 0,
        digital_frames: 0,
        digital_channels: 0,
        audio_sample_rate: 0,
        analog_sample_rate: 0,
        digital_sample_rate: 0,
        audio_frames_elapsed: 0,
        multiplexer_channels: 0,
        multiplexer_starting_channel: 0,
        audio_expander_enabled: 0,
        flags: 0,
        audio_in: vec![],
        audio_out: vec![],
        analog_in: vec![],
        analog_out: vec![],
        digital: vec![],
        multiplexer_analog_in: None,
        engine: EngineReplies {
            create_task: vec![],
            schedule_task,
        },
        tag: PhantomData,
    }
}

#[test]
fn create_then_schedule_succeeds_on_good_replies() {
    let mut setup = setup_context(vec![42]);
    let task = setup
        .create_auxiliary_task(Box::new(|| {}), 10, "analysis")
        .expect("a non-null handle must create the task");
    let mut render = render_context(vec![0]);
    assert_eq!(render.schedule_auxiliary_task(&task), Ok(()));
}

#[test]
fn create_fails_on_null_registration() {
    let mut setup = setup_context(vec![0]);
    let r = setup.create_auxiliary_task(Box::new(|| {}), 10, "analysis");
    assert_eq!(r.err(), Some(Error::CreateTask));
}

#[test]
fn create_fails_when_the_engine_gives_nothing() {
    let mut setup = setup_context(vec![]);
    let r = setup.create_auxiliary_task(Box::new(|| {}), 10, "analysis");
    assert_eq!(r.err(), Some(Error::CreateTask));
}

#[test]
fn schedule_fails_on_nonzero_status() {
    let mut setup = setup_context(vec![42]);
    let task = setup
        .create_auxiliary_task(Box::new(|| {}), 10, "analysis")
        .expect("a non-null handle must create the task");
    let mut render = render_context(vec![-1]);
    assert_eq!(render.schedule_auxiliary_task(&task), Err(Error::Task));
}

#[test]
fn schedule_may_repeat_at_render_cadence() {
    let mut setup = setup_context(vec![42]);
    let task = setup
        .create_auxiliary_task(Box::new(|| {}), 10, "analysis")
        .expect("a non-null handle must create the task");
    let mut render = render_context(vec![0, 0, 0]);
    for _ in 0..3 {
        assert_eq!(render.schedule_auxiliary_task(&task), Ok(()));
    }
    // With the scripted replies exhausted the engine keeps accepting.
    assert_eq!(render.schedule_auxiliary_task(&task), Ok(()));
}

#[test]
fn replies_are_consumed_in_turn() {
    let mut setup = setup_context(vec![0, 42]);
    assert!(setup
        .create_auxiliary_task(Box::new(|| {}), 10, "first")
        .is_ok());
    let r = setup.create_auxiliary_task(Box::new(|| {}), 10, "second");
    assert_eq!(r.err(), Some(Error::CreateTask));

    let mut render = render_context(vec![7, 0]);
    let mut setup_ok = setup_context(vec![42]);
    let task = setup_ok
        .create_auxiliary_task(Box::new(|| {}), 10, "third")
        .expect("a non-null handle must create the task");
    assert_eq!(render.schedule_auxiliary_task(&task), Ok(()));
    assert_eq!(render.schedule_auxiliary_task(&task), Err(Error::Task));
}

#[test]
fn task_from_handle_decides_on_null() {
    assert_eq!(task_from_handle(0).err(), Some(Error::CreateTask));
    let task = task_from_handle(77).expect("a non-null handle wraps");
    assert_eq!(task.raw(), 77);
}

#[test]
fn schedule_from_status_decides_on_zero() {
    assert_eq!(schedule_from_status(0), Ok(()));
    assert_eq!(schedule_from_status(16), Err(Error::Task));
    assert_eq!(schedule_from_status(-3), Err(Error::Task));
}
