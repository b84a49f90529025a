mod auxiliary_task;
mod bela_hw;
mod builder;
mod context;
mod digital;
mod error;
mod init_settings;
mod lifecycle;

pub use crate::auxiliary_task::{
    schedule_from_status, task_from_handle, AuxiliaryTask, EngineReplies,
};
pub use crate::bela_hw::BelaHw;
pub use crate::builder::{pin_code, Bela};
pub use crate::context::{Context, RenderContext, RenderTag, SetupContext, SetupTag};
pub use crate::digital::{
    bit_set, direction_is_input, lemma_same_frame_independent, lemma_with_direction_bit,
    lemma_with_value_bit, value_bit, with_direction_bit, with_value_bit, DigitalDirection,
};
pub use crate::error::Error;
pub use crate::init_settings::InitSettings;
pub use crate::lifecycle::{
    cleanup_entry, lemma_one_shutdown_per_run, lemma_setup_reaches_application, render_entry,
    run_step, run_trace, setup_entry, setup_outcome_state, shutdown_count, spec_run_step,
    BelaApplication, RunEvent, RunState, UserData,
};
