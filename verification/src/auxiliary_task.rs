use vstd::prelude::*;

use crate::error::Error;

verus! {

/// The engine's pending replies to auxiliary-task calls, modelled as
/// data so that the call sites can be reasoned about for every reply
/// the engine may give. Replies are consumed from the end; an
/// exhausted list stands for an engine that rejects registration
/// (a null handle) and accepts scheduling (status `0`).
///
/// These are the replies of the engine a context models. The code
/// that registers or enqueues against the running engine takes that
/// engine's own replies and decides them through [`task_from_handle`]
/// and [`schedule_from_status`], the same functions the context-level
/// bridge uses.
pub struct EngineReplies {
    /// Handles that successive task registrations will yield; `0`
    /// stands for the engine's null reply.
    pub create_task: Vec<u64>,
    /// Status codes that successive scheduling calls will yield;
    /// `0` is success.
    pub schedule_task: Vec<i32>,
}

impl EngineReplies {
    /// The handle the next task registration will yield.
    pub open spec fn next_create(&self) -> u64 {
        if self.create_task@.len() > 0 {
            self.create_task@.last()
        } else {
            0
        }
    }

    /// The status code the next scheduling call will yield.
    pub open spec fn next_schedule(&self) -> i32 {
        if self.schedule_task@.len() > 0 {
            self.schedule_task@.last()
        } else {
            0
        }
    }

    /// The replies left after one task registration.
    pub open spec fn after_create(&self) -> Seq<u64> {
        if self.create_task@.len() > 0 {
            self.create_task@.drop_last()
        } else {
            self.create_task@
        }
    }

    /// The replies left after one scheduling call.
    pub open spec fn after_schedule(&self) -> Seq<i32> {
        if self.schedule_task@.len() > 0 {
            self.schedule_task@.drop_last()
        } else {
            self.schedule_task@
        }
    }

    /// An engine with no scripted replies: every registration is
    /// refused, every scheduling call succeeds.
    pub fn new() -> (r: EngineReplies)
        ensures
            r.create_task@ == Seq::<u64>::empty(),
            r.schedule_task@ == Seq::<i32>::empty(),
    {
        EngineReplies { create_task: Vec::new(), schedule_task: Vec::new() }
    }
}

/// Handle to a created auxiliary task.
///
/// The callable it names has been transferred to the engine for the
/// rest of the process's life; the handle is opaque so that a reclaim
/// path can be added without breaking callers.
pub struct AuxiliaryTask {
    handle: u64,
}

impl AuxiliaryTask {
    /// The raw engine handle of the created task.
    pub closed spec fn spec_handle(&self) -> u64 {
        self.handle
    }

    /// Wrap a non-null engine handle.
    pub fn from_raw(handle: u64) -> (r: AuxiliaryTask)
        requires
            handle != 0,
        ensures
            r.spec_handle() == handle,
            r.spec_handle() != 0,
    {
        AuxiliaryTask { handle }
    }

    /// The raw engine handle, for the code that talks to the engine.
    pub fn raw(&self) -> (r: u64)
        ensures
            r == self.spec_handle(),
    {
        self.handle
    }
}

/// Decide a task registration from the engine's reply: a non-null
/// handle wraps into a task, a null one is the creation error.
///
/// The one decision in task creation, shared by the context-level
/// bridge and by the code that registers against the running engine.
pub fn task_from_handle(handle: u64) -> (r: Result<AuxiliaryTask, Error>)
    ensures
        r is Ok <==> handle != 0,
        r matches Ok(t) ==> t.spec_handle() == handle,
        r is Err ==> r == Err::<AuxiliaryTask, Error>(Error::CreateTask),
{
    if handle == 0 {
        Err(Error::CreateTask)
    } else {
        Ok(AuxiliaryTask::from_raw(handle))
    }
}

/// Decide a scheduling call from the engine's status reply: `0` is
/// success, anything else the scheduling error.
///
/// The one decision in task scheduling, shared by the context-level
/// bridge and by the code that enqueues on the running engine.
pub fn schedule_from_status(status: i32) -> (r: Result<(), Error>)
    ensures
        r is Ok <==> status == 0,
        r is Err ==> r == Err::<(), Error>(Error::Task),
{
    if status == 0 {
        Ok(())
    } else {
        Err(Error::Task)
    }
}

} // verus!
