use vstd::prelude::*;

use crate::context::{Context, RenderTag};
use crate::error::Error;

verus! {

/// Trait a user application must implement.
///
/// `render` runs on the engine's elevated-priority thread once per
/// buffer. Correct use requires it to be real-time safe: it must not
/// allocate, block or terminate abnormally. That is a documented
/// precondition of the calling environment, not something that can be
/// checked here.
pub trait BelaApplication: Sized + Send {
    fn render(&mut self, context: &mut Context<RenderTag>);
}

/// The one value threaded through every callback: either the not yet
/// consumed application constructor, a running application, or
/// nothing.
///
/// Exactly one transition `Constructor -> {Application | Empty}`
/// happens, during setup, and one `Application -> Empty`, during
/// cleanup; no other transition is possible through this module.
pub enum UserData<Application, Constructor> {
    /// A running application.
    Application(Application),
    /// An application constructor, not yet consumed.
    Constructor(Constructor),
    /// Nothing: before a run, after a declined setup, or after
    /// cleanup.
    Empty,
}

impl<Application, Constructor> UserData<Application, Constructor> {
    /// Take the stored value out, leaving `Empty` behind.
    pub fn take(&mut self) -> (r: Self)
        ensures
            *final(self) is Empty,
            r == *old(self),
    {
        let mut out = UserData::Empty;
        core::mem::swap(self, &mut out);
        out
    }

    /// Whether a running application is stored.
    pub fn is_application(&self) -> (r: bool)
        ensures
            r == (*self is Application),
    {
        match self {
            UserData::Application(_) => true,
            _ => false,
        }
    }
}

/// The state the stored value is left in by a setup whose constructor
/// produced `outcome`.
pub open spec fn setup_outcome_state<Application, Constructor>(
    outcome: Option<Application>,
) -> UserData<Application, Constructor> {
    match outcome {
        Some(application) => UserData::Application(application),
        None => UserData::Empty,
    }
}

/// The setup entry point: consume the stored constructor exactly once
/// and store what it produced.
///
/// The constructor itself is driven through `run_constructor`, which
/// the caller supplies so that abnormal termination inside user code
/// can be contained at this boundary and read as "no application
/// produced". The returned flag tells the engine whether to proceed;
/// it is set exactly when an application is now stored. Whatever was
/// stored before, the state afterwards is never `Constructor` again.
pub fn setup_entry<Application, Constructor, Runner: FnOnce(Constructor) -> Option<Application>>(
    user_data: &mut UserData<Application, Constructor>,
    run_constructor: Runner,
) -> (started: bool)
    requires
        forall|c: Constructor| call_requires(run_constructor, (c,)),
    ensures
        started == (*final(user_data) is Application),
        !(*final(user_data) is Constructor),
        *old(user_data) matches UserData::Constructor(c) ==> exists|outcome: Option<Application>|
            call_ensures(run_constructor, (c,), outcome) && *final(user_data)
                == setup_outcome_state::<Application, Constructor>(outcome) && started == (
            outcome is Some),
        !(*old(user_data) is Constructor) ==> *final(user_data) is Empty && !started,
{
    let previous = user_data.take();
    match previous {
        UserData::Constructor(constructor) => {
            let ghost consumed = constructor;
            let outcome = run_constructor(constructor);
            let ghost witness = outcome;
            *user_data = match outcome {
                Some(application) => UserData::Application(application),
                None => UserData::Empty,
            };
            proof {
                assert(call_ensures(run_constructor, (consumed,), witness));
                assert(*user_data == setup_outcome_state::<Application, Constructor>(witness));
            }
        },
        _ => {},
    }
    user_data.is_application()
}

/// For any constructor outcome, the stored state reaches
/// `Application` exactly when the constructor produced a value, and
/// setup never leaves the state in `Constructor`.
pub proof fn lemma_setup_reaches_application<Application, Constructor>(outcome: Option<Application>)
    ensures
        setup_outcome_state::<Application, Constructor>(outcome) is Application <==> outcome
            is Some,
        !(setup_outcome_state::<Application, Constructor>(outcome) is Constructor),
        outcome matches Some(a) ==> setup_outcome_state::<Application, Constructor>(outcome)
            == UserData::<Application, Constructor>::Application(a),
{
}

/// The render entry point: drive the stored application, if any, with
/// a render-tagged context.
///
/// When an application is stored, its render operation is invoked
/// exactly once, on that application and on this context, and the
/// stored state and the context afterwards are what that call left
/// behind. Nothing is stored or taken here: the state keeps its
/// variant, and when no application is stored, nothing at all happens.
/// Abnormal termination is deliberately not contained on this path — a
/// containment boundary would itself need operations that are
/// disallowed on the render thread.
pub fn render_entry<Application: BelaApplication, Constructor>(
    user_data: &mut UserData<Application, Constructor>,
    context: &mut Context<RenderTag>,
)
    ensures
        (*final(user_data) is Application) == (*old(user_data) is Application),
        (*final(user_data) is Constructor) == (*old(user_data) is Constructor),
        !(*old(user_data) is Application) ==> *final(user_data) == *old(user_data)
            && *final(context) == *old(context),
        *old(user_data) matches UserData::Application(a) ==> exists|
            aref: &mut Application,
            cref: &mut Context<RenderTag>,
        |
            *aref == a && *cref == *old(context) && call_ensures(
                Application::render,
                (aref, cref),
                (),
            ) && *final(user_data) == UserData::<Application, Constructor>::Application(
                *final(aref),
            ) && *final(context) == *final(cref),
{
    match user_data {
        UserData::Application(application) => application.render(context),
        _ => {},
    }
}

/// The cleanup entry point: take and drop whatever is stored.
pub fn cleanup_entry<Application, Constructor>(user_data: &mut UserData<Application, Constructor>)
    ensures
        *final(user_data) is Empty,
{
    let _ = user_data.take();
}

/// Where the top-level run sequence stands. Each state names the one
/// engine operation the driver must perform next; the driver reports
/// what happened as a [`RunEvent`] and steps the machine with
/// [`run_step`].
///
/// - `NeedInit`: initialize the engine, report [`RunEvent::InitStatus`].
/// - `NeedStart`: start the engine, report [`RunEvent::StartStatus`].
/// - `Polling`: poll for a requested stop at a fixed short interval,
///   report [`RunEvent::StopFlag`].
/// - `NeedShutdown`: stop the engine and run its cleanup, once, and
///   report [`RunEvent::ShutdownDone`].
/// - `Finished`: return; `Option::None` is a successful run.
#[derive(Clone, Copy, Debug, PartialEq, Eq)]
pub enum RunState {
    NeedInit,
    NeedStart,
    Polling,
    NeedShutdown,
    Finished(Option<Error>),
}

/// What the engine reported back for the operation a [`RunState`]
/// asked for.
#[derive(Clone, Copy, Debug, PartialEq, Eq)]
pub enum RunEvent {
    /// Status code of engine initialization; `0` is success.
    InitStatus(i32),
    /// Status code of engine start; `0` is success.
    StartStatus(i32),
    /// Whether a stop has been requested, by a signal or by the
    /// engine itself.
    StopFlag(bool),
    /// The engine was stopped and its cleanup has run.
    ShutdownDone,
}

/// One step of the run sequence. Initialization or start failure
/// short-circuits to `Finished` with the matching error, so the stop
/// and cleanup operations are never asked for; an event that does not
/// answer the pending operation changes nothing.
pub open spec fn spec_run_step(state: RunState, event: RunEvent) -> RunState {
    match (state, event) {
        (RunState::NeedInit, RunEvent::InitStatus(status)) => if status == 0 {
            RunState::NeedStart
        } else {
            RunState::Finished(Some(Error::Init))
        },
        (RunState::NeedStart, RunEvent::StartStatus(status)) => if status == 0 {
            RunState::Polling
        } else {
            RunState::Finished(Some(Error::Start))
        },
        (RunState::Polling, RunEvent::StopFlag(requested)) => if requested {
            RunState::NeedShutdown
        } else {
            RunState::Polling
        },
        (RunState::NeedShutdown, RunEvent::ShutdownDone) => RunState::Finished(None),
        _ => state,
    }
}

/// Step the run sequence by one reported event.
pub fn run_step(state: RunState, event: RunEvent) -> (next: RunState)
    ensures
        next == spec_run_step(state, event),
{
    match (state, event) {
        (RunState::NeedInit, RunEvent::InitStatus(status)) => if status == 0 {
            RunState::NeedStart
        } else {
            RunState::Finished(Some(Error::Init))
        },
        (RunState::NeedStart, RunEvent::StartStatus(status)) => if status == 0 {
            RunState::Polling
        } else {
            RunState::Finished(Some(Error::Start))
        },
        (RunState::Polling, RunEvent::StopFlag(requested)) => if requested {
            RunState::NeedShutdown
        } else {
            RunState::Polling
        },
        (RunState::NeedShutdown, RunEvent::ShutdownDone) => RunState::Finished(None),
        (s, _) => s,
    }
}

/// The state after a whole sequence of reported events.
pub open spec fn run_trace(state: RunState, events: Seq<RunEvent>) -> RunState
    decreases events.len(),
{
    if events.len() == 0 {
        state
    } else {
        run_trace(spec_run_step(state, events.first()), events.drop_first())
    }
}

/// How many times a sequence of events carries the machine through
/// its shutdown step — the one step on which the driver stops the
/// engine and runs its cleanup.
pub open spec fn shutdown_count(state: RunState, events: Seq<RunEvent>) -> nat
    decreases events.len(),
{
    if events.len() == 0 {
        0
    } else {
        (if state is NeedShutdown && events.first() is ShutdownDone {
            1nat
        } else {
            0nat
        }) + shutdown_count(spec_run_step(state, events.first()), events.drop_first())
    }
}

proof fn lemma_run_counts(state: RunState, events: Seq<RunEvent>)
    ensures
        shutdown_count(state, events) <= 1,
        state matches RunState::Finished(done) ==> shutdown_count(state, events) == 0 && run_trace(
            state,
            events,
        ) == state,
        state is NeedShutdown ==> (run_trace(state, events) matches RunState::Finished(done)
            ==> done is None && shutdown_count(state, events) == 1),
        state is NeedInit || state is NeedStart || state is Polling ==> (run_trace(state, events)
            matches RunState::Finished(done) ==> (shutdown_count(state, events) == 1 <==> done
            is None)),
    decreases events.len(),
{
    if events.len() > 0 {
        lemma_run_counts(spec_run_step(state, events.first()), events.drop_first());
    }
}

/// Engine-level stop and cleanup run exactly once per run sequence
/// that ends successfully — however the stop came about, an external
/// signal or an engine-reported stop — and not at all when the
/// sequence ends in an initialization or start failure.
pub proof fn lemma_one_shutdown_per_run(events: Seq<RunEvent>)
    ensures
        shutdown_count(RunState::NeedInit, events) <= 1,
        run_trace(RunState::NeedInit, events) matches RunState::Finished(done) ==> (shutdown_count(
            RunState::NeedInit,
            events,
        ) == 1 <==> done is None),
{
    lemma_run_counts(RunState::NeedInit, events);
}

} // verus!
