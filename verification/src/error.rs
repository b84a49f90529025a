use vstd::prelude::*;

verus! {

/// Error conditions reported by the engine lifecycle and the
/// auxiliary-task bridge.
#[derive(Copy, Clone, Debug, PartialEq, Eq)]
pub enum Error {
    Init,
    Start,
    Stop,
    Cleanup,
    CreateTask,
    Task,
}

impl Error {
    /// The engine operation this error came from.
    pub fn description(&self) -> (r: &'static str)
        ensures
            *self is Init ==> r@ == "Bela_initAudio error"@,
            *self is Start ==> r@ == "Bela_startAudio error"@,
            *self is Stop ==> r@ == "Bela_stopAudio error"@,
            *self is Cleanup ==> r@ == "Bela_cleanupAudio error"@,
            *self is CreateTask ==> r@ == "Bela_createAuxiliaryTask error"@,
            *self is Task ==> r@ == "Bela_scheduleAuxiliaryTask error"@,
    {
        match self {
            Error::Init => "Bela_initAudio error",
            Error::Start => "Bela_startAudio error",
            Error::Stop => "Bela_stopAudio error",
            Error::Cleanup => "Bela_cleanupAudio error",
            Error::CreateTask => "Bela_createAuxiliaryTask error",
            Error::Task => "Bela_scheduleAuxiliaryTask error",
        }
    }
}

} // verus!
