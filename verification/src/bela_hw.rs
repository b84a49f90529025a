use vstd::prelude::*;

verus! {

/// Hardware model a run can be pinned to, instead of the detected
/// board. The numeric codes the engine uses for these live with the
/// code that talks to the engine.
#[derive(Debug, Clone, Copy, PartialEq, Eq, Structural)]
pub enum BelaHw {
    NoHw,
    Bela,
    BelaMini,
    Salt,
    CtagFace,
    CtagBeast,
    CtagFaceBela,
    CtagBeastBela,
}

} // verus!
