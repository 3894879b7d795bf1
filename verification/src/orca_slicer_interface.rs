//! The alternative slicer's interface state: it only records where the
//! workspace and the slicer executable live.  Reaching the executable and
//! evaluating through it stay with the caller.

use vstd::prelude::*;

verus! {

/// Where the alternative slicer's workspace and executable live.
pub struct OrcaSlicerState {
    pub ws_path: String,
    pub slicer_exec_path: String,
}

impl OrcaSlicerState {
    /// A fresh state with empty paths.
    pub fn new() -> (s: OrcaSlicerState)
        ensures
            s.ws_path@ == Seq::<char>::empty(),
            s.slicer_exec_path@ == Seq::<char>::empty(),
    {
        OrcaSlicerState { ws_path: String::new(), slicer_exec_path: String::new() }
    }
}

/// Records the workspace and slicer paths in the state.
pub fn initialize_orca_slicer_if(state: &mut OrcaSlicerState, ws_path: &str, orca_path: &str)
    ensures
        final(state).ws_path@ == ws_path@,
        final(state).slicer_exec_path@ == orca_path@,
{
    state.ws_path = String::from_str(ws_path);
    state.slicer_exec_path = String::from_str(orca_path);
}

} // verus!
