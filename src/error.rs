use vstd::prelude::*;

verus! {

/// The ways an engine operation can fail.
#[derive(Debug, Clone, PartialEq, Eq)]
pub enum Error {
    /// The native layer could not allocate its initial state.
    Allocation,
    /// A diagnostic label held a nul byte, first at `position`.
    Encoding { position: usize },
    /// A queued job threw; `message` is the thrown value as extracted by the host.
    Script { message: String },
}

} // verus!
