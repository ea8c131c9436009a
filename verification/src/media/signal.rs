//! Signals that steer a pipeline.

use vstd::prelude::*;

verus! {

/// A change of state that is passed down a pipeline.
#[derive(Clone, Copy, Debug, PartialEq, Eq, Hash, Structural)]
pub enum PipelineSignal {
    /// The stream is discontinuous from here on: drop what is buffered.
    Flush,
    /// The stream has ended: finish what is buffered.
    Eos,
}

} // verus!
