//! What can bring one of the two tasks to a halt.

use vstd::prelude::*;

verus! {

/// The failures of the pipeline.
#[derive(Clone, Debug, PartialEq, Eq)]
pub enum ErrorKind {
    /// The sensor driver reported an error; `diagnostic` is what it said.
    SensorReadFailure { diagnostic: String },
    /// The display driver rejected its start-up or a frame.
    DisplayFailure,
    /// A readout did not fit its buffer.
    FormatOverflow,
}

} // verus!
