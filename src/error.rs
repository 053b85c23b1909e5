use vstd::prelude::*;

verus! {

/// Every way in which building a chart or running a lifecycle step can fail.
#[derive(Clone, Debug, PartialEq, Eq)]
pub enum ExperimentError {
    /// A series was built from `x` and `y` of different lengths.
    InvalidSeries,
    /// The path handed to `load` does not exist.
    NotFound,
    /// A directory or file operation failed.
    IoError { cause: String },
    /// Encoding or decoding the experiment's data failed.
    SerializationError { cause: String },
    /// Rendering one page failed; later pages were not attempted.
    RenderFailed { page_name: String, cause: String },
}

} // verus!
