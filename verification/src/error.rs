//! Errors.
use vstd::prelude::*;

verus! {

/// An error of a column operation.
#[derive(Debug)]
pub enum PolarsError {
    /// A value could not be computed; the text says why.
    ComputeError(String),
}

} // verus!
