use vstd::prelude::*;

verus! {

/// The ways in which a computation of this library can fail.
#[derive(Debug, Clone, Copy, PartialEq, Eq, Structural)]
pub enum Error {
    /// No data points were available to summarize.
    EmptySample,
    /// The requested significance level is not one of the tabulated ones.
    InvalidSignificanceLevel,
    /// A plot was requested with a width of zero columns.
    InvalidWidth,
}

} // verus!
