//! The failures the application distinguishes.

use vstd::prelude::*;

verus! {

/// The two kinds of failure.
#[derive(Clone, Copy, Debug, PartialEq, Eq, Structural)]
pub enum AppError {
    /// The command line did not carry what was needed.
    ArgsError,
    /// A quote response could not be read as a price series.
    ParseError,
}

} // verus!
