//! Errors of the rendering call chain.

use vstd::prelude::*;

verus! {

/// The one failure the core can produce on its own: a time value that does
/// not fit the fixed-width `MM:SS` text form of the display. Transport
/// failures of the physical display belong to the embedding program.
#[derive(Clone, Copy, PartialEq, Eq, Structural, Debug)]
pub enum Error {
    FormattingError,
}

} // verus!
