//! The endpoints that requests are addressed to.

use vstd::prelude::*;

verus! {

/// The endpoints of the spot segment that this library names.
#[derive(Debug, Clone, Copy, PartialEq, Eq)]
pub enum Spot {
    /// The sessions of account messages.
    UserDataStream,
}

/// The endpoints of the derivatives segment that this library names.
#[derive(Debug, Clone, Copy, PartialEq, Eq)]
pub enum Futures {
    /// The sessions of account messages.
    UserDataStream,
}

/// An endpoint of one of the two segments.
#[derive(Debug, Clone, Copy, PartialEq, Eq)]
pub enum API {
    Spot(Spot),
    Futures(Futures),
}

} // verus!
