//! Marker types used in builders.

use vstd::prelude::*;

verus! {

/// Marker type used in builders to indicate that a particular value has been initialized.
/// This is not intended to be used directly.
#[derive(Debug, Default, Clone, Copy, PartialEq, Eq, PartialOrd, Ord)]
pub struct Init;

/// Marker type used in builders to indicate that a particular value has not been initialized.
/// This is not intended to be used directly.
#[derive(Debug, Default, Clone, Copy, PartialEq, Eq, PartialOrd, Ord)]
pub struct Uninit;

/// What a marker says of the value that it stands for in a builder's type.
pub trait Marker {
    /// Whether the value has been set.
    spec fn is_init() -> bool;
}

impl Marker for Init {
    open spec fn is_init() -> bool {
        true
    }
}

impl Marker for Uninit {
    open spec fn is_init() -> bool {
        false
    }
}

} // verus!
