//! The radical elements are `mroot` and `msqrt`. In this implementation both are constructed using
//! the [`Radical`] struct.

pub use super::mroot::{Radical, RadicalsBuilder};
