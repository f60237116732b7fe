//! The grouping elements are `maction`, `math`, `merror`, `mphantom`, `mprescripts`, `mrow`,
//! `mstyle`, `semantics` and unknown MathML elements.

pub use super::maction::{Action, ActionAttr, ActionBuilder};
pub use super::merror::{Error, ErrorBuilder};
pub use super::mmultiscripts::Prescripts;
pub use super::mphantom::Phantom;
pub use super::mrow::Row;
pub use super::mstyle::Style;
