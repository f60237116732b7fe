//! The scripted elements are `mmultiscripts`, `mover`, `msub`, `msubsup`, `msup`, `munder` and
//! `munderover`.

pub use super::mmultiscripts::{Multiscripts, MultiscriptsBuilder};
pub use super::msubsup::{SubSup, SubSupBuilder, SubSupInner};
pub use super::munderover::{UnderOver, UnderOverAttr, UnderOverBuilder, UnderOverInner};
