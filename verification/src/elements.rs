//! Elements found in the MathML Core Specification. These elements are called MathML Core
//! elements.

use vstd::prelude::*;
use crate::lists::array_into_vec;

mod maction;
mod merror;
mod mmultiscripts;
mod mphantom;
mod mrow;
mod mstyle;

pub mod grouping;

mod mroot;

pub mod radicals;

mod msubsup;
mod munderover;

pub mod scripted;

mod annotation;
pub mod math;
mod mfrac;
mod mi;
mod mn;
mod mo;
mod mpadded;
mod ms;
mod mspace;
mod mtable;
mod mtext;

pub use annotation::{
    Annotation, AnnotationAttr, AnnotationBuilder, AnnotationContent, Semantics, SemanticsBuilder,
};
pub use mfrac::{Frac, FracAttr, FracBuilder};
pub use mi::{Ident, IdentBuilder};
pub use mn::Num;
pub use mo::{OpForm, Operator, OperatorAttr, OperatorBuilder};
pub use mpadded::{Padded, PaddedAttr};
pub use ms::StrLiteral;
pub use mspace::{Space, SpaceAttr};
pub use mtable::{
    line_tokens, rows_of_grid, ColumnLine, Table, TableAttr, TableCell, TableCellAttr, TableRow,
};
pub use mtext::Text;

use self::grouping::{Action, Error, Phantom, Prescripts, Row, Style};
use self::radicals::Radical;
use self::scripted::{Multiscripts, SubSup, UnderOver};

verus! {

/// The MathML elements.
#[derive(Debug, PartialEq, Eq, PartialOrd, Ord)]
pub enum Element {
    /// `maction` element.
    Action(Action),
    /// `annotation` and `annotation-xml` elements.
    Annotation(Annotation),
    /// `merror` element.
    Error(Error),
    /// `mfrac` element.
    Frac(Frac),
    /// `mi` element.
    Ident(Ident),
    /// `mmultiscripts` element.
    Multiscripts(Multiscripts),
    /// `mprescripts` element.
    Prescripts(Prescripts),
    /// `mn` element.
    Num(Num),
    /// `mo` element.
    Operator(Operator),
    /// `mpadded` element.
    Padded(Padded),
    /// `mphantom` element.
    Phantom(Phantom),
    /// `mroot` and `msqrt` elements.
    Radical(Radical),
    /// `mrow` element.
    Row(Row),
    /// `semantics` element.
    Semantics(Semantics),
    /// `mspace` element.
    Space(Space),
    /// `ms` element.
    StrLiteral(StrLiteral),
    /// `mstyle`
    Style(Style),
    /// `msub`, `msup` and `msubsup` elements.
    SubSup(SubSup),
    /// `mtable` element.
    Table(Table),
    /// `mtext` element.
    Text(Text),
    /// `munder`, `mover` and `munderover` elements.
    UnderOver(UnderOver),
}

/// A list of [`Element`]s. It keeps them in the order in which they were
/// given, and keeps each of them, equal ones too.
#[derive(Debug, PartialEq, Eq, PartialOrd, Ord)]
pub struct Elements(pub Vec<Element>);

impl View for Elements {
    type V = Seq<Element>;

    open spec fn view(&self) -> Seq<Element> {
        self.0@
    }
}

impl std::ops::Deref for Elements {
    type Target = Vec<Element>;

    fn deref(&self) -> (r: &Vec<Element>)
        ensures
            *r == self.0,
    {
        &self.0
    }
}

impl std::ops::DerefMut for Elements {
    fn deref_mut(&mut self) -> (r: &mut Vec<Element>)
        ensures
            *r == old(self).0,
            final(self).0 == *final(r),
    {
        &mut self.0
    }
}

impl Default for Elements {
    fn default() -> (r: Self)
        ensures
            r@ == Seq::<Element>::empty(),
    {
        Elements(Vec::new())
    }
}

impl Elements {
    /// Consumes the [`Elements`] and returns a [`Vec`] of [`Element`]s.
    pub fn into_inner(self) -> (r: Vec<Element>)
        ensures
            r == self.0,
    {
        self.0
    }

    /// The elements as a slice.
    pub fn as_slice(&self) -> (r: &[Element])
        ensures
            r@ == self@,
    {
        self.0.as_slice()
    }

    /// The number of elements.
    pub fn len(&self) -> (n: usize)
        ensures
            n == self@.len(),
    {
        self.0.len()
    }

    /// Whether there is no element.
    pub fn is_empty(&self) -> (b: bool)
        ensures
            b == (self@.len() == 0),
    {
        self.0.len() == 0
    }

    /// Adds one element at the end.
    pub fn push(&mut self, element: Element)
        ensures
            final(self)@ == old(self)@.push(element),
    {
        self.0.push(element);
    }

    /// Moves the elements of `other` to the end of this list, and leaves `other` empty.
    pub fn append(&mut self, other: &mut Elements)
        ensures
            final(self)@ == old(self)@ + old(other)@,
            final(other)@ == Seq::<Element>::empty(),
    {
        self.0.append(&mut other.0);
    }

    /// The list that holds `element` and nothing else.
    pub fn one(element: Element) -> (r: Elements)
        ensures
            r@ == seq![element],
    {
        let mut v = Vec::new();
        v.push(element);
        assert(v@ =~= seq![element]);
        Elements(v)
    }
}

/// Trait for conversion into [`Elements`].
pub trait IntoElements: Sized {
    /// The elements that the value is converted into, in their order.
    spec fn elements(self) -> Seq<Element>;

    /// Converts the type into elements.
    fn into_elements(self) -> (r: Elements)
        ensures
            r@ == self.elements(),
    ;
}

impl IntoElements for Elements {
    open spec fn elements(self) -> Seq<Element> {
        self@
    }

    fn into_elements(self) -> (r: Elements) {
        self
    }
}

impl IntoElements for Element {
    open spec fn elements(self) -> Seq<Element> {
        seq![self]
    }

    fn into_elements(self) -> (r: Elements) {
        Elements::one(self)
    }
}

impl IntoElements for Vec<Element> {
    open spec fn elements(self) -> Seq<Element> {
        self@
    }

    fn into_elements(self) -> (r: Elements) {
        Elements(self)
    }
}

impl<const N: usize> IntoElements for [Element; N] {
    open spec fn elements(self) -> Seq<Element> {
        self@
    }

    fn into_elements(self) -> (r: Elements) {
        Elements(array_into_vec(self))
    }
}

/// What a slot for a single child holds once `given` was put into it: more
/// than one element is wrapped in one row without attributes; a single
/// element, a row too, and no element at all are held as they are.
pub open spec fn fills_slot(held: Seq<Element>, given: Seq<Element>) -> bool {
    if given.len() > 1 {
        &&& held.len() == 1
        &&& held[0] is Row
        &&& held[0]->Row_0.children@ == given
        &&& held[0]->Row_0.attr@ == Seq::<crate::attributes::Attribute>::empty()
    } else {
        held == given
    }
}

/// Makes `given` fit a slot for a single child.
pub fn single_slot(given: Elements) -> (held: Elements)
    ensures
        fills_slot(held@, given@),
{
    if given.len() > 1 {
        Elements::one(Element::Row(Row { children: given, attr: Vec::new() }))
    } else {
        given
    }
}

} // verus!
