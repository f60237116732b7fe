//! The `mrow` element.

use vstd::prelude::*;
use vstd::std_specs::convert::FromSpecImpl;
use crate::lists::IntoList;
use crate::attributes::Attribute;
use crate::elements::{Element, Elements, IntoElements};

verus! {

/// The `mrow` element is used to group together any number of sub-expressions, usually consisting
/// of one or more `mo` elements acting as "operators" on one or more other expressions that are
/// their "operands".
#[derive(Debug, PartialEq, Eq, PartialOrd, Ord)]
pub struct Row {
    /// The children of the `mrow` element.
    pub children: Elements,
    /// The `mrow` element accepts the global [`Attribute`]s.
    pub attr: Vec<Attribute>,
}

impl Default for Row {
    fn default() -> (r: Self)
        ensures
            r.children@ == Seq::<Element>::empty(),
            r.attr@ == Seq::<Attribute>::empty(),
    {
        Row { children: Elements(Vec::new()), attr: Vec::new() }
    }
}

impl From<Elements> for Row {
    fn from(value: Elements) -> (r: Row)
        ensures
            r.children == value,
            r.attr@ == Seq::<Attribute>::empty(),
    {
        Row { children: value, attr: Vec::new() }
    }
}

/// No expression of a specification builds a vector, so none gives the value
/// that `from` returns: what it returns is stated in its `ensures`.
impl FromSpecImpl<Elements> for Row {
    open spec fn obeys_from_spec() -> bool {
        false
    }

    open spec fn from_spec(v: Elements) -> Row {
        arbitrary()
    }
}

impl<const N: usize> From<[Element; N]> for Row {
    fn from(value: [Element; N]) -> (r: Row)
        ensures
            r.children@ == value@,
            r.attr@ == Seq::<Attribute>::empty(),
    {
        Row { children: value.into_elements(), attr: Vec::new() }
    }
}

/// No expression of a specification builds a vector, so none gives the value
/// that `from` returns: what it returns is stated in its `ensures`.
impl<const N: usize> FromSpecImpl<[Element; N]> for Row {
    open spec fn obeys_from_spec() -> bool {
        false
    }

    open spec fn from_spec(v: [Element; N]) -> Row {
        arbitrary()
    }
}

impl Row {
    /// Add attributes, behind those that the element has.
    pub fn add_attr(&mut self, attr: impl IntoList<Attribute>)
        ensures
            final(self).attr@ == old(self).attr@ + attr.items(),
            final(self).children == old(self).children,
    {
        let mut more = attr.into_list();
        self.attr.append(&mut more);
    }

    /// Create a new instance of [`Row`] with additional attributes, behind
    /// those that the element has.
    pub fn with_attr(self, attr: impl IntoList<Attribute>) -> (r: Row)
        ensures
            r.attr@ == self.attr@ + attr.items(),
            r.children == self.children,
    {
        let mut r = self;
        let mut more = attr.into_list();
        r.attr.append(&mut more);
        r
    }

    /// Get a reference to the children of the [`Row`] element.
    pub fn children(&self) -> (r: &[Element])
        ensures
            r@ == self.children@,
    {
        self.children.as_slice()
    }

    /// Get a reference to all attributes of the [`Row`] element.
    pub fn attributes(&self) -> (r: &[Attribute])
        ensures
            r@ == self.attr@,
    {
        self.attr.as_slice()
    }
}

impl From<Row> for Element {
    fn from(value: Row) -> (r: Element) {
        Element::Row(value)
    }
}

impl FromSpecImpl<Row> for Element {
    open spec fn obeys_from_spec() -> bool {
        true
    }

    open spec fn from_spec(v: Row) -> Element {
        Element::Row(v)
    }
}

impl IntoElements for Row {
    open spec fn elements(self) -> Seq<Element> {
        seq![Element::Row(self)]
    }

    fn into_elements(self) -> (r: Elements) {
        Elements::one(Element::Row(self))
    }
}

} // verus!
