//! The `mstyle` element.

use vstd::prelude::*;
use vstd::std_specs::convert::FromSpecImpl;
use crate::lists::IntoList;
use crate::attributes::Attribute;
use crate::elements::{Element, Elements, IntoElements};

verus! {

/// `mstyle` element was introduced to make style changes that affect the rendering of its
/// contents.
#[derive(Debug, PartialEq, Eq, PartialOrd, Ord)]
pub struct Style {
    /// The children of the `mstyle` element.
    pub children: Elements,
    /// The `mstyle` element accepts the global [`Attribute`]s.
    pub attr: Vec<Attribute>,
}

impl From<Elements> for Style {
    fn from(value: Elements) -> (r: Style)
        ensures
            r.children == value,
            r.attr@ == Seq::<Attribute>::empty(),
    {
        Style { children: value, attr: Vec::new() }
    }
}

/// No expression of a specification builds a vector, so none gives the value
/// that `from` returns: what it returns is stated in its `ensures`.
impl FromSpecImpl<Elements> for Style {
    open spec fn obeys_from_spec() -> bool {
        false
    }

    open spec fn from_spec(v: Elements) -> Style {
        arbitrary()
    }
}

impl<const N: usize> From<[Element; N]> for Style {
    fn from(value: [Element; N]) -> (r: Style)
        ensures
            r.children@ == value@,
            r.attr@ == Seq::<Attribute>::empty(),
    {
        Style { children: value.into_elements(), attr: Vec::new() }
    }
}

/// No expression of a specification builds a vector, so none gives the value
/// that `from` returns: what it returns is stated in its `ensures`.
impl<const N: usize> FromSpecImpl<[Element; N]> for Style {
    open spec fn obeys_from_spec() -> bool {
        false
    }

    open spec fn from_spec(v: [Element; N]) -> Style {
        arbitrary()
    }
}

impl Style {
    /// Add attributes, behind those that the element has.
    pub fn add_attr(&mut self, attr: impl IntoList<Attribute>)
        ensures
            final(self).attr@ == old(self).attr@ + attr.items(),
            final(self).children == old(self).children,
    {
        let mut more = attr.into_list();
        self.attr.append(&mut more);
    }

    /// Create a new instance of [`Style`] with additional attributes, behind
    /// those that the element has.
    pub fn with_attr(self, attr: impl IntoList<Attribute>) -> (r: Style)
        ensures
            r.attr@ == self.attr@ + attr.items(),
            r.children == self.children,
    {
        let mut r = self;
        let mut more = attr.into_list();
        r.attr.append(&mut more);
        r
    }

    /// Get a reference to the children of the [`Style`] element.
    pub fn children(&self) -> (r: &[Element])
        ensures
            r@ == self.children@,
    {
        self.children.as_slice()
    }

    /// Get a reference to all attributes of the [`Style`] element.
    pub fn attributes(&self) -> (r: &[Attribute])
        ensures
            r@ == self.attr@,
    {
        self.attr.as_slice()
    }
}

impl From<Style> for Element {
    fn from(value: Style) -> (r: Element) {
        Element::Style(value)
    }
}

impl FromSpecImpl<Style> for Element {
    open spec fn obeys_from_spec() -> bool {
        true
    }

    open spec fn from_spec(v: Style) -> Element {
        Element::Style(v)
    }
}

impl IntoElements for Style {
    open spec fn elements(self) -> Seq<Element> {
        seq![Element::Style(self)]
    }

    fn into_elements(self) -> (r: Elements) {
        Elements::one(Element::Style(self))
    }
}

} // verus!
