//! The `mphantom` element.

use vstd::prelude::*;
use vstd::std_specs::convert::FromSpecImpl;
use crate::lists::IntoList;
use crate::attributes::Attribute;
use crate::elements::{Element, Elements, IntoElements};

verus! {

/// The `mphantom` element was introduced to render its content invisibly, but with the same
/// metrics size and other dimensions, including alphabetic baseline position that its contents
/// would have if they were rendered normally.
#[derive(Debug, PartialEq, Eq, PartialOrd, Ord)]
pub struct Phantom {
    /// The children of the `mphantom` element.
    pub children: Elements,
    /// The `mphantom` element accepts the global [`Attribute`]s.
    pub attributes: Vec<Attribute>,
}

impl From<Elements> for Phantom {
    fn from(value: Elements) -> (r: Phantom)
        ensures
            r.children == value,
            r.attributes@ == Seq::<Attribute>::empty(),
    {
        Phantom { children: value, attributes: Vec::new() }
    }
}

/// No expression of a specification builds a vector, so none gives the value
/// that `from` returns: what it returns is stated in its `ensures`.
impl FromSpecImpl<Elements> for Phantom {
    open spec fn obeys_from_spec() -> bool {
        false
    }

    open spec fn from_spec(v: Elements) -> Phantom {
        arbitrary()
    }
}

impl<const N: usize> From<[Element; N]> for Phantom {
    fn from(value: [Element; N]) -> (r: Phantom)
        ensures
            r.children@ == value@,
            r.attributes@ == Seq::<Attribute>::empty(),
    {
        Phantom { children: value.into_elements(), attributes: Vec::new() }
    }
}

/// No expression of a specification builds a vector, so none gives the value
/// that `from` returns: what it returns is stated in its `ensures`.
impl<const N: usize> FromSpecImpl<[Element; N]> for Phantom {
    open spec fn obeys_from_spec() -> bool {
        false
    }

    open spec fn from_spec(v: [Element; N]) -> Phantom {
        arbitrary()
    }
}

impl Phantom {
    /// Add attributes, behind those that the element has.
    pub fn add_attr(&mut self, attr: impl IntoList<Attribute>)
        ensures
            final(self).attributes@ == old(self).attributes@ + attr.items(),
            final(self).children == old(self).children,
    {
        let mut more = attr.into_list();
        self.attributes.append(&mut more);
    }

    /// Create a new instance of [`Phantom`] with additional attributes, behind
    /// those that the element has.
    pub fn with_attr(self, attr: impl IntoList<Attribute>) -> (r: Phantom)
        ensures
            r.attributes@ == self.attributes@ + attr.items(),
            r.children == self.children,
    {
        let mut r = self;
        let mut more = attr.into_list();
        r.attributes.append(&mut more);
        r
    }

    /// Get a reference to the children of the [`Phantom`] element.
    pub fn children(&self) -> (r: &[Element])
        ensures
            r@ == self.children@,
    {
        self.children.as_slice()
    }

    /// Get a reference to all attributes of the [`Phantom`] element.
    pub fn attributes(&self) -> (r: &[Attribute])
        ensures
            r@ == self.attributes@,
    {
        self.attributes.as_slice()
    }
}

impl From<Phantom> for Element {
    fn from(value: Phantom) -> (r: Element) {
        Element::Phantom(value)
    }
}

impl FromSpecImpl<Phantom> for Element {
    open spec fn obeys_from_spec() -> bool {
        true
    }

    open spec fn from_spec(v: Phantom) -> Element {
        Element::Phantom(v)
    }
}

impl IntoElements for Phantom {
    open spec fn elements(self) -> Seq<Element> {
        seq![Element::Phantom(self)]
    }

    fn into_elements(self) -> (r: Elements) {
        Elements::one(Element::Phantom(self))
    }
}

} // verus!
