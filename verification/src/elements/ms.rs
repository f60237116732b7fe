//! The `ms` element.

use vstd::prelude::*;
use vstd::std_specs::convert::FromSpecImpl;
use crate::lists::IntoList;
use crate::attributes::Attribute;
use crate::elements::{Element, Elements, IntoElements};

verus! {

/// `ms` element is used to represent "string literals" in expressions meant to be interpreted by
/// computer algebra systems or other systems containing "programming languages".
#[derive(Debug, PartialEq, Eq, PartialOrd, Ord)]
pub struct StrLiteral {
    /// The literal.
    pub literal: String,
    /// The `ms` element accepts the global [`Attribute`]s.
    pub attr: Vec<Attribute>,
}

impl Clone for StrLiteral {
    fn clone(&self) -> (r: Self)
        ensures
            r.literal == self.literal,
            r.attr@ == self.attr@,
    {
        let r = StrLiteral {
            literal: self.literal.clone(),
            attr: self.attr.clone(),
        };
        assert(r.attr@ =~= self.attr@);
        r
    }
}

impl From<&str> for StrLiteral {
    fn from(value: &str) -> (r: StrLiteral)
        ensures
            r.literal@ == value@,
            r.attr@ == Seq::<Attribute>::empty(),
    {
        StrLiteral { literal: String::from_str(value), attr: Vec::new() }
    }
}

/// No expression of a specification builds a vector, so none gives the value
/// that `from` returns: what it returns is stated in its `ensures`.
impl FromSpecImpl<&str> for StrLiteral {
    open spec fn obeys_from_spec() -> bool {
        false
    }

    open spec fn from_spec(v: &str) -> StrLiteral {
        arbitrary()
    }
}

impl From<String> for StrLiteral {
    fn from(value: String) -> (r: StrLiteral)
        ensures
            r.literal == value,
            r.attr@ == Seq::<Attribute>::empty(),
    {
        StrLiteral { literal: value, attr: Vec::new() }
    }
}

/// No expression of a specification builds a vector, so none gives the value
/// that `from` returns: what it returns is stated in its `ensures`.
impl FromSpecImpl<String> for StrLiteral {
    open spec fn obeys_from_spec() -> bool {
        false
    }

    open spec fn from_spec(v: String) -> StrLiteral {
        arbitrary()
    }
}

impl StrLiteral {
    /// Add attributes, behind those that the element has.
    pub fn add_attr(&mut self, attr: impl IntoList<Attribute>)
        ensures
            final(self).attr@ == old(self).attr@ + attr.items(),
            final(self).literal == old(self).literal,
    {
        let mut more = attr.into_list();
        self.attr.append(&mut more);
    }

    /// Create a new instance of [`StrLiteral`] with additional attributes, behind
    /// those that the element has.
    pub fn with_attr(self, attr: impl IntoList<Attribute>) -> (r: StrLiteral)
        ensures
            r.attr@ == self.attr@ + attr.items(),
            r.literal == self.literal,
    {
        let mut r = self;
        let mut more = attr.into_list();
        r.attr.append(&mut more);
        r
    }

    /// Get a reference to the literal content of the [`StrLiteral`] element.
    pub fn content(&self) -> (r: &str)
        ensures
            r@ == self.literal@,
    {
        self.literal.as_str()
    }

    /// Get a reference to all attributes of the [`StrLiteral`] element.
    pub fn attributes(&self) -> (r: &[Attribute])
        ensures
            r@ == self.attr@,
    {
        self.attr.as_slice()
    }
}

impl From<StrLiteral> for Element {
    fn from(value: StrLiteral) -> (r: Element) {
        Element::StrLiteral(value)
    }
}

impl FromSpecImpl<StrLiteral> for Element {
    open spec fn obeys_from_spec() -> bool {
        true
    }

    open spec fn from_spec(v: StrLiteral) -> Element {
        Element::StrLiteral(v)
    }
}

impl IntoElements for StrLiteral {
    open spec fn elements(self) -> Seq<Element> {
        seq![Element::StrLiteral(self)]
    }

    fn into_elements(self) -> (r: Elements) {
        Elements::one(Element::StrLiteral(self))
    }
}

} // verus!
