//! The `mpadded` element.

use vstd::prelude::*;
use vstd::std_specs::convert::FromSpecImpl;
use crate::lists::IntoList;
use crate::attributes::{push_quoted, Attribute, TagAttribute};
use crate::elements::{Element, Elements, IntoElements};

verus! {

/// The `mpadded` element accepts global attributes as well as the `width`, `height`, `depth`,
/// `lspace` and `voffset`, each of which, if present, must have a value that is a valid
/// length-percentage.
#[derive(Debug, PartialEq, Eq, PartialOrd, Ord)]
pub enum PaddedAttr {
    /// A length-percentage indicating the desired horizontal length of the `mpadded` element.
    Width(String),
    /// A length-percentage indicating the desired height (above the baseline) of the `mpadded`
    /// element.
    Height(String),
    /// A length-percentage indicating the desired depth (below the baseline) of the `mpadded`
    /// element.
    Depth(String),
    /// A length-percentage indicating the horizontal location of the positioning point of the
    /// child content with respect to the positioning point of the `mpadded` element.
    LeftSpace(String),
    /// A length-percentage indicating the vertical location of the positioning point of the
    /// child content with respect to the positioning point of the `mpadded` element.
    VerticalOffset(String),
    /// One of the global [`Attribute`]s.
    Global(Attribute),
}

impl Clone for PaddedAttr {
    fn clone(&self) -> (r: Self)
        ensures
            r == *self,
    {
        match self {
            PaddedAttr::Width(v) => PaddedAttr::Width(v.clone()),
            PaddedAttr::Height(v) => PaddedAttr::Height(v.clone()),
            PaddedAttr::Depth(v) => PaddedAttr::Depth(v.clone()),
            PaddedAttr::LeftSpace(v) => PaddedAttr::LeftSpace(v.clone()),
            PaddedAttr::VerticalOffset(v) => PaddedAttr::VerticalOffset(v.clone()),
            PaddedAttr::Global(v) => PaddedAttr::Global(v.clone()),
        }
    }
}

impl TagAttribute for PaddedAttr {
    open spec fn markup(&self) -> Seq<char> {
        match *self {
            PaddedAttr::Width(v) => "width=\""@ + v@ + "\""@,
            PaddedAttr::Height(v) => "height=\""@ + v@ + "\""@,
            PaddedAttr::Depth(v) => "depth=\""@ + v@ + "\""@,
            PaddedAttr::LeftSpace(v) => "lspace=\""@ + v@ + "\""@,
            PaddedAttr::VerticalOffset(v) => "voffset=\""@ + v@ + "\""@,
            PaddedAttr::Global(a) => a.markup(),
        }
    }

    fn write_into(&self, buf: &mut String) {
        match self {
            PaddedAttr::Width(v) => push_quoted(buf, "width=\"", v.as_str()),
            PaddedAttr::Height(v) => push_quoted(buf, "height=\"", v.as_str()),
            PaddedAttr::Depth(v) => push_quoted(buf, "depth=\"", v.as_str()),
            PaddedAttr::LeftSpace(v) => push_quoted(buf, "lspace=\"", v.as_str()),
            PaddedAttr::VerticalOffset(v) => push_quoted(buf, "voffset=\"", v.as_str()),
            PaddedAttr::Global(a) => a.write_into(buf),
        }
        assert(buf@ =~= old(buf)@ + self.markup());
    }
}

impl From<Attribute> for PaddedAttr {
    fn from(value: Attribute) -> (r: PaddedAttr) {
        PaddedAttr::Global(value)
    }
}

impl FromSpecImpl<Attribute> for PaddedAttr {
    open spec fn obeys_from_spec() -> bool {
        true
    }

    open spec fn from_spec(v: Attribute) -> PaddedAttr {
        PaddedAttr::Global(v)
    }
}

/// The `mpadded` element renders the same as its in-flow child content, but with the size and
/// relative positioning point of its content modified according to its attributes.
#[derive(Debug, PartialEq, Eq, PartialOrd, Ord)]
pub struct Padded {
    /// The children of the `mpadded` element.
    pub children: Elements,
    /// The attributes of the `mpadded` element.
    pub attributes: Vec<PaddedAttr>,
}

impl From<Elements> for Padded {
    fn from(value: Elements) -> (r: Padded)
        ensures
            r.children == value,
            r.attributes@ == Seq::<PaddedAttr>::empty(),
    {
        Padded { children: value, attributes: Vec::new() }
    }
}

/// No expression of a specification builds a vector, so none gives the value
/// that `from` returns: what it returns is stated in its `ensures`.
impl FromSpecImpl<Elements> for Padded {
    open spec fn obeys_from_spec() -> bool {
        false
    }

    open spec fn from_spec(v: Elements) -> Padded {
        arbitrary()
    }
}

impl<const N: usize> From<[Element; N]> for Padded {
    fn from(value: [Element; N]) -> (r: Padded)
        ensures
            r.children@ == value@,
            r.attributes@ == Seq::<PaddedAttr>::empty(),
    {
        Padded { children: value.into_elements(), attributes: Vec::new() }
    }
}

/// No expression of a specification builds a vector, so none gives the value
/// that `from` returns: what it returns is stated in its `ensures`.
impl<const N: usize> FromSpecImpl<[Element; N]> for Padded {
    open spec fn obeys_from_spec() -> bool {
        false
    }

    open spec fn from_spec(v: [Element; N]) -> Padded {
        arbitrary()
    }
}

impl Padded {
    /// Add attributes, behind those that the element has.
    pub fn add_attr(&mut self, attr: impl IntoList<PaddedAttr>)
        ensures
            final(self).attributes@ == old(self).attributes@ + attr.items(),
            final(self).children == old(self).children,
    {
        let mut more = attr.into_list();
        self.attributes.append(&mut more);
    }

    /// Create a new instance of [`Padded`] with additional attributes, behind
    /// those that the element has.
    pub fn with_attr(self, attr: impl IntoList<PaddedAttr>) -> (r: Padded)
        ensures
            r.attributes@ == self.attributes@ + attr.items(),
            r.children == self.children,
    {
        let mut r = self;
        let mut more = attr.into_list();
        r.attributes.append(&mut more);
        r
    }

    /// Get a reference to the children of the [`Padded`] element.
    pub fn children(&self) -> (r: &[Element])
        ensures
            r@ == self.children@,
    {
        self.children.as_slice()
    }

    /// Get a reference to all attributes of the [`Padded`] element.
    pub fn attributes(&self) -> (r: &[PaddedAttr])
        ensures
            r@ == self.attributes@,
    {
        self.attributes.as_slice()
    }
}

impl From<Padded> for Element {
    fn from(value: Padded) -> (r: Element) {
        Element::Padded(value)
    }
}

impl FromSpecImpl<Padded> for Element {
    open spec fn obeys_from_spec() -> bool {
        true
    }

    open spec fn from_spec(v: Padded) -> Element {
        Element::Padded(v)
    }
}

impl IntoElements for Padded {
    open spec fn elements(self) -> Seq<Element> {
        seq![Element::Padded(self)]
    }

    fn into_elements(self) -> (r: Elements) {
        Elements::one(Element::Padded(self))
    }
}

} // verus!
