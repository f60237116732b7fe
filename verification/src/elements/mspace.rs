//! The `mspace` element.

use vstd::prelude::*;
use vstd::std_specs::convert::FromSpecImpl;
use crate::lists::IntoList;
use crate::attributes::{push_quoted, Attribute, TagAttribute};
use crate::elements::{Element, Elements, IntoElements};

verus! {

/// The `mspace` element accepts the global [`Attribute`]s as well as `width`, `height` and `depth`.
/// 
/// The `width`, `height`, `depth`, if present, must have a value that is a valid
/// length-percentage.
#[derive(Debug, PartialEq, Eq, PartialOrd, Ord)]
pub enum SpaceAttr {
    /// If present, valid and not a percentage then it is used as a presentational hint setting the
    /// element's width property to the corresponding value.
    Width(String),
    /// If absent, invalid or a percentage then the requested line-ascent is 0. Otherwise the
    /// requested line-ascent is the resolved value of the height attribute, clamping negative
    /// values to 0.
    Height(String),
    /// If present, valid and not a percentage, a presentational hint for the element's height
    /// below the baseline.
    Depth(String),
    /// One of the global [`Attribute`]s.
    Global(Attribute),
}

impl Clone for SpaceAttr {
    fn clone(&self) -> (r: Self)
        ensures
            r == *self,
    {
        match self {
            SpaceAttr::Width(v) => SpaceAttr::Width(v.clone()),
            SpaceAttr::Height(v) => SpaceAttr::Height(v.clone()),
            SpaceAttr::Depth(v) => SpaceAttr::Depth(v.clone()),
            SpaceAttr::Global(v) => SpaceAttr::Global(v.clone()),
        }
    }
}

impl TagAttribute for SpaceAttr {
    open spec fn markup(&self) -> Seq<char> {
        match *self {
            SpaceAttr::Width(v) => "width=\""@ + v@ + "\""@,
            SpaceAttr::Height(v) => "height=\""@ + v@ + "\""@,
            SpaceAttr::Depth(v) => "depth=\""@ + v@ + "\""@,
            SpaceAttr::Global(a) => a.markup(),
        }
    }

    fn write_into(&self, buf: &mut String) {
        match self {
            SpaceAttr::Width(v) => push_quoted(buf, "width=\"", v.as_str()),
            SpaceAttr::Height(v) => push_quoted(buf, "height=\"", v.as_str()),
            SpaceAttr::Depth(v) => push_quoted(buf, "depth=\"", v.as_str()),
            SpaceAttr::Global(a) => a.write_into(buf),
        }
        assert(buf@ =~= old(buf)@ + self.markup());
    }
}

impl From<Attribute> for SpaceAttr {
    fn from(value: Attribute) -> (r: SpaceAttr) {
        SpaceAttr::Global(value)
    }
}

impl FromSpecImpl<Attribute> for SpaceAttr {
    open spec fn obeys_from_spec() -> bool {
        true
    }

    open spec fn from_spec(v: Attribute) -> SpaceAttr {
        SpaceAttr::Global(v)
    }
}

/// The mspace empty element represents a blank space of any desired size, as set by its
/// attributes.
#[derive(Debug, PartialEq, Eq, PartialOrd, Ord)]
pub struct Space {
    /// The attributes of the `mspace` element.
    pub attr: Vec<SpaceAttr>,
}

impl Clone for Space {
    fn clone(&self) -> (r: Self)
        ensures
            r.attr@ == self.attr@,
    {
        let r = Space {
            attr: self.attr.clone(),
        };
        assert(r.attr@ =~= self.attr@);
        r
    }
}

impl Default for Space {
    fn default() -> (r: Self)
        ensures
            r.attr@ == Seq::<SpaceAttr>::empty(),
    {
        Space { attr: Vec::new() }
    }
}

impl Space {
    /// Add attributes, behind those that the element has.
    pub fn add_attr(&mut self, attr: impl IntoList<SpaceAttr>)
        ensures
            final(self).attr@ == old(self).attr@ + attr.items(),
    {
        let mut more = attr.into_list();
        self.attr.append(&mut more);
    }

    /// Create a new instance of [`Space`] with additional attributes, behind
    /// those that the element has.
    pub fn with_attr(self, attr: impl IntoList<SpaceAttr>) -> (r: Space)
        ensures
            r.attr@ == self.attr@ + attr.items(),
    {
        let mut r = self;
        let mut more = attr.into_list();
        r.attr.append(&mut more);
        r
    }

    /// Get a reference to all attributes of the [`Space`] element.
    pub fn attributes(&self) -> (r: &[SpaceAttr])
        ensures
            r@ == self.attr@,
    {
        self.attr.as_slice()
    }
}

impl From<Space> for Element {
    fn from(value: Space) -> (r: Element) {
        Element::Space(value)
    }
}

impl FromSpecImpl<Space> for Element {
    open spec fn obeys_from_spec() -> bool {
        true
    }

    open spec fn from_spec(v: Space) -> Element {
        Element::Space(v)
    }
}

impl IntoElements for Space {
    open spec fn elements(self) -> Seq<Element> {
        seq![Element::Space(self)]
    }

    fn into_elements(self) -> (r: Elements) {
        Elements::one(Element::Space(self))
    }
}

} // verus!
