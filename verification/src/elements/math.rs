//! A `math` element that holds a whole document.

use vstd::prelude::*;
use vstd::std_specs::convert::FromSpecImpl;
use crate::lists::IntoList;
use std::marker::PhantomData;
use crate::attributes::{push_quoted, Attribute, TagAttribute};
use crate::markers::{Init, Marker, Uninit};
use crate::same::same_held_document;
use crate::{DisplayAttr, MathMl};

verus! {

/// The value of the `display` attribute.
pub open spec fn display_name(display: DisplayAttr) -> Seq<char> {
    match display {
        DisplayAttr::Block => "block"@,
        DisplayAttr::Inline => "inline"@,
    }
}

/// The display mode as it is written in markup.
pub fn display_str(display: &DisplayAttr) -> (s: &'static str)
    ensures
        s@ == display_name(*display),
{
    match display {
        DisplayAttr::Block => "block",
        DisplayAttr::Inline => "inline",
    }
}

/// An attribute of `math` element. Either one of the global [`Attribute`]s, `display` or `alttext`
/// attribute.
#[derive(Debug, PartialEq, Eq, PartialOrd, Ord)]
pub enum MathAttr {
    /// One of the global [`Attribute`]s.
    Global(Attribute),
    /// Whether the markup is displayed as a block of its own or inside the current span of text.
    Display(DisplayAttr),
    /// Alternative text for systems that do not implement math layout.
    AltText(String),
}

impl Clone for MathAttr {
    fn clone(&self) -> (r: Self)
        ensures
            r == *self,
    {
        match self {
            MathAttr::Global(v) => MathAttr::Global(v.clone()),
            MathAttr::Display(v) => MathAttr::Display(*v),
            MathAttr::AltText(v) => MathAttr::AltText(v.clone()),
        }
    }
}

impl TagAttribute for MathAttr {
    open spec fn markup(&self) -> Seq<char> {
        match *self {
            MathAttr::Global(a) => a.markup(),
            MathAttr::Display(v) => "display=\""@ + display_name(v) + "\""@,
            MathAttr::AltText(v) => "alttext=\""@ + v@ + "\""@,
        }
    }

    fn write_into(&self, buf: &mut String) {
        match self {
            MathAttr::Global(a) => a.write_into(buf),
            MathAttr::Display(v) => push_quoted(buf, "display=\"", display_str(v)),
            MathAttr::AltText(v) => push_quoted(buf, "alttext=\"", v.as_str()),
        }
        assert(buf@ =~= old(buf)@ + self.markup());
    }
}

/// MathML specifies a single top-level or root math element, which encapsulates each instance of
/// MathML markup within a document. All other MathML content must be contained in a `<math>`
/// element.
#[derive(Debug, PartialEq, Eq, PartialOrd, Ord)]
pub struct Math {
    /// What the element holds.
    pub content: MathMl,
    /// The attributes of the element.
    pub attributes: Vec<MathAttr>,
}

impl Math {
    /// Create new `math` element.
    pub fn with_mathml(math: MathMl) -> (r: Math)
        ensures
            r.content == math,
            r.attributes@ == Seq::<MathAttr>::empty(),
    {
        Math { content: math, attributes: Vec::new() }
    }

    /// Create a builder for [`Math`] element.
    pub fn builder() -> (b: MathBuilder<Uninit>)
        ensures
            b.content_held() is None,
            b.attrs() == Seq::<MathAttr>::empty(),
    {
        MathBuilder { content: None, attributes: Vec::new(), _marker: PhantomData }
    }
}

impl From<MathMl> for Math {
    fn from(value: MathMl) -> (r: Math)
        ensures
            r.content == value,
            r.attributes@ == Seq::<MathAttr>::empty(),
    {
        Math { content: value, attributes: Vec::new() }
    }
}

/// No expression of a specification builds a vector, so none gives the value
/// that `from` returns: what it returns is stated in its `ensures`.
impl FromSpecImpl<MathMl> for Math {
    open spec fn obeys_from_spec() -> bool {
        false
    }

    open spec fn from_spec(v: MathMl) -> Math {
        arbitrary()
    }
}

/// Builder of the [`Math`] element. Its type says which of the values that
/// the element needs have been set; only when all are set can the element be
/// built.
#[derive(Debug, PartialEq, Eq, PartialOrd, Ord)]
pub struct MathBuilder<T: Marker> {
    content: Option<MathMl>,
    attributes: Vec<MathAttr>,
    _marker: PhantomData<(T,)>,
}

impl<T: Marker> MathBuilder<T> {
    #[verifier::type_invariant]
    spec fn holds_what_is_marked(self) -> bool {
        &&& T::is_init() ==> self.content is Some
    }

    /// The content that the builder holds, if it was set.
    pub closed spec fn content_held(self) -> Option<MathMl> {
        match self.content {
            Some(v) => Some(v),
            None => None,
        }
    }

    /// The attributes that the builder holds.
    pub closed spec fn attrs(self) -> Seq<MathAttr> {
        self.attributes@
    }

    /// Set the content of the [`Math`] element.
    pub fn content(self, content: MathMl) -> (b: MathBuilder<Init>)
        ensures
            b.content_held() == Some(content),
            b.attrs() == self.attrs(),
    {
        proof {
            use_type_invariant(&self);
        }
        MathBuilder {
            content: Some(content),
            attributes: self.attributes,
            _marker: PhantomData,
        }
    }

    /// Add attributes, behind those that the builder holds.
    pub fn attr(self, attr: impl IntoList<MathAttr>) -> (b: Self)
        ensures
            b.content_held() == self.content_held(),
            b.attrs() == self.attrs() + attr.items(),
    {
        proof {
            use_type_invariant(&self);
        }
        let mut held = self.attributes;
        let mut more = attr.into_list();
        held.append(&mut more);
        MathBuilder {
            content: self.content,
            attributes: held,
            _marker: PhantomData,
        }
    }
}

impl Default for MathBuilder<Uninit> {
    fn default() -> (b: Self)
        ensures
            b.content_held() is None,
            b.attrs() == Seq::<MathAttr>::empty(),
    {
        MathBuilder { content: None, attributes: Vec::new(), _marker: PhantomData }
    }
}

impl<T: Marker> Clone for MathBuilder<T> {
    fn clone(&self) -> (b: Self)
        ensures
            same_held_document(self.content_held(), b.content_held()),
            b.attrs() == self.attrs(),
    {
        proof {
            use_type_invariant(self);
        }
        let content = match &self.content {
            Some(v) => Some(v.clone()),
            None => None,
        };
        let held = self.attributes.clone();
        assert(held@ =~= self.attributes@);
        MathBuilder { content, attributes: held, _marker: PhantomData }
    }
}

impl MathBuilder<Init> {
    /// Build the [`Math`] element from what was set.
    pub fn build(self) -> (r: Math)
        ensures
            Some(r.content) == self.content_held(),
            r.attributes@ == self.attrs(),
    {
        proof {
            use_type_invariant(&self);
        }
        Math {
            content: self.content.unwrap(),
            attributes: self.attributes,
        }
    }
}

} // verus!
