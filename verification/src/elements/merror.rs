//! The `merror` element.

use vstd::prelude::*;
use vstd::std_specs::convert::FromSpecImpl;
use crate::lists::IntoList;
use std::marker::PhantomData;
use crate::attributes::Attribute;
use crate::elements::{Element, Elements, IntoElements};
use crate::markers::{Init, Marker, Uninit};
use crate::same::same_held;

verus! {

/// The merror element displays its contents as an "error message". The intent of this element is
/// to provide a standard way for programs that generate MathML from other input to report syntax
/// errors in their input.
#[derive(Debug, PartialEq, Eq, PartialOrd, Ord)]
pub struct Error {
    /// The children of the `merror` element.
    pub content: Elements,
    /// The `merror` element accepts the global [`Attribute`]s.
    pub attributes: Vec<Attribute>,
}

impl Error {
    /// Create new `merror` element.
    pub fn with_mathml(math: impl IntoElements) -> (r: Error)
        ensures
            r.content@ == math.elements(),
            r.attributes@ == Seq::<Attribute>::empty(),
    {
        Error { content: math.into_elements(), attributes: Vec::new() }
    }

    /// Create a builder for [`Error`] element.
    pub fn builder() -> (b: ErrorBuilder<Uninit>)
        ensures
            b.content_held() is None,
            b.attrs() == Seq::<Attribute>::empty(),
    {
        ErrorBuilder { content: None, attributes: Vec::new(), _marker: PhantomData }
    }

    /// Get a reference to the inner content of the [`Error`] element.
    pub fn content(&self) -> (r: &[Element])
        ensures
            r@ == self.content@,
    {
        self.content.as_slice()
    }

    /// Get a reference to all attributes of the [`Error`] element.
    pub fn attributes(&self) -> (r: &[Attribute])
        ensures
            r@ == self.attributes@,
    {
        self.attributes.as_slice()
    }
}

impl From<Element> for Error {
    fn from(value: Element) -> (r: Error)
        ensures
            r.content@ == seq![value],
            r.attributes@ == Seq::<Attribute>::empty(),
    {
        Error { content: Elements::one(value), attributes: Vec::new() }
    }
}

/// No expression of a specification builds a vector, so none gives the value
/// that `from` returns: what it returns is stated in its `ensures`.
impl FromSpecImpl<Element> for Error {
    open spec fn obeys_from_spec() -> bool {
        false
    }

    open spec fn from_spec(v: Element) -> Error {
        arbitrary()
    }
}

impl From<Elements> for Error {
    fn from(value: Elements) -> (r: Error)
        ensures
            r.content == value,
            r.attributes@ == Seq::<Attribute>::empty(),
    {
        Error { content: value, attributes: Vec::new() }
    }
}

/// No expression of a specification builds a vector, so none gives the value
/// that `from` returns: what it returns is stated in its `ensures`.
impl FromSpecImpl<Elements> for Error {
    open spec fn obeys_from_spec() -> bool {
        false
    }

    open spec fn from_spec(v: Elements) -> Error {
        arbitrary()
    }
}

impl From<Error> for Element {
    fn from(value: Error) -> (r: Element) {
        Element::Error(value)
    }
}

impl FromSpecImpl<Error> for Element {
    open spec fn obeys_from_spec() -> bool {
        true
    }

    open spec fn from_spec(v: Error) -> Element {
        Element::Error(v)
    }
}

impl IntoElements for Error {
    open spec fn elements(self) -> Seq<Element> {
        seq![Element::Error(self)]
    }

    fn into_elements(self) -> (r: Elements) {
        Elements::one(Element::Error(self))
    }
}

/// Builder of the [`Error`] element. Its type says which of the values that
/// the element needs have been set; only when all are set can the element be
/// built.
#[derive(Debug, PartialEq, Eq, PartialOrd, Ord)]
pub struct ErrorBuilder<T: Marker> {
    content: Option<Elements>,
    attributes: Vec<Attribute>,
    _marker: PhantomData<(T,)>,
}

impl<T: Marker> ErrorBuilder<T> {
    #[verifier::type_invariant]
    spec fn holds_what_is_marked(self) -> bool {
        &&& T::is_init() ==> self.content is Some
    }

    /// The content that the builder holds, if it was set.
    pub closed spec fn content_held(self) -> Option<Seq<Element>> {
        match self.content {
            Some(v) => Some(v@),
            None => None,
        }
    }

    /// The attributes that the builder holds.
    pub closed spec fn attrs(self) -> Seq<Attribute> {
        self.attributes@
    }

    /// Set the content of the [`Error`] element.
    pub fn content(self, content: impl IntoElements) -> (b: ErrorBuilder<Init>)
        ensures
            b.content_held() == Some(content.elements()),
            b.attrs() == self.attrs(),
    {
        proof {
            use_type_invariant(&self);
        }
        ErrorBuilder {
            content: Some(content.into_elements()),
            attributes: self.attributes,
            _marker: PhantomData,
        }
    }

    /// Add attributes, behind those that the builder holds.
    pub fn attr(self, attr: impl IntoList<Attribute>) -> (b: Self)
        ensures
            b.content_held() == self.content_held(),
            b.attrs() == self.attrs() + attr.items(),
    {
        proof {
            use_type_invariant(&self);
        }
        let mut held = self.attributes;
        let mut more = attr.into_list();
        held.append(&mut more);
        ErrorBuilder {
            content: self.content,
            attributes: held,
            _marker: PhantomData,
        }
    }
}

impl Default for ErrorBuilder<Uninit> {
    fn default() -> (b: Self)
        ensures
            b.content_held() is None,
            b.attrs() == Seq::<Attribute>::empty(),
    {
        ErrorBuilder { content: None, attributes: Vec::new(), _marker: PhantomData }
    }
}

impl<T: Marker> Clone for ErrorBuilder<T> {
    fn clone(&self) -> (b: Self)
        ensures
            same_held(self.content_held(), b.content_held()),
            b.attrs() == self.attrs(),
    {
        proof {
            use_type_invariant(self);
        }
        let content = match &self.content {
            Some(v) => Some(v.clone()),
            None => None,
        };
        let held = self.attributes.clone();
        assert(held@ =~= self.attributes@);
        ErrorBuilder { content, attributes: held, _marker: PhantomData }
    }
}

impl ErrorBuilder<Init> {
    /// Build the [`Error`] element from what was set.
    pub fn build(self) -> (r: Error)
        ensures
            Some(r.content@) == self.content_held(),
            r.attributes@ == self.attrs(),
    {
        proof {
            use_type_invariant(&self);
        }
        Error {
            content: self.content.unwrap(),
            attributes: self.attributes,
        }
    }
}

} // verus!
