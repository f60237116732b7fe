//! The `mmultiscripts` and `mprescripts` elements.

use vstd::prelude::*;
use vstd::std_specs::convert::FromSpecImpl;
use crate::lists::IntoList;
use std::marker::PhantomData;
use crate::attributes::Attribute;
use crate::elements::{Element, Elements, IntoElements};
use crate::markers::{Init, Marker, Uninit};
use crate::same::same_held;

verus! {

/// Presubscripts and tensor notations are represented by the `mmultiscripts` element.
#[derive(Debug, PartialEq, Eq, PartialOrd, Ord)]
pub struct Multiscripts {
    /// The base, the scripts behind it and, after an `mprescripts`, those before it.
    pub content: Elements,
    /// Accepts the global [`Attribute`]s.
    pub attributes: Vec<Attribute>,
}

impl Multiscripts {
    /// Get a reference to the inner content of the [`Multiscripts`] element.
    pub fn content(&self) -> (r: &[Element])
        ensures
            r@ == self.content@,
    {
        self.content.as_slice()
    }

    /// Get a reference to all attributes of the [`Multiscripts`] element.
    pub fn attributes(&self) -> (r: &[Attribute])
        ensures
            r@ == self.attributes@,
    {
        self.attributes.as_slice()
    }

    /// Create a builder for [`Multiscripts`] element.
    pub fn builder() -> (b: MultiscriptsBuilder<Uninit>)
        ensures
            b.content_held() is None,
            b.attrs() == Seq::<Attribute>::empty(),
    {
        MultiscriptsBuilder { content: None, attr: Vec::new(), _marker: PhantomData }
    }
}

impl From<Elements> for Multiscripts {
    fn from(value: Elements) -> (r: Multiscripts)
        ensures
            r.content == value,
            r.attributes@ == Seq::<Attribute>::empty(),
    {
        Multiscripts { content: value, attributes: Vec::new() }
    }
}

/// No expression of a specification builds a vector, so none gives the value
/// that `from` returns: what it returns is stated in its `ensures`.
impl FromSpecImpl<Elements> for Multiscripts {
    open spec fn obeys_from_spec() -> bool {
        false
    }

    open spec fn from_spec(v: Elements) -> Multiscripts {
        arbitrary()
    }
}

impl From<Multiscripts> for Element {
    fn from(value: Multiscripts) -> (r: Element) {
        Element::Multiscripts(value)
    }
}

impl FromSpecImpl<Multiscripts> for Element {
    open spec fn obeys_from_spec() -> bool {
        true
    }

    open spec fn from_spec(v: Multiscripts) -> Element {
        Element::Multiscripts(v)
    }
}

impl IntoElements for Multiscripts {
    open spec fn elements(self) -> Seq<Element> {
        seq![Element::Multiscripts(self)]
    }

    fn into_elements(self) -> (r: Elements) {
        Elements::one(Element::Multiscripts(self))
    }
}

/// Builder of the [`Multiscripts`] element. Its type says which of the values that
/// the element needs have been set; only when all are set can the element be
/// built.
#[derive(Debug, PartialEq, Eq, PartialOrd, Ord)]
pub struct MultiscriptsBuilder<T: Marker> {
    content: Option<Elements>,
    attr: Vec<Attribute>,
    _marker: PhantomData<(T,)>,
}

impl<T: Marker> MultiscriptsBuilder<T> {
    #[verifier::type_invariant]
    spec fn holds_what_is_marked(self) -> bool {
        &&& T::is_init() ==> self.content is Some
    }

    /// The content that the builder holds, if it was set.
    pub closed spec fn content_held(self) -> Option<Seq<Element>> {
        match self.content {
            Some(v) => Some(v@),
            None => None,
        }
    }

    /// The attributes that the builder holds.
    pub closed spec fn attrs(self) -> Seq<Attribute> {
        self.attr@
    }

    /// Set the content of the [`Multiscripts`] element.
    pub fn content(self, content: impl IntoElements) -> (b: MultiscriptsBuilder<Init>)
        ensures
            b.content_held() == Some(content.elements()),
            b.attrs() == self.attrs(),
    {
        proof {
            use_type_invariant(&self);
        }
        MultiscriptsBuilder {
            content: Some(content.into_elements()),
            attr: self.attr,
            _marker: PhantomData,
        }
    }

    /// Add attributes, behind those that the builder holds.
    pub fn attr(self, attr: impl IntoList<Attribute>) -> (b: Self)
        ensures
            b.content_held() == self.content_held(),
            b.attrs() == self.attrs() + attr.items(),
    {
        proof {
            use_type_invariant(&self);
        }
        let mut held = self.attr;
        let mut more = attr.into_list();
        held.append(&mut more);
        MultiscriptsBuilder {
            content: self.content,
            attr: held,
            _marker: PhantomData,
        }
    }
}

impl Default for MultiscriptsBuilder<Uninit> {
    fn default() -> (b: Self)
        ensures
            b.content_held() is None,
            b.attrs() == Seq::<Attribute>::empty(),
    {
        MultiscriptsBuilder { content: None, attr: Vec::new(), _marker: PhantomData }
    }
}

impl<T: Marker> Clone for MultiscriptsBuilder<T> {
    fn clone(&self) -> (b: Self)
        ensures
            same_held(self.content_held(), b.content_held()),
            b.attrs() == self.attrs(),
    {
        proof {
            use_type_invariant(self);
        }
        let content = match &self.content {
            Some(v) => Some(v.clone()),
            None => None,
        };
        let held = self.attr.clone();
        assert(held@ =~= self.attr@);
        MultiscriptsBuilder { content, attr: held, _marker: PhantomData }
    }
}

impl MultiscriptsBuilder<Init> {
    /// Build the [`Multiscripts`] element from what was set.
    pub fn build(self) -> (r: Multiscripts)
        ensures
            Some(r.content@) == self.content_held(),
            r.attributes@ == self.attrs(),
    {
        proof {
            use_type_invariant(&self);
        }
        Multiscripts {
            content: self.content.unwrap(),
            attributes: self.attr,
        }
    }
}

/// Presubscripts and tensor notations are represented by the `mmultiscripts` element. The
/// `mprescripts` element is used as a separator between the postscripts and the prescripts.
#[derive(Debug, PartialEq, Eq, PartialOrd, Ord)]
pub struct Prescripts {
    /// Accepts the global [`Attribute`]s.
    pub attr: Vec<Attribute>,
}

impl Clone for Prescripts {
    fn clone(&self) -> (r: Self)
        ensures
            r.attr@ == self.attr@,
    {
        let r = Prescripts {
            attr: self.attr.clone(),
        };
        assert(r.attr@ =~= self.attr@);
        r
    }
}

impl Default for Prescripts {
    fn default() -> (r: Self)
        ensures
            r.attr@ == Seq::<Attribute>::empty(),
    {
        Prescripts { attr: Vec::new() }
    }
}

impl Prescripts {
    /// Create the `mprescripts` element with the given attributes.
    pub fn with_attr(attr: impl IntoList<Attribute>) -> (r: Prescripts)
        ensures
            r.attr@ == attr.items(),
    {
        Prescripts { attr: attr.into_list() }
    }

    /// Get a reference to all attributes of the [`Prescripts`] element.
    pub fn attributes(&self) -> (r: &[Attribute])
        ensures
            r@ == self.attr@,
    {
        self.attr.as_slice()
    }
}

impl From<Prescripts> for Element {
    fn from(value: Prescripts) -> (r: Element) {
        Element::Prescripts(value)
    }
}

impl FromSpecImpl<Prescripts> for Element {
    open spec fn obeys_from_spec() -> bool {
        true
    }

    open spec fn from_spec(v: Prescripts) -> Element {
        Element::Prescripts(v)
    }
}

impl IntoElements for Prescripts {
    open spec fn elements(self) -> Seq<Element> {
        seq![Element::Prescripts(self)]
    }

    fn into_elements(self) -> (r: Elements) {
        Elements::one(Element::Prescripts(self))
    }
}

} // verus!
