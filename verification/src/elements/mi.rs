//! The `mi` element.

use vstd::prelude::*;
use vstd::std_specs::convert::FromSpecImpl;
use crate::lists::IntoList;
use std::marker::PhantomData;
use crate::attributes::Attribute;
use crate::elements::{Element, Elements, IntoElements};
use crate::markers::{Init, Marker, Uninit};

mod dict;

verus! {

/// The `mi` (`Ident`) element represents a symbolic name or arbitrary text that should be rendered
/// as an identifier. Identifiers can include variables, function names, and symbolic constants.
#[derive(Debug, PartialEq, Eq, PartialOrd, Ord)]
pub struct Ident {
    /// The identifier's text.
    pub ident: String,
    /// The `mi` element accepts the global [`Attribute`]s.
    pub attributes: Vec<Attribute>,
}

impl Clone for Ident {
    fn clone(&self) -> (r: Self)
        ensures
            r.ident == self.ident,
            r.attributes@ == self.attributes@,
    {
        let r = Ident {
            ident: self.ident.clone(),
            attributes: self.attributes.clone(),
        };
        assert(r.attributes@ =~= self.attributes@);
        r
    }
}

impl Ident {
    /// Create a builder for [`Ident`] element.
    pub fn builder() -> (b: IdentBuilder<Uninit>)
        ensures
            b.ident_held() is None,
            b.attrs() == Seq::<Attribute>::empty(),
    {
        IdentBuilder { ident: None, attributes: Vec::new(), _marker: PhantomData }
    }

    /// Get a reference to the inner content of the [`Ident`] element.
    pub fn ident(&self) -> (r: &str)
        ensures
            r@ == self.ident@,
    {
        self.ident.as_str()
    }

    /// Get a reference to all attributes of the [`Ident`] element.
    pub fn attributes(&self) -> (r: &[Attribute])
        ensures
            r@ == self.attributes@,
    {
        self.attributes.as_slice()
    }
}

impl From<&str> for Ident {
    fn from(value: &str) -> (r: Ident)
        ensures
            r.ident@ == value@,
            r.attributes@ == Seq::<Attribute>::empty(),
    {
        Ident { ident: String::from_str(value), attributes: Vec::new() }
    }
}

/// No expression of a specification builds a vector, so none gives the value
/// that `from` returns: what it returns is stated in its `ensures`.
impl FromSpecImpl<&str> for Ident {
    open spec fn obeys_from_spec() -> bool {
        false
    }

    open spec fn from_spec(v: &str) -> Ident {
        arbitrary()
    }
}

impl From<String> for Ident {
    fn from(value: String) -> (r: Ident)
        ensures
            r.ident == value,
            r.attributes@ == Seq::<Attribute>::empty(),
    {
        Ident { ident: value, attributes: Vec::new() }
    }
}

/// No expression of a specification builds a vector, so none gives the value
/// that `from` returns: what it returns is stated in its `ensures`.
impl FromSpecImpl<String> for Ident {
    open spec fn obeys_from_spec() -> bool {
        false
    }

    open spec fn from_spec(v: String) -> Ident {
        arbitrary()
    }
}

impl From<Ident> for Element {
    fn from(value: Ident) -> (r: Element) {
        Element::Ident(value)
    }
}

impl FromSpecImpl<Ident> for Element {
    open spec fn obeys_from_spec() -> bool {
        true
    }

    open spec fn from_spec(v: Ident) -> Element {
        Element::Ident(v)
    }
}

impl IntoElements for Ident {
    open spec fn elements(self) -> Seq<Element> {
        seq![Element::Ident(self)]
    }

    fn into_elements(self) -> (r: Elements) {
        Elements::one(Element::Ident(self))
    }
}

/// Builder of the [`Ident`] element. Its type says which of the values that
/// the element needs have been set; only when all are set can the element be
/// built.
#[derive(Debug, PartialEq, Eq, PartialOrd, Ord)]
pub struct IdentBuilder<T: Marker> {
    ident: Option<String>,
    attributes: Vec<Attribute>,
    _marker: PhantomData<(T,)>,
}

impl<T: Marker> IdentBuilder<T> {
    #[verifier::type_invariant]
    spec fn holds_what_is_marked(self) -> bool {
        &&& T::is_init() ==> self.ident is Some
    }

    /// The identifier that the builder holds, if it was set.
    pub closed spec fn ident_held(self) -> Option<Seq<char>> {
        match self.ident {
            Some(v) => Some(v@),
            None => None,
        }
    }

    /// The attributes that the builder holds.
    pub closed spec fn attrs(self) -> Seq<Attribute> {
        self.attributes@
    }

    /// Set the identifier string for the [`Ident`] element.
    pub fn ident(self, ident: &str) -> (b: IdentBuilder<Init>)
        ensures
            b.ident_held() == Some(ident@),
            b.attrs() == self.attrs(),
    {
        proof {
            use_type_invariant(&self);
        }
        IdentBuilder {
            ident: Some(String::from_str(ident)),
            attributes: self.attributes,
            _marker: PhantomData,
        }
    }

    /// Add attributes, behind those that the builder holds.
    pub fn attr(self, attr: impl IntoList<Attribute>) -> (b: Self)
        ensures
            b.ident_held() == self.ident_held(),
            b.attrs() == self.attrs() + attr.items(),
    {
        proof {
            use_type_invariant(&self);
        }
        let mut held = self.attributes;
        let mut more = attr.into_list();
        held.append(&mut more);
        IdentBuilder {
            ident: self.ident,
            attributes: held,
            _marker: PhantomData,
        }
    }
}

impl Default for IdentBuilder<Uninit> {
    fn default() -> (b: Self)
        ensures
            b.ident_held() is None,
            b.attrs() == Seq::<Attribute>::empty(),
    {
        IdentBuilder { ident: None, attributes: Vec::new(), _marker: PhantomData }
    }
}

impl<T: Marker> Clone for IdentBuilder<T> {
    fn clone(&self) -> (b: Self)
        ensures
            b.ident_held() == self.ident_held(),
            b.attrs() == self.attrs(),
    {
        proof {
            use_type_invariant(self);
        }
        let ident = match &self.ident {
            Some(v) => Some(v.clone()),
            None => None,
        };
        let held = self.attributes.clone();
        assert(held@ =~= self.attributes@);
        IdentBuilder { ident, attributes: held, _marker: PhantomData }
    }
}

impl IdentBuilder<Init> {
    /// Build the [`Ident`] element from what was set.
    pub fn build(self) -> (r: Ident)
        ensures
            Some(r.ident@) == self.ident_held(),
            r.attributes@ == self.attrs(),
    {
        proof {
            use_type_invariant(&self);
        }
        Ident {
            ident: self.ident.unwrap(),
            attributes: self.attributes,
        }
    }
}

} // verus!
