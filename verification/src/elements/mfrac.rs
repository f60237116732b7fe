//! The `mfrac` element.

use vstd::prelude::*;
use vstd::std_specs::convert::FromSpecImpl;
use crate::lists::IntoList;
use std::marker::PhantomData;
use crate::attributes::{push_quoted, Attribute, TagAttribute};
use crate::elements::{fills_slot, single_slot, Element, Elements, IntoElements};
use crate::markers::{Init, Marker, Uninit};
use crate::same::same_held;

verus! {

/// An attribute of `mfrac` element. Either one of the global [`Attribute`]s, or `linethickness`
/// attribute.
#[derive(Debug, PartialEq, Eq, PartialOrd, Ord)]
pub enum FracAttr {
    /// Global attribute.
    Global(Attribute),
    /// The `linethickness` attribute indicates the fraction line thickness to use for the fraction
    /// bar. It must have a value that is a valid length-percentage.
    LineThickness(String),
}

impl Clone for FracAttr {
    fn clone(&self) -> (r: Self)
        ensures
            r == *self,
    {
        match self {
            FracAttr::Global(v) => FracAttr::Global(v.clone()),
            FracAttr::LineThickness(v) => FracAttr::LineThickness(v.clone()),
        }
    }
}

impl TagAttribute for FracAttr {
    open spec fn markup(&self) -> Seq<char> {
        match *self {
            FracAttr::Global(a) => a.markup(),
            FracAttr::LineThickness(v) => "linethickness=\""@ + v@ + "\""@,
        }
    }

    fn write_into(&self, buf: &mut String) {
        match self {
            FracAttr::Global(a) => a.write_into(buf),
            FracAttr::LineThickness(v) => push_quoted(buf, "linethickness=\"", v.as_str()),
        }
        assert(buf@ =~= old(buf)@ + self.markup());
    }
}

/// The `mfrac` element is used for fractions: a numerator over a denominator.
#[derive(Debug, PartialEq, Eq, PartialOrd, Ord)]
pub struct Frac {
    /// The numerator.
    pub num: Elements,
    /// The denominator.
    pub denom: Elements,
    /// The attributes of the `mfrac` element.
    pub attributes: Vec<FracAttr>,
}

impl Frac {
    /// Create a builder for [`Frac`] element.
    pub fn builder() -> (b: FracBuilder<Uninit, Uninit>)
        ensures
            b.num_held() is None,
            b.denom_held() is None,
            b.attrs() == Seq::<FracAttr>::empty(),
    {
        FracBuilder { num: None, denom: None, attr: Vec::new(), _marker: PhantomData }
    }

    /// Get a reference to the content of the numerator.
    pub fn num(&self) -> (r: &[Element])
        ensures
            r@ == self.num@,
    {
        self.num.as_slice()
    }

    /// Get a reference to the content of the denominator.
    pub fn denom(&self) -> (r: &[Element])
        ensures
            r@ == self.denom@,
    {
        self.denom.as_slice()
    }

    /// Get a reference to all attributes of the [`Frac`] element.
    pub fn attributes(&self) -> (r: &[FracAttr])
        ensures
            r@ == self.attributes@,
    {
        self.attributes.as_slice()
    }
}

impl<N: IntoElements, D: IntoElements> From<(N, D)> for Frac {
    fn from(value: (N, D)) -> (r: Frac)
        ensures
            r.num@ == value.0.elements(),
            r.denom@ == value.1.elements(),
            r.attributes@ == Seq::<FracAttr>::empty(),
    {
        let (num, denom) = value;
        Frac { num: num.into_elements(), denom: denom.into_elements(), attributes: Vec::new() }
    }
}

/// No expression of a specification builds a vector, so none gives the value
/// that `from` returns: what it returns is stated in its `ensures`.
impl<N: IntoElements, D: IntoElements> FromSpecImpl<(N, D)> for Frac {
    open spec fn obeys_from_spec() -> bool {
        false
    }

    open spec fn from_spec(v: (N, D)) -> Frac {
        arbitrary()
    }
}

impl From<Frac> for Element {
    fn from(value: Frac) -> (r: Element) {
        Element::Frac(value)
    }
}

impl FromSpecImpl<Frac> for Element {
    open spec fn obeys_from_spec() -> bool {
        true
    }

    open spec fn from_spec(v: Frac) -> Element {
        Element::Frac(v)
    }
}

impl IntoElements for Frac {
    open spec fn elements(self) -> Seq<Element> {
        seq![Element::Frac(self)]
    }

    fn into_elements(self) -> (r: Elements) {
        Elements::one(Element::Frac(self))
    }
}

/// Builder of the [`Frac`] element. Its type says which of the values that
/// the element needs have been set; only when all are set can the element be
/// built.
#[derive(Debug, PartialEq, Eq, PartialOrd, Ord)]
pub struct FracBuilder<N: Marker, D: Marker> {
    num: Option<Elements>,
    denom: Option<Elements>,
    attr: Vec<FracAttr>,
    _marker: PhantomData<(N, D)>,
}

impl<N: Marker, D: Marker> FracBuilder<N, D> {
    #[verifier::type_invariant]
    spec fn holds_what_is_marked(self) -> bool {
        &&& N::is_init() ==> self.num is Some
        &&& D::is_init() ==> self.denom is Some
    }

    /// The numerator that the builder holds, if it was set.
    pub closed spec fn num_held(self) -> Option<Seq<Element>> {
        match self.num {
            Some(v) => Some(v@),
            None => None,
        }
    }

    /// The denominator that the builder holds, if it was set.
    pub closed spec fn denom_held(self) -> Option<Seq<Element>> {
        match self.denom {
            Some(v) => Some(v@),
            None => None,
        }
    }

    /// The attributes that the builder holds.
    pub closed spec fn attrs(self) -> Seq<FracAttr> {
        self.attr@
    }

    /// Add or overwrite the numerator of the `mfrac` element. More than one element is
    /// wrapped in a row.
    pub fn num(self, num: impl IntoElements) -> (b: FracBuilder<Init, D>)
        ensures
            b.num_held() is Some,
            fills_slot(b.num_held().unwrap(), num.elements()),
            b.denom_held() == self.denom_held(),
            b.attrs() == self.attrs(),
    {
        proof {
            use_type_invariant(&self);
        }
        FracBuilder {
            num: Some(single_slot(num.into_elements())),
            denom: self.denom,
            attr: self.attr,
            _marker: PhantomData,
        }
    }

    /// Add or overwrite the denominator of the `mfrac` element. More than one element is
    /// wrapped in a row.
    pub fn denom(self, denom: impl IntoElements) -> (b: FracBuilder<N, Init>)
        ensures
            b.denom_held() is Some,
            fills_slot(b.denom_held().unwrap(), denom.elements()),
            b.num_held() == self.num_held(),
            b.attrs() == self.attrs(),
    {
        proof {
            use_type_invariant(&self);
        }
        FracBuilder {
            num: self.num,
            denom: Some(single_slot(denom.into_elements())),
            attr: self.attr,
            _marker: PhantomData,
        }
    }

    /// Add attributes, behind those that the builder holds.
    pub fn attr(self, attr: impl IntoList<FracAttr>) -> (b: Self)
        ensures
            b.num_held() == self.num_held(),
            b.denom_held() == self.denom_held(),
            b.attrs() == self.attrs() + attr.items(),
    {
        proof {
            use_type_invariant(&self);
        }
        let mut held = self.attr;
        let mut more = attr.into_list();
        held.append(&mut more);
        FracBuilder {
            num: self.num,
            denom: self.denom,
            attr: held,
            _marker: PhantomData,
        }
    }
}

impl Default for FracBuilder<Uninit, Uninit> {
    fn default() -> (b: Self)
        ensures
            b.num_held() is None,
            b.denom_held() is None,
            b.attrs() == Seq::<FracAttr>::empty(),
    {
        FracBuilder { num: None, denom: None, attr: Vec::new(), _marker: PhantomData }
    }
}

impl<N: Marker, D: Marker> Clone for FracBuilder<N, D> {
    fn clone(&self) -> (b: Self)
        ensures
            same_held(self.num_held(), b.num_held()),
            same_held(self.denom_held(), b.denom_held()),
            b.attrs() == self.attrs(),
    {
        proof {
            use_type_invariant(self);
        }
        let num = match &self.num {
            Some(v) => Some(v.clone()),
            None => None,
        };
        let denom = match &self.denom {
            Some(v) => Some(v.clone()),
            None => None,
        };
        let held = self.attr.clone();
        assert(held@ =~= self.attr@);
        FracBuilder { num, denom, attr: held, _marker: PhantomData }
    }
}

impl FracBuilder<Init, Init> {
    /// Build the [`Frac`] element from what was set.
    pub fn build(self) -> (r: Frac)
        ensures
            Some(r.num@) == self.num_held(),
            Some(r.denom@) == self.denom_held(),
            r.attributes@ == self.attrs(),
    {
        proof {
            use_type_invariant(&self);
        }
        Frac {
            num: self.num.unwrap(),
            denom: self.denom.unwrap(),
            attributes: self.attr,
        }
    }
}

} // verus!
