//! The `msub`, `msup` and `msubsup` elements.

use vstd::prelude::*;
use vstd::std_specs::convert::FromSpecImpl;
use crate::lists::IntoList;
use std::marker::PhantomData;
use crate::attributes::Attribute;
use crate::elements::{fills_slot, single_slot, Element, Elements, IntoElements};
use crate::markers::{Init, Marker, Uninit};
use crate::same::same_held;

verus! {

/// The scripts of [`SubSup`]: one of the two, or both. There is no value without any.
#[derive(Debug, PartialEq, Eq, PartialOrd, Ord)]
pub enum SubSupInner {
    /// The subscript only.
    Sub(Elements),
    /// The superscript only.
    Sup(Elements),
    /// Both.
    SubSup {
        /// The subscript.
        sub: Elements,
        /// The superscript.
        sup: Elements,
    },
}

/// The `msub`, `msup` and `msubsup` elements are used to attach subscript and superscript to a
/// MathML expression. They accept the global [`Attribute`]s.
#[derive(Debug, PartialEq, Eq, PartialOrd, Ord)]
pub struct SubSup {
    /// The base that the scripts are attached to.
    pub base: Elements,
    /// The scripts.
    pub inner: SubSupInner,
    /// The attributes of the element.
    pub attributes: Vec<Attribute>,
}

impl From<SubSup> for Element {
    fn from(value: SubSup) -> (r: Element) {
        Element::SubSup(value)
    }
}

impl FromSpecImpl<SubSup> for Element {
    open spec fn obeys_from_spec() -> bool {
        true
    }

    open spec fn from_spec(v: SubSup) -> Element {
        Element::SubSup(v)
    }
}

impl IntoElements for SubSup {
    open spec fn elements(self) -> Seq<Element> {
        seq![Element::SubSup(self)]
    }

    fn into_elements(self) -> (r: Elements) {
        Elements::one(Element::SubSup(self))
    }
}

impl SubSup {
    /// The subscript, if there is one.
    pub open spec fn sub_elements(self) -> Option<Seq<Element>> {
        match self.inner {
            SubSupInner::Sub(v) => Some(v@),
            SubSupInner::Sup(_) => None,
            SubSupInner::SubSup { sub, sup } => Some(sub@),
        }
    }

    /// The superscript, if there is one.
    pub open spec fn sup_elements(self) -> Option<Seq<Element>> {
        match self.inner {
            SubSupInner::Sub(_) => None,
            SubSupInner::Sup(v) => Some(v@),
            SubSupInner::SubSup { sub, sup } => Some(sup@),
        }
    }

    /// The name of the element's tag: `msub` with a subscript only,
    /// `msup` with a superscript only, `msubsup` with both.
    pub open spec fn tag(self) -> Seq<char> {
        match self.inner {
            SubSupInner::Sub(_) => "msub"@,
            SubSupInner::Sup(_) => "msup"@,
            SubSupInner::SubSup { .. } => "msubsup"@,
        }
    }

    /// The name of the element's tag.
    pub fn tag_name(&self) -> (s: &'static str)
        ensures
            s@ == self.tag(),
    {
        match &self.inner {
            SubSupInner::Sub(_) => "msub",
            SubSupInner::Sup(_) => "msup",
            SubSupInner::SubSup { .. } => "msubsup",
        }
    }

    /// Create a builder for [`SubSup`] element.
    pub fn builder() -> (b: SubSupBuilder<Uninit, Uninit>)
        ensures
            b.base_held() is None,
            b.sub_held() is None,
            b.sup_held() is None,
            b.attrs() == Seq::<Attribute>::empty(),
    {
        SubSupBuilder { base: None, sub: None, sup: None, attr: Vec::new(), _marker: PhantomData }
    }

    /// Get a reference to the base of the [`SubSup`] element.
    pub fn base(&self) -> (r: &[Element])
        ensures
            r@ == self.base@,
    {
        self.base.as_slice()
    }

    /// Get a reference to the subscript content of the [`SubSup`] element if present.
    pub fn sub(&self) -> (r: Option<&[Element]>)
        ensures
            match r {
                Some(s) => self.sub_elements() == Some(s@),
                None => self.sub_elements() is None,
            },
    {
        match &self.inner {
            SubSupInner::Sub(v) => Some(v.as_slice()),
            SubSupInner::Sup(_) => None,
            SubSupInner::SubSup { sub, sup } => Some(sub.as_slice()),
        }
    }

    /// Get a reference to the superscript content of the [`SubSup`] element if present.
    pub fn sup(&self) -> (r: Option<&[Element]>)
        ensures
            match r {
                Some(s) => self.sup_elements() == Some(s@),
                None => self.sup_elements() is None,
            },
    {
        match &self.inner {
            SubSupInner::Sub(_) => None,
            SubSupInner::Sup(v) => Some(v.as_slice()),
            SubSupInner::SubSup { sub, sup } => Some(sup.as_slice()),
        }
    }

    /// Get a reference to all attributes of the [`SubSup`] element.
    pub fn attributes(&self) -> (r: &[Attribute])
        ensures
            r@ == self.attributes@,
    {
        self.attributes.as_slice()
    }
}

/// Builder of the [`SubSup`] element. Its first marker says whether the
/// base has been set, its second whether at least one of the
/// subscript and the superscript has; only when both say so can the element
/// be built.
#[derive(Debug, PartialEq, Eq, PartialOrd, Ord)]
pub struct SubSupBuilder<T1: Marker, T2: Marker> {
    base: Option<Elements>,
    sub: Option<Elements>,
    sup: Option<Elements>,
    attr: Vec<Attribute>,
    _marker: PhantomData<(T1, T2)>,
}

impl<T1: Marker, T2: Marker> SubSupBuilder<T1, T2> {
    #[verifier::type_invariant]
    spec fn holds_what_is_marked(self) -> bool {
        &&& T1::is_init() ==> self.base is Some
        &&& T2::is_init() ==> self.sub is Some || self.sup is Some
    }

    /// The base that the builder holds, if it was set.
    pub closed spec fn base_held(self) -> Option<Seq<Element>> {
        match self.base {
            Some(v) => Some(v@),
            None => None,
        }
    }

    /// The subscript that the builder holds, if it was set.
    pub closed spec fn sub_held(self) -> Option<Seq<Element>> {
        match self.sub {
            Some(v) => Some(v@),
            None => None,
        }
    }

    /// The superscript that the builder holds, if it was set.
    pub closed spec fn sup_held(self) -> Option<Seq<Element>> {
        match self.sup {
            Some(v) => Some(v@),
            None => None,
        }
    }

    /// The attributes that the builder holds.
    pub closed spec fn attrs(self) -> Seq<Attribute> {
        self.attr@
    }

    /// Set the base of the [`SubSup`] element. More than one element is
    /// wrapped in a row.
    pub fn base(self, base: impl IntoElements) -> (b: SubSupBuilder<Init, T2>)
        ensures
            b.base_held() is Some,
            fills_slot(b.base_held().unwrap(), base.elements()),
            b.sub_held() == self.sub_held(),
            b.sup_held() == self.sup_held(),
            b.attrs() == self.attrs(),
    {
        proof {
            use_type_invariant(&self);
        }
        SubSupBuilder {
            base: Some(single_slot(base.into_elements())),
            sub: self.sub,
            sup: self.sup,
            attr: self.attr,
            _marker: PhantomData,
        }
    }

    /// Set the subscript of the [`SubSup`] element. More than one element is
    /// wrapped in a row.
    pub fn subscript(self, sub: impl IntoElements) -> (b: SubSupBuilder<T1, Init>)
        ensures
            b.sub_held() is Some,
            fills_slot(b.sub_held().unwrap(), sub.elements()),
            b.base_held() == self.base_held(),
            b.sup_held() == self.sup_held(),
            b.attrs() == self.attrs(),
    {
        proof {
            use_type_invariant(&self);
        }
        SubSupBuilder {
            base: self.base,
            sub: Some(single_slot(sub.into_elements())),
            sup: self.sup,
            attr: self.attr,
            _marker: PhantomData,
        }
    }

    /// Set the superscript of the [`SubSup`] element. More than one element is
    /// wrapped in a row.
    pub fn supscript(self, sup: impl IntoElements) -> (b: SubSupBuilder<T1, Init>)
        ensures
            b.sup_held() is Some,
            fills_slot(b.sup_held().unwrap(), sup.elements()),
            b.base_held() == self.base_held(),
            b.sub_held() == self.sub_held(),
            b.attrs() == self.attrs(),
    {
        proof {
            use_type_invariant(&self);
        }
        SubSupBuilder {
            base: self.base,
            sub: self.sub,
            sup: Some(single_slot(sup.into_elements())),
            attr: self.attr,
            _marker: PhantomData,
        }
    }

    /// Add attributes, behind those that the builder holds.
    pub fn attr(self, attr: impl IntoList<Attribute>) -> (b: Self)
        ensures
            b.base_held() == self.base_held(),
            b.sub_held() == self.sub_held(),
            b.sup_held() == self.sup_held(),
            b.attrs() == self.attrs() + attr.items(),
    {
        proof {
            use_type_invariant(&self);
        }
        let mut held = self.attr;
        let mut more = attr.into_list();
        held.append(&mut more);
        SubSupBuilder {
            base: self.base,
            sub: self.sub,
            sup: self.sup,
            attr: held,
            _marker: PhantomData,
        }
    }
}

impl Default for SubSupBuilder<Uninit, Uninit> {
    fn default() -> (b: Self)
        ensures
            b.base_held() is None,
            b.sub_held() is None,
            b.sup_held() is None,
            b.attrs() == Seq::<Attribute>::empty(),
    {
        SubSupBuilder { base: None, sub: None, sup: None, attr: Vec::new(), _marker: PhantomData }
    }
}

impl<T1: Marker, T2: Marker> Clone for SubSupBuilder<T1, T2> {
    fn clone(&self) -> (b: Self)
        ensures
            same_held(self.base_held(), b.base_held()),
            same_held(self.sub_held(), b.sub_held()),
            same_held(self.sup_held(), b.sup_held()),
            b.attrs() == self.attrs(),
    {
        proof {
            use_type_invariant(self);
        }
        let base = match &self.base {
            Some(v) => Some(v.clone()),
            None => None,
        };
        let sub = match &self.sub {
            Some(v) => Some(v.clone()),
            None => None,
        };
        let sup = match &self.sup {
            Some(v) => Some(v.clone()),
            None => None,
        };
        let held = self.attr.clone();
        assert(held@ =~= self.attr@);
        SubSupBuilder { base, sub, sup, attr: held, _marker: PhantomData }
    }
}

impl SubSupBuilder<Init, Init> {
    /// Build the [`SubSup`] element from what was set: with the subscript, the
    /// superscript or both, as they were set.
    pub fn build(self) -> (r: SubSup)
        ensures
            Some(r.base@) == self.base_held(),
            r.sub_elements() == self.sub_held(),
            r.sup_elements() == self.sup_held(),
            r.attributes@ == self.attrs(),
    {
        proof {
            use_type_invariant(&self);
        }
        let inner = match self.sub {
            Some(sub) => match self.sup {
                Some(sup) => SubSupInner::SubSup { sub, sup },
                None => SubSupInner::Sub(sub),
            },
            None => SubSupInner::Sup(self.sup.unwrap()),
        };
        SubSup { base: self.base.unwrap(), inner, attributes: self.attr }
    }
}

} // verus!
