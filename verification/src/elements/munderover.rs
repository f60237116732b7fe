//! The `munder`, `mover` and `munderover` elements.

use vstd::prelude::*;
use vstd::std_specs::convert::FromSpecImpl;
use crate::lists::IntoList;
use std::marker::PhantomData;
use crate::attributes::{Attribute, TagAttribute};
use crate::elements::{fills_slot, single_slot, Element, Elements, IntoElements};
use crate::markers::{Init, Marker, Uninit};
use crate::same::same_held;

verus! {

/// The `munderover` element accepts global attributes as well as `accent` and `accentunder`.
/// 
/// Similarly, the `mover` element (respectively `munder` element) accepts global attributes as
/// well as the `accent` attribute (respectively the `accentunder` attribute).
#[derive(Debug, PartialEq, Eq, PartialOrd, Ord)]
pub enum UnderOverAttr {
    /// Indicates whether the under script should be treated as an accent (i.e. drawn bigger and
    /// closer to the base expression).
    AccentUnder,
    /// Indicates whether the over script should be treated as an accent (i.e. drawn bigger and
    /// closer to the base expression).
    AccentOver,
    /// One of the global [`Attribute`]s.
    Global(Attribute),
}

impl Clone for UnderOverAttr {
    fn clone(&self) -> (r: Self)
        ensures
            r == *self,
    {
        match self {
            UnderOverAttr::AccentUnder => UnderOverAttr::AccentUnder,
            UnderOverAttr::AccentOver => UnderOverAttr::AccentOver,
            UnderOverAttr::Global(v) => UnderOverAttr::Global(v.clone()),
        }
    }
}

impl TagAttribute for UnderOverAttr {
    open spec fn markup(&self) -> Seq<char> {
        match *self {
            UnderOverAttr::AccentUnder => "accentunder=\"true\""@,
            UnderOverAttr::AccentOver => "accent=\"true\""@,
            UnderOverAttr::Global(a) => a.markup(),
        }
    }

    fn write_into(&self, buf: &mut String) {
        match self {
            UnderOverAttr::AccentUnder => buf.append("accentunder=\"true\""),
            UnderOverAttr::AccentOver => buf.append("accent=\"true\""),
            UnderOverAttr::Global(a) => a.write_into(buf),
        }
        assert(buf@ =~= old(buf)@ + self.markup());
    }
}

/// The scripts of [`UnderOver`]: one of the two, or both. There is no value without any.
#[derive(Debug, PartialEq, Eq, PartialOrd, Ord)]
pub enum UnderOverInner {
    /// The under script only.
    Under(Elements),
    /// The over script only.
    Over(Elements),
    /// Both.
    UnderOver {
        /// The under script.
        under: Elements,
        /// The over script.
        over: Elements,
    },
}

/// The munder, mover and munderover elements are used to attach accents or limits placed under or
/// over a MathML expression.
#[derive(Debug, PartialEq, Eq, PartialOrd, Ord)]
pub struct UnderOver {
    /// The expression that the scripts are attached to.
    pub expr: Elements,
    /// The scripts.
    pub inner: UnderOverInner,
    /// The attributes of the element.
    pub attributes: Vec<UnderOverAttr>,
}

impl From<UnderOver> for Element {
    fn from(value: UnderOver) -> (r: Element) {
        Element::UnderOver(value)
    }
}

impl FromSpecImpl<UnderOver> for Element {
    open spec fn obeys_from_spec() -> bool {
        true
    }

    open spec fn from_spec(v: UnderOver) -> Element {
        Element::UnderOver(v)
    }
}

impl IntoElements for UnderOver {
    open spec fn elements(self) -> Seq<Element> {
        seq![Element::UnderOver(self)]
    }

    fn into_elements(self) -> (r: Elements) {
        Elements::one(Element::UnderOver(self))
    }
}

impl UnderOver {
    /// The under script, if there is one.
    pub open spec fn under_elements(self) -> Option<Seq<Element>> {
        match self.inner {
            UnderOverInner::Under(v) => Some(v@),
            UnderOverInner::Over(_) => None,
            UnderOverInner::UnderOver { under, over } => Some(under@),
        }
    }

    /// The over script, if there is one.
    pub open spec fn over_elements(self) -> Option<Seq<Element>> {
        match self.inner {
            UnderOverInner::Under(_) => None,
            UnderOverInner::Over(v) => Some(v@),
            UnderOverInner::UnderOver { under, over } => Some(over@),
        }
    }

    /// The name of the element's tag: `munder` with a under script only,
    /// `mover` with a over script only, `munderover` with both.
    pub open spec fn tag(self) -> Seq<char> {
        match self.inner {
            UnderOverInner::Under(_) => "munder"@,
            UnderOverInner::Over(_) => "mover"@,
            UnderOverInner::UnderOver { .. } => "munderover"@,
        }
    }

    /// The name of the element's tag.
    pub fn tag_name(&self) -> (s: &'static str)
        ensures
            s@ == self.tag(),
    {
        match &self.inner {
            UnderOverInner::Under(_) => "munder",
            UnderOverInner::Over(_) => "mover",
            UnderOverInner::UnderOver { .. } => "munderover",
        }
    }

    /// Create a builder for [`UnderOver`] element.
    pub fn builder() -> (b: UnderOverBuilder<Uninit, Uninit>)
        ensures
            b.expr_held() is None,
            b.under_held() is None,
            b.over_held() is None,
            b.attrs() == Seq::<UnderOverAttr>::empty(),
    {
        UnderOverBuilder {
            expr: None,
            under: None,
            over: None,
            attr: Vec::new(),
            _marker: PhantomData,
        }
    }

    /// Get a reference to the expression of the [`UnderOver`] element.
    pub fn expr(&self) -> (r: &[Element])
        ensures
            r@ == self.expr@,
    {
        self.expr.as_slice()
    }

    /// Get a reference to the under script content of the [`UnderOver`] element if present.
    pub fn under(&self) -> (r: Option<&[Element]>)
        ensures
            match r {
                Some(s) => self.under_elements() == Some(s@),
                None => self.under_elements() is None,
            },
    {
        match &self.inner {
            UnderOverInner::Under(v) => Some(v.as_slice()),
            UnderOverInner::Over(_) => None,
            UnderOverInner::UnderOver { under, over } => Some(under.as_slice()),
        }
    }

    /// Get a reference to the over script content of the [`UnderOver`] element if present.
    pub fn over(&self) -> (r: Option<&[Element]>)
        ensures
            match r {
                Some(s) => self.over_elements() == Some(s@),
                None => self.over_elements() is None,
            },
    {
        match &self.inner {
            UnderOverInner::Under(_) => None,
            UnderOverInner::Over(v) => Some(v.as_slice()),
            UnderOverInner::UnderOver { under, over } => Some(over.as_slice()),
        }
    }

    /// Get a reference to all attributes of the [`UnderOver`] element.
    pub fn attributes(&self) -> (r: &[UnderOverAttr])
        ensures
            r@ == self.attributes@,
    {
        self.attributes.as_slice()
    }
}

/// Builder of the [`UnderOver`] element. Its first marker says whether the
/// expression has been set, its second whether at least one of the
/// under script and the over script has; only when both say so can the element
/// be built.
#[derive(Debug, PartialEq, Eq, PartialOrd, Ord)]
pub struct UnderOverBuilder<T1: Marker, T2: Marker> {
    expr: Option<Elements>,
    under: Option<Elements>,
    over: Option<Elements>,
    attr: Vec<UnderOverAttr>,
    _marker: PhantomData<(T1, T2)>,
}

impl<T1: Marker, T2: Marker> UnderOverBuilder<T1, T2> {
    #[verifier::type_invariant]
    spec fn holds_what_is_marked(self) -> bool {
        &&& T1::is_init() ==> self.expr is Some
        &&& T2::is_init() ==> self.under is Some || self.over is Some
    }

    /// The expression that the builder holds, if it was set.
    pub closed spec fn expr_held(self) -> Option<Seq<Element>> {
        match self.expr {
            Some(v) => Some(v@),
            None => None,
        }
    }

    /// The under script that the builder holds, if it was set.
    pub closed spec fn under_held(self) -> Option<Seq<Element>> {
        match self.under {
            Some(v) => Some(v@),
            None => None,
        }
    }

    /// The over script that the builder holds, if it was set.
    pub closed spec fn over_held(self) -> Option<Seq<Element>> {
        match self.over {
            Some(v) => Some(v@),
            None => None,
        }
    }

    /// The attributes that the builder holds.
    pub closed spec fn attrs(self) -> Seq<UnderOverAttr> {
        self.attr@
    }

    /// Set the expression of the [`UnderOver`] element. More than one element is
    /// wrapped in a row.
    pub fn expr(self, expr: impl IntoElements) -> (b: UnderOverBuilder<Init, T2>)
        ensures
            b.expr_held() is Some,
            fills_slot(b.expr_held().unwrap(), expr.elements()),
            b.under_held() == self.under_held(),
            b.over_held() == self.over_held(),
            b.attrs() == self.attrs(),
    {
        proof {
            use_type_invariant(&self);
        }
        UnderOverBuilder {
            expr: Some(single_slot(expr.into_elements())),
            under: self.under,
            over: self.over,
            attr: self.attr,
            _marker: PhantomData,
        }
    }

    /// Set the under script of the [`UnderOver`] element. More than one element is
    /// wrapped in a row.
    pub fn under(self, under: impl IntoElements) -> (b: UnderOverBuilder<T1, Init>)
        ensures
            b.under_held() is Some,
            fills_slot(b.under_held().unwrap(), under.elements()),
            b.expr_held() == self.expr_held(),
            b.over_held() == self.over_held(),
            b.attrs() == self.attrs(),
    {
        proof {
            use_type_invariant(&self);
        }
        UnderOverBuilder {
            expr: self.expr,
            under: Some(single_slot(under.into_elements())),
            over: self.over,
            attr: self.attr,
            _marker: PhantomData,
        }
    }

    /// Set the over script of the [`UnderOver`] element. More than one element is
    /// wrapped in a row.
    pub fn over(self, over: impl IntoElements) -> (b: UnderOverBuilder<T1, Init>)
        ensures
            b.over_held() is Some,
            fills_slot(b.over_held().unwrap(), over.elements()),
            b.expr_held() == self.expr_held(),
            b.under_held() == self.under_held(),
            b.attrs() == self.attrs(),
    {
        proof {
            use_type_invariant(&self);
        }
        UnderOverBuilder {
            expr: self.expr,
            under: self.under,
            over: Some(single_slot(over.into_elements())),
            attr: self.attr,
            _marker: PhantomData,
        }
    }

    /// Add attributes, behind those that the builder holds.
    pub fn attr(self, attr: impl IntoList<UnderOverAttr>) -> (b: Self)
        ensures
            b.expr_held() == self.expr_held(),
            b.under_held() == self.under_held(),
            b.over_held() == self.over_held(),
            b.attrs() == self.attrs() + attr.items(),
    {
        proof {
            use_type_invariant(&self);
        }
        let mut held = self.attr;
        let mut more = attr.into_list();
        held.append(&mut more);
        UnderOverBuilder {
            expr: self.expr,
            under: self.under,
            over: self.over,
            attr: held,
            _marker: PhantomData,
        }
    }
}

impl Default for UnderOverBuilder<Uninit, Uninit> {
    fn default() -> (b: Self)
        ensures
            b.expr_held() is None,
            b.under_held() is None,
            b.over_held() is None,
            b.attrs() == Seq::<UnderOverAttr>::empty(),
    {
        UnderOverBuilder {
            expr: None,
            under: None,
            over: None,
            attr: Vec::new(),
            _marker: PhantomData,
        }
    }
}

impl<T1: Marker, T2: Marker> Clone for UnderOverBuilder<T1, T2> {
    fn clone(&self) -> (b: Self)
        ensures
            same_held(self.expr_held(), b.expr_held()),
            same_held(self.under_held(), b.under_held()),
            same_held(self.over_held(), b.over_held()),
            b.attrs() == self.attrs(),
    {
        proof {
            use_type_invariant(self);
        }
        let expr = match &self.expr {
            Some(v) => Some(v.clone()),
            None => None,
        };
        let under = match &self.under {
            Some(v) => Some(v.clone()),
            None => None,
        };
        let over = match &self.over {
            Some(v) => Some(v.clone()),
            None => None,
        };
        let held = self.attr.clone();
        assert(held@ =~= self.attr@);
        UnderOverBuilder { expr, under, over, attr: held, _marker: PhantomData }
    }
}

impl UnderOverBuilder<Init, Init> {
    /// Build the [`UnderOver`] element from what was set: with the under script, the
    /// over script or both, as they were set.
    pub fn build(self) -> (r: UnderOver)
        ensures
            Some(r.expr@) == self.expr_held(),
            r.under_elements() == self.under_held(),
            r.over_elements() == self.over_held(),
            r.attributes@ == self.attrs(),
    {
        proof {
            use_type_invariant(&self);
        }
        let inner = match self.under {
            Some(under) => match self.over {
                Some(over) => UnderOverInner::UnderOver { under, over },
                None => UnderOverInner::Under(under),
            },
            None => UnderOverInner::Over(self.over.unwrap()),
        };
        UnderOver { expr: self.expr.unwrap(), inner, attributes: self.attr }
    }
}

} // verus!
