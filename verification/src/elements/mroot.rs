//! The `mroot` and `msqrt` elements.

use vstd::prelude::*;
use vstd::std_specs::convert::FromSpecImpl;
use crate::lists::IntoList;
use std::marker::PhantomData;
use crate::attributes::Attribute;
use crate::elements::{fills_slot, single_slot, Element, Elements, IntoElements};
use crate::markers::{Init, Marker, Uninit};
use crate::numeral::{denotes_two, is_two};
use crate::same::same_held;

verus! {

/// The radical elements construct an expression with a root symbol and a line over the content.
/// The `msqrt` element is used for square roots, while the `mroot` element is used to draw radicals
/// with indices, e.g. a cube root.
///
/// The `msqrt` and `mroot` elements accept the global [`Attribute`]s.
#[derive(Debug, PartialEq, Eq, PartialOrd, Ord)]
pub struct Radical {
    /// The index of the radical, e.g. the 3 of a cube root.
    pub index: Elements,
    /// What stands under the radical.
    pub content: Elements,
    /// The attributes of the element.
    pub attributes: Vec<Attribute>,
}

impl Radical {
    /// Whether the radical is a square root: its index is a single `mn`
    /// element whose text is a numeral for the number two.
    pub open spec fn square(self) -> bool {
        &&& self.index@.len() == 1
        &&& self.index@[0] is Num
        &&& denotes_two(self.index@[0]->Num_0.num@)
    }

    /// Create a builder for [`Radical`] element.
    pub fn builder() -> (b: RadicalsBuilder<Uninit, Uninit>)
        ensures
            b.index_held() is None,
            b.content_held() is None,
            b.attrs() == Seq::<Attribute>::empty(),
    {
        RadicalsBuilder { index: None, content: None, attr: Vec::new(), _marker: PhantomData }
    }

    /// Get a reference to the index of the radical. e.g. "2" for the square root.
    pub fn index(&self) -> (r: &Elements)
        ensures
            *r == self.index,
    {
        &self.index
    }

    /// Check if the radical is a square root.
    pub fn is_square(&self) -> (r: bool)
        ensures
            r == self.square(),
    {
        if self.index.len() != 1 {
            return false;
        }
        match &self.index.0[0] {
            Element::Num(num) => is_two(num.num.as_str()),
            _ => false,
        }
    }

    /// Get a reference to the inner content of the [`Radical`] element.
    pub fn content(&self) -> (r: &[Element])
        ensures
            r@ == self.content@,
    {
        self.content.as_slice()
    }

    /// Get a reference to all attributes of the [`Radical`] element.
    pub fn attributes(&self) -> (r: &[Attribute])
        ensures
            r@ == self.attributes@,
    {
        self.attributes.as_slice()
    }
}

impl From<Radical> for Element {
    fn from(value: Radical) -> (r: Element) {
        Element::Radical(value)
    }
}

impl FromSpecImpl<Radical> for Element {
    open spec fn obeys_from_spec() -> bool {
        true
    }

    open spec fn from_spec(v: Radical) -> Element {
        Element::Radical(v)
    }
}

impl IntoElements for Radical {
    open spec fn elements(self) -> Seq<Element> {
        seq![Element::Radical(self)]
    }

    fn into_elements(self) -> (r: Elements) {
        Elements::one(Element::Radical(self))
    }
}

/// Builder of the [`Radical`] element. Its type says which of the values that
/// the element needs have been set; only when all are set can the element be
/// built.
#[derive(Debug, PartialEq, Eq, PartialOrd, Ord)]
pub struct RadicalsBuilder<T1: Marker, T2: Marker> {
    index: Option<Elements>,
    content: Option<Elements>,
    attr: Vec<Attribute>,
    _marker: PhantomData<(T1, T2)>,
}

impl<T1: Marker, T2: Marker> RadicalsBuilder<T1, T2> {
    #[verifier::type_invariant]
    spec fn holds_what_is_marked(self) -> bool {
        &&& T1::is_init() ==> self.index is Some
        &&& T2::is_init() ==> self.content is Some
    }

    /// The index that the builder holds, if it was set.
    pub closed spec fn index_held(self) -> Option<Seq<Element>> {
        match self.index {
            Some(v) => Some(v@),
            None => None,
        }
    }

    /// The content that the builder holds, if it was set.
    pub closed spec fn content_held(self) -> Option<Seq<Element>> {
        match self.content {
            Some(v) => Some(v@),
            None => None,
        }
    }

    /// The attributes that the builder holds.
    pub closed spec fn attrs(self) -> Seq<Attribute> {
        self.attr@
    }

    /// Set the index of the radical, e.g. "2" for the square root. More than one element
    /// is wrapped in a row.
    pub fn index(self, index: impl IntoElements) -> (b: RadicalsBuilder<Init, T2>)
        ensures
            b.index_held() is Some,
            fills_slot(b.index_held().unwrap(), index.elements()),
            b.content_held() == self.content_held(),
            b.attrs() == self.attrs(),
    {
        proof {
            use_type_invariant(&self);
        }
        RadicalsBuilder {
            index: Some(single_slot(index.into_elements())),
            content: self.content,
            attr: self.attr,
            _marker: PhantomData,
        }
    }

    /// Set what stands under the radical. An `msqrt` takes any number of children; an
    /// `mroot` takes one, so [`RadicalsBuilder::build`] wraps more than one in a row
    /// unless the radical is a square root.
    pub fn content(self, content: impl IntoElements) -> (b: RadicalsBuilder<T1, Init>)
        ensures
            b.content_held() == Some(content.elements()),
            b.index_held() == self.index_held(),
            b.attrs() == self.attrs(),
    {
        proof {
            use_type_invariant(&self);
        }
        RadicalsBuilder {
            index: self.index,
            content: Some(content.into_elements()),
            attr: self.attr,
            _marker: PhantomData,
        }
    }

    /// Add attributes, behind those that the builder holds.
    pub fn attr(self, attr: impl IntoList<Attribute>) -> (b: Self)
        ensures
            b.index_held() == self.index_held(),
            b.content_held() == self.content_held(),
            b.attrs() == self.attrs() + attr.items(),
    {
        proof {
            use_type_invariant(&self);
        }
        let mut held = self.attr;
        let mut more = attr.into_list();
        held.append(&mut more);
        RadicalsBuilder {
            index: self.index,
            content: self.content,
            attr: held,
            _marker: PhantomData,
        }
    }
}

impl Default for RadicalsBuilder<Uninit, Uninit> {
    fn default() -> (b: Self)
        ensures
            b.index_held() is None,
            b.content_held() is None,
            b.attrs() == Seq::<Attribute>::empty(),
    {
        RadicalsBuilder { index: None, content: None, attr: Vec::new(), _marker: PhantomData }
    }
}

impl<T1: Marker, T2: Marker> Clone for RadicalsBuilder<T1, T2> {
    fn clone(&self) -> (b: Self)
        ensures
            same_held(self.index_held(), b.index_held()),
            same_held(self.content_held(), b.content_held()),
            b.attrs() == self.attrs(),
    {
        proof {
            use_type_invariant(self);
        }
        let index = match &self.index {
            Some(v) => Some(v.clone()),
            None => None,
        };
        let content = match &self.content {
            Some(v) => Some(v.clone()),
            None => None,
        };
        let held = self.attr.clone();
        assert(held@ =~= self.attr@);
        RadicalsBuilder { index, content, attr: held, _marker: PhantomData }
    }
}

impl RadicalsBuilder<Init, Init> {
    /// Build the [`Radical`] element. The content of a radical that is no
    /// square root is made to fit a single slot: more than one element is
    /// wrapped in a row. The content of a square root is kept as it is.
    pub fn build(self) -> (r: Radical)
        ensures
            Some(r.index@) == self.index_held(),
            r.attributes@ == self.attrs(),
            self.content_held() is Some,
            r.square() ==> r.content@ == self.content_held().unwrap(),
            !r.square() ==> fills_slot(r.content@, self.content_held().unwrap()),
    {
        proof {
            use_type_invariant(&self);
        }
        let radical = Radical {
            index: self.index.unwrap(),
            content: self.content.unwrap(),
            attributes: self.attr,
        };
        if radical.is_square() {
            radical
        } else {
            Radical {
                index: radical.index,
                content: single_slot(radical.content),
                attributes: radical.attributes,
            }
        }
    }
}

} // verus!
