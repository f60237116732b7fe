//! The `maction` element.

use vstd::prelude::*;
use vstd::std_specs::convert::FromSpecImpl;
use crate::lists::IntoList;
use std::marker::PhantomData;
use crate::attributes::{push_quoted, Attribute, TagAttribute};
use crate::elements::{Element, Elements, IntoElements};
use crate::markers::{Init, Marker, Uninit};
use crate::same::same_held;

verus! {

/// The `maction` element accepts the global [`Attribute`]s as well as `selection` and
/// `actiontype`.
#[derive(Debug, PartialEq, Eq, PartialOrd, Ord)]
pub enum ActionAttr {
    /// One of the global [`Attribute`]s.
    Global(Attribute),
    /// The child element currently visible, only taken into account for `actiontype="toggle"` or
    /// non-standard actiontype values. The default value is `1`, which is the first child element.
    Selection(String),
    /// The action which specifies what happens for this element, such as `statusline` or
    /// `toggle`.
    ActionType(String),
}

impl Clone for ActionAttr {
    fn clone(&self) -> (r: Self)
        ensures
            r == *self,
    {
        match self {
            ActionAttr::Global(v) => ActionAttr::Global(v.clone()),
            ActionAttr::Selection(v) => ActionAttr::Selection(v.clone()),
            ActionAttr::ActionType(v) => ActionAttr::ActionType(v.clone()),
        }
    }
}

impl TagAttribute for ActionAttr {
    open spec fn markup(&self) -> Seq<char> {
        match *self {
            ActionAttr::Global(a) => a.markup(),
            ActionAttr::Selection(v) => "selection=\""@ + v@ + "\""@,
            ActionAttr::ActionType(v) => "actiontype=\""@ + v@ + "\""@,
        }
    }

    fn write_into(&self, buf: &mut String) {
        match self {
            ActionAttr::Global(a) => a.write_into(buf),
            ActionAttr::Selection(v) => push_quoted(buf, "selection=\"", v.as_str()),
            ActionAttr::ActionType(v) => push_quoted(buf, "actiontype=\"", v.as_str()),
        }
        assert(buf@ =~= old(buf)@ + self.markup());
    }
}

/// Historically, the `maction` element provides a mechanism for binding actions to expressions.
#[derive(Debug, PartialEq, Eq, PartialOrd, Ord)]
pub struct Action {
    /// The children of the `maction` element.
    pub content: Elements,
    /// The attributes of the `maction` element.
    pub attributes: Vec<ActionAttr>,
}

impl From<Elements> for Action {
    fn from(value: Elements) -> (r: Action)
        ensures
            r.content == value,
            r.attributes@ == Seq::<ActionAttr>::empty(),
    {
        Action { content: value, attributes: Vec::new() }
    }
}

/// No expression of a specification builds a vector, so none gives the value
/// that `from` returns: what it returns is stated in its `ensures`.
impl FromSpecImpl<Elements> for Action {
    open spec fn obeys_from_spec() -> bool {
        false
    }

    open spec fn from_spec(v: Elements) -> Action {
        arbitrary()
    }
}

impl Action {
    /// Create new `maction` element.
    pub fn with_mathml(math: impl IntoElements) -> (r: Action)
        ensures
            r.content@ == math.elements(),
            r.attributes@ == Seq::<ActionAttr>::empty(),
    {
        Action { content: math.into_elements(), attributes: Vec::new() }
    }

    /// Create a builder for [`Action`] element.
    pub fn builder() -> (b: ActionBuilder<Uninit>)
        ensures
            b.content_held() is None,
            b.attrs() == Seq::<ActionAttr>::empty(),
    {
        ActionBuilder { content: None, attributes: Vec::new(), _marker: PhantomData }
    }

    /// Get a reference to the inner content of the [`Action`] element.
    pub fn content(&self) -> (r: &[Element])
        ensures
            r@ == self.content@,
    {
        self.content.as_slice()
    }

    /// Get a reference to all attributes of the [`Action`] element.
    pub fn attributes(&self) -> (r: &[ActionAttr])
        ensures
            r@ == self.attributes@,
    {
        self.attributes.as_slice()
    }
}

impl From<Action> for Element {
    fn from(value: Action) -> (r: Element) {
        Element::Action(value)
    }
}

impl FromSpecImpl<Action> for Element {
    open spec fn obeys_from_spec() -> bool {
        true
    }

    open spec fn from_spec(v: Action) -> Element {
        Element::Action(v)
    }
}

impl IntoElements for Action {
    open spec fn elements(self) -> Seq<Element> {
        seq![Element::Action(self)]
    }

    fn into_elements(self) -> (r: Elements) {
        Elements::one(Element::Action(self))
    }
}

/// Builder of the [`Action`] element. Its type says which of the values that
/// the element needs have been set; only when all are set can the element be
/// built.
#[derive(Debug, PartialEq, Eq, PartialOrd, Ord)]
pub struct ActionBuilder<T: Marker> {
    content: Option<Elements>,
    attributes: Vec<ActionAttr>,
    _marker: PhantomData<(T,)>,
}

impl<T: Marker> ActionBuilder<T> {
    #[verifier::type_invariant]
    spec fn holds_what_is_marked(self) -> bool {
        &&& T::is_init() ==> self.content is Some
    }

    /// The content that the builder holds, if it was set.
    pub closed spec fn content_held(self) -> Option<Seq<Element>> {
        match self.content {
            Some(v) => Some(v@),
            None => None,
        }
    }

    /// The attributes that the builder holds.
    pub closed spec fn attrs(self) -> Seq<ActionAttr> {
        self.attributes@
    }

    /// Set the content of the [`Action`] element.
    pub fn content(self, content: impl IntoElements) -> (b: ActionBuilder<Init>)
        ensures
            b.content_held() == Some(content.elements()),
            b.attrs() == self.attrs(),
    {
        proof {
            use_type_invariant(&self);
        }
        ActionBuilder {
            content: Some(content.into_elements()),
            attributes: self.attributes,
            _marker: PhantomData,
        }
    }

    /// Add attributes, behind those that the builder holds.
    pub fn attr(self, attr: impl IntoList<ActionAttr>) -> (b: Self)
        ensures
            b.content_held() == self.content_held(),
            b.attrs() == self.attrs() + attr.items(),
    {
        proof {
            use_type_invariant(&self);
        }
        let mut held = self.attributes;
        let mut more = attr.into_list();
        held.append(&mut more);
        ActionBuilder {
            content: self.content,
            attributes: held,
            _marker: PhantomData,
        }
    }
}

impl Default for ActionBuilder<Uninit> {
    fn default() -> (b: Self)
        ensures
            b.content_held() is None,
            b.attrs() == Seq::<ActionAttr>::empty(),
    {
        ActionBuilder { content: None, attributes: Vec::new(), _marker: PhantomData }
    }
}

impl<T: Marker> Clone for ActionBuilder<T> {
    fn clone(&self) -> (b: Self)
        ensures
            same_held(self.content_held(), b.content_held()),
            b.attrs() == self.attrs(),
    {
        proof {
            use_type_invariant(self);
        }
        let content = match &self.content {
            Some(v) => Some(v.clone()),
            None => None,
        };
        let held = self.attributes.clone();
        assert(held@ =~= self.attributes@);
        ActionBuilder { content, attributes: held, _marker: PhantomData }
    }
}

impl ActionBuilder<Init> {
    /// Build the [`Action`] element from what was set.
    pub fn build(self) -> (r: Action)
        ensures
            Some(r.content@) == self.content_held(),
            r.attributes@ == self.attrs(),
    {
        proof {
            use_type_invariant(&self);
        }
        Action {
            content: self.content.unwrap(),
            attributes: self.attributes,
        }
    }
}

} // verus!
