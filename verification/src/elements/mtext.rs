//! The `mtext` element.

use vstd::prelude::*;
use vstd::std_specs::convert::FromSpecImpl;
use crate::lists::IntoList;
use crate::attributes::Attribute;
use crate::elements::{Element, Elements, IntoElements};

verus! {

/// The `mtext` element is used to represent arbitrary text that should be rendered as itself. In
/// general, the `mtext` element is intended to denote commentary text.
#[derive(Debug, PartialEq, Eq, PartialOrd, Ord)]
pub struct Text {
    /// The text to be rendered.
    pub text: String,
    /// The `mtext` element accepts the global [`Attribute`]s.
    pub attr: Vec<Attribute>,
}

impl Clone for Text {
    fn clone(&self) -> (r: Self)
        ensures
            r.text == self.text,
            r.attr@ == self.attr@,
    {
        let r = Text {
            text: self.text.clone(),
            attr: self.attr.clone(),
        };
        assert(r.attr@ =~= self.attr@);
        r
    }
}

impl From<&str> for Text {
    fn from(value: &str) -> (r: Text)
        ensures
            r.text@ == value@,
            r.attr@ == Seq::<Attribute>::empty(),
    {
        Text { text: String::from_str(value), attr: Vec::new() }
    }
}

/// No expression of a specification builds a vector, so none gives the value
/// that `from` returns: what it returns is stated in its `ensures`.
impl FromSpecImpl<&str> for Text {
    open spec fn obeys_from_spec() -> bool {
        false
    }

    open spec fn from_spec(v: &str) -> Text {
        arbitrary()
    }
}

impl From<String> for Text {
    fn from(value: String) -> (r: Text)
        ensures
            r.text == value,
            r.attr@ == Seq::<Attribute>::empty(),
    {
        Text { text: value, attr: Vec::new() }
    }
}

/// No expression of a specification builds a vector, so none gives the value
/// that `from` returns: what it returns is stated in its `ensures`.
impl FromSpecImpl<String> for Text {
    open spec fn obeys_from_spec() -> bool {
        false
    }

    open spec fn from_spec(v: String) -> Text {
        arbitrary()
    }
}

impl Text {
    /// Add attributes, behind those that the element has.
    pub fn add_attr(&mut self, attr: impl IntoList<Attribute>)
        ensures
            final(self).attr@ == old(self).attr@ + attr.items(),
            final(self).text == old(self).text,
    {
        let mut more = attr.into_list();
        self.attr.append(&mut more);
    }

    /// Create a new instance of [`Text`] with additional attributes, behind
    /// those that the element has.
    pub fn with_attr(self, attr: impl IntoList<Attribute>) -> (r: Text)
        ensures
            r.attr@ == self.attr@ + attr.items(),
            r.text == self.text,
    {
        let mut r = self;
        let mut more = attr.into_list();
        r.attr.append(&mut more);
        r
    }

    /// Get a reference to the text content of the [`Text`] element.
    pub fn text(&self) -> (r: &str)
        ensures
            r@ == self.text@,
    {
        self.text.as_str()
    }

    /// Get a reference to all attributes of the [`Text`] element.
    pub fn attributes(&self) -> (r: &[Attribute])
        ensures
            r@ == self.attr@,
    {
        self.attr.as_slice()
    }
}

impl From<Text> for Element {
    fn from(value: Text) -> (r: Element) {
        Element::Text(value)
    }
}

impl FromSpecImpl<Text> for Element {
    open spec fn obeys_from_spec() -> bool {
        true
    }

    open spec fn from_spec(v: Text) -> Element {
        Element::Text(v)
    }
}

impl IntoElements for Text {
    open spec fn elements(self) -> Seq<Element> {
        seq![Element::Text(self)]
    }

    fn into_elements(self) -> (r: Elements) {
        Elements::one(Element::Text(self))
    }
}

} // verus!
