//! The `annotation`, `annotation-xml` and `semantics` elements.

use vstd::prelude::*;
use vstd::std_specs::convert::FromSpecImpl;
use crate::lists::IntoList;
use std::marker::PhantomData;
use crate::attributes::{push_quoted, Attribute, TagAttribute};
use crate::elements::{Element, Elements, IntoElements};
use crate::markers::{Init, Marker, Uninit};
use crate::same::same_held;
use crate::same::same_held_content;

verus! {

/// The content of `annotation` element, either text or MathML.
#[derive(Debug, PartialEq, Eq, PartialOrd, Ord)]
pub enum AnnotationContent {
    /// Text content of the `annotation` element. Implies the `annotation` variant.
    Text(String),
    /// MathML content of the `annotation` element. Implies the `annotation-xml` variant.
    Nested(Elements),
}

impl From<String> for AnnotationContent {
    fn from(value: String) -> (r: AnnotationContent) {
        AnnotationContent::Text(value)
    }
}

impl FromSpecImpl<String> for AnnotationContent {
    open spec fn obeys_from_spec() -> bool {
        true
    }

    open spec fn from_spec(v: String) -> AnnotationContent {
        AnnotationContent::Text(v)
    }
}

impl<T: IntoElements> From<T> for AnnotationContent {
    fn from(value: T) -> (r: AnnotationContent)
        ensures
            r is Nested,
            r->Nested_0@ == value.elements(),
    {
        AnnotationContent::Nested(value.into_elements())
    }
}

/// No expression of a specification builds a vector, so none gives the value
/// that `from` returns: what it returns is stated in its `ensures`.
impl<T: IntoElements> FromSpecImpl<T> for AnnotationContent {
    open spec fn obeys_from_spec() -> bool {
        false
    }

    open spec fn from_spec(v: T) -> AnnotationContent {
        arbitrary()
    }
}

/// An attribute of `annotation` element. Either one of the global [`Attribute`]s, or the
/// `encoding` attribute.
#[derive(Debug, PartialEq, Eq, PartialOrd, Ord)]
pub enum AnnotationAttr {
    /// One of the global [`Attribute`]s.
    Global(Attribute),
    /// Authors can use the encoding attribute to distinguish annotations for HTML
    /// integration point, clipboard copy, alternative rendering, etc.
    Encoding(String),
}

impl Clone for AnnotationAttr {
    fn clone(&self) -> (r: Self)
        ensures
            r == *self,
    {
        match self {
            AnnotationAttr::Global(v) => AnnotationAttr::Global(v.clone()),
            AnnotationAttr::Encoding(v) => AnnotationAttr::Encoding(v.clone()),
        }
    }
}

impl TagAttribute for AnnotationAttr {
    open spec fn markup(&self) -> Seq<char> {
        match *self {
            AnnotationAttr::Global(a) => a.markup(),
            AnnotationAttr::Encoding(v) => "encoding=\""@ + v@ + "\""@,
        }
    }

    fn write_into(&self, buf: &mut String) {
        match self {
            AnnotationAttr::Global(a) => a.write_into(buf),
            AnnotationAttr::Encoding(v) => push_quoted(buf, "encoding=\"", v.as_str()),
        }
        assert(buf@ =~= old(buf)@ + self.markup());
    }
}

impl From<Attribute> for AnnotationAttr {
    fn from(value: Attribute) -> (r: AnnotationAttr) {
        AnnotationAttr::Global(value)
    }
}

impl FromSpecImpl<Attribute> for AnnotationAttr {
    open spec fn obeys_from_spec() -> bool {
        true
    }

    open spec fn from_spec(v: Attribute) -> AnnotationAttr {
        AnnotationAttr::Global(v)
    }
}

/// The `annotation` (and `annotation-xml`) element.
#[derive(Debug, PartialEq, Eq, PartialOrd, Ord)]
pub struct Annotation {
    /// What is annotated with: a text makes the element an `annotation`,
    /// elements make it an `annotation-xml`.
    pub content: AnnotationContent,
    /// The attributes of the element.
    pub attributes: Vec<AnnotationAttr>,
}

impl From<Annotation> for Element {
    fn from(value: Annotation) -> (r: Element) {
        Element::Annotation(value)
    }
}

impl FromSpecImpl<Annotation> for Element {
    open spec fn obeys_from_spec() -> bool {
        true
    }

    open spec fn from_spec(v: Annotation) -> Element {
        Element::Annotation(v)
    }
}

impl IntoElements for Annotation {
    open spec fn elements(self) -> Seq<Element> {
        seq![Element::Annotation(self)]
    }

    fn into_elements(self) -> (r: Elements) {
        Elements::one(Element::Annotation(self))
    }
}

impl Annotation {
    /// Create a builder for [`Annotation`] element.
    pub fn builder() -> (b: AnnotationBuilder<Uninit>)
        ensures
            b.content_held() is None,
            b.attrs() == Seq::<AnnotationAttr>::empty(),
    {
        AnnotationBuilder { content: None, attr: Vec::new(), _marker: PhantomData }
    }

    /// Get a reference to the inner content of the [`Annotation`] element.
    pub fn content(&self) -> (r: &AnnotationContent)
        ensures
            *r == self.content,
    {
        &self.content
    }

    /// Get a reference to all attributes of the [`Annotation`] element.
    pub fn attributes(&self) -> (r: &[AnnotationAttr])
        ensures
            r@ == self.attributes@,
    {
        self.attributes.as_slice()
    }
}

/// Builder of the [`Annotation`] element. Its type says which of the values that
/// the element needs have been set; only when all are set can the element be
/// built.
#[derive(Debug, PartialEq, Eq, PartialOrd, Ord)]
pub struct AnnotationBuilder<T: Marker> {
    content: Option<AnnotationContent>,
    attr: Vec<AnnotationAttr>,
    _marker: PhantomData<(T,)>,
}

impl<T: Marker> AnnotationBuilder<T> {
    #[verifier::type_invariant]
    spec fn holds_what_is_marked(self) -> bool {
        &&& T::is_init() ==> self.content is Some
    }

    /// The content that the builder holds, if it was set.
    pub closed spec fn content_held(self) -> Option<AnnotationContent> {
        match self.content {
            Some(v) => Some(v),
            None => None,
        }
    }

    /// The attributes that the builder holds.
    pub closed spec fn attrs(self) -> Seq<AnnotationAttr> {
        self.attr@
    }

    /// Set the content of the [`Annotation`] element.
    pub fn content(self, content: AnnotationContent) -> (b: AnnotationBuilder<Init>)
        ensures
            b.content_held() == Some(content),
            b.attrs() == self.attrs(),
    {
        proof {
            use_type_invariant(&self);
        }
        AnnotationBuilder {
            content: Some(content),
            attr: self.attr,
            _marker: PhantomData,
        }
    }

    /// Add attributes, behind those that the builder holds.
    pub fn attr(self, attr: impl IntoList<AnnotationAttr>) -> (b: Self)
        ensures
            b.content_held() == self.content_held(),
            b.attrs() == self.attrs() + attr.items(),
    {
        proof {
            use_type_invariant(&self);
        }
        let mut held = self.attr;
        let mut more = attr.into_list();
        held.append(&mut more);
        AnnotationBuilder {
            content: self.content,
            attr: held,
            _marker: PhantomData,
        }
    }
}

impl Default for AnnotationBuilder<Uninit> {
    fn default() -> (b: Self)
        ensures
            b.content_held() is None,
            b.attrs() == Seq::<AnnotationAttr>::empty(),
    {
        AnnotationBuilder { content: None, attr: Vec::new(), _marker: PhantomData }
    }
}

impl<T: Marker> Clone for AnnotationBuilder<T> {
    fn clone(&self) -> (b: Self)
        ensures
            same_held_content(self.content_held(), b.content_held()),
            b.attrs() == self.attrs(),
    {
        proof {
            use_type_invariant(self);
        }
        let content = match &self.content {
            Some(v) => Some(v.clone()),
            None => None,
        };
        let held = self.attr.clone();
        assert(held@ =~= self.attr@);
        AnnotationBuilder { content, attr: held, _marker: PhantomData }
    }
}

impl AnnotationBuilder<Init> {
    /// Build the [`Annotation`] element from what was set.
    pub fn build(self) -> (r: Annotation)
        ensures
            Some(r.content) == self.content_held(),
            r.attributes@ == self.attrs(),
    {
        proof {
            use_type_invariant(&self);
        }
        Annotation {
            content: self.content.unwrap(),
            attributes: self.attr,
        }
    }
}

/// The `semantics` element is the container element that associates annotations with a MathML
/// expression. Typically, the `semantics` element has as its first child element a MathML
/// expression to be annotated while subsequent child elements represent text annotations within an
/// `annotation` element, or more complex markup annotations within an `annotation-xml` element.
#[derive(Debug, PartialEq, Eq, PartialOrd, Ord)]
pub struct Semantics {
    /// Children of the `semantics` element. Rendering is same as `mrow`.
    pub children: Elements,
    /// The `semantics` element accepts the global [`Attribute`]s.
    pub attr: Vec<Attribute>,
}

impl Semantics {
    /// Create a builder for [`Semantics`] element.
    pub fn builder() -> (b: SemanticsBuilder<Uninit>)
        ensures
            b.content_held() is None,
            b.attrs() == Seq::<Attribute>::empty(),
    {
        SemanticsBuilder { content: None, attr: Vec::new(), _marker: PhantomData }
    }

    /// Get a reference to the inner content of the [`Semantics`] element.
    pub fn children(&self) -> (r: &[Element])
        ensures
            r@ == self.children@,
    {
        self.children.as_slice()
    }

    /// Get a reference to all attributes of the [`Semantics`] element.
    pub fn attributes(&self) -> (r: &[Attribute])
        ensures
            r@ == self.attr@,
    {
        self.attr.as_slice()
    }
}

impl From<Semantics> for Element {
    fn from(value: Semantics) -> (r: Element) {
        Element::Semantics(value)
    }
}

impl FromSpecImpl<Semantics> for Element {
    open spec fn obeys_from_spec() -> bool {
        true
    }

    open spec fn from_spec(v: Semantics) -> Element {
        Element::Semantics(v)
    }
}

impl IntoElements for Semantics {
    open spec fn elements(self) -> Seq<Element> {
        seq![Element::Semantics(self)]
    }

    fn into_elements(self) -> (r: Elements) {
        Elements::one(Element::Semantics(self))
    }
}

/// Builder of the [`Semantics`] element. Its type says which of the values that
/// the element needs have been set; only when all are set can the element be
/// built.
#[derive(Debug, PartialEq, Eq, PartialOrd, Ord)]
pub struct SemanticsBuilder<T: Marker> {
    content: Option<Elements>,
    attr: Vec<Attribute>,
    _marker: PhantomData<(T,)>,
}

impl<T: Marker> SemanticsBuilder<T> {
    #[verifier::type_invariant]
    spec fn holds_what_is_marked(self) -> bool {
        &&& T::is_init() ==> self.content is Some
    }

    /// The content that the builder holds, if it was set.
    pub closed spec fn content_held(self) -> Option<Seq<Element>> {
        match self.content {
            Some(v) => Some(v@),
            None => None,
        }
    }

    /// The attributes that the builder holds.
    pub closed spec fn attrs(self) -> Seq<Attribute> {
        self.attr@
    }

    /// Set the content of the [`Semantics`] element.
    pub fn content(self, content: impl IntoElements) -> (b: SemanticsBuilder<Init>)
        ensures
            b.content_held() == Some(content.elements()),
            b.attrs() == self.attrs(),
    {
        proof {
            use_type_invariant(&self);
        }
        SemanticsBuilder {
            content: Some(content.into_elements()),
            attr: self.attr,
            _marker: PhantomData,
        }
    }

    /// Add attributes, behind those that the builder holds.
    pub fn attr(self, attr: impl IntoList<Attribute>) -> (b: Self)
        ensures
            b.content_held() == self.content_held(),
            b.attrs() == self.attrs() + attr.items(),
    {
        proof {
            use_type_invariant(&self);
        }
        let mut held = self.attr;
        let mut more = attr.into_list();
        held.append(&mut more);
        SemanticsBuilder {
            content: self.content,
            attr: held,
            _marker: PhantomData,
        }
    }
}

impl Default for SemanticsBuilder<Uninit> {
    fn default() -> (b: Self)
        ensures
            b.content_held() is None,
            b.attrs() == Seq::<Attribute>::empty(),
    {
        SemanticsBuilder { content: None, attr: Vec::new(), _marker: PhantomData }
    }
}

impl<T: Marker> Clone for SemanticsBuilder<T> {
    fn clone(&self) -> (b: Self)
        ensures
            same_held(self.content_held(), b.content_held()),
            b.attrs() == self.attrs(),
    {
        proof {
            use_type_invariant(self);
        }
        let content = match &self.content {
            Some(v) => Some(v.clone()),
            None => None,
        };
        let held = self.attr.clone();
        assert(held@ =~= self.attr@);
        SemanticsBuilder { content, attr: held, _marker: PhantomData }
    }
}

impl SemanticsBuilder<Init> {
    /// Build the [`Semantics`] element from what was set.
    pub fn build(self) -> (r: Semantics)
        ensures
            Some(r.children@) == self.content_held(),
            r.attr@ == self.attrs(),
    {
        proof {
            use_type_invariant(&self);
        }
        Semantics {
            children: self.content.unwrap(),
            attr: self.attr,
        }
    }
}

} // verus!
