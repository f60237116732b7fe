//! The `mo` element.

use vstd::prelude::*;
use vstd::std_specs::convert::FromSpecImpl;
use crate::lists::IntoList;
use std::marker::PhantomData;
use crate::attributes::{push_quoted, Attribute, TagAttribute};
use crate::elements::{Element, Elements, IntoElements};
use crate::markers::{Init, Marker, Uninit};

mod dict;

verus! {

/// Where an operator stands with respect to its operands.
#[derive(Debug, Clone, Copy, PartialEq, Eq, PartialOrd, Ord)]
pub enum OpForm {
    /// Between its operands.
    Infix,
    /// Before its operand.
    Prefix,
    /// Behind its operand.
    Postfix,
}

impl OpForm {
    /// The value of the `form` attribute.
    pub open spec fn name(self) -> Seq<char> {
        match self {
            OpForm::Infix => "infix"@,
            OpForm::Prefix => "prefix"@,
            OpForm::Postfix => "postfix"@,
        }
    }

    /// The form as it is written in markup.
    pub fn as_str(&self) -> (s: &'static str)
        ensures
            s@ == self.name(),
    {
        match self {
            OpForm::Infix => "infix",
            OpForm::Prefix => "prefix",
            OpForm::Postfix => "postfix",
        }
    }
}

/// Attribute for the `mo` (`Operator`) element.
#[derive(Debug, PartialEq, Eq, PartialOrd, Ord)]
pub enum OperatorAttr {
    /// One of the global attributes.
    Global(Attribute),
    /// Either `infix`, `prefix` or `postfix`.
    Form(OpForm),
    /// A `bool` specifying whether the operator is a fence (such as parentheses). There is no
    /// visual effect for this attribute. Attribute's presence means that it's set to `true`.
    Fence,
    /// A `bool` specifying whether the operator is a separator (such as commas). There is no
    /// visual effect for this attribute. Attribute's presence means that it's set to `true`.
    Separator,
    /// A `lspace` length-percentage indicating amount of space before the operator.
    LeftSpace(String),
    /// A `rspace` length-percentage indicating the amount of space after the operator.
    RightSpace(String),
    /// A `maxsize` length-percentage indicating the maximum size of the operator when it is
    /// stretchy.
    MaxSize(String),
    /// A `minsize` length-percentage indicating the minimum size of the operator when it is
    /// stretchy.
    MinSize(String),
    /// A `bool` indicating whether the operator stretches to the size of the adjacent element.
    Stretchy,
    /// A `bool` indicating whether a stretchy operator should be vertically symmetric around the
    /// imaginary math axis (centered fraction line).
    Symmetric,
    /// Either `true` or `false`. In this implementation, the attribute is `true` if present.
    LargeOp,
    /// Either `true` or `false`. In this implementation, the attribute is `true` if present.
    MovableLimits,
}

impl Clone for OperatorAttr {
    fn clone(&self) -> (r: Self)
        ensures
            r == *self,
    {
        match self {
            OperatorAttr::Global(v) => OperatorAttr::Global(v.clone()),
            OperatorAttr::Form(v) => OperatorAttr::Form(*v),
            OperatorAttr::Fence => OperatorAttr::Fence,
            OperatorAttr::Separator => OperatorAttr::Separator,
            OperatorAttr::LeftSpace(v) => OperatorAttr::LeftSpace(v.clone()),
            OperatorAttr::RightSpace(v) => OperatorAttr::RightSpace(v.clone()),
            OperatorAttr::MaxSize(v) => OperatorAttr::MaxSize(v.clone()),
            OperatorAttr::MinSize(v) => OperatorAttr::MinSize(v.clone()),
            OperatorAttr::Stretchy => OperatorAttr::Stretchy,
            OperatorAttr::Symmetric => OperatorAttr::Symmetric,
            OperatorAttr::LargeOp => OperatorAttr::LargeOp,
            OperatorAttr::MovableLimits => OperatorAttr::MovableLimits,
        }
    }
}

impl TagAttribute for OperatorAttr {
    open spec fn markup(&self) -> Seq<char> {
        match *self {
            OperatorAttr::Global(a) => a.markup(),
            OperatorAttr::Form(v) => "form=\""@ + v.name() + "\""@,
            OperatorAttr::Fence => "fence=\"true\""@,
            OperatorAttr::Separator => "separator=\"true\""@,
            OperatorAttr::LeftSpace(v) => "lspace=\""@ + v@ + "\""@,
            OperatorAttr::RightSpace(v) => "rspace=\""@ + v@ + "\""@,
            OperatorAttr::MaxSize(v) => "maxsize=\""@ + v@ + "\""@,
            OperatorAttr::MinSize(v) => "minsize=\""@ + v@ + "\""@,
            OperatorAttr::Stretchy => "stretchy=\"true\""@,
            OperatorAttr::Symmetric => "symmetric=\"true\""@,
            OperatorAttr::LargeOp => "largeop=\"true\""@,
            OperatorAttr::MovableLimits => "movablelimits=\"true\""@,
        }
    }

    fn write_into(&self, buf: &mut String) {
        match self {
            OperatorAttr::Global(a) => a.write_into(buf),
            OperatorAttr::Form(v) => push_quoted(buf, "form=\"", v.as_str()),
            OperatorAttr::Fence => buf.append("fence=\"true\""),
            OperatorAttr::Separator => buf.append("separator=\"true\""),
            OperatorAttr::LeftSpace(v) => push_quoted(buf, "lspace=\"", v.as_str()),
            OperatorAttr::RightSpace(v) => push_quoted(buf, "rspace=\"", v.as_str()),
            OperatorAttr::MaxSize(v) => push_quoted(buf, "maxsize=\"", v.as_str()),
            OperatorAttr::MinSize(v) => push_quoted(buf, "minsize=\"", v.as_str()),
            OperatorAttr::Stretchy => buf.append("stretchy=\"true\""),
            OperatorAttr::Symmetric => buf.append("symmetric=\"true\""),
            OperatorAttr::LargeOp => buf.append("largeop=\"true\""),
            OperatorAttr::MovableLimits => buf.append("movablelimits=\"true\""),
        }
        assert(buf@ =~= old(buf)@ + self.markup());
    }
}

impl From<Attribute> for OperatorAttr {
    fn from(value: Attribute) -> (r: OperatorAttr) {
        OperatorAttr::Global(value)
    }
}

impl FromSpecImpl<Attribute> for OperatorAttr {
    open spec fn obeys_from_spec() -> bool {
        true
    }

    open spec fn from_spec(v: Attribute) -> OperatorAttr {
        OperatorAttr::Global(v)
    }
}

/// The `mo` element represents an operator or anything that should be rendered as an operator. In
/// general, the notational conventions for mathematical operators are quite complicated, and
/// therefore MathML provides a relatively sophisticated mechanism for specifying the rendering
/// behavior of an `<mo>` element.
#[derive(Debug, PartialEq, Eq, PartialOrd, Ord)]
pub struct Operator {
    /// The operator's text.
    pub op: String,
    /// The attributes of the `mo` element.
    pub attributes: Vec<OperatorAttr>,
}

impl Clone for Operator {
    fn clone(&self) -> (r: Self)
        ensures
            r.op == self.op,
            r.attributes@ == self.attributes@,
    {
        let r = Operator {
            op: self.op.clone(),
            attributes: self.attributes.clone(),
        };
        assert(r.attributes@ =~= self.attributes@);
        r
    }
}

impl From<&str> for Operator {
    fn from(value: &str) -> (r: Operator)
        ensures
            r.op@ == value@,
            r.attributes@ == Seq::<OperatorAttr>::empty(),
    {
        Operator { op: String::from_str(value), attributes: Vec::new() }
    }
}

/// No expression of a specification builds a vector, so none gives the value
/// that `from` returns: what it returns is stated in its `ensures`.
impl FromSpecImpl<&str> for Operator {
    open spec fn obeys_from_spec() -> bool {
        false
    }

    open spec fn from_spec(v: &str) -> Operator {
        arbitrary()
    }
}

impl From<String> for Operator {
    fn from(value: String) -> (r: Operator)
        ensures
            r.op == value,
            r.attributes@ == Seq::<OperatorAttr>::empty(),
    {
        Operator { op: value, attributes: Vec::new() }
    }
}

/// No expression of a specification builds a vector, so none gives the value
/// that `from` returns: what it returns is stated in its `ensures`.
impl FromSpecImpl<String> for Operator {
    open spec fn obeys_from_spec() -> bool {
        false
    }

    open spec fn from_spec(v: String) -> Operator {
        arbitrary()
    }
}

impl Operator {
    /// Create a builder for [`Operator`] element.
    pub fn builder() -> (b: OperatorBuilder<Uninit>)
        ensures
            b.op_held() is None,
            b.attrs() == Seq::<OperatorAttr>::empty(),
    {
        OperatorBuilder { op: None, attr: Vec::new(), _marker: PhantomData }
    }

    /// Get a reference to the operator of the [`Operator`] element.
    pub fn op(&self) -> (r: &str)
        ensures
            r@ == self.op@,
    {
        self.op.as_str()
    }

    /// Get a reference to all attributes of the [`Operator`] element.
    pub fn attributes(&self) -> (r: &[OperatorAttr])
        ensures
            r@ == self.attributes@,
    {
        self.attributes.as_slice()
    }
}

impl From<Operator> for Element {
    fn from(value: Operator) -> (r: Element) {
        Element::Operator(value)
    }
}

impl FromSpecImpl<Operator> for Element {
    open spec fn obeys_from_spec() -> bool {
        true
    }

    open spec fn from_spec(v: Operator) -> Element {
        Element::Operator(v)
    }
}

impl IntoElements for Operator {
    open spec fn elements(self) -> Seq<Element> {
        seq![Element::Operator(self)]
    }

    fn into_elements(self) -> (r: Elements) {
        Elements::one(Element::Operator(self))
    }
}

/// Builder of the [`Operator`] element. Its type says which of the values that
/// the element needs have been set; only when all are set can the element be
/// built.
#[derive(Debug, PartialEq, Eq, PartialOrd, Ord)]
pub struct OperatorBuilder<T: Marker> {
    op: Option<String>,
    attr: Vec<OperatorAttr>,
    _marker: PhantomData<(T,)>,
}

impl<T: Marker> OperatorBuilder<T> {
    #[verifier::type_invariant]
    spec fn holds_what_is_marked(self) -> bool {
        &&& T::is_init() ==> self.op is Some
    }

    /// The operator that the builder holds, if it was set.
    pub closed spec fn op_held(self) -> Option<Seq<char>> {
        match self.op {
            Some(v) => Some(v@),
            None => None,
        }
    }

    /// The attributes that the builder holds.
    pub closed spec fn attrs(self) -> Seq<OperatorAttr> {
        self.attr@
    }

    /// Set the operator of the [`Operator`] element.
    pub fn op(self, op: &str) -> (b: OperatorBuilder<Init>)
        ensures
            b.op_held() == Some(op@),
            b.attrs() == self.attrs(),
    {
        proof {
            use_type_invariant(&self);
        }
        OperatorBuilder {
            op: Some(String::from_str(op)),
            attr: self.attr,
            _marker: PhantomData,
        }
    }

    /// Add attributes, behind those that the builder holds.
    pub fn attr(self, attr: impl IntoList<OperatorAttr>) -> (b: Self)
        ensures
            b.op_held() == self.op_held(),
            b.attrs() == self.attrs() + attr.items(),
    {
        proof {
            use_type_invariant(&self);
        }
        let mut held = self.attr;
        let mut more = attr.into_list();
        held.append(&mut more);
        OperatorBuilder {
            op: self.op,
            attr: held,
            _marker: PhantomData,
        }
    }
}

impl Default for OperatorBuilder<Uninit> {
    fn default() -> (b: Self)
        ensures
            b.op_held() is None,
            b.attrs() == Seq::<OperatorAttr>::empty(),
    {
        OperatorBuilder { op: None, attr: Vec::new(), _marker: PhantomData }
    }
}

impl<T: Marker> Clone for OperatorBuilder<T> {
    fn clone(&self) -> (b: Self)
        ensures
            b.op_held() == self.op_held(),
            b.attrs() == self.attrs(),
    {
        proof {
            use_type_invariant(self);
        }
        let op = match &self.op {
            Some(v) => Some(v.clone()),
            None => None,
        };
        let held = self.attr.clone();
        assert(held@ =~= self.attr@);
        OperatorBuilder { op, attr: held, _marker: PhantomData }
    }
}

impl OperatorBuilder<Init> {
    /// Build the [`Operator`] element from what was set.
    pub fn build(self) -> (r: Operator)
        ensures
            Some(r.op@) == self.op_held(),
            r.attributes@ == self.attrs(),
    {
        proof {
            use_type_invariant(&self);
        }
        Operator {
            op: self.op.unwrap(),
            attributes: self.attr,
        }
    }
}

} // verus!
