//! The `mn` element.

use vstd::prelude::*;
use vstd::std_specs::convert::FromSpecImpl;
use crate::lists::IntoList;
use crate::attributes::Attribute;
use crate::elements::{Element, Elements, IntoElements};
use crate::text::{decimal, decimal_string, signed_decimal, signed_decimal_string};

verus! {

/// The `mn` element represents a "numeric literal" or other data that should be rendered as a
/// numeric literal. Generally speaking, a numeric literal is a sequence of digits, perhaps
/// including a decimal point, representing an unsigned integer or real number.
///
/// Made from an integer, it holds the integer's decimal numeral.
#[derive(Debug, PartialEq, Eq, PartialOrd, Ord)]
pub struct Num {
    /// The numeral.
    pub num: String,
    /// The `mn` element accepts the global [`Attribute`]s.
    pub attributes: Vec<Attribute>,
}

impl Clone for Num {
    fn clone(&self) -> (r: Self)
        ensures
            r.num == self.num,
            r.attributes@ == self.attributes@,
    {
        let r = Num {
            num: self.num.clone(),
            attributes: self.attributes.clone(),
        };
        assert(r.attributes@ =~= self.attributes@);
        r
    }
}

impl From<&str> for Num {
    fn from(value: &str) -> (r: Num)
        ensures
            r.num@ == value@,
            r.attributes@ == Seq::<Attribute>::empty(),
    {
        Num { num: String::from_str(value), attributes: Vec::new() }
    }
}

/// No expression of a specification builds a vector, so none gives the value
/// that `from` returns: what it returns is stated in its `ensures`.
impl FromSpecImpl<&str> for Num {
    open spec fn obeys_from_spec() -> bool {
        false
    }

    open spec fn from_spec(v: &str) -> Num {
        arbitrary()
    }
}

impl From<u8> for Num {
    fn from(value: u8) -> (r: Num)
        ensures
            r.num@ == decimal(value as nat),
            r.attributes@ == Seq::<Attribute>::empty(),
    {
        Num { num: decimal_string(value as u128), attributes: Vec::new() }
    }
}

/// No expression of a specification builds a vector, so none gives the value
/// that `from` returns: what it returns is stated in its `ensures`.
impl FromSpecImpl<u8> for Num {
    open spec fn obeys_from_spec() -> bool {
        false
    }

    open spec fn from_spec(v: u8) -> Num {
        arbitrary()
    }
}

impl From<u16> for Num {
    fn from(value: u16) -> (r: Num)
        ensures
            r.num@ == decimal(value as nat),
            r.attributes@ == Seq::<Attribute>::empty(),
    {
        Num { num: decimal_string(value as u128), attributes: Vec::new() }
    }
}

/// No expression of a specification builds a vector, so none gives the value
/// that `from` returns: what it returns is stated in its `ensures`.
impl FromSpecImpl<u16> for Num {
    open spec fn obeys_from_spec() -> bool {
        false
    }

    open spec fn from_spec(v: u16) -> Num {
        arbitrary()
    }
}

impl From<u32> for Num {
    fn from(value: u32) -> (r: Num)
        ensures
            r.num@ == decimal(value as nat),
            r.attributes@ == Seq::<Attribute>::empty(),
    {
        Num { num: decimal_string(value as u128), attributes: Vec::new() }
    }
}

/// No expression of a specification builds a vector, so none gives the value
/// that `from` returns: what it returns is stated in its `ensures`.
impl FromSpecImpl<u32> for Num {
    open spec fn obeys_from_spec() -> bool {
        false
    }

    open spec fn from_spec(v: u32) -> Num {
        arbitrary()
    }
}

impl From<u64> for Num {
    fn from(value: u64) -> (r: Num)
        ensures
            r.num@ == decimal(value as nat),
            r.attributes@ == Seq::<Attribute>::empty(),
    {
        Num { num: decimal_string(value as u128), attributes: Vec::new() }
    }
}

/// No expression of a specification builds a vector, so none gives the value
/// that `from` returns: what it returns is stated in its `ensures`.
impl FromSpecImpl<u64> for Num {
    open spec fn obeys_from_spec() -> bool {
        false
    }

    open spec fn from_spec(v: u64) -> Num {
        arbitrary()
    }
}

impl From<u128> for Num {
    fn from(value: u128) -> (r: Num)
        ensures
            r.num@ == decimal(value as nat),
            r.attributes@ == Seq::<Attribute>::empty(),
    {
        Num { num: decimal_string(value), attributes: Vec::new() }
    }
}

/// No expression of a specification builds a vector, so none gives the value
/// that `from` returns: what it returns is stated in its `ensures`.
impl FromSpecImpl<u128> for Num {
    open spec fn obeys_from_spec() -> bool {
        false
    }

    open spec fn from_spec(v: u128) -> Num {
        arbitrary()
    }
}

impl From<usize> for Num {
    fn from(value: usize) -> (r: Num)
        ensures
            r.num@ == decimal(value as nat),
            r.attributes@ == Seq::<Attribute>::empty(),
    {
        Num { num: decimal_string(value as u128), attributes: Vec::new() }
    }
}

/// No expression of a specification builds a vector, so none gives the value
/// that `from` returns: what it returns is stated in its `ensures`.
impl FromSpecImpl<usize> for Num {
    open spec fn obeys_from_spec() -> bool {
        false
    }

    open spec fn from_spec(v: usize) -> Num {
        arbitrary()
    }
}

impl From<i8> for Num {
    fn from(value: i8) -> (r: Num)
        ensures
            r.num@ == signed_decimal(value as int),
            r.attributes@ == Seq::<Attribute>::empty(),
    {
        Num { num: signed_decimal_string(value as i128), attributes: Vec::new() }
    }
}

/// No expression of a specification builds a vector, so none gives the value
/// that `from` returns: what it returns is stated in its `ensures`.
impl FromSpecImpl<i8> for Num {
    open spec fn obeys_from_spec() -> bool {
        false
    }

    open spec fn from_spec(v: i8) -> Num {
        arbitrary()
    }
}

impl From<i16> for Num {
    fn from(value: i16) -> (r: Num)
        ensures
            r.num@ == signed_decimal(value as int),
            r.attributes@ == Seq::<Attribute>::empty(),
    {
        Num { num: signed_decimal_string(value as i128), attributes: Vec::new() }
    }
}

/// No expression of a specification builds a vector, so none gives the value
/// that `from` returns: what it returns is stated in its `ensures`.
impl FromSpecImpl<i16> for Num {
    open spec fn obeys_from_spec() -> bool {
        false
    }

    open spec fn from_spec(v: i16) -> Num {
        arbitrary()
    }
}

impl From<i32> for Num {
    fn from(value: i32) -> (r: Num)
        ensures
            r.num@ == signed_decimal(value as int),
            r.attributes@ == Seq::<Attribute>::empty(),
    {
        Num { num: signed_decimal_string(value as i128), attributes: Vec::new() }
    }
}

/// No expression of a specification builds a vector, so none gives the value
/// that `from` returns: what it returns is stated in its `ensures`.
impl FromSpecImpl<i32> for Num {
    open spec fn obeys_from_spec() -> bool {
        false
    }

    open spec fn from_spec(v: i32) -> Num {
        arbitrary()
    }
}

impl From<i64> for Num {
    fn from(value: i64) -> (r: Num)
        ensures
            r.num@ == signed_decimal(value as int),
            r.attributes@ == Seq::<Attribute>::empty(),
    {
        Num { num: signed_decimal_string(value as i128), attributes: Vec::new() }
    }
}

/// No expression of a specification builds a vector, so none gives the value
/// that `from` returns: what it returns is stated in its `ensures`.
impl FromSpecImpl<i64> for Num {
    open spec fn obeys_from_spec() -> bool {
        false
    }

    open spec fn from_spec(v: i64) -> Num {
        arbitrary()
    }
}

impl From<i128> for Num {
    fn from(value: i128) -> (r: Num)
        ensures
            r.num@ == signed_decimal(value as int),
            r.attributes@ == Seq::<Attribute>::empty(),
    {
        Num { num: signed_decimal_string(value), attributes: Vec::new() }
    }
}

/// No expression of a specification builds a vector, so none gives the value
/// that `from` returns: what it returns is stated in its `ensures`.
impl FromSpecImpl<i128> for Num {
    open spec fn obeys_from_spec() -> bool {
        false
    }

    open spec fn from_spec(v: i128) -> Num {
        arbitrary()
    }
}

impl From<isize> for Num {
    fn from(value: isize) -> (r: Num)
        ensures
            r.num@ == signed_decimal(value as int),
            r.attributes@ == Seq::<Attribute>::empty(),
    {
        Num { num: signed_decimal_string(value as i128), attributes: Vec::new() }
    }
}

/// No expression of a specification builds a vector, so none gives the value
/// that `from` returns: what it returns is stated in its `ensures`.
impl FromSpecImpl<isize> for Num {
    open spec fn obeys_from_spec() -> bool {
        false
    }

    open spec fn from_spec(v: isize) -> Num {
        arbitrary()
    }
}

impl Num {
    /// Add attributes, behind those that the element has.
    pub fn add_attr(&mut self, attr: impl IntoList<Attribute>)
        ensures
            final(self).attributes@ == old(self).attributes@ + attr.items(),
            final(self).num == old(self).num,
    {
        let mut more = attr.into_list();
        self.attributes.append(&mut more);
    }

    /// Create a new instance of [`Num`] with additional attributes, behind
    /// those that the element has.
    pub fn with_attr(self, attr: impl IntoList<Attribute>) -> (r: Num)
        ensures
            r.attributes@ == self.attributes@ + attr.items(),
            r.num == self.num,
    {
        let mut r = self;
        let mut more = attr.into_list();
        r.attributes.append(&mut more);
        r
    }

    /// Get a reference to the numeral of the [`Num`] element.
    pub fn num(&self) -> (r: &str)
        ensures
            r@ == self.num@,
    {
        self.num.as_str()
    }

    /// Get a reference to all attributes of the [`Num`] element.
    pub fn attributes(&self) -> (r: &[Attribute])
        ensures
            r@ == self.attributes@,
    {
        self.attributes.as_slice()
    }
}

impl From<Num> for Element {
    fn from(value: Num) -> (r: Element) {
        Element::Num(value)
    }
}

impl FromSpecImpl<Num> for Element {
    open spec fn obeys_from_spec() -> bool {
        true
    }

    open spec fn from_spec(v: Num) -> Element {
        Element::Num(v)
    }
}

impl IntoElements for Num {
    open spec fn elements(self) -> Seq<Element> {
        seq![Element::Num(self)]
    }

    fn into_elements(self) -> (r: Elements) {
        Elements::one(Element::Num(self))
    }
}

} // verus!
