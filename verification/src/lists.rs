//! Lists of items, given as a vector or as an array.

use vstd::prelude::*;

verus! {

/// Trait for conversion into a list of items of one type: of the attributes
/// of an element, of the rows of a table, of the cells of a row.
pub trait IntoList<T>: Sized {
    /// The items of the list, in their order.
    spec fn items(self) -> Seq<T>;

    /// Converts the value into the vector of its items.
    fn into_list(self) -> (r: Vec<T>)
        ensures
            r@ == self.items(),
    ;
}

impl<T> IntoList<T> for Vec<T> {
    open spec fn items(self) -> Seq<T> {
        self@
    }

    fn into_list(self) -> (r: Vec<T>) {
        self
    }
}

impl<T, const N: usize> IntoList<T> for [T; N] {
    open spec fn items(self) -> Seq<T> {
        self@
    }

    fn into_list(self) -> (r: Vec<T>) {
        array_into_vec(self)
    }
}

/// Moves the items of an array into a vector, by `Vec::from`: the vector
/// holds the array's items in the array's order, which is what std documents
/// of that conversion.
#[verifier::external_body]
pub(crate) fn array_into_vec<T, const N: usize>(items: [T; N]) -> (v: Vec<T>)
    ensures
        v@ == items@,
{
    Vec::from(items)
}

} // verus!
