//! Conversions of the standard library that callers of the builders rely
//! on.

use vstd::prelude::*;

verus! {

/// `impl<T> From<T> for Option<T>`: moves the value into a new `Some`.
pub assume_specification<Item>[ <Option<Item> as From<Item>>::from ](value: Item) -> (wrapped: Option<Item>)
    ensures
        wrapped == Some(value),
;

/// `impl<T> From<T> for T`: returns the argument unchanged.
pub assume_specification<Item>[ <Item as From<Item>>::from ](value: Item) -> (same: Item)
    ensures
        same == value,
;

} // verus!
