//! Comparing and hashing driver objects by the number that names them.

use vstd::prelude::*;
use core::cmp::Ordering;

verus! {

/// `Hash::hash` of the standard library for `u32`: feeds the number to the
/// hasher. Nothing is claimed of the hasher's state.
pub assume_specification<H: core::hash::Hasher>[ <u32 as core::hash::Hash>::hash::<H> ](
    value: &u32,
    state: &mut H,
);

/// `Hash::hash` of the standard library for `i32`: feeds the number to the
/// hasher. Nothing is claimed of the hasher's state.
pub assume_specification<H: core::hash::Hasher>[ <i32 as core::hash::Hash>::hash::<H> ](
    value: &i32,
    state: &mut H,
);

/// How two object names compare.
pub open spec fn name_order(a: u32, b: u32) -> Ordering {
    if a < b {
        Ordering::Less
    } else if a == b {
        Ordering::Equal
    } else {
        Ordering::Greater
    }
}

/// How two object names compare.
pub fn order_of_names(a: u32, b: u32) -> (r: Ordering)
    ensures
        r == name_order(a, b),
{
    if a < b {
        Ordering::Less
    } else if a == b {
        Ordering::Equal
    } else {
        Ordering::Greater
    }
}

/// How two status numbers compare.
pub open spec fn status_order(a: i32, b: i32) -> Ordering {
    if a < b {
        Ordering::Less
    } else if a == b {
        Ordering::Equal
    } else {
        Ordering::Greater
    }
}

/// How two status numbers compare.
pub fn order_of_statuses(a: i32, b: i32) -> (r: Ordering)
    ensures
        r == status_order(a, b),
{
    if a < b {
        Ordering::Less
    } else if a == b {
        Ordering::Equal
    } else {
        Ordering::Greater
    }
}

} // verus!
