use vstd::prelude::*;

use crate::ext::Ext;

verus! {

/// Calling `ok_less` twice on the same two values gives the same outcome.
pub proof fn lemma_ok_less_repeatable<T: Ext>(a: T, b: T, r1: Result<T, T>, r2: Result<T, T>)
    requires
        call_ensures(T::ok_less, (a, b), r1),
        call_ensures(T::ok_less, (a, b), r2),
    ensures
        r1 == r2,
{
}

/// Calling `ok_equal` twice on the same two values gives the same outcome.
pub proof fn lemma_ok_equal_repeatable<T: Ext>(a: T, b: T, r1: Result<T, T>, r2: Result<T, T>)
    requires
        call_ensures(T::ok_equal, (a, b), r1),
        call_ensures(T::ok_equal, (a, b), r2),
    ensures
        r1 == r2,
{
}

/// Calling `ok_greater` twice on the same two values gives the same outcome.
pub proof fn lemma_ok_greater_repeatable<T: Ext>(a: T, b: T, r1: Result<T, T>, r2: Result<T, T>)
    requires
        call_ensures(T::ok_greater, (a, b), r1),
        call_ensures(T::ok_greater, (a, b), r2),
    ensures
        r1 == r2,
{
}

} // verus!
