use vstd::prelude::*;

use core::cmp::Ordering;

verus! {

/// The outcome of a comparison on `v`: `Ok(v)` when it held, `Err(v)` when not.
pub open spec fn outcome<T>(v: T, held: bool) -> Result<T, T> {
    if held {
        Ok(v)
    } else {
        Err(v)
    }
}

/// The ordering of two mathematical integers.
pub open spec fn int_ordering(a: int, b: int) -> Ordering {
    if a < b {
        Ordering::Less
    } else if a == b {
        Ordering::Equal
    } else {
        Ordering::Greater
    }
}

/// `use` this trait to get `ok_less`, `ok_equal` and `ok_greater` on the
/// primitive integer types and on the nonzero integers of `non_zero`.
pub trait Ext where Self: Sized + Eq + Ord {
    /// The integer that a value stands for; the comparisons go by it.
    spec fn value(self) -> int;

    /// Two values are the same exactly when they stand for the same integer.
    proof fn lemma_value_injective(a: Self, b: Self)
        ensures
            a.value() == b.value() <==> a == b,
    ;

    /// Compares `self` with `other` by the integers they stand for.
    fn compare(&self, other: &Self) -> (o: Ordering)
        ensures
            o == int_ordering(self.value(), other.value()),
    ;

    /// Returns `Ok` holding the integer if it is less than `val`, otherwise
    /// `Err` holding the integer.
    fn ok_less(self, val: Self) -> (r: Result<Self, Self>)
        ensures
            r == outcome(self, self.value() < val.value()),
    {
        match self.compare(&val) {
            Ordering::Less => Ok(self),
            _ => Err(self),
        }
    }

    /// Returns `Ok` holding the integer if it is equal to `val`, otherwise
    /// `Err` holding the integer.
    fn ok_equal(self, val: Self) -> (r: Result<Self, Self>)
        ensures
            r == outcome(self, self == val),
    {
        proof {
            Self::lemma_value_injective(self, val);
        }
        match self.compare(&val) {
            Ordering::Equal => Ok(self),
            _ => Err(self),
        }
    }

    /// Returns `Ok` holding the integer if it is greater than `val`, otherwise
    /// `Err` holding the integer.
    fn ok_greater(self, val: Self) -> (r: Result<Self, Self>)
        ensures
            r == outcome(self, self.value() > val.value()),
    {
        match self.compare(&val) {
            Ordering::Greater => Ok(self),
            _ => Err(self),
        }
    }
}

impl Ext for i8 {
    open spec fn value(self) -> int {
        self as int
    }

    proof fn lemma_value_injective(a: Self, b: Self) {
    }

    fn compare(&self, other: &Self) -> (o: Ordering) {
        if *self < *other {
            Ordering::Less
        } else if *self == *other {
            Ordering::Equal
        } else {
            Ordering::Greater
        }
    }
}

impl Ext for i16 {
    open spec fn value(self) -> int {
        self as int
    }

    proof fn lemma_value_injective(a: Self, b: Self) {
    }

    fn compare(&self, other: &Self) -> (o: Ordering) {
        if *self < *other {
            Ordering::Less
        } else if *self == *other {
            Ordering::Equal
        } else {
            Ordering::Greater
        }
    }
}

impl Ext for i32 {
    open spec fn value(self) -> int {
        self as int
    }

    proof fn lemma_value_injective(a: Self, b: Self) {
    }

    fn compare(&self, other: &Self) -> (o: Ordering) {
        if *self < *other {
            Ordering::Less
        } else if *self == *other {
            Ordering::Equal
        } else {
            Ordering::Greater
        }
    }
}

impl Ext for i64 {
    open spec fn value(self) -> int {
        self as int
    }

    proof fn lemma_value_injective(a: Self, b: Self) {
    }

    fn compare(&self, other: &Self) -> (o: Ordering) {
        if *self < *other {
            Ordering::Less
        } else if *self == *other {
            Ordering::Equal
        } else {
            Ordering::Greater
        }
    }
}

impl Ext for i128 {
    open spec fn value(self) -> int {
        self as int
    }

    proof fn lemma_value_injective(a: Self, b: Self) {
    }

    fn compare(&self, other: &Self) -> (o: Ordering) {
        if *self < *other {
            Ordering::Less
        } else if *self == *other {
            Ordering::Equal
        } else {
            Ordering::Greater
        }
    }
}

impl Ext for isize {
    open spec fn value(self) -> int {
        self as int
    }

    proof fn lemma_value_injective(a: Self, b: Self) {
    }

    fn compare(&self, other: &Self) -> (o: Ordering) {
        if *self < *other {
            Ordering::Less
        } else if *self == *other {
            Ordering::Equal
        } else {
            Ordering::Greater
        }
    }
}

impl Ext for u8 {
    open spec fn value(self) -> int {
        self as int
    }

    proof fn lemma_value_injective(a: Self, b: Self) {
    }

    fn compare(&self, other: &Self) -> (o: Ordering) {
        if *self < *other {
            Ordering::Less
        } else if *self == *other {
            Ordering::Equal
        } else {
            Ordering::Greater
        }
    }
}

impl Ext for u16 {
    open spec fn value(self) -> int {
        self as int
    }

    proof fn lemma_value_injective(a: Self, b: Self) {
    }

    fn compare(&self, other: &Self) -> (o: Ordering) {
        if *self < *other {
            Ordering::Less
        } else if *self == *other {
            Ordering::Equal
        } else {
            Ordering::Greater
        }
    }
}

impl Ext for u32 {
    open spec fn value(self) -> int {
        self as int
    }

    proof fn lemma_value_injective(a: Self, b: Self) {
    }

    fn compare(&self, other: &Self) -> (o: Ordering) {
        if *self < *other {
            Ordering::Less
        } else if *self == *other {
            Ordering::Equal
        } else {
            Ordering::Greater
        }
    }
}

impl Ext for u64 {
    open spec fn value(self) -> int {
        self as int
    }

    proof fn lemma_value_injective(a: Self, b: Self) {
    }

    fn compare(&self, other: &Self) -> (o: Ordering) {
        if *self < *other {
            Ordering::Less
        } else if *self == *other {
            Ordering::Equal
        } else {
            Ordering::Greater
        }
    }
}

impl Ext for u128 {
    open spec fn value(self) -> int {
        self as int
    }

    proof fn lemma_value_injective(a: Self, b: Self) {
    }

    fn compare(&self, other: &Self) -> (o: Ordering) {
        if *self < *other {
            Ordering::Less
        } else if *self == *other {
            Ordering::Equal
        } else {
            Ordering::Greater
        }
    }
}

impl Ext for usize {
    open spec fn value(self) -> int {
        self as int
    }

    proof fn lemma_value_injective(a: Self, b: Self) {
    }

    fn compare(&self, other: &Self) -> (o: Ordering) {
        if *self < *other {
            Ordering::Less
        } else if *self == *other {
            Ordering::Equal
        } else {
            Ordering::Greater
        }
    }
}

} // verus!
