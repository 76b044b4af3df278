//! Integers that are never zero. Each wrapper holds an integer of one width
//! and keeps it nonzero from construction on; it compares by that integer.
use vstd::prelude::*;

use core::cmp::Ordering;

use crate::ext::Ext;

verus! {

/// A `i8` that is never zero.
#[derive(Clone, Copy, Debug, PartialEq, Eq, Structural, PartialOrd, Ord, Hash)]
pub struct NonZeroI8 {
    value: i8,
}

impl NonZeroI8 {
    #[verifier::type_invariant]
    spec fn inv(self) -> bool {
        self.value != 0
    }

    /// The integer held.
    pub closed spec fn spec_get(self) -> i8 {
        self.value
    }

    /// Wraps `n`, or gives `None` when `n` is zero.
    pub fn new(n: i8) -> (r: Option<Self>)
        ensures
            r is Some <==> n != 0,
            r matches Some(z) ==> z.get() == n,
    {
        if n != 0 {
            Some(NonZeroI8 { value: n })
        } else {
            None
        }
    }

    /// The integer held, which is not zero.
    #[verifier::when_used_as_spec(spec_get)]
    pub fn get(self) -> (r: i8)
        ensures
            r == self.get(),
            r != 0,
    {
        proof {
            use_type_invariant(&self);
        }
        self.value
    }
}

impl Ext for NonZeroI8 {
    open spec fn value(self) -> int {
        self.get() as int
    }

    proof fn lemma_value_injective(a: Self, b: Self) {
    }

    fn compare(&self, other: &Self) -> (o: Ordering) {
        if self.value < other.value {
            Ordering::Less
        } else if self.value == other.value {
            Ordering::Equal
        } else {
            Ordering::Greater
        }
    }
}

/// A `i16` that is never zero.
#[derive(Clone, Copy, Debug, PartialEq, Eq, Structural, PartialOrd, Ord, Hash)]
pub struct NonZeroI16 {
    value: i16,
}

impl NonZeroI16 {
    #[verifier::type_invariant]
    spec fn inv(self) -> bool {
        self.value != 0
    }

    /// The integer held.
    pub closed spec fn spec_get(self) -> i16 {
        self.value
    }

    /// Wraps `n`, or gives `None` when `n` is zero.
    pub fn new(n: i16) -> (r: Option<Self>)
        ensures
            r is Some <==> n != 0,
            r matches Some(z) ==> z.get() == n,
    {
        if n != 0 {
            Some(NonZeroI16 { value: n })
        } else {
            None
        }
    }

    /// The integer held, which is not zero.
    #[verifier::when_used_as_spec(spec_get)]
    pub fn get(self) -> (r: i16)
        ensures
            r == self.get(),
            r != 0,
    {
        proof {
            use_type_invariant(&self);
        }
        self.value
    }
}

impl Ext for NonZeroI16 {
    open spec fn value(self) -> int {
        self.get() as int
    }

    proof fn lemma_value_injective(a: Self, b: Self) {
    }

    fn compare(&self, other: &Self) -> (o: Ordering) {
        if self.value < other.value {
            Ordering::Less
        } else if self.value == other.value {
            Ordering::Equal
        } else {
            Ordering::Greater
        }
    }
}

/// A `i32` that is never zero.
#[derive(Clone, Copy, Debug, PartialEq, Eq, Structural, PartialOrd, Ord, Hash)]
pub struct NonZeroI32 {
    value: i32,
}

impl NonZeroI32 {
    #[verifier::type_invariant]
    spec fn inv(self) -> bool {
        self.value != 0
    }

    /// The integer held.
    pub closed spec fn spec_get(self) -> i32 {
        self.value
    }

    /// Wraps `n`, or gives `None` when `n` is zero.
    pub fn new(n: i32) -> (r: Option<Self>)
        ensures
            r is Some <==> n != 0,
            r matches Some(z) ==> z.get() == n,
    {
        if n != 0 {
            Some(NonZeroI32 { value: n })
        } else {
            None
        }
    }

    /// The integer held, which is not zero.
    #[verifier::when_used_as_spec(spec_get)]
    pub fn get(self) -> (r: i32)
        ensures
            r == self.get(),
            r != 0,
    {
        proof {
            use_type_invariant(&self);
        }
        self.value
    }
}

impl Ext for NonZeroI32 {
    open spec fn value(self) -> int {
        self.get() as int
    }

    proof fn lemma_value_injective(a: Self, b: Self) {
    }

    fn compare(&self, other: &Self) -> (o: Ordering) {
        if self.value < other.value {
            Ordering::Less
        } else if self.value == other.value {
            Ordering::Equal
        } else {
            Ordering::Greater
        }
    }
}

/// A `i64` that is never zero.
#[derive(Clone, Copy, Debug, PartialEq, Eq, Structural, PartialOrd, Ord, Hash)]
pub struct NonZeroI64 {
    value: i64,
}

impl NonZeroI64 {
    #[verifier::type_invariant]
    spec fn inv(self) -> bool {
        self.value != 0
    }

    /// The integer held.
    pub closed spec fn spec_get(self) -> i64 {
        self.value
    }

    /// Wraps `n`, or gives `None` when `n` is zero.
    pub fn new(n: i64) -> (r: Option<Self>)
        ensures
            r is Some <==> n != 0,
            r matches Some(z) ==> z.get() == n,
    {
        if n != 0 {
            Some(NonZeroI64 { value: n })
        } else {
            None
        }
    }

    /// The integer held, which is not zero.
    #[verifier::when_used_as_spec(spec_get)]
    pub fn get(self) -> (r: i64)
        ensures
            r == self.get(),
            r != 0,
    {
        proof {
            use_type_invariant(&self);
        }
        self.value
    }
}

impl Ext for NonZeroI64 {
    open spec fn value(self) -> int {
        self.get() as int
    }

    proof fn lemma_value_injective(a: Self, b: Self) {
    }

    fn compare(&self, other: &Self) -> (o: Ordering) {
        if self.value < other.value {
            Ordering::Less
        } else if self.value == other.value {
            Ordering::Equal
        } else {
            Ordering::Greater
        }
    }
}

/// A `i128` that is never zero.
#[derive(Clone, Copy, Debug, PartialEq, Eq, Structural, PartialOrd, Ord, Hash)]
pub struct NonZeroI128 {
    value: i128,
}

impl NonZeroI128 {
    #[verifier::type_invariant]
    spec fn inv(self) -> bool {
        self.value != 0
    }

    /// The integer held.
    pub closed spec fn spec_get(self) -> i128 {
        self.value
    }

    /// Wraps `n`, or gives `None` when `n` is zero.
    pub fn new(n: i128) -> (r: Option<Self>)
        ensures
            r is Some <==> n != 0,
            r matches Some(z) ==> z.get() == n,
    {
        if n != 0 {
            Some(NonZeroI128 { value: n })
        } else {
            None
        }
    }

    /// The integer held, which is not zero.
    #[verifier::when_used_as_spec(spec_get)]
    pub fn get(self) -> (r: i128)
        ensures
            r == self.get(),
            r != 0,
    {
        proof {
            use_type_invariant(&self);
        }
        self.value
    }
}

impl Ext for NonZeroI128 {
    open spec fn value(self) -> int {
        self.get() as int
    }

    proof fn lemma_value_injective(a: Self, b: Self) {
    }

    fn compare(&self, other: &Self) -> (o: Ordering) {
        if self.value < other.value {
            Ordering::Less
        } else if self.value == other.value {
            Ordering::Equal
        } else {
            Ordering::Greater
        }
    }
}

/// A `isize` that is never zero.
#[derive(Clone, Copy, Debug, PartialEq, Eq, Structural, PartialOrd, Ord, Hash)]
pub struct NonZeroIsize {
    value: isize,
}

impl NonZeroIsize {
    #[verifier::type_invariant]
    spec fn inv(self) -> bool {
        self.value != 0
    }

    /// The integer held.
    pub closed spec fn spec_get(self) -> isize {
        self.value
    }

    /// Wraps `n`, or gives `None` when `n` is zero.
    pub fn new(n: isize) -> (r: Option<Self>)
        ensures
            r is Some <==> n != 0,
            r matches Some(z) ==> z.get() == n,
    {
        if n != 0 {
            Some(NonZeroIsize { value: n })
        } else {
            None
        }
    }

    /// The integer held, which is not zero.
    #[verifier::when_used_as_spec(spec_get)]
    pub fn get(self) -> (r: isize)
        ensures
            r == self.get(),
            r != 0,
    {
        proof {
            use_type_invariant(&self);
        }
        self.value
    }
}

impl Ext for NonZeroIsize {
    open spec fn value(self) -> int {
        self.get() as int
    }

    proof fn lemma_value_injective(a: Self, b: Self) {
    }

    fn compare(&self, other: &Self) -> (o: Ordering) {
        if self.value < other.value {
            Ordering::Less
        } else if self.value == other.value {
            Ordering::Equal
        } else {
            Ordering::Greater
        }
    }
}

/// A `u8` that is never zero.
#[derive(Clone, Copy, Debug, PartialEq, Eq, Structural, PartialOrd, Ord, Hash)]
pub struct NonZeroU8 {
    value: u8,
}

impl NonZeroU8 {
    #[verifier::type_invariant]
    spec fn inv(self) -> bool {
        self.value != 0
    }

    /// The integer held.
    pub closed spec fn spec_get(self) -> u8 {
        self.value
    }

    /// Wraps `n`, or gives `None` when `n` is zero.
    pub fn new(n: u8) -> (r: Option<Self>)
        ensures
            r is Some <==> n != 0,
            r matches Some(z) ==> z.get() == n,
    {
        if n != 0 {
            Some(NonZeroU8 { value: n })
        } else {
            None
        }
    }

    /// The integer held, which is not zero.
    #[verifier::when_used_as_spec(spec_get)]
    pub fn get(self) -> (r: u8)
        ensures
            r == self.get(),
            r != 0,
    {
        proof {
            use_type_invariant(&self);
        }
        self.value
    }
}

impl Ext for NonZeroU8 {
    open spec fn value(self) -> int {
        self.get() as int
    }

    proof fn lemma_value_injective(a: Self, b: Self) {
    }

    fn compare(&self, other: &Self) -> (o: Ordering) {
        if self.value < other.value {
            Ordering::Less
        } else if self.value == other.value {
            Ordering::Equal
        } else {
            Ordering::Greater
        }
    }
}

/// A `u16` that is never zero.
#[derive(Clone, Copy, Debug, PartialEq, Eq, Structural, PartialOrd, Ord, Hash)]
pub struct NonZeroU16 {
    value: u16,
}

impl NonZeroU16 {
    #[verifier::type_invariant]
    spec fn inv(self) -> bool {
        self.value != 0
    }

    /// The integer held.
    pub closed spec fn spec_get(self) -> u16 {
        self.value
    }

    /// Wraps `n`, or gives `None` when `n` is zero.
    pub fn new(n: u16) -> (r: Option<Self>)
        ensures
            r is Some <==> n != 0,
            r matches Some(z) ==> z.get() == n,
    {
        if n != 0 {
            Some(NonZeroU16 { value: n })
        } else {
            None
        }
    }

    /// The integer held, which is not zero.
    #[verifier::when_used_as_spec(spec_get)]
    pub fn get(self) -> (r: u16)
        ensures
            r == self.get(),
            r != 0,
    {
        proof {
            use_type_invariant(&self);
        }
        self.value
    }
}

impl Ext for NonZeroU16 {
    open spec fn value(self) -> int {
        self.get() as int
    }

    proof fn lemma_value_injective(a: Self, b: Self) {
    }

    fn compare(&self, other: &Self) -> (o: Ordering) {
        if self.value < other.value {
            Ordering::Less
        } else if self.value == other.value {
            Ordering::Equal
        } else {
            Ordering::Greater
        }
    }
}

/// A `u32` that is never zero.
#[derive(Clone, Copy, Debug, PartialEq, Eq, Structural, PartialOrd, Ord, Hash)]
pub struct NonZeroU32 {
    value: u32,
}

impl NonZeroU32 {
    #[verifier::type_invariant]
    spec fn inv(self) -> bool {
        self.value != 0
    }

    /// The integer held.
    pub closed spec fn spec_get(self) -> u32 {
        self.value
    }

    /// Wraps `n`, or gives `None` when `n` is zero.
    pub fn new(n: u32) -> (r: Option<Self>)
        ensures
            r is Some <==> n != 0,
            r matches Some(z) ==> z.get() == n,
    {
        if n != 0 {
            Some(NonZeroU32 { value: n })
        } else {
            None
        }
    }

    /// The integer held, which is not zero.
    #[verifier::when_used_as_spec(spec_get)]
    pub fn get(self) -> (r: u32)
        ensures
            r == self.get(),
            r != 0,
    {
        proof {
            use_type_invariant(&self);
        }
        self.value
    }
}

impl Ext for NonZeroU32 {
    open spec fn value(self) -> int {
        self.get() as int
    }

    proof fn lemma_value_injective(a: Self, b: Self) {
    }

    fn compare(&self, other: &Self) -> (o: Ordering) {
        if self.value < other.value {
            Ordering::Less
        } else if self.value == other.value {
            Ordering::Equal
        } else {
            Ordering::Greater
        }
    }
}

/// A `u64` that is never zero.
#[derive(Clone, Copy, Debug, PartialEq, Eq, Structural, PartialOrd, Ord, Hash)]
pub struct NonZeroU64 {
    value: u64,
}

impl NonZeroU64 {
    #[verifier::type_invariant]
    spec fn inv(self) -> bool {
        self.value != 0
    }

    /// The integer held.
    pub closed spec fn spec_get(self) -> u64 {
        self.value
    }

    /// Wraps `n`, or gives `None` when `n` is zero.
    pub fn new(n: u64) -> (r: Option<Self>)
        ensures
            r is Some <==> n != 0,
            r matches Some(z) ==> z.get() == n,
    {
        if n != 0 {
            Some(NonZeroU64 { value: n })
        } else {
            None
        }
    }

    /// The integer held, which is not zero.
    #[verifier::when_used_as_spec(spec_get)]
    pub fn get(self) -> (r: u64)
        ensures
            r == self.get(),
            r != 0,
    {
        proof {
            use_type_invariant(&self);
        }
        self.value
    }
}

impl Ext for NonZeroU64 {
    open spec fn value(self) -> int {
        self.get() as int
    }

    proof fn lemma_value_injective(a: Self, b: Self) {
    }

    fn compare(&self, other: &Self) -> (o: Ordering) {
        if self.value < other.value {
            Ordering::Less
        } else if self.value == other.value {
            Ordering::Equal
        } else {
            Ordering::Greater
        }
    }
}

/// A `u128` that is never zero.
#[derive(Clone, Copy, Debug, PartialEq, Eq, Structural, PartialOrd, Ord, Hash)]
pub struct NonZeroU128 {
    value: u128,
}

impl NonZeroU128 {
    #[verifier::type_invariant]
    spec fn inv(self) -> bool {
        self.value != 0
    }

    /// The integer held.
    pub closed spec fn spec_get(self) -> u128 {
        self.value
    }

    /// Wraps `n`, or gives `None` when `n` is zero.
    pub fn new(n: u128) -> (r: Option<Self>)
        ensures
            r is Some <==> n != 0,
            r matches Some(z) ==> z.get() == n,
    {
        if n != 0 {
            Some(NonZeroU128 { value: n })
        } else {
            None
        }
    }

    /// The integer held, which is not zero.
    #[verifier::when_used_as_spec(spec_get)]
    pub fn get(self) -> (r: u128)
        ensures
            r == self.get(),
            r != 0,
    {
        proof {
            use_type_invariant(&self);
        }
        self.value
    }
}

impl Ext for NonZeroU128 {
    open spec fn value(self) -> int {
        self.get() as int
    }

    proof fn lemma_value_injective(a: Self, b: Self) {
    }

    fn compare(&self, other: &Self) -> (o: Ordering) {
        if self.value < other.value {
            Ordering::Less
        } else if self.value == other.value {
            Ordering::Equal
        } else {
            Ordering::Greater
        }
    }
}

/// A `usize` that is never zero.
#[derive(Clone, Copy, Debug, PartialEq, Eq, Structural, PartialOrd, Ord, Hash)]
pub struct NonZeroUsize {
    value: usize,
}

impl NonZeroUsize {
    #[verifier::type_invariant]
    spec fn inv(self) -> bool {
        self.value != 0
    }

    /// The integer held.
    pub closed spec fn spec_get(self) -> usize {
        self.value
    }

    /// Wraps `n`, or gives `None` when `n` is zero.
    pub fn new(n: usize) -> (r: Option<Self>)
        ensures
            r is Some <==> n != 0,
            r matches Some(z) ==> z.get() == n,
    {
        if n != 0 {
            Some(NonZeroUsize { value: n })
        } else {
            None
        }
    }

    /// The integer held, which is not zero.
    #[verifier::when_used_as_spec(spec_get)]
    pub fn get(self) -> (r: usize)
        ensures
            r == self.get(),
            r != 0,
    {
        proof {
            use_type_invariant(&self);
        }
        self.value
    }
}

impl Ext for NonZeroUsize {
    open spec fn value(self) -> int {
        self.get() as int
    }

    proof fn lemma_value_injective(a: Self, b: Self) {
    }

    fn compare(&self, other: &Self) -> (o: Ordering) {
        if self.value < other.value {
            Ordering::Less
        } else if self.value == other.value {
            Ordering::Equal
        } else {
            Ordering::Greater
        }
    }
}

} // verus!
