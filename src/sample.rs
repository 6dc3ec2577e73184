use vstd::prelude::*;

verus! {

/// An integer sample kind that an aggregate meter can summarise.
///
/// Every sample stands for a mathematical integer (`value`). The type's bounds
/// seed the pending extremes of a batch, so that the first sample replaces them.
pub trait Sample: Copy + Sized {
    /// The integer this sample stands for.
    spec fn value(self) -> int;

    /// The smallest value of the type.
    spec fn lowest() -> int;

    /// The largest value of the type.
    spec fn highest() -> int;

    /// Every sample lies between the type's bounds, and the bounds fit in 64 bits.
    proof fn lemma_in_bounds(self)
        ensures
            Self::lowest() <= self.value() <= Self::highest(),
            i64::MIN <= Self::lowest() <= 0,
            0 < Self::highest() <= u64::MAX,
    ;

    /// The sample as a wide integer, exactly.
    fn widen(&self) -> (r: i128)
        ensures
            r == self.value(),
    ;

    /// The smallest sample of the type.
    fn min_value() -> (r: Self)
        ensures
            r.value() == Self::lowest(),
    ;

    /// The largest sample of the type.
    fn max_value() -> (r: Self)
        ensures
            r.value() == Self::highest(),
    ;
}

impl Sample for i8 {
    open spec fn value(self) -> int {
        self as int
    }

    open spec fn lowest() -> int {
        i8::MIN as int
    }

    open spec fn highest() -> int {
        i8::MAX as int
    }

    proof fn lemma_in_bounds(self) {
    }

    fn widen(&self) -> (r: i128) {
        *self as i128
    }

    fn min_value() -> (r: Self) {
        i8::MIN
    }

    fn max_value() -> (r: Self) {
        i8::MAX
    }
}

impl Sample for i16 {
    open spec fn value(self) -> int {
        self as int
    }

    open spec fn lowest() -> int {
        i16::MIN as int
    }

    open spec fn highest() -> int {
        i16::MAX as int
    }

    proof fn lemma_in_bounds(self) {
    }

    fn widen(&self) -> (r: i128) {
        *self as i128
    }

    fn min_value() -> (r: Self) {
        i16::MIN
    }

    fn max_value() -> (r: Self) {
        i16::MAX
    }
}

impl Sample for i32 {
    open spec fn value(self) -> int {
        self as int
    }

    open spec fn lowest() -> int {
        i32::MIN as int
    }

    open spec fn highest() -> int {
        i32::MAX as int
    }

    proof fn lemma_in_bounds(self) {
    }

    fn widen(&self) -> (r: i128) {
        *self as i128
    }

    fn min_value() -> (r: Self) {
        i32::MIN
    }

    fn max_value() -> (r: Self) {
        i32::MAX
    }
}

impl Sample for i64 {
    open spec fn value(self) -> int {
        self as int
    }

    open spec fn lowest() -> int {
        i64::MIN as int
    }

    open spec fn highest() -> int {
        i64::MAX as int
    }

    proof fn lemma_in_bounds(self) {
    }

    fn widen(&self) -> (r: i128) {
        *self as i128
    }

    fn min_value() -> (r: Self) {
        i64::MIN
    }

    fn max_value() -> (r: Self) {
        i64::MAX
    }
}

impl Sample for u8 {
    open spec fn value(self) -> int {
        self as int
    }

    open spec fn lowest() -> int {
        u8::MIN as int
    }

    open spec fn highest() -> int {
        u8::MAX as int
    }

    proof fn lemma_in_bounds(self) {
    }

    fn widen(&self) -> (r: i128) {
        *self as i128
    }

    fn min_value() -> (r: Self) {
        u8::MIN
    }

    fn max_value() -> (r: Self) {
        u8::MAX
    }
}

impl Sample for u16 {
    open spec fn value(self) -> int {
        self as int
    }

    open spec fn lowest() -> int {
        u16::MIN as int
    }

    open spec fn highest() -> int {
        u16::MAX as int
    }

    proof fn lemma_in_bounds(self) {
    }

    fn widen(&self) -> (r: i128) {
        *self as i128
    }

    fn min_value() -> (r: Self) {
        u16::MIN
    }

    fn max_value() -> (r: Self) {
        u16::MAX
    }
}

impl Sample for u32 {
    open spec fn value(self) -> int {
        self as int
    }

    open spec fn lowest() -> int {
        u32::MIN as int
    }

    open spec fn highest() -> int {
        u32::MAX as int
    }

    proof fn lemma_in_bounds(self) {
    }

    fn widen(&self) -> (r: i128) {
        *self as i128
    }

    fn min_value() -> (r: Self) {
        u32::MIN
    }

    fn max_value() -> (r: Self) {
        u32::MAX
    }
}

impl Sample for u64 {
    open spec fn value(self) -> int {
        self as int
    }

    open spec fn lowest() -> int {
        u64::MIN as int
    }

    open spec fn highest() -> int {
        u64::MAX as int
    }

    proof fn lemma_in_bounds(self) {
    }

    fn widen(&self) -> (r: i128) {
        *self as i128
    }

    fn min_value() -> (r: Self) {
        u64::MIN
    }

    fn max_value() -> (r: Self) {
        u64::MAX
    }
}

} // verus!
