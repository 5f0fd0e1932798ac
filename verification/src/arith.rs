use vstd::prelude::*;
use crate::error::ErrorCode;

verus! {

/// A fixed-width unsigned integer with addition and subtraction that report
/// leaving the range `[0, MAX]` instead of wrapping.
pub trait Unsigned: Copy + Sized {
    /// The mathematical value of the integer.
    spec fn value(self) -> int;

    /// The largest value of the type.
    spec fn max_value() -> int;

    /// The sum, or `None` when it exceeds the largest value.
    fn add_checked(self, rhs: Self) -> (r: Option<Self>)
        ensures
            r is Some <==> self.value() + rhs.value() <= Self::max_value(),
            r matches Some(v) ==> v.value() == self.value() + rhs.value(),
    ;

    /// The difference, or `None` when it is negative.
    fn sub_checked(self, rhs: Self) -> (r: Option<Self>)
        ensures
            r is Some <==> self.value() >= rhs.value(),
            r matches Some(v) ==> v.value() == self.value() - rhs.value(),
    ;
}

impl Unsigned for u8 {
    open spec fn value(self) -> int {
        self as int
    }

    open spec fn max_value() -> int {
        u8::MAX as int
    }

    fn add_checked(self, rhs: u8) -> (r: Option<u8>) {
        self.checked_add(rhs)
    }

    fn sub_checked(self, rhs: u8) -> (r: Option<u8>) {
        self.checked_sub(rhs)
    }
}

impl Unsigned for u16 {
    open spec fn value(self) -> int {
        self as int
    }

    open spec fn max_value() -> int {
        u16::MAX as int
    }

    fn add_checked(self, rhs: u16) -> (r: Option<u16>) {
        self.checked_add(rhs)
    }

    fn sub_checked(self, rhs: u16) -> (r: Option<u16>) {
        self.checked_sub(rhs)
    }
}

impl Unsigned for u32 {
    open spec fn value(self) -> int {
        self as int
    }

    open spec fn max_value() -> int {
        u32::MAX as int
    }

    fn add_checked(self, rhs: u32) -> (r: Option<u32>) {
        self.checked_add(rhs)
    }

    fn sub_checked(self, rhs: u32) -> (r: Option<u32>) {
        self.checked_sub(rhs)
    }
}

impl Unsigned for u64 {
    open spec fn value(self) -> int {
        self as int
    }

    open spec fn max_value() -> int {
        u64::MAX as int
    }

    fn add_checked(self, rhs: u64) -> (r: Option<u64>) {
        self.checked_add(rhs)
    }

    fn sub_checked(self, rhs: u64) -> (r: Option<u64>) {
        self.checked_sub(rhs)
    }
}

impl Unsigned for u128 {
    open spec fn value(self) -> int {
        self as int
    }

    open spec fn max_value() -> int {
        u128::MAX as int
    }

    fn add_checked(self, rhs: u128) -> (r: Option<u128>) {
        self.checked_add(rhs)
    }

    fn sub_checked(self, rhs: u128) -> (r: Option<u128>) {
        self.checked_sub(rhs)
    }
}

/// Adds two integers, failing with `ArithmeticOverflow` exactly when the
/// mathematical sum does not fit the type.
pub fn checked_add<T: Unsigned>(a: T, b: T) -> (r: Result<T, ErrorCode>)
    ensures
        r is Ok <==> a.value() + b.value() <= T::max_value(),
        r matches Ok(v) ==> v.value() == a.value() + b.value(),
        r matches Err(e) ==> e == ErrorCode::ArithmeticOverflow,
{
    match a.add_checked(b) {
        Some(v) => Ok(v),
        None => Err(ErrorCode::ArithmeticOverflow),
    }
}

/// Subtracts `b` from `a`, failing with `ArithmeticUnderflow` exactly when
/// the mathematical difference is negative.
pub fn checked_sub<T: Unsigned>(a: T, b: T) -> (r: Result<T, ErrorCode>)
    ensures
        r is Ok <==> a.value() >= b.value(),
        r matches Ok(v) ==> v.value() == a.value() - b.value(),
        r matches Err(e) ==> e == ErrorCode::ArithmeticUnderflow,
{
    match a.sub_checked(b) {
        Some(v) => Ok(v),
        None => Err(ErrorCode::ArithmeticUnderflow),
    }
}

} // verus!
