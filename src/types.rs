use vstd::prelude::*;

verus! {

/// Index of a half-edge of a mesh, as the kernel numbers them.
pub type HalfEdgeIndex = usize;

/// Integer scalar types that the validated wrappers can hold.
pub trait Scalar: Copy {
    /// The mathematical value of the scalar.
    spec fn as_int(self) -> int;

    fn is_positive(&self) -> (r: bool)
        ensures
            r == (self.as_int() > 0),
    ;

    fn is_non_negative(&self) -> (r: bool)
        ensures
            r == (self.as_int() >= 0),
    ;
}

impl Scalar for i32 {
    open spec fn as_int(self) -> int {
        self as int
    }

    fn is_positive(&self) -> (r: bool) {
        *self > 0
    }

    fn is_non_negative(&self) -> (r: bool) {
        *self >= 0
    }
}

/// Why a value was refused as a positive number.
#[derive(Debug, Clone, Copy, PartialEq, Eq, Structural)]
pub enum PositiveNumError {
    NonPositiveValue,
}

/// A number that is greater than zero.
#[derive(Debug, Copy, PartialEq, Eq)]
pub struct PositiveNum<T: Scalar>(T);

impl<T: Scalar> PositiveNum<T> {
    #[verifier::type_invariant]
    spec fn is_positive(self) -> bool {
        self.0.as_int() > 0
    }

    pub closed spec fn value(self) -> T {
        self.0
    }

    pub fn new(value: T) -> (r: Result<Self, PositiveNumError>)
        ensures
            value.as_int() > 0 <==> r is Ok,
            r matches Ok(n) ==> n.value() == value,
            r matches Err(e) ==> e == PositiveNumError::NonPositiveValue,
    {
        if !value.is_positive() {
            return Err(PositiveNumError::NonPositiveValue);
        }
        Ok(PositiveNum(value))
    }

    pub fn get(&self) -> (r: T)
        ensures
            r == self.value(),
            r.as_int() > 0,
    {
        proof { use_type_invariant(self); }
        self.0
    }
}

impl<T: Scalar> Clone for PositiveNum<T> {
    fn clone(&self) -> (r: Self)
        ensures
            r == *self,
    {
        *self
    }
}

pub type PositiveI32 = PositiveNum<i32>;

impl From<PositiveNum<i32>> for i32 {
    fn from(value: PositiveNum<i32>) -> (r: i32) {
        value.get()
    }
}

impl vstd::std_specs::convert::FromSpecImpl<PositiveNum<i32>> for i32 {
    open spec fn obeys_from_spec() -> bool {
        true
    }

    open spec fn from_spec(v: PositiveNum<i32>) -> i32 {
        v.value()
    }
}

/// Why a value was refused as a non-negative number.
#[derive(Debug, Clone, Copy, PartialEq, Eq, Structural)]
pub enum NonNegativeNumError {
    NonPositiveValue,
}

/// A number that is zero or greater.
#[derive(Debug, Copy, PartialEq, Eq)]
pub struct NonNegativeNum<T: Scalar>(T);

impl<T: Scalar> NonNegativeNum<T> {
    #[verifier::type_invariant]
    spec fn is_non_negative(self) -> bool {
        self.0.as_int() >= 0
    }

    pub closed spec fn value(self) -> T {
        self.0
    }

    pub fn new(value: T) -> (r: Result<Self, NonNegativeNumError>)
        ensures
            value.as_int() >= 0 <==> r is Ok,
            r matches Ok(n) ==> n.value() == value,
            r matches Err(e) ==> e == NonNegativeNumError::NonPositiveValue,
    {
        if !value.is_non_negative() {
            return Err(NonNegativeNumError::NonPositiveValue);
        }
        Ok(NonNegativeNum(value))
    }

    pub fn get(&self) -> (r: T)
        ensures
            r == self.value(),
            r.as_int() >= 0,
    {
        proof { use_type_invariant(self); }
        self.0
    }
}

impl<T: Scalar> Clone for NonNegativeNum<T> {
    fn clone(&self) -> (r: Self)
        ensures
            r == *self,
    {
        *self
    }
}

pub type NonNegativeI32 = NonNegativeNum<i32>;

impl From<NonNegativeNum<i32>> for i32 {
    fn from(value: NonNegativeNum<i32>) -> (r: i32) {
        value.get()
    }
}

impl vstd::std_specs::convert::FromSpecImpl<NonNegativeNum<i32>> for i32 {
    open spec fn obeys_from_spec() -> bool {
        true
    }

    open spec fn from_spec(v: NonNegativeNum<i32>) -> i32 {
        v.value()
    }
}

impl From<u8> for NonNegativeNum<i32> {
    fn from(value: u8) -> (r: NonNegativeNum<i32>)
        ensures
            r.value() == value as i32,
    {
        NonNegativeNum(value as i32)
    }
}

impl vstd::std_specs::convert::FromSpecImpl<u8> for NonNegativeNum<i32> {
    open spec fn obeys_from_spec() -> bool {
        true
    }

    closed spec fn from_spec(v: u8) -> NonNegativeNum<i32> {
        NonNegativeNum(v as i32)
    }
}

impl From<u16> for NonNegativeNum<i32> {
    fn from(value: u16) -> (r: NonNegativeNum<i32>)
        ensures
            r.value() == value as i32,
    {
        NonNegativeNum(value as i32)
    }
}

impl vstd::std_specs::convert::FromSpecImpl<u16> for NonNegativeNum<i32> {
    open spec fn obeys_from_spec() -> bool {
        true
    }

    closed spec fn from_spec(v: u16) -> NonNegativeNum<i32> {
        NonNegativeNum(v as i32)
    }
}

} // verus!
