//! Conversions between R objects and Rust values.
use crate::internals::sexpr::Sexpr;
use vstd::prelude::*;

verus! {

/// Conversion of a (possibly null) R object into a Rust value that fails with
/// an error value when the object does not have the expected shape.
pub trait TryFromR<'a>: Sized {
    type Error;

    /// The objects on which the conversion is defined.
    spec fn accepts(r: Option<&'a Sexpr>) -> bool;

    fn try_from_r(r: Option<&'a Sexpr>) -> Result<Self, Self::Error>
        requires
            Self::accepts(r),
    ;
}

/// Conversion of a Rust value into a new R object that may fail.
pub trait TryIntoR: Sized {
    type Error;

    /// The values on which the conversion is defined.
    spec fn convertible(&self) -> bool;

    fn try_into_r(self) -> Result<Sexpr, Self::Error>
        requires
            self.convertible(),
    ;
}

/// Conversion of a Rust value into an R object that cannot fail.
pub trait IntoR: Sized {
    /// Whether `s` is an object that stands for the value.
    spec fn represented_by(&self, s: Sexpr) -> bool;

    fn into_r(self) -> (r: Sexpr)
        ensures
            self.represented_by(r),
    ;
}

/// The error of a conversion that cannot fail; it prints as nothing.
pub struct Infalliable {}

impl Infalliable {
    /// The printed form: the empty string.
    pub fn to_string(&self) -> (r: String)
        ensures
            r@ == Seq::<char>::empty(),
    {
        String::new()
    }
}

/// A conversion that cannot fail: it always succeeds, with the object that
/// `into_r` gives for the value.
impl<T: IntoR> TryIntoR for T {
    type Error = Infalliable;

    open spec fn convertible(&self) -> bool {
        true
    }

    fn try_into_r(self) -> (r: Result<Sexpr, Infalliable>)
        ensures
            r matches Ok(s) && call_ensures(T::into_r, (self,), s) && self.represented_by(s),
    {
        Ok(self.into_r())
    }
}

/// A type with a distinguished missing value, R's `NA`.
pub trait Na: Sized {
    /// Whether the value is the missing value.
    spec fn spec_is_na(&self) -> bool;

    /// The missing value.
    fn na() -> (r: Self)
        ensures
            r.spec_is_na(),
    ;

    /// Whether the value is the missing value.
    fn is_na(&self) -> (r: bool)
        ensures
            r == self.spec_is_na(),
    ;
}

} // verus!
