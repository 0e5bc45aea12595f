//! Conversions that cannot fail, as seen by R's calling convention.
use crate::internals::sexpr::Sexpr;
use vstd::prelude::*;

verus! {

/// Conversion of a (possibly null) R object into a Rust value, `None` when the
/// object does not fit.
pub trait FromR<'a>: Sized {
    fn from_r(r: Option<&'a Sexpr>) -> Option<Self>;
}

/// A Rust value that can be handed back to R as an object.
pub trait ReturnableToR {
    fn return_to_r(self) -> Sexpr;
}

} // verus!
