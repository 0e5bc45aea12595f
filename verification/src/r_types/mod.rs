//! R's vector types and the box that owns a freshly allocated one.
use vstd::prelude::*;

use crate::internals::sexpr::{is_fresh_header, SexpType};

use crate::r_types::integers::IntegerVector;
use crate::r_types::logicals::LogicalVector;
use crate::r_types::numerics::NumericVector;
use crate::r_types::strings::{CharacterVector, RString};

pub mod integers;
pub mod logicals;
pub mod numerics;
pub mod strings;

verus! {

/// Owner of a freshly allocated R vector, kept alive while the box lives.
pub struct Rbox<T> {
    inner: T,
}

impl<T> Rbox<T> {
    /// The vector the box owns.
    pub closed spec fn spec_inner(&self) -> T {
        self.inner
    }

    /// Gives up the box, handing out the vector it owns.
    pub fn into_inner(self) -> (r: T)
        ensures
            r == self.spec_inner(),
    {
        self.inner
    }
}

impl<T> core::ops::Deref for Rbox<T> {
    type Target = T;

    fn deref(&self) -> (r: &T)
        ensures
            *r == self.spec_inner(),
    {
        &self.inner
    }
}

impl<T> core::ops::DerefMut for Rbox<T> {
    fn deref_mut(&mut self) -> (r: &mut T)
        ensures
            *r == old(self).spec_inner(),
            *final(r) == final(self).spec_inner(),
    {
        &mut self.inner
    }
}

/// `n` zeros.
fn zeros<T: Copy>(n: usize, zero: T) -> (r: Vec<T>)
    ensures
        r@ == Seq::new(n as nat, |_i: int| zero),
{
    let mut v: Vec<T> = Vec::new();
    while v.len() < n
        invariant
            v.len() <= n,
            v@ == Seq::new(v.len() as nat, |_i: int| zero),
        decreases n - v.len(),
    {
        v.push(zero);
    }
    v
}

impl Rbox<NumericVector> {
    /// A new double vector of `size` elements, all with bits zero (`0.0`).
    pub fn new_with_size(size: isize) -> (r: Self)
        requires
            size >= 0,
        ensures
            r.spec_inner()@ == Seq::new(size as nat, |_i: int| 0u64),
            is_fresh_header(r.spec_inner().spec_sxpinfo(), SexpType::Real),
            r.spec_inner().spec_attrib() == 0,
    {
        Rbox { inner: NumericVector::from_bits(zeros(size as usize, 0u64)) }
    }
}

impl Rbox<IntegerVector> {
    /// A new integer vector of `size` zeros.
    pub fn new_with_size(size: isize) -> (r: Self)
        requires
            size >= 0,
        ensures
            r.spec_inner()@ == Seq::new(size as nat, |_i: int| 0i32),
            is_fresh_header(r.spec_inner().spec_sxpinfo(), SexpType::Int),
            r.spec_inner().spec_attrib() == 0,
    {
        Rbox { inner: IntegerVector::from_raw(zeros(size as usize, 0i32)) }
    }
}

impl Rbox<LogicalVector> {
    /// A new logical vector of `size` elements, all `FALSE` (stored as 0).
    pub fn new_with_size(size: isize) -> (r: Self)
        requires
            size >= 0,
        ensures
            r.spec_inner()@ == Seq::new(size as nat, |_i: int| 0i32),
            is_fresh_header(r.spec_inner().spec_sxpinfo(), SexpType::Lgl),
            r.spec_inner().spec_attrib() == 0,
    {
        Rbox { inner: LogicalVector::from_raw(zeros(size as usize, 0i32)) }
    }
}

impl Rbox<CharacterVector> {
    /// A new character vector of `size` elements, all the empty string.
    pub fn new_with_size(size: isize) -> (r: Self)
        requires
            size >= 0,
        ensures
            r.spec_inner()@ == Seq::new(size as nat, |_i: int| (false, Seq::<u8>::empty())),
            is_fresh_header(r.spec_inner().spec_sxpinfo(), SexpType::Str),
            r.spec_inner().spec_attrib() == 0,
    {
        let n = size as usize;
        let mut v: Vec<RString> = Vec::new();
        while v.len() < n
            invariant
                v.len() <= n,
                forall|i: int| 0 <= i < v.len() ==> #[trigger] v@[i]@ == (false, Seq::<u8>::empty()),
            decreases n - v.len(),
        {
            v.push(RString::blank());
        }
        let r = Rbox { inner: CharacterVector::from_strings(v) };
        assert(r.spec_inner()@ =~= Seq::new(size as nat, |_i: int| (false, Seq::<u8>::empty())));
        r
    }
}

} // verus!
