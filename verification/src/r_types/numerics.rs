//! R's double vectors. Their elements are held by their 64-bit patterns, so
//! that every check here is exact; turning a pattern into a double is left to
//! the caller.
use vstd::prelude::*;
use vstd::slice::slice_to_vec;

use crate::interface_traits::{Infalliable, IntoR, TryFromR};
use crate::internals::sexpr::{
    classify_vector, fresh_of_kind, is_fresh_header, link_wf, InvalidSexpType, SexpHeaderInfo, spec_classify_vector, SexpType, Sexpr, Sxp, VectorCheck,
};
use crate::r_types::integers::msg_view;
use crate::r_types::Rbox;

verus! {

/// An R double vector: the bit patterns of its elements.
pub struct NumericVector {
    sxpinfo: SexpHeaderInfo,
    attrib: usize,
    data: Vec<u64>,
}

impl View for NumericVector {
    type V = Seq<u64>;

    closed spec fn view(&self) -> Seq<u64> {
        self.data@
    }
}

/// The element bits of the double vector behind a link that is one.
pub open spec fn real_payload(s: &Sexpr) -> Seq<u64> {
    match s.sxp {
        Sxp::Real(v) => v@,
        _ => Seq::empty(),
    }
}

/// The element bits of the double vector behind `r`, or why there is none.
pub open spec fn real_vector_result(r: Option<&Sexpr>) -> Result<Seq<u64>, Seq<char>> {
    match spec_classify_vector(r, SexpType::Real) {
        VectorCheck::Null => Err("Argument is a null pointer"@),
        VectorCheck::AltRep => Err("Argument is alt rep"@),
        VectorCheck::WrongType => Err("Argument is not a Numeric vector"@),
        VectorCheck::Matches => Ok(real_payload(r.unwrap())),
    }
}

/// The bits of the single element of the double vector behind `r`, or why
/// there is none.
pub open spec fn real_scalar_result(r: Option<&Sexpr>) -> Result<u64, Seq<char>> {
    match real_vector_result(r) {
        Err(e) => Err(e),
        Ok(d) => if d.len() == 1 {
            Ok(d[0])
        } else {
            Err("Was expecting a numeric vector of size 1"@)
        },
    }
}

impl NumericVector {
    /// The header of the vector's object.
    pub closed spec fn spec_sxpinfo(&self) -> SexpHeaderInfo {
        self.sxpinfo
    }

    /// The address of the vector's attribute list.
    pub closed spec fn spec_attrib(&self) -> usize {
        self.attrib
    }

    /// A new vector holding `data`, with the header R gives a new vector of
    /// its kind and no attributes.
    pub fn from_bits(data: Vec<u64>) -> (r: NumericVector)
        ensures
            r@ == data@,
            is_fresh_header(r.spec_sxpinfo(), SexpType::Real),
            r.spec_attrib() == 0,
    {
        NumericVector { sxpinfo: SexpHeaderInfo::fresh(SexpType::Real), attrib: 0, data: data }
    }

    /// The vector of an object with header `sxpinfo`, attribute link `attrib`
    /// and elements `data`.
    pub fn from_parts(sxpinfo: SexpHeaderInfo, attrib: usize, data: Vec<u64>) -> (r: NumericVector)
        requires
            sxpinfo.spec_sexp_type() == Ok::<SexpType, InvalidSexpType>(SexpType::Real),
            !sxpinfo.spec_alt(),
        ensures
            r@ == data@,
            r.spec_sxpinfo() == sxpinfo,
            r.spec_attrib() == attrib,
    {
        NumericVector { sxpinfo, attrib, data: data }
    }

    /// The header of the vector's object.
    pub fn sxpinfo(&self) -> (r: SexpHeaderInfo)
        ensures
            r == self.spec_sxpinfo(),
    {
        self.sxpinfo
    }

    /// The address of the vector's attribute list.
    pub fn attrib(&self) -> (r: usize)
        ensures
            r == self.spec_attrib(),
    {
        self.attrib
    }

    /// A new double vector of `size` elements, all `0.0`.
    pub fn new_rboxed_with_size(size: isize) -> (r: Rbox<Self>)
        requires
            size >= 0,
        ensures
            r.spec_inner()@ == Seq::new(size as nat, |_i: int| 0u64),
            is_fresh_header(r.spec_inner().spec_sxpinfo(), SexpType::Real),
            r.spec_inner().spec_attrib() == 0,
    {
        Rbox::<Self>::new_with_size(size)
    }

    /// The bit patterns of the elements.
    pub fn as_bits_slice(&self) -> (r: &[u64])
        ensures
            r@ == self@,
    {
        self.data.as_slice()
    }

    /// The bit patterns of the elements, for writing.
    pub fn as_bits_mut_slice(&mut self) -> (r: &mut [u64])
        ensures
            r@ == old(self)@,
            final(r)@ == final(self)@,
            final(self).spec_sxpinfo() == old(self).spec_sxpinfo(),
            final(self).spec_attrib() == old(self).spec_attrib(),
    {
        self.data.as_mut_slice()
    }
}

impl<'a> TryFromR<'a> for &'a NumericVector {
    type Error = &'static str;

    open spec fn accepts(r: Option<&'a Sexpr>) -> bool {
        link_wf(r)
    }

    fn try_from_r(r: Option<&'a Sexpr>) -> (res: Result<&'a NumericVector, &'static str>)
        ensures
            match res {
                Ok(v) => real_vector_result(r) == Ok::<Seq<u64>, Seq<char>>(v@) && r.unwrap().sxp
                    == Sxp::Real(*v),
                Err(e) => real_vector_result(r) == Err::<Seq<u64>, Seq<char>>(e@),
            },
    {
        match classify_vector(r, SexpType::Real) {
            VectorCheck::Null => Err("Argument is a null pointer"),
            VectorCheck::AltRep => Err("Argument is alt rep"),
            VectorCheck::WrongType => Err("Argument is not a Numeric vector"),
            VectorCheck::Matches => match r {
                Some(s) => match &s.sxp {
                    Sxp::Real(v) => Ok(v),
                    _ => {
                        proof {
                            assert(false);
                        }
                        Err("Argument is not a Numeric vector")
                    },
                },
                None => {
                    proof {
                        assert(false);
                    }
                    Err("Argument is a null pointer")
                },
            },
        }
    }
}

/// The bits of the single double that the object behind `r` holds, or why
/// it holds none: the check of a conversion of an R object into a double.
pub fn real_bits_try_from_r(r: Option<&Sexpr>) -> (res: Result<u64, &'static str>)
    requires
        link_wf(r),
    ensures
        msg_view(res) == real_scalar_result(r),
{
    match <&NumericVector as TryFromR>::try_from_r(r) {
        Ok(nv) => {
            let slice = nv.as_bits_slice();
            if slice.len() == 1 {
                Ok(slice[0])
            } else {
                Err("Was expecting a numeric vector of size 1")
            }
        },
        Err(e) => Err(e),
    }
}

/// The object of the vector: its own header and attribute link, and its
/// elements.
impl<'a> IntoR for &'a NumericVector {
    open spec fn represented_by(&self, s: Sexpr) -> bool {
        &&& s.sxpinfo == self.spec_sxpinfo()
        &&& s.attrib == self.spec_attrib()
        &&& s.sxp matches Sxp::Real(v) && v@ == self@ && v.spec_sxpinfo() == self.spec_sxpinfo()
            && v.spec_attrib() == self.spec_attrib()
    }

    fn into_r(self) -> (r: Sexpr) {
        let v = NumericVector { sxpinfo: self.sxpinfo, attrib: self.attrib, data: slice_to_vec(self.data.as_slice()) };
        Sexpr::new(self.sxpinfo, self.attrib, Sxp::Real(v))
    }
}

/// A new double vector holding the single double with bits `bits`: the
/// conversion of a double into an R object.
pub fn real_bits_try_into_r(bits: u64) -> (res: Result<Sexpr, Infalliable>)
    ensures
        res matches Ok(s) && fresh_of_kind(s, SexpType::Real) && s.wf() && real_vector_result(Some(&s)) == Ok::<Seq<u64>, Seq<char>>(
            seq![bits],
        ),
{
    let mut vec = NumericVector::new_rboxed_with_size(1);
    vec.as_bits_mut_slice()[0] = bits;
    let r = (&*vec).into_r();
    assert(real_payload(&r) =~= seq![bits]);
    Ok(r)
}

} // verus!
