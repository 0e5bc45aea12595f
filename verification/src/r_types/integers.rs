//! R's integer vectors and their elements.
use vstd::prelude::*;
use vstd::slice::slice_to_vec;

use crate::interface_traits::{Infalliable, IntoR, Na, TryFromR, TryIntoR};
use crate::internals::c::R_NaInt;
use crate::internals::sexpr::{
    classify_vector, fresh_of_kind, is_fresh_header, link_wf, InvalidSexpType, SexpHeaderInfo, spec_classify_vector, SexpType, Sexpr, Sxp, VectorCheck,
};
use crate::r_types::Rbox;

verus! {

/// An R integer vector: the header and attribute link of its object, and
/// its elements as R stores them.
pub struct IntegerVector {
    sxpinfo: SexpHeaderInfo,
    attrib: usize,
    data: Vec<i32>,
}

impl View for IntegerVector {
    type V = Seq<i32>;

    closed spec fn view(&self) -> Seq<i32> {
        self.data@
    }
}

/// An element of an R integer vector; [`R_NaInt`] is NA.
#[derive(Clone, Copy)]
pub struct RInt {
    raw: i32,
}

impl View for RInt {
    type V = i32;

    closed spec fn view(&self) -> i32 {
        self.raw
    }
}

impl Na for RInt {
    open spec fn spec_is_na(&self) -> bool {
        self@ == R_NaInt
    }

    fn na() -> (r: RInt)
        ensures
            r@ == R_NaInt,
    {
        RInt { raw: R_NaInt }
    }

    fn is_na(&self) -> (r: bool) {
        self.raw == Self::na().raw
    }
}

impl RInt {
    /// The stored integer, NA included.
    pub fn as_i32_unchecked(self) -> (r: i32)
        ensures
            r == self@,
    {
        self.raw
    }

    /// The integer, `None` for NA.
    pub fn as_i32(self) -> (r: Option<i32>)
        ensures
            r == (if self@ == R_NaInt {
                None
            } else {
                Some(self@)
            }),
    {
        if self.is_na() {
            None
        } else {
            Some(self.raw)
        }
    }
}

/// The elements of the integer vector behind a link that is one.
pub open spec fn int_payload(s: &Sexpr) -> Seq<i32> {
    match s.sxp {
        Sxp::Int(v) => v@,
        _ => Seq::empty(),
    }
}

/// The elements of the integer vector behind `r`, or why there is none.
pub open spec fn int_vector_result(r: Option<&Sexpr>) -> Result<Seq<i32>, Seq<char>> {
    match spec_classify_vector(r, SexpType::Int) {
        VectorCheck::Null => Err("Argument is a null pointer"@),
        VectorCheck::AltRep => Err("Argument is alt rep"@),
        VectorCheck::WrongType => Err("Argument is not a Integer vector"@),
        VectorCheck::Matches => Ok(int_payload(r.unwrap())),
    }
}

/// The single element of the integer vector behind `r`, or why there is none.
pub open spec fn int_scalar_result(r: Option<&Sexpr>) -> Result<i32, Seq<char>> {
    match int_vector_result(r) {
        Err(e) => Err(e),
        Ok(d) => if d.len() == 1 {
            Ok(d[0])
        } else {
            Err("Was expecting a Integer vector of size 1"@)
        },
    }
}

/// `res`, its error message taken by its characters.
pub open spec fn msg_view<T>(res: Result<T, &'static str>) -> Result<T, Seq<char>> {
    match res {
        Ok(v) => Ok(v),
        Err(e) => Err(e@),
    }
}

impl IntegerVector {
    /// The header of the vector's object.
    pub closed spec fn spec_sxpinfo(&self) -> SexpHeaderInfo {
        self.sxpinfo
    }

    /// The address of the vector's attribute list.
    pub closed spec fn spec_attrib(&self) -> usize {
        self.attrib
    }

    /// A new integer vector holding `data`, with the header R gives a new
    /// integer vector and no attributes.
    pub fn from_raw(data: Vec<i32>) -> (r: IntegerVector)
        ensures
            r@ == data@,
            is_fresh_header(r.spec_sxpinfo(), SexpType::Int),
            r.spec_attrib() == 0,
    {
        IntegerVector { sxpinfo: SexpHeaderInfo::fresh(SexpType::Int), attrib: 0, data }
    }

    /// The integer vector of an object with header `sxpinfo`, attribute link
    /// `attrib` and elements `data`.
    pub fn from_parts(sxpinfo: SexpHeaderInfo, attrib: usize, data: Vec<i32>) -> (r: IntegerVector)
        requires
            sxpinfo.spec_sexp_type() == Ok::<SexpType, InvalidSexpType>(SexpType::Int),
            !sxpinfo.spec_alt(),
        ensures
            r@ == data@,
            r.spec_sxpinfo() == sxpinfo,
            r.spec_attrib() == attrib,
    {
        IntegerVector { sxpinfo, attrib, data }
    }

    /// The header of the vector's object.
    pub fn sxpinfo(&self) -> (r: SexpHeaderInfo)
        ensures
            r == self.spec_sxpinfo(),
    {
        self.sxpinfo
    }

    /// The address of the vector's attribute list.
    pub fn attrib(&self) -> (r: usize)
        ensures
            r == self.spec_attrib(),
    {
        self.attrib
    }

    /// A new integer vector of `size` zeros.
    pub fn new_rboxed_with_size(size: isize) -> (r: Rbox<Self>)
        requires
            size >= 0,
        ensures
            r.spec_inner()@ == Seq::new(size as nat, |_i: int| 0i32),
            is_fresh_header(r.spec_inner().spec_sxpinfo(), SexpType::Int),
            r.spec_inner().spec_attrib() == 0,
    {
        Rbox::<Self>::new_with_size(size)
    }

    /// The elements.
    pub fn as_slice(&self) -> (r: Vec<RInt>)
        ensures
            r@.map_values(|x: RInt| x@) == self@,
    {
        let mut out: Vec<RInt> = Vec::new();
        let mut i: usize = 0;
        while i < self.data.len()
            invariant
                i <= self.data@.len(),
                out@.len() == i,
                forall|j: int| 0 <= j < i ==> #[trigger] out@[j]@ == self.data@[j],
            decreases self.data@.len() - i,
        {
            out.push(RInt { raw: self.data[i] });
            i = i + 1;
        }
        assert(out@.map_values(|x: RInt| x@) =~= self.data@);
        out
    }

    /// The elements as R stores them.
    pub fn as_raw_slice(&self) -> (r: &[i32])
        ensures
            r@ == self@,
    {
        self.data.as_slice()
    }

    /// Sets element `index` to `value`.
    pub fn set(&mut self, index: usize, value: RInt)
        requires
            index < old(self)@.len(),
        ensures
            final(self)@ == old(self)@.update(index as int, value@),
            final(self).spec_sxpinfo() == old(self).spec_sxpinfo(),
            final(self).spec_attrib() == old(self).spec_attrib(),
    {
        self.data.set(index, value.raw);
    }

    /// The elements as R stores them, for writing.
    pub fn as_raw_mut_slice(&mut self) -> (r: &mut [i32])
        ensures
            r@ == old(self)@,
            final(r)@ == final(self)@,
            final(self).spec_sxpinfo() == old(self).spec_sxpinfo(),
            final(self).spec_attrib() == old(self).spec_attrib(),
    {
        self.data.as_mut_slice()
    }
}

impl<'a> TryFromR<'a> for &'a IntegerVector {
    type Error = &'static str;

    open spec fn accepts(r: Option<&'a Sexpr>) -> bool {
        link_wf(r)
    }

    fn try_from_r(r: Option<&'a Sexpr>) -> (res: Result<&'a IntegerVector, &'static str>)
        ensures
            match res {
                Ok(v) => int_vector_result(r) == Ok::<Seq<i32>, Seq<char>>(v@) && r.unwrap().sxp
                    == Sxp::Int(*v),
                Err(e) => int_vector_result(r) == Err::<Seq<i32>, Seq<char>>(e@),
            },
    {
        match classify_vector(r, SexpType::Int) {
            VectorCheck::Null => Err("Argument is a null pointer"),
            VectorCheck::AltRep => Err("Argument is alt rep"),
            VectorCheck::WrongType => Err("Argument is not a Integer vector"),
            VectorCheck::Matches => match r {
                Some(s) => match &s.sxp {
                    Sxp::Int(v) => Ok(v),
                    _ => {
                        proof {
                            assert(false);
                        }
                        Err("Argument is not a Integer vector")
                    },
                },
                None => {
                    proof {
                        assert(false);
                    }
                    Err("Argument is a null pointer")
                },
            },
        }
    }
}

impl<'a> TryFromR<'a> for &'a [i32] {
    type Error = &'static str;

    open spec fn accepts(r: Option<&'a Sexpr>) -> bool {
        link_wf(r)
    }

    fn try_from_r(r: Option<&'a Sexpr>) -> (res: Result<&'a [i32], &'static str>)
        ensures
            match res {
                Ok(v) => int_vector_result(r) == Ok::<Seq<i32>, Seq<char>>(v@),
                Err(e) => int_vector_result(r) == Err::<Seq<i32>, Seq<char>>(e@),
            },
    {
        match <&IntegerVector as TryFromR>::try_from_r(r) {
            Ok(nv) => Ok(nv.as_raw_slice()),
            Err(e) => Err(e),
        }
    }
}

impl<'a> TryFromR<'a> for Vec<RInt> {
    type Error = &'static str;

    open spec fn accepts(r: Option<&'a Sexpr>) -> bool {
        link_wf(r)
    }

    fn try_from_r(r: Option<&'a Sexpr>) -> (res: Result<Vec<RInt>, &'static str>)
        ensures
            match res {
                Ok(v) => int_vector_result(r) == Ok::<Seq<i32>, Seq<char>>(
                    v@.map_values(|x: RInt| x@),
                ),
                Err(e) => int_vector_result(r) == Err::<Seq<i32>, Seq<char>>(e@),
            },
    {
        match <&IntegerVector as TryFromR>::try_from_r(r) {
            Ok(nv) => Ok(nv.as_slice()),
            Err(e) => Err(e),
        }
    }
}

impl<'a> TryFromR<'a> for i32 {
    type Error = &'static str;

    open spec fn accepts(r: Option<&'a Sexpr>) -> bool {
        link_wf(r)
    }

    fn try_from_r(r: Option<&'a Sexpr>) -> (res: Result<i32, &'static str>)
        ensures
            msg_view(res) == int_scalar_result(r),
    {
        match <&[i32] as TryFromR>::try_from_r(r) {
            Ok(slice) => if slice.len() == 1 {
                Ok(slice[0])
            } else {
                Err("Was expecting a Integer vector of size 1")
            },
            Err(e) => Err(e),
        }
    }
}

impl<'a> TryFromR<'a> for RInt {
    type Error = &'static str;

    open spec fn accepts(r: Option<&'a Sexpr>) -> bool {
        link_wf(r)
    }

    fn try_from_r(r: Option<&'a Sexpr>) -> (res: Result<RInt, &'static str>)
        ensures
            match res {
                Ok(x) => int_scalar_result(r) == Ok::<i32, Seq<char>>(x@),
                Err(e) => int_scalar_result(r) == Err::<i32, Seq<char>>(e@),
            },
    {
        match <i32 as TryFromR>::try_from_r(r) {
            Ok(raw) => Ok(RInt { raw }),
            Err(e) => Err(e),
        }
    }
}

/// The object of the vector: its own header and attribute link, and its
/// elements.
impl<'a> IntoR for &'a IntegerVector {
    open spec fn represented_by(&self, s: Sexpr) -> bool {
        &&& s.sxpinfo == self.spec_sxpinfo()
        &&& s.attrib == self.spec_attrib()
        &&& s.sxp matches Sxp::Int(v) && v@ == self@ && v.spec_sxpinfo() == self.spec_sxpinfo()
            && v.spec_attrib() == self.spec_attrib()
    }

    fn into_r(self) -> (r: Sexpr) {
        let v = IntegerVector {
            sxpinfo: self.sxpinfo,
            attrib: self.attrib,
            data: slice_to_vec(self.data.as_slice()),
        };
        Sexpr::new(self.sxpinfo, self.attrib, Sxp::Int(v))
    }
}

impl TryIntoR for i32 {
    type Error = Infalliable;

    open spec fn convertible(&self) -> bool {
        true
    }

    fn try_into_r(self) -> (res: Result<Sexpr, Infalliable>)
        ensures
            res matches Ok(s) && fresh_of_kind(s, SexpType::Int) && s.wf() && int_vector_result(Some(&s)) == Ok::<
                Seq<i32>,
                Seq<char>,
            >(seq![self]),
    {
        let mut vec = IntegerVector::new_rboxed_with_size(1);
        vec.as_raw_mut_slice()[0] = self;
        let r = (&*vec).into_r();
        assert(int_payload(&r) =~= seq![self]);
        Ok(r)
    }
}

impl TryIntoR for RInt {
    type Error = Infalliable;

    open spec fn convertible(&self) -> bool {
        true
    }

    fn try_into_r(self) -> (res: Result<Sexpr, Infalliable>)
        ensures
            res matches Ok(s) && fresh_of_kind(s, SexpType::Int) && s.wf() && int_vector_result(Some(&s)) == Ok::<
                Seq<i32>,
                Seq<char>,
            >(seq![self@]),
    {
        self.raw.try_into_r()
    }
}

} // verus!
