//! R's logical vectors and their elements.
use vstd::prelude::*;
use vstd::slice::slice_to_vec;

use crate::interface_traits::{Infalliable, IntoR, Na, TryFromR, TryIntoR};
use crate::internals::c::R_NaLogical;
use crate::internals::sexpr::{
    classify_vector, fresh_of_kind, is_fresh_header, link_wf, InvalidSexpType, SexpHeaderInfo, spec_classify_vector, SexpType, Sexpr, Sxp, VectorCheck,
};
use crate::r_types::integers::msg_view;
use crate::r_types::Rbox;

verus! {

/// An R logical vector: its elements as R stores them, as integers.
pub struct LogicalVector {
    sxpinfo: SexpHeaderInfo,
    attrib: usize,
    data: Vec<i32>,
}

impl View for LogicalVector {
    type V = Seq<i32>;

    closed spec fn view(&self) -> Seq<i32> {
        self.data@
    }
}

/// An element of an R logical vector.
#[derive(Debug, Clone, Copy, PartialEq, Eq, Structural)]
pub enum Rlogical {
    False,
    True,
    Na,
}

/// Whether R stores some logical as `raw`: 0, 1 or [`R_NaLogical`].
pub open spec fn is_logical_raw(raw: i32) -> bool {
    raw == 0 || raw == 1 || raw == R_NaLogical
}

/// Whether every element of `d` is the stored form of a logical.
pub open spec fn all_logical_raw(d: Seq<i32>) -> bool {
    forall|i: int| 0 <= i < d.len() ==> is_logical_raw(#[trigger] d[i])
}

/// The logical that R stores as `raw`.
pub open spec fn logical_of_raw(raw: i32) -> Rlogical {
    if raw == 0 {
        Rlogical::False
    } else if raw == 1 {
        Rlogical::True
    } else {
        Rlogical::Na
    }
}

impl Rlogical {
    /// How R stores the logical: 0 for false, 1 for true, [`R_NaLogical`] for NA.
    pub open spec fn spec_raw(self) -> i32 {
        match self {
            Rlogical::False => 0,
            Rlogical::True => 1,
            Rlogical::Na => R_NaLogical,
        }
    }

    pub open spec fn spec_as_bool(self) -> Option<bool> {
        match self {
            Rlogical::False => Some(false),
            Rlogical::True => Some(true),
            Rlogical::Na => None,
        }
    }

    pub open spec fn spec_from_bool(input: Option<bool>) -> Rlogical {
        match input {
            Some(true) => Rlogical::True,
            Some(false) => Rlogical::False,
            None => Rlogical::Na,
        }
    }

    /// How R stores the logical.
    pub fn as_i32_unchecked(self) -> (r: i32)
        ensures
            r == self.spec_raw(),
    {
        match self {
            Rlogical::False => 0,
            Rlogical::True => 1,
            Rlogical::Na => R_NaLogical,
        }
    }

    /// The truth value, `None` for NA.
    pub fn as_bool(self) -> (r: Option<bool>)
        ensures
            r == self.spec_as_bool(),
    {
        match self {
            Self::False => Some(false),
            Self::True => Some(true),
            Self::Na => None,
        }
    }

    /// The logical for a truth value, NA for `None`.
    pub fn from_bool(input: Option<bool>) -> (r: Rlogical)
        ensures
            r == Self::spec_from_bool(input),
    {
        match input {
            Some(true) => Self::True,
            Some(false) => Self::False,
            None => Self::Na,
        }
    }
}

impl Na for Rlogical {
    open spec fn spec_is_na(&self) -> bool {
        *self == Rlogical::Na
    }

    fn na() -> (r: Self) {
        Self::Na
    }

    fn is_na(&self) -> (r: bool) {
        match self {
            Self::Na => true,
            _ => false,
        }
    }
}

fn logical_from_raw(raw: i32) -> (r: Rlogical)
    requires
        is_logical_raw(raw),
    ensures
        r == logical_of_raw(raw),
        r.spec_raw() == raw,
{
    if raw == 0 {
        Rlogical::False
    } else if raw == 1 {
        Rlogical::True
    } else {
        Rlogical::Na
    }
}

/// The elements of the logical vector behind a link that is one.
pub open spec fn lgl_payload(s: &Sexpr) -> Seq<i32> {
    match s.sxp {
        Sxp::Lgl(v) => v@,
        _ => Seq::empty(),
    }
}

/// The stored elements of the logical vector behind `r`, or why there is none.
pub open spec fn lgl_vector_result(r: Option<&Sexpr>) -> Result<Seq<i32>, Seq<char>> {
    match spec_classify_vector(r, SexpType::Lgl) {
        VectorCheck::Null => Err("Argument is a null pointer"@),
        VectorCheck::AltRep => Err("Argument is alt rep"@),
        VectorCheck::WrongType => Err("Argument is not a Logical vector"@),
        VectorCheck::Matches => Ok(lgl_payload(r.unwrap())),
    }
}

/// The single stored element of the logical vector behind `r`, or why there
/// is none.
pub open spec fn lgl_scalar_result(r: Option<&Sexpr>) -> Result<i32, Seq<char>> {
    match lgl_vector_result(r) {
        Err(e) => Err(e),
        Ok(d) => if d.len() == 1 {
            Ok(d[0])
        } else {
            Err("Was expecting a Logical vector of size 1"@)
        },
    }
}

/// Whether the object behind `r` is well formed and, when it is a logical
/// vector, holds only stored forms of logicals.
pub open spec fn lgl_link_ok(r: Option<&Sexpr>) -> bool {
    &&& link_wf(r)
    &&& (lgl_vector_result(r) matches Ok(d) ==> all_logical_raw(d))
}

impl LogicalVector {
    /// The header of the vector's object.
    pub closed spec fn spec_sxpinfo(&self) -> SexpHeaderInfo {
        self.sxpinfo
    }

    /// The address of the vector's attribute list.
    pub closed spec fn spec_attrib(&self) -> usize {
        self.attrib
    }

    /// A new vector holding `data`, with the header R gives a new vector of
    /// its kind and no attributes.
    pub fn from_raw(data: Vec<i32>) -> (r: LogicalVector)
        ensures
            r@ == data@,
            is_fresh_header(r.spec_sxpinfo(), SexpType::Lgl),
            r.spec_attrib() == 0,
    {
        LogicalVector { sxpinfo: SexpHeaderInfo::fresh(SexpType::Lgl), attrib: 0, data: data }
    }

    /// The vector of an object with header `sxpinfo`, attribute link `attrib`
    /// and elements `data`.
    pub fn from_parts(sxpinfo: SexpHeaderInfo, attrib: usize, data: Vec<i32>) -> (r: LogicalVector)
        requires
            sxpinfo.spec_sexp_type() == Ok::<SexpType, InvalidSexpType>(SexpType::Lgl),
            !sxpinfo.spec_alt(),
        ensures
            r@ == data@,
            r.spec_sxpinfo() == sxpinfo,
            r.spec_attrib() == attrib,
    {
        LogicalVector { sxpinfo, attrib, data: data }
    }

    /// The header of the vector's object.
    pub fn sxpinfo(&self) -> (r: SexpHeaderInfo)
        ensures
            r == self.spec_sxpinfo(),
    {
        self.sxpinfo
    }

    /// The address of the vector's attribute list.
    pub fn attrib(&self) -> (r: usize)
        ensures
            r == self.spec_attrib(),
    {
        self.attrib
    }

    /// A new logical vector of `size` elements, all `FALSE`.
    pub fn new_rboxed_with_size(size: isize) -> (r: Rbox<Self>)
        requires
            size >= 0,
        ensures
            r.spec_inner()@ == Seq::new(size as nat, |_i: int| 0i32),
            is_fresh_header(r.spec_inner().spec_sxpinfo(), SexpType::Lgl),
            r.spec_inner().spec_attrib() == 0,
    {
        Rbox::<Self>::new_with_size(size)
    }

    /// The elements.
    pub fn as_slice(&self) -> (r: Vec<Rlogical>)
        requires
            all_logical_raw(self@),
        ensures
            r@.map_values(|x: Rlogical| x.spec_raw()) == self@,
    {
        let mut out: Vec<Rlogical> = Vec::new();
        let mut i: usize = 0;
        while i < self.data.len()
            invariant
                i <= self.data@.len(),
                all_logical_raw(self.data@),
                out@.len() == i,
                forall|j: int| 0 <= j < i ==> #[trigger] out@[j].spec_raw() == self.data@[j],
            decreases self.data@.len() - i,
        {
            out.push(logical_from_raw(self.data[i]));
            i = i + 1;
        }
        assert(out@.map_values(|x: Rlogical| x.spec_raw()) =~= self.data@);
        out
    }

    /// The elements as R stores them.
    pub fn as_raw_slice(&self) -> (r: &[i32])
        ensures
            r@ == self@,
    {
        self.data.as_slice()
    }

    /// Sets element `index` to `value`.
    pub fn set(&mut self, index: usize, value: Rlogical)
        requires
            index < old(self)@.len(),
        ensures
            final(self)@ == old(self)@.update(index as int, value.spec_raw()),
            final(self).spec_sxpinfo() == old(self).spec_sxpinfo(),
            final(self).spec_attrib() == old(self).spec_attrib(),
    {
        self.data.set(index, value.as_i32_unchecked());
    }

    /// The elements as R stores them, for writing.
    pub fn as_raw_mut_slice(&mut self) -> (r: &mut [i32])
        ensures
            r@ == old(self)@,
            final(r)@ == final(self)@,
            final(self).spec_sxpinfo() == old(self).spec_sxpinfo(),
            final(self).spec_attrib() == old(self).spec_attrib(),
    {
        self.data.as_mut_slice()
    }
}

impl<'a> TryFromR<'a> for &'a LogicalVector {
    type Error = &'static str;

    open spec fn accepts(r: Option<&'a Sexpr>) -> bool {
        link_wf(r)
    }

    fn try_from_r(r: Option<&'a Sexpr>) -> (res: Result<&'a LogicalVector, &'static str>)
        ensures
            match res {
                Ok(v) => lgl_vector_result(r) == Ok::<Seq<i32>, Seq<char>>(v@) && r.unwrap().sxp
                    == Sxp::Lgl(*v),
                Err(e) => lgl_vector_result(r) == Err::<Seq<i32>, Seq<char>>(e@),
            },
    {
        match classify_vector(r, SexpType::Lgl) {
            VectorCheck::Null => Err("Argument is a null pointer"),
            VectorCheck::AltRep => Err("Argument is alt rep"),
            VectorCheck::WrongType => Err("Argument is not a Logical vector"),
            VectorCheck::Matches => match r {
                Some(s) => match &s.sxp {
                    Sxp::Lgl(v) => Ok(v),
                    _ => {
                        proof {
                            assert(false);
                        }
                        Err("Argument is not a Logical vector")
                    },
                },
                None => {
                    proof {
                        assert(false);
                    }
                    Err("Argument is a null pointer")
                },
            },
        }
    }
}

impl<'a> TryFromR<'a> for Vec<Rlogical> {
    type Error = &'static str;

    open spec fn accepts(r: Option<&'a Sexpr>) -> bool {
        lgl_link_ok(r)
    }

    fn try_from_r(r: Option<&'a Sexpr>) -> (res: Result<Vec<Rlogical>, &'static str>)
        ensures
            match res {
                Ok(v) => lgl_vector_result(r) == Ok::<Seq<i32>, Seq<char>>(
                    v@.map_values(|x: Rlogical| x.spec_raw()),
                ),
                Err(e) => lgl_vector_result(r) == Err::<Seq<i32>, Seq<char>>(e@),
            },
    {
        match <&LogicalVector as TryFromR>::try_from_r(r) {
            Ok(nv) => Ok(nv.as_slice()),
            Err(e) => Err(e),
        }
    }
}

impl<'a> TryFromR<'a> for Rlogical {
    type Error = &'static str;

    open spec fn accepts(r: Option<&'a Sexpr>) -> bool {
        lgl_link_ok(r)
    }

    fn try_from_r(r: Option<&'a Sexpr>) -> (res: Result<Rlogical, &'static str>)
        ensures
            match res {
                Ok(x) => lgl_scalar_result(r) == Ok::<i32, Seq<char>>(x.spec_raw()),
                Err(e) => lgl_scalar_result(r) == Err::<i32, Seq<char>>(e@),
            },
    {
        match <Vec<Rlogical> as TryFromR>::try_from_r(r) {
            Ok(slice) => if slice.len() == 1 {
                Ok(slice[0])
            } else {
                Err("Was expecting a Logical vector of size 1")
            },
            Err(e) => Err(e),
        }
    }
}

impl<'a> TryFromR<'a> for Option<bool> {
    type Error = &'static str;

    open spec fn accepts(r: Option<&'a Sexpr>) -> bool {
        lgl_link_ok(r)
    }

    fn try_from_r(r: Option<&'a Sexpr>) -> (res: Result<Option<bool>, &'static str>)
        ensures
            msg_view(res) == (match lgl_scalar_result(r) {
                Ok(raw) => Ok(logical_of_raw(raw).spec_as_bool()),
                Err(e) => Err(e),
            }),
    {
        match <Rlogical as TryFromR>::try_from_r(r) {
            Ok(x) => Ok(x.as_bool()),
            Err(e) => Err(e),
        }
    }
}

/// The object of the vector: its own header and attribute link, and its
/// elements.
impl<'a> IntoR for &'a LogicalVector {
    open spec fn represented_by(&self, s: Sexpr) -> bool {
        &&& s.sxpinfo == self.spec_sxpinfo()
        &&& s.attrib == self.spec_attrib()
        &&& s.sxp matches Sxp::Lgl(v) && v@ == self@ && v.spec_sxpinfo() == self.spec_sxpinfo()
            && v.spec_attrib() == self.spec_attrib()
    }

    fn into_r(self) -> (r: Sexpr) {
        let v = LogicalVector { sxpinfo: self.sxpinfo, attrib: self.attrib, data: slice_to_vec(self.data.as_slice()) };
        Sexpr::new(self.sxpinfo, self.attrib, Sxp::Lgl(v))
    }
}

impl TryIntoR for bool {
    type Error = Infalliable;

    open spec fn convertible(&self) -> bool {
        true
    }

    fn try_into_r(self) -> (res: Result<Sexpr, Infalliable>)
        ensures
            res matches Ok(s) && fresh_of_kind(s, SexpType::Lgl) && s.wf() && lgl_vector_result(Some(&s)) == Ok::<
                Seq<i32>,
                Seq<char>,
            >(seq![if self { 1i32 } else { 0i32 }]),
    {
        let mut vec = LogicalVector::new_rboxed_with_size(1);
        vec.as_raw_mut_slice()[0] = if self {
            Rlogical::True.as_i32_unchecked()
        } else {
            Rlogical::False.as_i32_unchecked()
        };
        let r = (&*vec).into_r();
        assert(lgl_payload(&r) =~= seq![if self { 1i32 } else { 0i32 }]);
        Ok(r)
    }
}

impl TryIntoR for Rlogical {
    type Error = Infalliable;

    open spec fn convertible(&self) -> bool {
        true
    }

    fn try_into_r(self) -> (res: Result<Sexpr, Infalliable>)
        ensures
            res matches Ok(s) && fresh_of_kind(s, SexpType::Lgl) && s.wf() && lgl_vector_result(Some(&s)) == Ok::<
                Seq<i32>,
                Seq<char>,
            >(seq![self.spec_raw()]),
    {
        let mut vec = LogicalVector::new_rboxed_with_size(1);
        vec.as_raw_mut_slice()[0] = self.as_i32_unchecked();
        let r = (&*vec).into_r();
        assert(lgl_payload(&r) =~= seq![self.spec_raw()]);
        Ok(r)
    }
}

} // verus!
