//! R's character vectors and the strings they hold.
use vstd::prelude::*;
use vstd::slice::slice_to_vec;
use vstd::string::StringSliceAdditionalSpecFns;
use vstd::utf8::valid_utf8;

use crate::interface_traits::{Infalliable, IntoR, Na, TryFromR, TryIntoR};
use crate::internals::sexpr::{
    classify_vector, fresh_of_kind, is_fresh_header, link_wf, InvalidSexpType, SexpHeaderInfo, spec_classify_vector, SexpType, Sexpr, Sxp, VectorCheck,
};
use crate::r_types::Rbox;

verus! {

#[verifier::external_type_specification]
#[verifier::external_body]
pub struct ExUtf8Error(std::str::Utf8Error);

/// `std::str::from_utf8`. As its documentation says, it succeeds exactly when
/// the bytes are valid UTF-8, and then gives the string with those bytes.
#[verifier::external_body]
fn str_from_utf8(v: &[u8]) -> (r: Result<&str, std::str::Utf8Error>)
    ensures
        r is Ok <==> valid_utf8(v@),
        r matches Ok(s) ==> s.spec_bytes() == v@,
{
    std::str::from_utf8(v)
}

/// An R string: the bytes of its text, and whether it is the NA string.
/// The NA string's text is `NA`; a string made from the text `NA` is not NA.
pub struct RString {
    bytes: Vec<u8>,
    na: bool,
}

impl View for RString {
    /// whether it is the NA string, and the bytes of its text
    type V = (bool, Seq<u8>);

    closed spec fn view(&self) -> (bool, Seq<u8>) {
        (self.na, self.bytes@)
    }
}

/// The bytes of the text `NA`.
pub open spec fn na_text() -> Seq<u8> {
    seq![78u8, 65u8]
}

impl Na for RString {
    open spec fn spec_is_na(&self) -> bool {
        self@.0
    }

    fn na() -> (r: Self)
        ensures
            r@ == (true, na_text()),
    {
        let r = RString { bytes: vec![78u8, 65u8], na: true };
        assert(r.bytes@ =~= na_text());
        r
    }

    fn is_na(&self) -> (r: bool) {
        self.na
    }
}

impl RString {
    /// A (non-NA) string with the text `content`. R refuses a text that holds
    /// a zero byte or is longer than the largest `i32`.
    pub fn new(content: &str) -> (r: Self)
        requires
            !content.spec_bytes().contains(0u8),
            content.spec_bytes().len() <= i32::MAX,
        ensures
            r@ == (false, content.spec_bytes()),
    {
        RString { bytes: slice_to_vec(content.as_bytes()), na: false }
    }

    /// A (non-NA) string whose text has the bytes `bytes`, in whatever
    /// encoding they are.
    pub fn from_bytes(bytes: Vec<u8>) -> (r: Self)
        ensures
            r@ == (false, bytes@),
    {
        RString { bytes, na: false }
    }

    /// The empty string, with which R fills a new character vector.
    pub(crate) fn blank() -> (r: Self)
        ensures
            r@ == (false, Seq::<u8>::empty()),
    {
        RString { bytes: Vec::new(), na: false }
    }

    fn duplicate(&self) -> (r: Self)
        ensures
            r@ == self@,
    {
        RString { bytes: slice_to_vec(self.bytes.as_slice()), na: self.na }
    }

    /// The bytes of the text.
    pub fn as_bytes(&self) -> (r: &[u8])
        ensures
            r@ == self@.1,
    {
        self.bytes.as_slice()
    }

    /// The text, whose bytes the caller knows to be valid UTF-8.
    pub fn as_str_unchecked(&self) -> (r: &str)
        requires
            valid_utf8(self@.1),
        ensures
            r.spec_bytes() == self@.1,
    {
        match str_from_utf8(self.bytes.as_slice()) {
            Ok(s) => s,
            Err(_) => {
                proof {
                    assert(false);
                }
                ""
            },
        }
    }

    /// The text, when its bytes are valid UTF-8.
    pub fn as_str(&self) -> (r: Result<&str, std::str::Utf8Error>)
        ensures
            r is Ok <==> valid_utf8(self@.1),
            r matches Ok(s) ==> s.spec_bytes() == self@.1,
    {
        str_from_utf8(self.bytes.as_slice())
    }
}

/// An R character vector: its strings.
pub struct CharacterVector {
    sxpinfo: SexpHeaderInfo,
    attrib: usize,
    data: Vec<RString>,
}

impl View for CharacterVector {
    type V = Seq<(bool, Seq<u8>)>;

    closed spec fn view(&self) -> Seq<(bool, Seq<u8>)> {
        self.data@.map_values(|s: RString| s@)
    }
}

/// The strings of the character vector behind a link that is one.
pub open spec fn str_payload(s: &Sexpr) -> Seq<(bool, Seq<u8>)> {
    match s.sxp {
        Sxp::Str(v) => v@,
        _ => Seq::empty(),
    }
}

/// The strings of the character vector behind `r`, or why there is none.
pub open spec fn str_vector_result(r: Option<&Sexpr>) -> Result<Seq<(bool, Seq<u8>)>, Seq<char>> {
    match spec_classify_vector(r, SexpType::Str) {
        VectorCheck::Null => Err("Argument is a null pointer"@),
        VectorCheck::AltRep => Err("Argument is alt rep"@),
        VectorCheck::WrongType => Err("Argument is not a character vector"@),
        VectorCheck::Matches => Ok(str_payload(r.unwrap())),
    }
}

/// The single string of the character vector behind `r`, or why there is none.
pub open spec fn str_scalar_result(r: Option<&Sexpr>) -> Result<(bool, Seq<u8>), Seq<char>> {
    match str_vector_result(r) {
        Err(e) => Err(e),
        Ok(d) => if d.len() == 1 {
            Ok(d[0])
        } else {
            Err("Was expecting a Character Vector of length 1"@)
        },
    }
}

impl CharacterVector {
    /// The header of the vector's object.
    pub closed spec fn spec_sxpinfo(&self) -> SexpHeaderInfo {
        self.sxpinfo
    }

    /// The address of the vector's attribute list.
    pub closed spec fn spec_attrib(&self) -> usize {
        self.attrib
    }

    /// A new vector holding `data`, with the header R gives a new vector of
    /// its kind and no attributes.
    pub fn from_strings(data: Vec<RString>) -> (r: CharacterVector)
        ensures
            r@ == data@.map_values(|s: RString| s@),
            is_fresh_header(r.spec_sxpinfo(), SexpType::Str),
            r.spec_attrib() == 0,
    {
        CharacterVector { sxpinfo: SexpHeaderInfo::fresh(SexpType::Str), attrib: 0, data: data }
    }

    /// The vector of an object with header `sxpinfo`, attribute link `attrib`
    /// and elements `data`.
    pub fn from_parts(sxpinfo: SexpHeaderInfo, attrib: usize, data: Vec<RString>) -> (r: CharacterVector)
        requires
            sxpinfo.spec_sexp_type() == Ok::<SexpType, InvalidSexpType>(SexpType::Str),
            !sxpinfo.spec_alt(),
        ensures
            r@ == data@.map_values(|s: RString| s@),
            r.spec_sxpinfo() == sxpinfo,
            r.spec_attrib() == attrib,
    {
        CharacterVector { sxpinfo, attrib, data: data }
    }

    /// The header of the vector's object.
    pub fn sxpinfo(&self) -> (r: SexpHeaderInfo)
        ensures
            r == self.spec_sxpinfo(),
    {
        self.sxpinfo
    }

    /// The address of the vector's attribute list.
    pub fn attrib(&self) -> (r: usize)
        ensures
            r == self.spec_attrib(),
    {
        self.attrib
    }

    /// A new character vector of `size` empty strings.
    pub fn new_rboxed_with_size(size: isize) -> (r: Rbox<CharacterVector>)
        requires
            size >= 0,
        ensures
            r.spec_inner()@ == Seq::new(size as nat, |_i: int| (false, Seq::<u8>::empty())),
            is_fresh_header(r.spec_inner().spec_sxpinfo(), SexpType::Str),
            r.spec_inner().spec_attrib() == 0,
    {
        Rbox::<CharacterVector>::new_with_size(size)
    }

    /// The strings.
    pub fn as_slice(&self) -> (r: &[RString])
        ensures
            r@.map_values(|s: RString| s@) == self@,
    {
        self.data.as_slice()
    }

    /// The strings, for writing.
    pub fn as_mut_slice(&mut self) -> (r: &mut [RString])
        ensures
            r@.map_values(|s: RString| s@) == old(self)@,
            final(r)@.map_values(|s: RString| s@) == final(self)@,
            final(self).spec_sxpinfo() == old(self).spec_sxpinfo(),
            final(self).spec_attrib() == old(self).spec_attrib(),
    {
        self.data.as_mut_slice()
    }
}

impl<'a> TryFromR<'a> for &'a CharacterVector {
    type Error = &'static str;

    open spec fn accepts(r: Option<&'a Sexpr>) -> bool {
        link_wf(r)
    }

    fn try_from_r(r: Option<&'a Sexpr>) -> (res: Result<&'a CharacterVector, &'static str>)
        ensures
            match res {
                Ok(v) => str_vector_result(r) == Ok::<Seq<(bool, Seq<u8>)>, Seq<char>>(v@)
                    && r.unwrap().sxp == Sxp::Str(*v),
                Err(e) => str_vector_result(r) == Err::<Seq<(bool, Seq<u8>)>, Seq<char>>(e@),
            },
    {
        match classify_vector(r, SexpType::Str) {
            VectorCheck::Null => Err("Argument is a null pointer"),
            VectorCheck::AltRep => Err("Argument is alt rep"),
            VectorCheck::WrongType => Err("Argument is not a character vector"),
            VectorCheck::Matches => match r {
                Some(s) => match &s.sxp {
                    Sxp::Str(v) => Ok(v),
                    _ => {
                        proof {
                            assert(false);
                        }
                        Err("Argument is not a character vector")
                    },
                },
                None => {
                    proof {
                        assert(false);
                    }
                    Err("Argument is a null pointer")
                },
            },
        }
    }
}

impl<'a> TryFromR<'a> for &'a [RString] {
    type Error = &'static str;

    open spec fn accepts(r: Option<&'a Sexpr>) -> bool {
        link_wf(r)
    }

    fn try_from_r(r: Option<&'a Sexpr>) -> (res: Result<&'a [RString], &'static str>)
        ensures
            match res {
                Ok(v) => str_vector_result(r) == Ok::<Seq<(bool, Seq<u8>)>, Seq<char>>(
                    v@.map_values(|s: RString| s@),
                ),
                Err(e) => str_vector_result(r) == Err::<Seq<(bool, Seq<u8>)>, Seq<char>>(e@),
            },
    {
        match <&CharacterVector as TryFromR>::try_from_r(r) {
            Ok(nv) => Ok(nv.as_slice()),
            Err(e) => Err(e),
        }
    }
}

impl<'a> TryFromR<'a> for &'a RString {
    type Error = &'static str;

    open spec fn accepts(r: Option<&'a Sexpr>) -> bool {
        link_wf(r)
    }

    fn try_from_r(r: Option<&'a Sexpr>) -> (res: Result<&'a RString, &'static str>)
        ensures
            match res {
                Ok(x) => str_scalar_result(r) == Ok::<(bool, Seq<u8>), Seq<char>>(x@),
                Err(e) => str_scalar_result(r) == Err::<(bool, Seq<u8>), Seq<char>>(e@),
            },
    {
        match <&[RString] as TryFromR>::try_from_r(r) {
            Ok(slice) => if slice.len() == 1 {
                Ok(&slice[0])
            } else {
                Err("Was expecting a Character Vector of length 1")
            },
            Err(e) => Err(e),
        }
    }
}

/// Whether the object behind `r` is well formed and, when it is a character
/// vector of one string, that string's bytes are valid UTF-8.
pub open spec fn str_link_utf8(r: Option<&Sexpr>) -> bool {
    &&& link_wf(r)
    &&& (str_scalar_result(r) matches Ok(x) ==> valid_utf8(x.1))
}

impl<'a> TryFromR<'a> for &'a str {
    type Error = &'static str;

    open spec fn accepts(r: Option<&'a Sexpr>) -> bool {
        str_link_utf8(r)
    }

    fn try_from_r(r: Option<&'a Sexpr>) -> (res: Result<&'a str, &'static str>)
        ensures
            match res {
                Ok(s) => str_scalar_result(r) matches Ok(x) && s.spec_bytes() == x.1,
                Err(e) => str_scalar_result(r) == Err::<(bool, Seq<u8>), Seq<char>>(e@),
            },
    {
        match <&RString as TryFromR>::try_from_r(r) {
            Ok(r_string) => match r_string.as_str() {
                Ok(s) => Ok(s),
                Err(_) => {
                    proof {
                        assert(false);
                    }
                    Err("Was expecting a Character Vector of length 1")
                },
            },
            Err(e) => Err(e),
        }
    }
}

/// The object of the vector: its own header and attribute link, and its
/// elements.
impl<'a> IntoR for &'a CharacterVector {
    open spec fn represented_by(&self, s: Sexpr) -> bool {
        &&& s.sxpinfo == self.spec_sxpinfo()
        &&& s.attrib == self.spec_attrib()
        &&& s.sxp matches Sxp::Str(v) && v@ == self@ && v.spec_sxpinfo() == self.spec_sxpinfo()
            && v.spec_attrib() == self.spec_attrib()
    }

    fn into_r(self) -> (r: Sexpr) {
        let mut data: Vec<RString> = Vec::new();
        let mut i: usize = 0;
        while i < self.data.len()
            invariant
                i <= self.data@.len(),
                data@.len() == i,
                forall|j: int| 0 <= j < i ==> #[trigger] data@[j]@ == self.data@[j]@,
            decreases self.data@.len() - i,
        {
            data.push(self.data[i].duplicate());
            i = i + 1;
        }
        assert(data@.map_values(|s: RString| s@) =~= self.data@.map_values(|s: RString| s@));
        Sexpr::new(self.sxpinfo, self.attrib, Sxp::Str(CharacterVector { sxpinfo: self.sxpinfo, attrib: self.attrib, data }))
    }
}

/// The character object of a string: a fresh object of kind `Char` that
/// holds the string.
impl<'a> IntoR for &'a RString {
    open spec fn represented_by(&self, s: Sexpr) -> bool {
        &&& fresh_of_kind(s, SexpType::Char)
        &&& s.wf()
        &&& s.sxp matches Sxp::Char(x) && x@ == self@
    }

    fn into_r(self) -> (r: Sexpr) {
        Sexpr::allocated(SexpType::Char, Sxp::Char(self.duplicate()))
    }
}

impl TryIntoR for RString {
    type Error = Infalliable;

    open spec fn convertible(&self) -> bool {
        true
    }

    fn try_into_r(self) -> (res: Result<Sexpr, Infalliable>)
        ensures
            res matches Ok(s) && fresh_of_kind(s, SexpType::Str) && s.wf() && str_vector_result(Some(&s)) == Ok::<
                Seq<(bool, Seq<u8>)>,
                Seq<char>,
            >(seq![self@]),
    {
        let ghost v = self@;
        let mut vec = CharacterVector::new_rboxed_with_size(1);
        let slice = vec.as_mut_slice();
        assert(slice@.map_values(|s: RString| s@).len() == 1);
        slice[0] = self;
        assert(final(slice)@.map_values(|s: RString| s@) =~= seq![v]);
        let r = (&*vec).into_r();
        assert(str_payload(&r) =~= seq![v]);
        Ok(r)
    }
}

impl<'a> TryIntoR for &'a str {
    type Error = Infalliable;

    open spec fn convertible(&self) -> bool {
        &&& !self.spec_bytes().contains(0u8)
        &&& self.spec_bytes().len() <= i32::MAX
    }

    fn try_into_r(self) -> (res: Result<Sexpr, Infalliable>)
        ensures
            res matches Ok(s) && fresh_of_kind(s, SexpType::Str) && s.wf() && str_vector_result(Some(&s)) == Ok::<
                Seq<(bool, Seq<u8>)>,
                Seq<char>,
            >(seq![(false, self.spec_bytes())]),
    {
        RString::new(self).try_into_r()
    }
}

} // verus!
