use vstd::arithmetic::power2::{lemma2_to64, pow2};
use vstd::prelude::*;
use vstd::string::StringExecFns;

use crate::internals::text::{bool_str, bool_text, decimal, push_decimal};

use crate::r_types::integers::IntegerVector;
use crate::r_types::logicals::LogicalVector;
use crate::r_types::numerics::NumericVector;
use crate::r_types::strings::{CharacterVector, RString};

pub mod sxp;

verus! {

/// The kind of an R object, as stored in the low five bits of its header.
/// Each kind has a fixed numeric code (see [`SexpType::code`]).
#[derive(Debug, Clone, Copy, PartialEq, Eq, Structural)]
pub enum SexpType {
    Nil,
    Sym,
    List,
    Clo,
    Env,
    Prom,
    Lang,
    Special,
    Builtin,
    Char,
    Lgl,
    Int,
    Real,
    Cplx,
    Str,
    Dot,
    Any,
    Vec,
    Expr,
    Bcode,
    Extptr,
    Weakref,
    Raw,
    S4,
    /// fresh node created in a new page
    New,
    /// node released by the garbage collector
    Free,
    /// closure or builtin
    Fun,
}

/// A number that is the code of no [`SexpType`].
#[derive(Debug, Clone, Copy, PartialEq, Eq, Structural)]
pub struct InvalidSexpType {
    pub number: u32,
}

impl SexpType {
    /// The numeric code R uses for this kind.
    pub open spec fn spec_code(self) -> u32 {
        match self {
            SexpType::Nil => 0,
            SexpType::Sym => 1,
            SexpType::List => 2,
            SexpType::Clo => 3,
            SexpType::Env => 4,
            SexpType::Prom => 5,
            SexpType::Lang => 6,
            SexpType::Special => 7,
            SexpType::Builtin => 8,
            SexpType::Char => 9,
            SexpType::Lgl => 10,
            SexpType::Int => 13,
            SexpType::Real => 14,
            SexpType::Cplx => 15,
            SexpType::Str => 16,
            SexpType::Dot => 17,
            SexpType::Any => 18,
            SexpType::Vec => 19,
            SexpType::Expr => 20,
            SexpType::Bcode => 21,
            SexpType::Extptr => 22,
            SexpType::Weakref => 23,
            SexpType::Raw => 24,
            SexpType::S4 => 25,
            SexpType::New => 30,
            SexpType::Free => 31,
            SexpType::Fun => 99,
        }
    }

    /// Whether `n` is the code of some kind.
    pub open spec fn is_code(n: u32) -> bool {
        exists|t: SexpType| #[trigger] t.spec_code() == n
    }

    /// The kind whose code is `n`, or the error carrying `n` when there is none.
    pub open spec fn spec_from_code(n: u32) -> Result<SexpType, InvalidSexpType> {
        if Self::is_code(n) {
            Ok(choose|t: SexpType| #[trigger] t.spec_code() == n)
        } else {
            Err(InvalidSexpType { number: n })
        }
    }

    /// The name under which the kind is printed.
    pub open spec fn spec_name(self) -> &'static str {
        match self {
            SexpType::Nil => "Nil",
            SexpType::Sym => "Sym",
            SexpType::List => "List",
            SexpType::Clo => "Clo",
            SexpType::Env => "Env",
            SexpType::Prom => "Prom",
            SexpType::Lang => "Lang",
            SexpType::Special => "Special",
            SexpType::Builtin => "Builtin",
            SexpType::Char => "Char",
            SexpType::Lgl => "Lgl",
            SexpType::Int => "Int",
            SexpType::Real => "Real",
            SexpType::Cplx => "Cplx",
            SexpType::Str => "Str",
            SexpType::Dot => "Dot",
            SexpType::Any => "Any",
            SexpType::Vec => "Vec",
            SexpType::Expr => "Expr",
            SexpType::Bcode => "Bcode",
            SexpType::Extptr => "Extptr",
            SexpType::Weakref => "Weakref",
            SexpType::Raw => "Raw",
            SexpType::S4 => "S4",
            SexpType::New => "New",
            SexpType::Free => "Free",
            SexpType::Fun => "Fun",
        }
    }

    /// The name under which the kind is printed.
    pub fn name(&self) -> (r: &'static str)
        ensures
            r == self.spec_name(),
    {
        match self {
            SexpType::Nil => "Nil",
            SexpType::Sym => "Sym",
            SexpType::List => "List",
            SexpType::Clo => "Clo",
            SexpType::Env => "Env",
            SexpType::Prom => "Prom",
            SexpType::Lang => "Lang",
            SexpType::Special => "Special",
            SexpType::Builtin => "Builtin",
            SexpType::Char => "Char",
            SexpType::Lgl => "Lgl",
            SexpType::Int => "Int",
            SexpType::Real => "Real",
            SexpType::Cplx => "Cplx",
            SexpType::Str => "Str",
            SexpType::Dot => "Dot",
            SexpType::Any => "Any",
            SexpType::Vec => "Vec",
            SexpType::Expr => "Expr",
            SexpType::Bcode => "Bcode",
            SexpType::Extptr => "Extptr",
            SexpType::Weakref => "Weakref",
            SexpType::Raw => "Raw",
            SexpType::S4 => "S4",
            SexpType::New => "New",
            SexpType::Free => "Free",
            SexpType::Fun => "Fun",
        }
    }

    /// The numeric code R uses for this kind.
    pub fn code(&self) -> (r: u32)
        ensures
            r == self.spec_code(),
    {
        match self {
            SexpType::Nil => 0,
            SexpType::Sym => 1,
            SexpType::List => 2,
            SexpType::Clo => 3,
            SexpType::Env => 4,
            SexpType::Prom => 5,
            SexpType::Lang => 6,
            SexpType::Special => 7,
            SexpType::Builtin => 8,
            SexpType::Char => 9,
            SexpType::Lgl => 10,
            SexpType::Int => 13,
            SexpType::Real => 14,
            SexpType::Cplx => 15,
            SexpType::Str => 16,
            SexpType::Dot => 17,
            SexpType::Any => 18,
            SexpType::Vec => 19,
            SexpType::Expr => 20,
            SexpType::Bcode => 21,
            SexpType::Extptr => 22,
            SexpType::Weakref => 23,
            SexpType::Raw => 24,
            SexpType::S4 => 25,
            SexpType::New => 30,
            SexpType::Free => 31,
            SexpType::Fun => 99,
        }
    }

    /// The kind with code `number`; an error carrying `number` when no kind has it.
    pub fn try_from_primitive(number: u32) -> (r: Result<SexpType, InvalidSexpType>)
        ensures
            r == Self::spec_from_code(number),
    {
        let r = match number {
            0 => Ok(SexpType::Nil),
            1 => Ok(SexpType::Sym),
            2 => Ok(SexpType::List),
            3 => Ok(SexpType::Clo),
            4 => Ok(SexpType::Env),
            5 => Ok(SexpType::Prom),
            6 => Ok(SexpType::Lang),
            7 => Ok(SexpType::Special),
            8 => Ok(SexpType::Builtin),
            9 => Ok(SexpType::Char),
            10 => Ok(SexpType::Lgl),
            13 => Ok(SexpType::Int),
            14 => Ok(SexpType::Real),
            15 => Ok(SexpType::Cplx),
            16 => Ok(SexpType::Str),
            17 => Ok(SexpType::Dot),
            18 => Ok(SexpType::Any),
            19 => Ok(SexpType::Vec),
            20 => Ok(SexpType::Expr),
            21 => Ok(SexpType::Bcode),
            22 => Ok(SexpType::Extptr),
            23 => Ok(SexpType::Weakref),
            24 => Ok(SexpType::Raw),
            25 => Ok(SexpType::S4),
            30 => Ok(SexpType::New),
            31 => Ok(SexpType::Free),
            99 => Ok(SexpType::Fun),
            _ => Err(InvalidSexpType { number }),
        };
        proof {
            match r {
                Ok(t) => {
                    assert(t.spec_code() == number);
                    let c = choose|c: SexpType| #[trigger] c.spec_code() == number;
                    lemma_code_injective(c, t);
                },
                Err(_) => {
                    assert forall|t: SexpType| #[trigger] t.spec_code() != number by {}
                },
            }
        }
        r
    }
}


/// The value of the `width`-bit field starting at bit `shift` of `bits`.
pub open spec fn header_field(bits: u64, shift: nat, width: nat) -> nat {
    ((bits as nat / pow2(shift)) % pow2(width)) as nat
}

/// Whether bit `pos` of `bits` is set.
pub open spec fn header_flag(bits: u64, pos: nat) -> bool {
    header_field(bits, pos, 1) == 1
}

/// The printed form of a header: its fields by name when it names a kind,
/// and its raw bits when it does not.
pub open spec fn spec_header_text(h: SexpHeaderInfo) -> Seq<char> {
    match h.spec_sexp_type() {
        Ok(t) => "Header_info { type: "@ + t.spec_name()@ + ", scalar: "@ + bool_text(
            header_flag(h@, 5),
        )@ + ", obj: "@ + bool_text(header_flag(h@, 6))@ + ", alt: "@ + bool_text(
            header_flag(h@, 7),
        )@ + ", gp: "@ + decimal(header_field(h@, 8, 16)) + ", mark: "@ + bool_text(
            header_flag(h@, 24),
        )@ + ", debug: "@ + bool_text(header_flag(h@, 25))@ + ", trace: "@ + bool_text(
            header_flag(h@, 26),
        )@ + ", spare: "@ + bool_text(header_flag(h@, 27))@ + ", gcgen: "@ + bool_text(
            header_flag(h@, 28),
        )@ + ", gccls: "@ + decimal(header_field(h@, 29, 3)) + " }"@,
        Err(_) => "Header_info { error: "@ + decimal(h@ as nat) + " }"@,
    }
}

/// The first word of an R object: its kind and its flags, packed into bits.
///
/// The layout is that of R's `sxpinfo` (R Internals, "Rest of header"):
/// bits 0..5 hold the kind's code, bit 5 marks a scalar, bit 6 an object with
/// a class, bit 7 an alternative representation; bits 8..24 are the
/// general-purpose field; bits 24 to 28 are the mark, debug, trace, spare and
/// gc-generation flags, and bits 29..32 the gc class.
#[derive(Clone, Copy)]
pub struct SexpHeaderInfo(u64);

impl View for SexpHeaderInfo {
    type V = u64;

    closed spec fn view(&self) -> u64 {
        self.0
    }
}

impl SexpHeaderInfo {
    /// A header holding exactly `bits`.
    pub fn from_bits(bits: u64) -> (r: SexpHeaderInfo)
        ensures
            r@ == bits,
    {
        SexpHeaderInfo(bits)
    }

    /// The header of a new object of kind `t`.
    pub(crate) fn fresh(t: SexpType) -> (r: SexpHeaderInfo)
        requires
            t.spec_code() < 32,
        ensures
            is_fresh_header(r, t),
    {
        let code = t.code();
        let bits = code as u64;
        proof {
            lemma2_to64();
            assert((bits as nat / 1) % 32 == bits) by (bit_vector)
                requires
                    bits < 32,
            ;
            assert((bits as nat / 128) % 2 == 0) by (bit_vector)
                requires
                    bits < 32,
            ;
            lemma_code_roundtrip(t);
        }
        SexpHeaderInfo(bits)
    }

    /// The raw bits of the header.
    pub fn to_bits(&self) -> (r: u64)
        ensures
            r == self@,
    {
        self.0
    }

    pub open spec fn spec_sexp_type(self) -> Result<SexpType, InvalidSexpType> {
        SexpType::spec_from_code(header_field(self@, 0, 5) as u32)
    }

    pub open spec fn spec_alt(self) -> bool {
        header_flag(self@, 7)
    }

    /// The kind named by bits 0..5, or the error carrying their value when it
    /// names no kind.
    pub fn sexp_type(&self) -> (r: Result<SexpType, InvalidSexpType>)
        ensures
            r == self.spec_sexp_type(),
    {
        let x = self.0;
        proof {
            lemma2_to64();
            assert((x & 31) as nat == (x as nat / 1) % 32) by (bit_vector);
        }
        SexpType::try_from_primitive((self.0 & 31) as u32)
    }

    /// Bit 5.
    pub fn scalar(&self) -> (r: bool)
        ensures
            r == header_flag(self@, 5),
    {
        let x = self.0;
        proof {
            lemma2_to64();
            assert(((x & 32) != 0) == ((x as nat / 32) % 2 == 1)) by (bit_vector);
        }
        (self.0 & 32) != 0
    }

    /// Bit 6.
    pub fn obj(&self) -> (r: bool)
        ensures
            r == header_flag(self@, 6),
    {
        let x = self.0;
        proof {
            lemma2_to64();
            assert(((x & 64) != 0) == ((x as nat / 64) % 2 == 1)) by (bit_vector);
        }
        (self.0 & 64) != 0
    }

    /// Bit 7.
    pub fn alt(&self) -> (r: bool)
        ensures
            r == self.spec_alt(),
    {
        let x = self.0;
        proof {
            lemma2_to64();
            assert(((x & 128) != 0) == ((x as nat / 128) % 2 == 1)) by (bit_vector);
        }
        (self.0 & 128) != 0
    }

    /// Bits 8..24, the general-purpose field.
    pub fn gp(&self) -> (r: u16)
        ensures
            r == header_field(self@, 8, 16),
    {
        let x = self.0;
        proof {
            lemma2_to64();
            assert((x >> 8) as u16 as nat == (x as nat / 256) % 65536) by (bit_vector);
        }
        (self.0 >> 8) as u16
    }

    /// Bit 24, the gc mark.
    pub fn mark(&self) -> (r: bool)
        ensures
            r == header_flag(self@, 24),
    {
        let x = self.0;
        proof {
            lemma2_to64();
            assert(((x & (1u64 << 24u64)) != 0) == ((x as nat / 0x100_0000) % 2 == 1)) by (bit_vector);
        }
        (self.0 & (1 << 24)) != 0
    }

    /// Bit 25, the debug flag.
    pub fn debug(&self) -> (r: bool)
        ensures
            r == header_flag(self@, 25),
    {
        let x = self.0;
        proof {
            lemma2_to64();
            assert(((x & (1u64 << 25u64)) != 0) == ((x as nat / 0x200_0000) % 2 == 1)) by (bit_vector);
        }
        (self.0 & (1 << 25)) != 0
    }

    /// Bit 26, the trace flag.
    pub fn trace(&self) -> (r: bool)
        ensures
            r == header_flag(self@, 26),
    {
        let x = self.0;
        proof {
            lemma2_to64();
            assert(((x & (1u64 << 26u64)) != 0) == ((x as nat / 0x400_0000) % 2 == 1)) by (bit_vector);
        }
        (self.0 & (1 << 26)) != 0
    }

    /// Bit 27, the spare flag.
    pub fn spare(&self) -> (r: bool)
        ensures
            r == header_flag(self@, 27),
    {
        let x = self.0;
        proof {
            lemma2_to64();
            assert(((x & (1u64 << 27u64)) != 0) == ((x as nat / 0x800_0000) % 2 == 1)) by (bit_vector);
        }
        (self.0 & (1 << 27)) != 0
    }

    /// Bit 28, the gc generation.
    pub fn gcgen(&self) -> (r: bool)
        ensures
            r == header_flag(self@, 28),
    {
        let x = self.0;
        proof {
            lemma2_to64();
            assert(((x & (1u64 << 28u64)) != 0) == ((x as nat / 0x1000_0000) % 2 == 1)) by (bit_vector);
        }
        (self.0 & (1 << 28)) != 0
    }

    /// Bits 29..32, the gc class.
    pub fn gccls(&self) -> (r: u8)
        ensures
            r == header_field(self@, 29, 3),
    {
        let x = self.0;
        proof {
            lemma2_to64();
            assert(((x >> 29u64) & 7) as u8 as nat == (x as nat / 0x2000_0000) % 8) by (bit_vector);
        }
        ((self.0 >> 29) & 7) as u8
    }

    /// The printed form of the header.
    pub fn debug_text(&self) -> (r: String)
        ensures
            r@ == spec_header_text(*self),
    {
        match self.sexp_type() {
            Ok(t) => {
                let mut s = String::from_str("Header_info { type: ");
                s.append(t.name());
                s.append(", scalar: ");
                s.append(bool_str(self.scalar()));
                s.append(", obj: ");
                s.append(bool_str(self.obj()));
                s.append(", alt: ");
                s.append(bool_str(self.alt()));
                s.append(", gp: ");
                push_decimal(&mut s, self.gp() as u64);
                s.append(", mark: ");
                s.append(bool_str(self.mark()));
                s.append(", debug: ");
                s.append(bool_str(self.debug()));
                s.append(", trace: ");
                s.append(bool_str(self.trace()));
                s.append(", spare: ");
                s.append(bool_str(self.spare()));
                s.append(", gcgen: ");
                s.append(bool_str(self.gcgen()));
                s.append(", gccls: ");
                push_decimal(&mut s, self.gccls() as u64);
                s.append(" }");
                assert(s@ =~= spec_header_text(*self));
                s
            },
            Err(_) => {
                let mut s = String::from_str("Header_info { error: ");
                push_decimal(&mut s, self.0);
                s.append(" }");
                assert(s@ =~= spec_header_text(*self));
                s
            },
        }
    }
}


/// The payload of an R object, by the kind of object it belongs to.
/// Integer, logical, double and character vectors carry their elements, a
/// character object its string; other vectors carry only their length fields.
pub enum Sxp {
    Vec(sxp::Vec),
    Int(IntegerVector),
    Lgl(LogicalVector),
    Real(NumericVector),
    Str(CharacterVector),
    /// a character object: one string's bytes
    Char(RString),
    Prim(sxp::Prim),
    Sym(sxp::Sym),
    List(sxp::List),
    Env(sxp::Env),
    Clos(sxp::Clos),
    Prom(sxp::Prom),
    Unknown(sxp::Unknown),
}

/// An R object: its header, the address of its attribute list, and its payload.
pub struct Sexpr {
    pub sxpinfo: SexpHeaderInfo,
    pub attrib: usize,
    pub sxp: Sxp,
}

/// How an R object that a conversion expects to be a vector of a given kind
/// turned out.
#[derive(Debug, Clone, Copy, PartialEq, Eq, Structural)]
pub enum VectorCheck {
    /// there is no object
    Null,
    /// the object uses an alternative representation
    AltRep,
    /// the object is of another kind
    WrongType,
    /// the object is a vector of the expected kind
    Matches,
}

/// Whether `s` is as R allocates an object of kind `t`: its header holds the
/// kind's code and no flag, so that it names `t` in the standard
/// representation, and it has no attributes.
pub open spec fn fresh_of_kind(s: Sexpr, t: SexpType) -> bool {
    &&& is_fresh_header(s.sxpinfo, t)
    &&& s.attrib == 0
}

/// Whether `h` is the header R gives a new object of kind `t`: the kind's
/// code and no flag, so that it names `t` in the standard representation.
pub open spec fn is_fresh_header(h: SexpHeaderInfo, t: SexpType) -> bool {
    &&& h@ == t.spec_code() as u64
    &&& h.spec_sexp_type() == Ok::<SexpType, InvalidSexpType>(t)
    &&& !h.spec_alt()
}

/// Whether the object behind a possibly null link is well formed: when it is
/// in the standard representation its header names a kind, and the payload
/// of an integer, logical, double or character vector, or of a character
/// object, is of that kind.
pub open spec fn link_wf(r: Option<&Sexpr>) -> bool {
    r matches Some(s) ==> s.wf()
}

/// The outcome of checking the object behind `r` against the kind `expected`:
/// a null link first, then an alternative representation, then the kind.
pub open spec fn spec_classify_vector(r: Option<&Sexpr>, expected: SexpType) -> VectorCheck {
    match r {
        None => VectorCheck::Null,
        Some(s) => if s.sxpinfo.spec_alt() {
            VectorCheck::AltRep
        } else if s.sxpinfo.spec_sexp_type() == Ok::<SexpType, InvalidSexpType>(expected) {
            VectorCheck::Matches
        } else {
            VectorCheck::WrongType
        },
    }
}

/// Checks the object behind `r` against the kind `expected`.
pub fn classify_vector(r: Option<&Sexpr>, expected: SexpType) -> (c: VectorCheck)
    requires
        link_wf(r),
    ensures
        c == spec_classify_vector(r, expected),
{
    match r {
        None => VectorCheck::Null,
        Some(s) => {
            if s.sxpinfo.alt() {
                VectorCheck::AltRep
            } else {
                match s.sxpinfo.sexp_type() {
                    Ok(t) => if t == expected {
                        VectorCheck::Matches
                    } else {
                        VectorCheck::WrongType
                    },
                    Err(_) => {
                        proof {
                            assert(false);
                        }
                        VectorCheck::WrongType
                    },
                }
            }
        },
    }
}

/// What the data of an object is shown as when the object is printed.
#[derive(Debug, Clone, Copy)]
pub enum DebugData {
    /// the raw payload of an object in an alternative representation
    Unknown,
    List,
    Sym,
    Clos,
    Env,
    Prom,
    Prim,
    /// the bytes of a character object
    Chars,
    /// the elements of a character vector
    Strings,
    /// the elements of an integer vector
    Ints,
    /// the elements of a double vector
    Reals,
    /// the elements of a logical vector
    Logicals,
    /// the elements of a complex vector
    Complexes,
    /// the length fields of another vector
    Vector,
    /// a fixed label in place of the data
    Label(&'static str),
}

/// How an object is printed.
#[derive(Debug, Clone, Copy)]
pub enum DebugLayout {
    /// the word `Nil`
    Nil,
    /// the header, the data shown as given, and the attribute link
    Full(DebugData),
    /// the header and the attribute link, when the header names no kind
    HeaderOnly,
}

/// What the data of an object of kind `t` in the standard representation is
/// shown as.
pub open spec fn spec_debug_data(t: SexpType) -> DebugData {
    match t {
        SexpType::List | SexpType::Lang => DebugData::List,
        SexpType::Nil => DebugData::Label("Nil"),
        SexpType::Sym => DebugData::Sym,
        SexpType::Clo => DebugData::Clos,
        SexpType::Env => DebugData::Env,
        SexpType::Prom => DebugData::Prom,
        SexpType::Builtin | SexpType::Special => DebugData::Prim,
        SexpType::Dot => DebugData::Label("Dot"),
        SexpType::Any => DebugData::Label("Any"),
        SexpType::Char => DebugData::Chars,
        SexpType::Str => DebugData::Strings,
        SexpType::Int => DebugData::Ints,
        SexpType::Real => DebugData::Reals,
        SexpType::Lgl => DebugData::Logicals,
        SexpType::Cplx => DebugData::Complexes,
        SexpType::Vec | SexpType::Expr | SexpType::Raw => DebugData::Vector,
        SexpType::Bcode => DebugData::Label("Bcode"),
        SexpType::Extptr => DebugData::Label("Extptr"),
        SexpType::Weakref => DebugData::Label("Weakref"),
        SexpType::S4 => DebugData::Label("S4"),
        SexpType::New => DebugData::Label("New"),
        SexpType::Free => DebugData::Label("Free"),
        SexpType::Fun => DebugData::Label("Fun"),
    }
}

/// How an object with header `h` is printed.
pub open spec fn spec_debug_layout(h: SexpHeaderInfo) -> DebugLayout {
    match h.spec_sexp_type() {
        Ok(SexpType::Nil) => DebugLayout::Nil,
        Ok(t) => DebugLayout::Full(
            if h.spec_alt() {
                DebugData::Unknown
            } else {
                spec_debug_data(t)
            },
        ),
        Err(_) => DebugLayout::HeaderOnly,
    }
}

fn debug_data(t: SexpType) -> (r: DebugData)
    ensures
        r == spec_debug_data(t),
{
    match t {
        SexpType::List | SexpType::Lang => DebugData::List,
        SexpType::Nil => DebugData::Label("Nil"),
        SexpType::Sym => DebugData::Sym,
        SexpType::Clo => DebugData::Clos,
        SexpType::Env => DebugData::Env,
        SexpType::Prom => DebugData::Prom,
        SexpType::Builtin | SexpType::Special => DebugData::Prim,
        SexpType::Dot => DebugData::Label("Dot"),
        SexpType::Any => DebugData::Label("Any"),
        SexpType::Char => DebugData::Chars,
        SexpType::Str => DebugData::Strings,
        SexpType::Int => DebugData::Ints,
        SexpType::Real => DebugData::Reals,
        SexpType::Lgl => DebugData::Logicals,
        SexpType::Cplx => DebugData::Complexes,
        SexpType::Vec | SexpType::Expr | SexpType::Raw => DebugData::Vector,
        SexpType::Bcode => DebugData::Label("Bcode"),
        SexpType::Extptr => DebugData::Label("Extptr"),
        SexpType::Weakref => DebugData::Label("Weakref"),
        SexpType::S4 => DebugData::Label("S4"),
        SexpType::New => DebugData::Label("New"),
        SexpType::Free => DebugData::Label("Free"),
        SexpType::Fun => DebugData::Label("Fun"),
    }
}

impl Sexpr {
    /// An object with the given header, attribute link and payload.
    pub fn new(sxpinfo: SexpHeaderInfo, attrib: usize, sxp: Sxp) -> (r: Sexpr)
        ensures
            r.sxpinfo == sxpinfo,
            r.attrib == attrib,
            r.sxp == sxp,
    {
        Sexpr { sxpinfo, attrib, sxp }
    }

    /// A freshly allocated object of kind `t`: its header holds the kind's
    /// code and no flag, and it has no attributes.
    pub(crate) fn allocated(t: SexpType, sxp: Sxp) -> (r: Sexpr)
        requires
            t.spec_code() < 32,
        ensures
            fresh_of_kind(r, t),
            r.sxp == sxp,
    {
        Sexpr { sxpinfo: SexpHeaderInfo::fresh(t), attrib: 0, sxp }
    }

    pub open spec fn wf(&self) -> bool {
        !self.sxpinfo.spec_alt() ==> match self.sxpinfo.spec_sexp_type() {
            Ok(SexpType::Int) => self.sxp matches Sxp::Int(v) && v.spec_sxpinfo() == self.sxpinfo
                && v.spec_attrib() == self.attrib,
            Ok(SexpType::Lgl) => self.sxp matches Sxp::Lgl(v) && v.spec_sxpinfo() == self.sxpinfo
                && v.spec_attrib() == self.attrib,
            Ok(SexpType::Real) => self.sxp matches Sxp::Real(v) && v.spec_sxpinfo() == self.sxpinfo
                && v.spec_attrib() == self.attrib,
            Ok(SexpType::Str) => self.sxp matches Sxp::Str(v) && v.spec_sxpinfo() == self.sxpinfo
                && v.spec_attrib() == self.attrib,
            Ok(SexpType::Char) => self.sxp is Char,
            Ok(_) => true,
            Err(_) => false,
        }
    }

    /// Whether this is R's `NULL`: whether its header names the kind `Nil`.
    pub fn is_null(&self) -> (r: bool)
        ensures
            r == (self.sxpinfo.spec_sexp_type() == Ok::<SexpType, InvalidSexpType>(SexpType::Nil)),
    {
        match self.sxpinfo.sexp_type() {
            Ok(SexpType::Nil) => true,
            _ => false,
        }
    }

    /// How this object is printed.
    pub fn debug_layout(&self) -> (r: DebugLayout)
        ensures
            r == spec_debug_layout(self.sxpinfo),
    {
        match self.sxpinfo.sexp_type() {
            Ok(SexpType::Nil) => DebugLayout::Nil,
            Ok(t) => DebugLayout::Full(
                if self.sxpinfo.alt() {
                    DebugData::Unknown
                } else {
                    debug_data(t)
                },
            ),
            Err(_) => DebugLayout::HeaderOnly,
        }
    }
}

/// Reading a kind's code back gives the kind.
pub proof fn lemma_code_roundtrip(t: SexpType)
    ensures
        SexpType::spec_from_code(t.spec_code()) == Ok::<SexpType, InvalidSexpType>(t),
{
    assert(SexpType::is_code(t.spec_code()));
    let c = choose|c: SexpType| #[trigger] c.spec_code() == t.spec_code();
    lemma_code_injective(c, t);
}

/// Distinct kinds have distinct codes.
pub proof fn lemma_code_injective(a: SexpType, b: SexpType)
    requires
        a.spec_code() == b.spec_code(),
    ensures
        a == b,
{
}

} // verus!
