//! Properties that relate several functions of the library: what a conversion
//! into R writes, the matching conversion out of R reads back; and the
//! encodings of logicals and kinds are faithful.
use vstd::prelude::*;
use vstd::string::StringSliceAdditionalSpecFns;
use vstd::utf8::{decode_utf8, encode_utf8_decode_utf8, encode_utf8_valid_utf8};

use crate::interface_traits::IntoR;
use crate::internals::sexpr::{
    header_field, lemma_code_injective, lemma_code_roundtrip, link_wf, spec_classify_vector,
    spec_debug_data, spec_debug_layout, spec_header_text, DebugData, DebugLayout, InvalidSexpType,
    SexpHeaderInfo, SexpType, Sexpr, Sxp, VectorCheck,
};
use crate::internals::text::decimal;
use crate::macros::call::{spec_after_argument, spec_start_call, CallStep};
use crate::r_types::integers::{int_scalar_result, int_vector_result, IntegerVector};
use crate::r_types::logicals::{
    lgl_link_ok, lgl_scalar_result, lgl_vector_result, logical_of_raw, LogicalVector, Rlogical,
};
use crate::r_types::numerics::{real_scalar_result, real_vector_result, NumericVector};
use crate::r_types::strings::{
    str_link_utf8, str_scalar_result, str_vector_result, CharacterVector,
};

verus! {

/// The kind of an object depends on the low five bits of its header alone.
pub proof fn lemma_kind_reads_low_bits(a: SexpHeaderInfo, b: SexpHeaderInfo)
    requires
        a@ % 32 == b@ % 32,
    ensures
        a.spec_sexp_type() == b.spec_sexp_type(),
{
    vstd::arithmetic::power2::lemma2_to64();
    assert(header_field(a@, 0, 5) == header_field(b@, 0, 5));
}

/// A kind is determined by its code.
pub proof fn lemma_kind_code_determines_kind(a: SexpType, b: SexpType)
    ensures
        a == b <==> a.spec_code() == b.spec_code(),
{
    if a.spec_code() == b.spec_code() {
        lemma_code_injective(a, b);
    }
}

/// Reading back the truth value of the logical made from a truth value gives
/// that truth value, NA standing for `None`.
pub proof fn lemma_logical_from_bool_as_bool(input: Option<bool>)
    ensures
        Rlogical::spec_from_bool(input).spec_as_bool() == input,
{
}

/// Making a logical from the truth value of a logical gives that logical.
pub proof fn lemma_logical_as_bool_from_bool(l: Rlogical)
    ensures
        Rlogical::spec_from_bool(l.spec_as_bool()) == l,
{
}

/// The stored form of a logical decodes to that logical, and distinct
/// logicals are stored differently.
pub proof fn lemma_logical_raw_roundtrip(l: Rlogical, m: Rlogical)
    ensures
        logical_of_raw(l.spec_raw()) == l,
        l.spec_raw() == m.spec_raw() ==> l == m,
{
}

/// A logical is NA exactly when it has no truth value.
pub proof fn lemma_logical_na_has_no_truth(l: Rlogical)
    ensures
        (l == Rlogical::Na) <==> l.spec_as_bool() is None,
{
}

/// The object written for an integer reads back as that integer.
pub proof fn lemma_int_write_read(x: i32, s: Sexpr)
    requires
        s.wf(),
        int_vector_result(Some(&s)) == Ok::<Seq<i32>, Seq<char>>(seq![x]),
    ensures
        link_wf(Some(&s)),
        int_scalar_result(Some(&s)) == Ok::<i32, Seq<char>>(x),
{
}

/// The object written for a stored logical reads back as that logical, and
/// as its truth value.
pub proof fn lemma_logical_write_read(l: Rlogical, s: Sexpr)
    requires
        s.wf(),
        lgl_vector_result(Some(&s)) == Ok::<Seq<i32>, Seq<char>>(seq![l.spec_raw()]),
    ensures
        lgl_link_ok(Some(&s)),
        lgl_scalar_result(Some(&s)) == Ok::<i32, Seq<char>>(l.spec_raw()),
        logical_of_raw(l.spec_raw()) == l,
{
}

/// The object written for a truth value reads back as that truth value.
pub proof fn lemma_bool_write_read(b: bool, s: Sexpr)
    requires
        s.wf(),
        lgl_vector_result(Some(&s)) == Ok::<Seq<i32>, Seq<char>>(
            seq![if b { 1i32 } else { 0i32 }],
        ),
    ensures
        lgl_link_ok(Some(&s)),
        lgl_scalar_result(Some(&s)) matches Ok(raw) && logical_of_raw(raw).spec_as_bool() == Some(
            b,
        ),
{
}

/// The object written for a double, given by its bits, reads back as those
/// bits.
pub proof fn lemma_real_write_read(bits: u64, s: Sexpr)
    requires
        s.wf(),
        real_vector_result(Some(&s)) == Ok::<Seq<u64>, Seq<char>>(seq![bits]),
    ensures
        link_wf(Some(&s)),
        real_scalar_result(Some(&s)) == Ok::<u64, Seq<char>>(bits),
{
}

/// The object written for a string reads back as that string.
pub proof fn lemma_rstring_write_read(v: (bool, Seq<u8>), s: Sexpr)
    requires
        s.wf(),
        str_vector_result(Some(&s)) == Ok::<Seq<(bool, Seq<u8>)>, Seq<char>>(seq![v]),
    ensures
        link_wf(Some(&s)),
        str_scalar_result(Some(&s)) == Ok::<(bool, Seq<u8>), Seq<char>>(v),
{
}

/// The object written for a Rust string is accepted back as a Rust string,
/// and any string read from it equals the one written.
pub proof fn lemma_str_write_read(t: &str, s: Sexpr, u: &str)
    requires
        s.wf(),
        str_vector_result(Some(&s)) == Ok::<Seq<(bool, Seq<u8>)>, Seq<char>>(
            seq![(false, t.spec_bytes())],
        ),
        str_scalar_result(Some(&s)) matches Ok(x) && u.spec_bytes() == x.1,
    ensures
        str_link_utf8(Some(&s)),
        u@ == t@,
{
    encode_utf8_valid_utf8(t@);
    encode_utf8_decode_utf8(t@);
    encode_utf8_decode_utf8(u@);
    assert(u.spec_bytes() == t.spec_bytes());
    assert(decode_utf8(u.spec_bytes()) == decode_utf8(t.spec_bytes()));
}

/// A integer vector read from an object converts back into that object: the
/// same header, the same attribute link and the same elements.
pub proof fn lemma_int_vector_back_into_r(s: Sexpr, v: &IntegerVector, t: Sexpr)
    requires
        s.wf(),
        int_vector_result(Some(&s)) is Ok,
        s.sxp == Sxp::Int(*v),
        v.represented_by(t),
    ensures
        t.sxpinfo == s.sxpinfo,
        t.attrib == s.attrib,
        t.wf(),
        int_vector_result(Some(&t)) == int_vector_result(Some(&s)),
{
}

/// A logical vector read from an object converts back into that object: the
/// same header, the same attribute link and the same elements.
pub proof fn lemma_lgl_vector_back_into_r(s: Sexpr, v: &LogicalVector, t: Sexpr)
    requires
        s.wf(),
        lgl_vector_result(Some(&s)) is Ok,
        s.sxp == Sxp::Lgl(*v),
        v.represented_by(t),
    ensures
        t.sxpinfo == s.sxpinfo,
        t.attrib == s.attrib,
        t.wf(),
        lgl_vector_result(Some(&t)) == lgl_vector_result(Some(&s)),
{
}

/// A double vector read from an object converts back into that object: the
/// same header, the same attribute link and the same elements.
pub proof fn lemma_real_vector_back_into_r(s: Sexpr, v: &NumericVector, t: Sexpr)
    requires
        s.wf(),
        real_vector_result(Some(&s)) is Ok,
        s.sxp == Sxp::Real(*v),
        v.represented_by(t),
    ensures
        t.sxpinfo == s.sxpinfo,
        t.attrib == s.attrib,
        t.wf(),
        real_vector_result(Some(&t)) == real_vector_result(Some(&s)),
{
}

/// A character vector read from an object converts back into that object: the
/// same header, the same attribute link and the same elements.
pub proof fn lemma_str_vector_back_into_r(s: Sexpr, v: &CharacterVector, t: Sexpr)
    requires
        s.wf(),
        str_vector_result(Some(&s)) is Ok,
        s.sxp == Sxp::Str(*v),
        v.represented_by(t),
    ensures
        t.sxpinfo == s.sxpinfo,
        t.attrib == s.attrib,
        t.wf(),
        str_vector_result(Some(&t)) == str_vector_result(Some(&s)),
{
}

/// The code of every kind is R's SEXPTYPE number, and its printed name is
/// the kind's own name.
pub proof fn lemma_kind_codes_are_r_sexptypes()
    ensures
        SexpType::Nil.spec_code() == 0 && SexpType::Nil.spec_name()@ == "Nil"@,
        SexpType::Sym.spec_code() == 1 && SexpType::Sym.spec_name()@ == "Sym"@,
        SexpType::List.spec_code() == 2 && SexpType::List.spec_name()@ == "List"@,
        SexpType::Clo.spec_code() == 3 && SexpType::Clo.spec_name()@ == "Clo"@,
        SexpType::Env.spec_code() == 4 && SexpType::Env.spec_name()@ == "Env"@,
        SexpType::Prom.spec_code() == 5 && SexpType::Prom.spec_name()@ == "Prom"@,
        SexpType::Lang.spec_code() == 6 && SexpType::Lang.spec_name()@ == "Lang"@,
        SexpType::Special.spec_code() == 7 && SexpType::Special.spec_name()@ == "Special"@,
        SexpType::Builtin.spec_code() == 8 && SexpType::Builtin.spec_name()@ == "Builtin"@,
        SexpType::Char.spec_code() == 9 && SexpType::Char.spec_name()@ == "Char"@,
        SexpType::Lgl.spec_code() == 10 && SexpType::Lgl.spec_name()@ == "Lgl"@,
        SexpType::Int.spec_code() == 13 && SexpType::Int.spec_name()@ == "Int"@,
        SexpType::Real.spec_code() == 14 && SexpType::Real.spec_name()@ == "Real"@,
        SexpType::Cplx.spec_code() == 15 && SexpType::Cplx.spec_name()@ == "Cplx"@,
        SexpType::Str.spec_code() == 16 && SexpType::Str.spec_name()@ == "Str"@,
        SexpType::Dot.spec_code() == 17 && SexpType::Dot.spec_name()@ == "Dot"@,
        SexpType::Any.spec_code() == 18 && SexpType::Any.spec_name()@ == "Any"@,
        SexpType::Vec.spec_code() == 19 && SexpType::Vec.spec_name()@ == "Vec"@,
        SexpType::Expr.spec_code() == 20 && SexpType::Expr.spec_name()@ == "Expr"@,
        SexpType::Bcode.spec_code() == 21 && SexpType::Bcode.spec_name()@ == "Bcode"@,
        SexpType::Extptr.spec_code() == 22 && SexpType::Extptr.spec_name()@ == "Extptr"@,
        SexpType::Weakref.spec_code() == 23 && SexpType::Weakref.spec_name()@ == "Weakref"@,
        SexpType::Raw.spec_code() == 24 && SexpType::Raw.spec_name()@ == "Raw"@,
        SexpType::S4.spec_code() == 25 && SexpType::S4.spec_name()@ == "S4"@,
        SexpType::New.spec_code() == 30 && SexpType::New.spec_name()@ == "New"@,
        SexpType::Free.spec_code() == 31 && SexpType::Free.spec_name()@ == "Free"@,
        SexpType::Fun.spec_code() == 99 && SexpType::Fun.spec_name()@ == "Fun"@,
{
}

/// Reading a code gives the kind with that SEXPTYPE number: an object whose
/// header's low five bits are 4 is an environment, 5 a promise, 13 an
/// integer vector, 14 a double vector, and so on; codes of no kind are errors.
pub proof fn lemma_codes_read_as_r_kinds(n: u32)
    ensures
        n == 0 ==> SexpType::spec_from_code(n) == Ok::<SexpType, InvalidSexpType>(SexpType::Nil),
        n == 4 ==> SexpType::spec_from_code(n) == Ok::<SexpType, InvalidSexpType>(SexpType::Env),
        n == 5 ==> SexpType::spec_from_code(n) == Ok::<SexpType, InvalidSexpType>(SexpType::Prom),
        n == 10 ==> SexpType::spec_from_code(n) == Ok::<SexpType, InvalidSexpType>(SexpType::Lgl),
        n == 13 ==> SexpType::spec_from_code(n) == Ok::<SexpType, InvalidSexpType>(SexpType::Int),
        n == 14 ==> SexpType::spec_from_code(n) == Ok::<SexpType, InvalidSexpType>(SexpType::Real),
        n == 16 ==> SexpType::spec_from_code(n) == Ok::<SexpType, InvalidSexpType>(SexpType::Str),
        n == 9 ==> SexpType::spec_from_code(n) == Ok::<SexpType, InvalidSexpType>(SexpType::Char),
        (n == 11 || n == 12 || (26 <= n <= 29) || (32 <= n && n != 99)) ==> SexpType::spec_from_code(n)
            == Err::<SexpType, InvalidSexpType>(InvalidSexpType { number: n }),
{
    lemma_kind_codes_are_r_sexptypes();
    lemma_code_roundtrip(SexpType::Nil);
    lemma_code_roundtrip(SexpType::Env);
    lemma_code_roundtrip(SexpType::Prom);
    lemma_code_roundtrip(SexpType::Lgl);
    lemma_code_roundtrip(SexpType::Int);
    lemma_code_roundtrip(SexpType::Real);
    lemma_code_roundtrip(SexpType::Str);
    lemma_code_roundtrip(SexpType::Char);
    if n == 11 || n == 12 || (26 <= n <= 29) || (32 <= n && n != 99) {
        assert(forall|t: SexpType| #[trigger] t.spec_code() != n);
    }
}

/// Checking an object against a kind reads only the header's low five bits
/// and its bit 7: objects whose headers agree there are classified alike,
/// whatever their other bits (general-purpose field, gc mark, gc class).
pub proof fn lemma_classify_reads_kind_and_alt_only(a: &Sexpr, b: &Sexpr, expected: SexpType)
    requires
        a.sxpinfo@ % 32 == b.sxpinfo@ % 32,
        (a.sxpinfo@ / 128) % 2 == (b.sxpinfo@ / 128) % 2,
    ensures
        spec_classify_vector(Some(a), expected) == spec_classify_vector(Some(b), expected),
{
    vstd::arithmetic::power2::lemma2_to64();
    assert(header_field(a.sxpinfo@, 0, 5) == header_field(b.sxpinfo@, 0, 5));
    assert(header_field(a.sxpinfo@, 7, 1) == header_field(b.sxpinfo@, 7, 1));
}

/// A null link is reported as such; an object whose header has bit 7 set is
/// reported as an alternative representation; an object whose header has bit
/// 7 clear and whose low five bits are the expected kind's code matches.
pub proof fn lemma_classify_outcomes(s: &Sexpr, expected: SexpType)
    ensures
        spec_classify_vector(None, expected) == VectorCheck::Null,
        (s.sxpinfo@ / 128) % 2 == 1 ==> spec_classify_vector(Some(s), expected) == VectorCheck::AltRep,
        expected.spec_code() < 32 && (s.sxpinfo@ / 128) % 2 == 0 && s.sxpinfo@ % 32
            == expected.spec_code() ==> spec_classify_vector(Some(s), expected) == VectorCheck::Matches,
        (s.sxpinfo@ / 128) % 2 == 0 && s.sxpinfo@ % 32 != expected.spec_code()
            ==> spec_classify_vector(Some(s), expected) == VectorCheck::WrongType,
{
    vstd::arithmetic::power2::lemma2_to64();
    lemma_code_roundtrip(expected);
    if (s.sxpinfo@ / 128) % 2 == 0 && s.sxpinfo@ % 32 != expected.spec_code() {
        if s.sxpinfo.spec_sexp_type() == Ok::<SexpType, InvalidSexpType>(expected) {
            let c = choose|c: SexpType| #[trigger] c.spec_code() == (s.sxpinfo@ % 32) as u32;
            lemma_code_injective(c, expected);
        }
    }
}

/// A call's first step converts argument 0 when it has arguments, and calls
/// the function at once only when it has none.
pub proof fn lemma_call_starts_with_first_argument(count: nat)
    ensures
        count >= 1 ==> spec_start_call(count) == CallStep::Convert(0),
        count == 0 ==> spec_start_call(count) == CallStep::Invoke,
{
}

/// After argument `index` of `count` is converted, a failure is reported
/// for that argument; a success moves on to the next argument, or, after the
/// last one, to the call.
pub proof fn lemma_call_steps_after_argument(index: nat, count: nat, ok: bool)
    requires
        index < count <= usize::MAX,
    ensures
        !ok ==> spec_after_argument(index, count, ok) == CallStep::FailArgument(index as usize),
        ok && index + 1 < count ==> spec_after_argument(index, count, ok) == CallStep::Convert(
            (index + 1) as usize,
        ),
        ok && index + 1 == count ==> spec_after_argument(index, count, ok) == CallStep::Invoke,
{
}

/// How the data of each kind is shown: every vector kind by its own element
/// type, the other kinds by their payload or a label.
pub proof fn lemma_debug_data_by_kind()
    ensures
        spec_debug_data(SexpType::Int) == DebugData::Ints,
        spec_debug_data(SexpType::Real) == DebugData::Reals,
        spec_debug_data(SexpType::Lgl) == DebugData::Logicals,
        spec_debug_data(SexpType::Str) == DebugData::Strings,
        spec_debug_data(SexpType::Char) == DebugData::Chars,
        spec_debug_data(SexpType::Cplx) == DebugData::Complexes,
        spec_debug_data(SexpType::Vec) == DebugData::Vector,
        spec_debug_data(SexpType::Expr) == DebugData::Vector,
        spec_debug_data(SexpType::Raw) == DebugData::Vector,
        spec_debug_data(SexpType::List) == DebugData::List,
        spec_debug_data(SexpType::Lang) == DebugData::List,
        spec_debug_data(SexpType::Sym) == DebugData::Sym,
        spec_debug_data(SexpType::Clo) == DebugData::Clos,
        spec_debug_data(SexpType::Env) == DebugData::Env,
        spec_debug_data(SexpType::Prom) == DebugData::Prom,
        spec_debug_data(SexpType::Builtin) == DebugData::Prim,
        spec_debug_data(SexpType::Special) == DebugData::Prim,
        spec_debug_data(SexpType::Nil) == DebugData::Label("Nil"),
        spec_debug_data(SexpType::Dot) == DebugData::Label("Dot"),
        spec_debug_data(SexpType::Any) == DebugData::Label("Any"),
        spec_debug_data(SexpType::Bcode) == DebugData::Label("Bcode"),
        spec_debug_data(SexpType::Extptr) == DebugData::Label("Extptr"),
        spec_debug_data(SexpType::Weakref) == DebugData::Label("Weakref"),
        spec_debug_data(SexpType::S4) == DebugData::Label("S4"),
        spec_debug_data(SexpType::New) == DebugData::Label("New"),
        spec_debug_data(SexpType::Free) == DebugData::Label("Free"),
        spec_debug_data(SexpType::Fun) == DebugData::Label("Fun"),
{
}

/// How an object is printed: `Nil` for R's NULL, the header alone when the
/// header names no kind, the raw payload for an alternative representation,
/// and otherwise the data as its kind is shown.
pub proof fn lemma_debug_layout(h: SexpHeaderInfo)
    ensures
        h@ % 32 == 0 ==> spec_debug_layout(h) == DebugLayout::Nil,
        h.spec_sexp_type() is Err ==> spec_debug_layout(h) == DebugLayout::HeaderOnly,
        h.spec_sexp_type() matches Ok(t) ==> (t != SexpType::Nil && (h@ / 128) % 2 == 1
            ==> spec_debug_layout(h) == DebugLayout::Full(DebugData::Unknown)),
        h.spec_sexp_type() matches Ok(t) ==> (t != SexpType::Nil && (h@ / 128) % 2 == 0
            ==> spec_debug_layout(h) == DebugLayout::Full(spec_debug_data(t))),
{
    vstd::arithmetic::power2::lemma2_to64();
    lemma_code_roundtrip(SexpType::Nil);
}

/// The text of a bit of a header: `true` when set.
pub open spec fn bit_word(bits: u64, weight: nat) -> Seq<char> {
    if (bits as nat / weight) % 2 == 1 {
        "true"@
    } else {
        "false"@
    }
}

/// The printed header shows, field by field, the value its accessor of the
/// same name reads: the kind's name, bit 5 as `scalar`, bit 6 as `obj`, bit
/// 7 as `alt`, bits 8..24 as `gp`, bits 24 to 28 as the flags and bits
/// 29..32 as `gccls`; a header naming no kind is shown by its raw bits.
pub proof fn lemma_header_text_fields(h: SexpHeaderInfo)
    ensures
        h.spec_sexp_type() matches Ok(t) ==> spec_header_text(h) == "Header_info { type: "@
            + t.spec_name()@ + ", scalar: "@ + bit_word(h@, 32) + ", obj: "@ + bit_word(h@, 64)
            + ", alt: "@ + bit_word(h@, 128) + ", gp: "@ + decimal((h@ as nat / 256) % 65536)
            + ", mark: "@ + bit_word(h@, 0x100_0000) + ", debug: "@ + bit_word(h@, 0x200_0000)
            + ", trace: "@ + bit_word(h@, 0x400_0000) + ", spare: "@ + bit_word(h@, 0x800_0000)
            + ", gcgen: "@ + bit_word(h@, 0x1000_0000) + ", gccls: "@ + decimal(
            (h@ as nat / 0x2000_0000) % 8,
        ) + " }"@,
        h.spec_sexp_type() is Err ==> spec_header_text(h) == "Header_info { error: "@ + decimal(
            h@ as nat,
        ) + " }"@,
{
    vstd::arithmetic::power2::lemma2_to64();
}

} // verus!
