use rustier::internals::sexpr::{
    DebugData, DebugLayout, InvalidSexpType, SexpHeaderInfo, SexpType, Sexpr, Sxp,
};
use rustier::internals::sexpr::sxp;

#[test]
fn kind_codes_round_trip() {
    let all = [
        SexpType::Nil, SexpType::Sym, SexpType::List, SexpType::Clo, SexpType::Env,
        SexpType::Prom, SexpType::Lang, SexpType::Special, SexpType::Builtin, SexpType::Char,
        SexpType::Lgl, SexpType::Int, SexpType::Real, SexpType::Cplx, SexpType::Str,
        SexpType::Dot, SexpType::Any, SexpType::Vec, SexpType::Expr, SexpType::Bcode,
        SexpType::Extptr, SexpType::Weakref, SexpType::Raw, SexpType::S4, SexpType::New,
        SexpType::Free, SexpType::Fun,
    ];
    for t in all {
        assert_eq!(SexpType::try_from_primitive(t.code()), Ok(t));
    }
    assert_eq!(SexpType::Int.code(), 13);
    assert_eq!(SexpType::Fun.code(), 99);
    assert_eq!(SexpType::try_from_primitive(14), Ok(SexpType::Real));
}

#[test]
fn unused_kind_codes_are_refused() {
    for n in [11u32, 12, 26, 27, 28, 29, 32, 98, 100, u32::MAX] {
        assert_eq!(SexpType::try_from_primitive(n), Err(InvalidSexpType { number: n }));
    }
}

#[test]
fn header_kind_is_low_five_bits() {
    assert_eq!(SexpHeaderInfo::from_bits(13).sexp_type(), Ok(SexpType::Int));
    // bits above the fifth do not change the kind
    assert_eq!(SexpHeaderInfo::from_bits(13 | 0xffff_ff00).sexp_type(), Ok(SexpType::Int));
    assert_eq!(SexpHeaderInfo::from_bits(0x20 | 16).sexp_type(), Ok(SexpType::Str));
    assert_eq!(
        SexpHeaderInfo::from_bits(11).sexp_type(),
        Err(InvalidSexpType { number: 11 })
    );
    // the code of Fun does not fit in five bits: 99 & 31 == 3
    assert_eq!(SexpHeaderInfo::from_bits(99).sexp_type(), Ok(SexpType::Clo));
}

#[test]
fn header_flags() {
    let h = SexpHeaderInfo::from_bits(0);
    assert!(!h.scalar() && !h.obj() && !h.alt());
    assert!(!h.mark() && !h.debug() && !h.trace() && !h.spare() && !h.gcgen());
    assert_eq!(h.gp(), 0);
    assert_eq!(h.gccls(), 0);

    assert!(SexpHeaderInfo::from_bits(1 << 5).scalar());
    assert!(!SexpHeaderInfo::from_bits(1 << 5).obj());
    assert!(SexpHeaderInfo::from_bits(1 << 6).obj());
    assert!(SexpHeaderInfo::from_bits(1 << 7).alt());
    assert!(!SexpHeaderInfo::from_bits(1 << 7).scalar());
    assert!(SexpHeaderInfo::from_bits(1 << 24).mark());
    assert!(!SexpHeaderInfo::from_bits(1 << 23).mark());
    assert!(SexpHeaderInfo::from_bits(1 << 25).debug());
    assert!(SexpHeaderInfo::from_bits(1 << 26).trace());
    assert!(SexpHeaderInfo::from_bits(1 << 27).spare());
    assert!(SexpHeaderInfo::from_bits(1 << 28).gcgen());
    assert!(!SexpHeaderInfo::from_bits(1 << 28).spare());
    assert!(!SexpHeaderInfo::from_bits(1 << 29).gcgen());
}

#[test]
fn header_fields() {
    let h = SexpHeaderInfo::from_bits(0x1234_5678_9abc_def0);
    assert_eq!(h.gp(), 0xbcde);
    assert_eq!(h.gccls(), 4);
    assert_eq!(SexpHeaderInfo::from_bits(1 << 8).gp(), 1);
    assert_eq!(SexpHeaderInfo::from_bits(0xff).gp(), 0);
    assert_eq!(SexpHeaderInfo::from_bits(1 << 24).gp(), 0);
    assert_eq!(SexpHeaderInfo::from_bits(0xffff_00).gp(), 0xffff);
    assert_eq!(SexpHeaderInfo::from_bits(7 << 29).gccls(), 7);
    assert_eq!(SexpHeaderInfo::from_bits(1 << 31).gccls(), 4);
    assert_eq!(SexpHeaderInfo::from_bits(1 << 28).gccls(), 0);
    assert_eq!(SexpHeaderInfo::from_bits(1 << 32).gccls(), 0);
    assert_eq!(h.to_bits(), 0x1234_5678_9abc_def0);
}

fn object(bits: u64, sxp: Sxp) -> Sexpr {
    Sexpr::new(SexpHeaderInfo::from_bits(bits), 0, sxp)
}

#[test]
fn null_objects() {
    assert!(object(0, Sxp::Unknown(sxp::Unknown::new())).is_null());
    assert!(object(0x100, Sxp::Unknown(sxp::Unknown::new())).is_null());
    assert!(!object(1, Sxp::Unknown(sxp::Unknown::new())).is_null());
    assert!(!object(11, Sxp::Unknown(sxp::Unknown::new())).is_null());
}

#[test]
fn debug_layouts() {
    let u = || Sxp::Unknown(sxp::Unknown::new());
    assert!(matches!(object(0, u()).debug_layout(), DebugLayout::Nil));
    assert!(matches!(object(11, u()).debug_layout(), DebugLayout::HeaderOnly));
    assert!(matches!(object(2, u()).debug_layout(), DebugLayout::Full(DebugData::List)));
    assert!(matches!(object(6, u()).debug_layout(), DebugLayout::Full(DebugData::List)));
    assert!(matches!(object(13, u()).debug_layout(), DebugLayout::Full(DebugData::Ints)));
    assert!(matches!(object(13 | 128, u()).debug_layout(), DebugLayout::Full(DebugData::Unknown)));
    assert!(matches!(object(7, u()).debug_layout(), DebugLayout::Full(DebugData::Prim)));
    assert!(matches!(object(24, u()).debug_layout(), DebugLayout::Full(DebugData::Vector)));
    match object(21, u()).debug_layout() {
        DebugLayout::Full(DebugData::Label(l)) => assert_eq!(l, "Bcode"),
        _ => panic!("a bytecode object shows a label"),
    }
    match object(17, u()).debug_layout() {
        DebugLayout::Full(DebugData::Label(l)) => assert_eq!(l, "Dot"),
        _ => panic!("a dot object shows a label"),
    }
}

#[test]
fn promise_value_label() {
    let forced = sxp::Prom { value: 8, expr: 16, env: 0 };
    let pending = sxp::Prom { value: 8, expr: 16, env: 24 };
    assert_eq!(forced.value_field_name(), "===VALUE===");
    assert_eq!(pending.value_field_name(), "value");
}

use rustier::macros::errors::{argument_error, error_text, return_error, CallStage};

#[test]
fn error_messages() {
    assert_eq!(
        argument_error(0, "Argument is a null pointer"),
        "Rustier encountered an error parsing argument 1 : Argument is a null pointer"
    );
    assert_eq!(argument_error(9, "x"), "Rustier encountered an error parsing argument 10 : x");
    assert_eq!(argument_error(1233, ""), "Rustier encountered an error parsing argument 1234 : ");
    assert_eq!(return_error(""), "Rustier encountered an error returning to R: ");
    assert_eq!(return_error("no"), "Rustier encountered an error returning to R: no");
}

#[test]
fn error_texts_for_r() {
    assert_eq!(error_text("plain", CallStage::Arguments), "plain");
    assert_eq!(
        error_text("with\0nul", CallStage::Arguments),
        "Rustier error when parsing R arguments: [error could not be formatted]"
    );
    assert_eq!(
        error_text("\0", CallStage::Return),
        "Rustier error when returning to R: [error could not be formatted]"
    );
    assert_eq!(error_text("", CallStage::Return), "");
}

#[test]
fn header_text() {
    assert_eq!(
        SexpHeaderInfo::from_bits(13).debug_text(),
        "Header_info { type: Int, scalar: false, obj: false, alt: false, gp: 0, mark: false, debug: false, trace: false, spare: false, gcgen: false, gccls: 0 }"
    );
    assert_eq!(
        SexpHeaderInfo::from_bits(16 | (1 << 5) | (300 << 8) | (1 << 28) | (5 << 29)).debug_text(),
        "Header_info { type: Str, scalar: true, obj: false, alt: false, gp: 300, mark: false, debug: false, trace: false, spare: false, gcgen: true, gccls: 5 }"
    );
    assert_eq!(SexpHeaderInfo::from_bits(11).debug_text(), "Header_info { error: 11 }");
    assert_eq!(
        SexpHeaderInfo::from_bits(u64::MAX - 20).debug_text(),
        format!("Header_info {{ error: {} }}", u64::MAX - 20)
    );
    assert_eq!(SexpType::Weakref.name(), "Weakref");
    assert_eq!(format!("{:?}", SexpType::S4), SexpType::S4.name());
}

use rustier::macros::call::{after_argument, after_result, start_call, CallStep};

#[test]
fn call_steps() {
    assert_eq!(start_call(0), CallStep::Invoke);
    assert_eq!(start_call(2), CallStep::Convert(0));
    assert_eq!(after_argument(0, 2, true), CallStep::Convert(1));
    assert_eq!(after_argument(1, 2, true), CallStep::Invoke);
    assert_eq!(after_argument(0, 2, false), CallStep::FailArgument(0));
    assert_eq!(after_argument(1, 2, false), CallStep::FailArgument(1));
    assert_eq!(after_result(true), CallStep::Return);
    assert_eq!(after_result(false), CallStep::FailResult);
}

#[test]
fn call_stops_at_first_failing_argument() {
    let oks = [true, false, false];
    let mut step = start_call(oks.len());
    let mut converted = Vec::new();
    while let CallStep::Convert(i) = step {
        converted.push(i);
        step = after_argument(i, oks.len(), oks[i]);
    }
    assert_eq!(converted, vec![0, 1]);
    assert_eq!(step, CallStep::FailArgument(1));
}
