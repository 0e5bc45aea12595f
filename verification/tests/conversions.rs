use rustier::internals::c::{is_na_real_bits, r_na_real_bits, R_NaInt, R_NaLogical};
use rustier::internals::sexpr::{classify_vector, SexpHeaderInfo, SexpType, Sexpr, Sxp, VectorCheck};
use rustier::internals::sexpr::sxp;
use rustier::interface_traits::{Infalliable, IntoR, Na, TryFromR, TryIntoR};
use rustier::r_types::numerics::{real_bits_try_from_r, real_bits_try_into_r};
use rustier::types::{
    CharacterVector, IntegerVector, LogicalVector, NumericVector, RInt, RString, Rbox, Rlogical,
};

fn object(bits: u64, sxp: Sxp) -> Sexpr {
    Sexpr::new(SexpHeaderInfo::from_bits(bits), 0, sxp)
}

fn ints(data: Vec<i32>) -> Sexpr {
    object(13, Sxp::Int(IntegerVector::from_raw(data)))
}

fn lgls(data: Vec<i32>) -> Sexpr {
    object(10, Sxp::Lgl(LogicalVector::from_raw(data)))
}

fn reals(data: Vec<u64>) -> Sexpr {
    object(14, Sxp::Real(NumericVector::from_bits(data)))
}

fn strs(data: Vec<RString>) -> Sexpr {
    object(16, Sxp::Str(CharacterVector::from_strings(data)))
}

fn other() -> Sexpr {
    object(2, Sxp::List(sxp::List { car: 0, cdr: 0, tag: 0 }))
}

#[test]
fn classify_checks_null_then_altrep_then_kind() {
    assert_eq!(classify_vector(None, SexpType::Int), VectorCheck::Null);
    let alt = object(13 | 128, Sxp::Unknown(sxp::Unknown::new()));
    assert_eq!(classify_vector(Some(&alt), SexpType::Int), VectorCheck::AltRep);
    // an alternative representation is reported even when its kind does not fit
    assert_eq!(classify_vector(Some(&alt), SexpType::Real), VectorCheck::AltRep);
    assert_eq!(classify_vector(Some(&other()), SexpType::Int), VectorCheck::WrongType);
    assert_eq!(classify_vector(Some(&ints(vec![1])), SexpType::Int), VectorCheck::Matches);
}

#[test]
fn integer_vector_conversions() {
    let s = ints(vec![3, R_NaInt, -7]);
    let v = <&IntegerVector as TryFromR>::try_from_r(Some(&s)).ok().unwrap();
    assert_eq!(v.as_raw_slice(), &[3, R_NaInt, -7]);
    let elems = v.as_slice();
    assert_eq!(elems.len(), 3);
    assert_eq!(elems[0].as_i32(), Some(3));
    assert_eq!(elems[1].as_i32(), None);
    assert!(elems[1].is_na());
    assert_eq!(elems[2].as_i32_unchecked(), -7);
    assert_eq!(<&[i32] as TryFromR>::try_from_r(Some(&s)), Ok(&[3, R_NaInt, -7][..]));
    let rints = <Vec<RInt> as TryFromR>::try_from_r(Some(&s)).ok().unwrap();
    assert_eq!(rints.len(), 3);
    assert_eq!(rints[2].as_i32(), Some(-7));
}

#[test]
fn integer_vector_errors() {
    assert_eq!(<&[i32] as TryFromR>::try_from_r(None), Err("Argument is a null pointer"));
    let alt = object(13 | 128, Sxp::Unknown(sxp::Unknown::new()));
    assert_eq!(<&[i32] as TryFromR>::try_from_r(Some(&alt)), Err("Argument is alt rep"));
    assert_eq!(
        <&[i32] as TryFromR>::try_from_r(Some(&other())),
        Err("Argument is not a Integer vector")
    );
    assert_eq!(
        <&[i32] as TryFromR>::try_from_r(Some(&reals(vec![0]))),
        Err("Argument is not a Integer vector")
    );
}

#[test]
fn integer_scalars() {
    assert_eq!(<i32 as TryFromR>::try_from_r(Some(&ints(vec![42]))), Ok(42));
    assert_eq!(
        <i32 as TryFromR>::try_from_r(Some(&ints(vec![1, 2]))),
        Err("Was expecting a Integer vector of size 1")
    );
    assert_eq!(
        <i32 as TryFromR>::try_from_r(Some(&ints(vec![]))),
        Err("Was expecting a Integer vector of size 1")
    );
    assert_eq!(<i32 as TryFromR>::try_from_r(None), Err("Argument is a null pointer"));
    let x = <RInt as TryFromR>::try_from_r(Some(&ints(vec![R_NaInt]))).ok().unwrap();
    assert!(x.is_na());
    assert_eq!(x.as_i32(), None);
    assert_eq!(x.as_i32_unchecked(), i32::MIN);
}

#[test]
fn integer_na() {
    let na = RInt::na();
    assert!(na.is_na());
    assert_eq!(na.as_i32(), None);
    assert_eq!(na.as_i32_unchecked(), i32::MIN);
    assert_eq!(R_NaInt, i32::MIN);
}

#[test]
fn integers_into_r() {
    let s = 17i32.try_into_r().ok().unwrap();
    assert_eq!(<i32 as TryFromR>::try_from_r(Some(&s)), Ok(17));
    assert_eq!(s.sxpinfo.sexp_type(), Ok(SexpType::Int));
    assert!(!s.sxpinfo.alt());
    let na = RInt::na().try_into_r().ok().unwrap();
    assert_eq!(<&[i32] as TryFromR>::try_from_r(Some(&na)), Ok(&[R_NaInt][..]));
    let original = ints(vec![4, 5, 6]);
    let v = <&IntegerVector as TryFromR>::try_from_r(Some(&original)).ok().unwrap();
    let copy = v.into_r();
    assert_eq!(<&[i32] as TryFromR>::try_from_r(Some(&copy)), Ok(&[4, 5, 6][..]));
}

#[test]
fn new_vectors() {
    let iv: Rbox<IntegerVector> = IntegerVector::new_rboxed_with_size(4);
    assert_eq!(iv.as_raw_slice(), &[0, 0, 0, 0]);
    let mut lv = LogicalVector::new_rboxed_with_size(2);
    assert_eq!(lv.as_raw_slice(), &[0, 0]);
    lv.as_raw_mut_slice()[1] = 1;
    assert_eq!(lv.as_slice(), vec![Rlogical::False, Rlogical::True]);
    let nv = NumericVector::new_rboxed_with_size(1);
    assert_eq!(nv.as_bits_slice(), &[0u64]);
    let cv = CharacterVector::new_rboxed_with_size(2);
    assert_eq!(cv.as_slice().len(), 2);
    assert_eq!(cv.as_slice()[0].as_str().ok(), Some(""));
    assert!(!cv.as_slice()[1].is_na());
    assert_eq!(IntegerVector::new_rboxed_with_size(0).as_raw_slice().len(), 0);
    let mut iv = iv;
    iv.as_raw_mut_slice()[2] = 9;
    assert_eq!(iv.into_inner().as_raw_slice(), &[0, 0, 9, 0]);
}

#[test]
fn logical_encoding() {
    assert_eq!(Rlogical::False.as_i32_unchecked(), 0);
    assert_eq!(Rlogical::True.as_i32_unchecked(), 1);
    assert_eq!(Rlogical::Na.as_i32_unchecked(), R_NaLogical);
    assert_eq!(R_NaLogical, i32::MIN);
    assert_eq!(Rlogical::True.as_bool(), Some(true));
    assert_eq!(Rlogical::False.as_bool(), Some(false));
    assert_eq!(Rlogical::Na.as_bool(), None);
    assert_eq!(Rlogical::from_bool(Some(true)), Rlogical::True);
    assert_eq!(Rlogical::from_bool(Some(false)), Rlogical::False);
    assert_eq!(Rlogical::from_bool(None), Rlogical::Na);
    assert!(Rlogical::na().is_na());
    assert!(!Rlogical::True.is_na());
    assert!(!Rlogical::False.is_na());
}

#[test]
fn logical_conversions() {
    let s = lgls(vec![1, 0, R_NaLogical]);
    let v = <&LogicalVector as TryFromR>::try_from_r(Some(&s)).ok().unwrap();
    assert_eq!(v.as_raw_slice(), &[1, 0, i32::MIN]);
    assert_eq!(
        <Vec<Rlogical> as TryFromR>::try_from_r(Some(&s)),
        Ok(vec![Rlogical::True, Rlogical::False, Rlogical::Na])
    );
    assert_eq!(
        <Rlogical as TryFromR>::try_from_r(Some(&s)),
        Err("Was expecting a Logical vector of size 1")
    );
    assert_eq!(<Rlogical as TryFromR>::try_from_r(Some(&lgls(vec![R_NaLogical]))), Ok(Rlogical::Na));
    assert_eq!(<Option<bool> as TryFromR>::try_from_r(Some(&lgls(vec![1]))), Ok(Some(true)));
    assert_eq!(<Option<bool> as TryFromR>::try_from_r(Some(&lgls(vec![0]))), Ok(Some(false)));
    assert_eq!(<Option<bool> as TryFromR>::try_from_r(Some(&lgls(vec![R_NaLogical]))), Ok(None));
    assert_eq!(<Option<bool> as TryFromR>::try_from_r(None), Err("Argument is a null pointer"));
    assert_eq!(
        <Option<bool> as TryFromR>::try_from_r(Some(&ints(vec![1]))),
        Err("Argument is not a Logical vector")
    );
    let alt = object(10 | 128, Sxp::Unknown(sxp::Unknown::new()));
    assert_eq!(<Rlogical as TryFromR>::try_from_r(Some(&alt)), Err("Argument is alt rep"));
}

#[test]
fn logicals_into_r() {
    for b in [true, false] {
        let s = b.try_into_r().ok().unwrap();
        assert_eq!(<Option<bool> as TryFromR>::try_from_r(Some(&s)), Ok(Some(b)));
    }
    let s = true.try_into_r().ok().unwrap();
    assert_eq!(<&LogicalVector as TryFromR>::try_from_r(Some(&s)).ok().unwrap().as_raw_slice(), &[1]);
    for l in [Rlogical::True, Rlogical::False, Rlogical::Na] {
        let s = l.try_into_r().ok().unwrap();
        assert_eq!(<Rlogical as TryFromR>::try_from_r(Some(&s)), Ok(l));
    }
}

#[test]
fn real_na_bits() {
    assert_eq!(r_na_real_bits(), 0x7ff0_0000_0000_07a2);
    assert!(f64::from_bits(r_na_real_bits()).is_nan());
    assert!(is_na_real_bits(0x7ff0_0000_0000_07a2));
    assert!(!is_na_real_bits(0x7ff0_1954));
    assert!(!is_na_real_bits(f64::NAN.to_bits()));
    assert!(!is_na_real_bits(0));
}

#[test]
fn real_conversions() {
    let one = 1.0f64.to_bits();
    let s = reals(vec![one]);
    assert_eq!(real_bits_try_from_r(Some(&s)), Ok(one));
    assert_eq!(f64::from_bits(real_bits_try_from_r(Some(&s)).unwrap()), 1.0);
    assert_eq!(
        real_bits_try_from_r(Some(&reals(vec![one, one]))),
        Err("Was expecting a numeric vector of size 1")
    );
    assert_eq!(real_bits_try_from_r(Some(&ints(vec![1]))), Err("Argument is not a Numeric vector"));
    assert_eq!(real_bits_try_from_r(None), Err("Argument is a null pointer"));
    let v = <&NumericVector as TryFromR>::try_from_r(Some(&s)).ok().unwrap();
    assert_eq!(v.as_bits_slice(), &[one]);
    let back = real_bits_try_into_r(2.5f64.to_bits()).ok().unwrap();
    assert_eq!(real_bits_try_from_r(Some(&back)), Ok(2.5f64.to_bits()));
    let copy = v.into_r();
    assert_eq!(real_bits_try_from_r(Some(&copy)), Ok(one));
}

#[test]
fn strings() {
    let s = RString::new("héllo");
    assert_eq!(s.as_str().ok(), Some("héllo"));
    assert!(!s.is_na());
    let na = RString::na();
    assert!(na.is_na());
    assert_eq!(na.as_str().ok(), Some("NA"));
    assert!(!RString::new("NA").is_na());
    assert!(RString::from_bytes(vec![0xff, 0xfe]).as_str().is_err());
    assert_eq!(RString::from_bytes(vec![0x61, 0x62]).as_str().ok(), Some("ab"));
}

#[test]
fn string_conversions() {
    let s = strs(vec![RString::new("🦀")]);
    assert_eq!(<&str as TryFromR>::try_from_r(Some(&s)), Ok("🦀"));
    let r = <&RString as TryFromR>::try_from_r(Some(&s)).ok().unwrap();
    assert_eq!(r.as_str().ok(), Some("🦀"));
    let two = strs(vec![RString::new("a"), RString::na()]);
    assert_eq!(
        <&str as TryFromR>::try_from_r(Some(&two)),
        Err("Was expecting a Character Vector of length 1")
    );
    let elems = <&[RString] as TryFromR>::try_from_r(Some(&two)).ok().unwrap();
    assert_eq!(elems.len(), 2);
    assert!(elems[1].is_na());
    assert_eq!(<&str as TryFromR>::try_from_r(Some(&ints(vec![1]))), Err("Argument is not a character vector"));
    assert_eq!(<&str as TryFromR>::try_from_r(None), Err("Argument is a null pointer"));
    let v = <&CharacterVector as TryFromR>::try_from_r(Some(&two)).ok().unwrap();
    assert_eq!(v.as_slice()[0].as_str().ok(), Some("a"));
}

#[test]
fn strings_into_r() {
    let s = "من left اليمين".try_into_r().ok().unwrap();
    assert_eq!(<&str as TryFromR>::try_from_r(Some(&s)), Ok("من left اليمين"));
    let s = RString::na().try_into_r().ok().unwrap();
    assert!(<&RString as TryFromR>::try_from_r(Some(&s)).ok().unwrap().is_na());
    let mut cv = CharacterVector::new_rboxed_with_size(3);
    cv.as_mut_slice()[0] = RString::new("x");
    cv.as_mut_slice()[2] = RString::na();
    let obj = (&*cv).into_r();
    let back = <&[RString] as TryFromR>::try_from_r(Some(&obj)).ok().unwrap();
    assert_eq!(back[0].as_str().ok(), Some("x"));
    assert_eq!(back[1].as_str().ok(), Some(""));
    assert!(back[2].is_na());
}

#[test]
fn infallible_prints_nothing() {
    assert_eq!(Infalliable {}.to_string(), "");
}

#[test]
fn string_text_unchecked() {
    assert_eq!(RString::new("abc").as_str_unchecked(), "abc");
    assert_eq!(RString::na().as_str_unchecked(), "NA");
}

#[test]
fn vector_setters() {
    let mut iv = IntegerVector::new_rboxed_with_size(3).into_inner();
    iv.set(1, RInt::na());
    assert_eq!(iv.as_raw_slice(), &[0, R_NaInt, 0]);
    let mut lv = LogicalVector::new_rboxed_with_size(2).into_inner();
    lv.set(0, Rlogical::Na);
    lv.set(1, Rlogical::True);
    assert_eq!(lv.as_raw_slice(), &[R_NaLogical, 1]);
}

#[test]
fn string_bytes_and_char_objects() {
    assert_eq!(RString::new("é").as_bytes(), &[0xc3, 0xa9]);
    assert_eq!(RString::na().as_bytes(), b"NA");
    let s = RString::new("z");
    let obj = (&s).into_r();
    assert_eq!(obj.sxpinfo.sexp_type(), Ok(SexpType::Char));
    assert_eq!(obj.sxpinfo.to_bits(), 9);
    assert_eq!(obj.attrib, 0);
    match &obj.sxp {
        Sxp::Char(x) => assert_eq!(x.as_str().ok(), Some("z")),
        _ => panic!("a character object holds its string"),
    }
    let via_blanket = (&s).try_into_r().ok().unwrap();
    assert!(matches!(via_blanket.sxp, Sxp::Char(_)));
}

#[test]
fn fresh_objects_have_plain_headers() {
    let s = 5i32.try_into_r().ok().unwrap();
    assert_eq!(s.sxpinfo.to_bits(), 13);
    assert_eq!(s.attrib, 0);
    let s = true.try_into_r().ok().unwrap();
    assert_eq!(s.sxpinfo.to_bits(), 10);
    let s = "a".try_into_r().ok().unwrap();
    assert_eq!(s.sxpinfo.to_bits(), 16);
    let s = real_bits_try_into_r(0).ok().unwrap();
    assert_eq!(s.sxpinfo.to_bits(), 14);
}

#[test]
fn vectors_convert_back_into_their_own_object() {
    // a named integer vector with the object flag set
    let header = SexpHeaderInfo::from_bits(13 | (1 << 6) | (3 << 8));
    let s = Sexpr::new(header, 0x5000, Sxp::Int(IntegerVector::from_parts(header, 0x5000, vec![1, 2])));
    let v = <&IntegerVector as TryFromR>::try_from_r(Some(&s)).ok().unwrap();
    assert_eq!(v.sxpinfo().to_bits(), header.to_bits());
    assert_eq!(v.attrib(), 0x5000);
    let back = v.into_r();
    assert_eq!(back.sxpinfo.to_bits(), header.to_bits());
    assert!(back.sxpinfo.obj());
    assert_eq!(back.attrib, 0x5000);
    assert_eq!(<&[i32] as TryFromR>::try_from_r(Some(&back)), Ok(&[1, 2][..]));

    let lh = SexpHeaderInfo::from_bits(10 | (1 << 6));
    let l = LogicalVector::from_parts(lh, 0x60, vec![1]);
    let back = (&l).into_r();
    assert_eq!(back.sxpinfo.to_bits(), lh.to_bits());
    assert_eq!(back.attrib, 0x60);

    let rh = SexpHeaderInfo::from_bits(14 | (1 << 5));
    let r = NumericVector::from_parts(rh, 0x70, vec![7]);
    let back = (&r).into_r();
    assert_eq!(back.sxpinfo.to_bits(), rh.to_bits());
    assert_eq!(back.attrib, 0x70);
    assert_eq!(real_bits_try_from_r(Some(&back)), Ok(7));

    let ch = SexpHeaderInfo::from_bits(16 | (1 << 6));
    let c = CharacterVector::from_parts(ch, 0x80, vec![RString::new("q")]);
    let back = (&c).into_r();
    assert_eq!(back.sxpinfo.to_bits(), ch.to_bits());
    assert_eq!(back.attrib, 0x80);
    assert_eq!(<&str as TryFromR>::try_from_r(Some(&back)), Ok("q"));
}

#[test]
fn new_vectors_have_plain_headers() {
    let v = IntegerVector::from_raw(vec![3]);
    assert_eq!(v.sxpinfo().to_bits(), 13);
    assert_eq!(v.attrib(), 0);
    let b = CharacterVector::new_rboxed_with_size(1);
    assert_eq!(b.sxpinfo().to_bits(), 16);
    let n = NumericVector::new_rboxed_with_size(0);
    assert_eq!(n.sxpinfo().to_bits(), 14);
    assert_eq!(LogicalVector::from_raw(vec![]).sxpinfo().to_bits(), 10);
}
