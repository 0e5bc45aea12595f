//! The laws of the library on concrete values.
use rustier::internals::sexpr::{SexpHeaderInfo, SexpType};
use rustier::interface_traits::{Na, TryFromR, TryIntoR};
use rustier::r_types::numerics::{real_bits_try_from_r, real_bits_try_into_r};
use rustier::types::{RInt, RString, Rlogical};

#[test]
fn law_kind_depends_on_low_bits_only() {
    for low in 0u64..32 {
        let a = SexpHeaderInfo::from_bits(low).sexp_type();
        let b = SexpHeaderInfo::from_bits(low | 0xdead_beef_0000_0000 | (0xffe0 & 0xffff)).sexp_type();
        assert_eq!(a, b);
    }
}

#[test]
fn law_kind_codes_are_distinct() {
    let mut seen = std::collections::HashSet::new();
    for n in 0u32..128 {
        if let Ok(t) = SexpType::try_from_primitive(n) {
            assert_eq!(t.code(), n);
            assert!(seen.insert(t.code()));
        }
    }
    assert_eq!(seen.len(), 27);
}

#[test]
fn law_logical_truth_round_trips() {
    for o in [Some(true), Some(false), None] {
        assert_eq!(Rlogical::from_bool(o).as_bool(), o);
    }
    for l in [Rlogical::True, Rlogical::False, Rlogical::Na] {
        assert_eq!(Rlogical::from_bool(l.as_bool()), l);
        assert_eq!(l.is_na(), l.as_bool().is_none());
    }
}

#[test]
fn law_na_is_na() {
    assert!(RInt::na().is_na());
    assert!(Rlogical::na().is_na());
    assert!(RString::na().is_na());
}

#[test]
fn law_written_values_read_back() {
    for x in [0, 1, -1, i32::MAX, i32::MIN] {
        let s = x.try_into_r().ok().unwrap();
        assert_eq!(<i32 as TryFromR>::try_from_r(Some(&s)), Ok(x));
    }
    for bits in [0u64, 0x7ff0_1954, f64::NAN.to_bits(), (-0.0f64).to_bits()] {
        let s = real_bits_try_into_r(bits).ok().unwrap();
        assert_eq!(real_bits_try_from_r(Some(&s)), Ok(bits));
    }
    for t in ["", "a", "🏳️‍⚧️", "NA"] {
        let s = t.try_into_r().ok().unwrap();
        assert_eq!(<&str as TryFromR>::try_from_r(Some(&s)), Ok(t));
        assert!(!<&RString as TryFromR>::try_from_r(Some(&s)).ok().unwrap().is_na());
    }
}
