//! Verified core of an R interop library: the layout of R object headers,
//! the NA conventions of R's atomic types, and the checked conversions
//! between R objects and Rust values.
#![allow(non_snake_case)]
#![allow(non_upper_case_globals)]

pub mod interface;
pub mod interface_traits;
pub mod internals;
pub mod laws;
pub mod macros;
pub mod r_types;
pub mod types;
