//! The R types, gathered.
pub use crate::r_types::integers::{IntegerVector, RInt};
pub use crate::r_types::logicals::{LogicalVector, Rlogical};
pub use crate::r_types::numerics::NumericVector;
pub use crate::r_types::strings::{CharacterVector, RString};
pub use crate::r_types::Rbox;
