//! What code that exchanges values with R needs in scope, the control flow of
//! a function exported to R, and the messages of its failures.
pub mod call;
pub mod errors;
pub mod prelude;
