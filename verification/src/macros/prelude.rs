pub use crate::interface_traits::{Infalliable, IntoR, Na, TryFromR, TryIntoR};
pub use crate::internals::sexpr;
