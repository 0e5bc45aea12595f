pub mod c;
pub mod sexpr;
pub mod text;
