//! Small traits that the rest of the library leans on.

pub mod ty_eq;
