//! Architecture-specific representations.

pub mod x86;

pub mod x86_64;
