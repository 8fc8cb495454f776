//! Cache-line granular storage.

pub mod padded;

pub mod line;
