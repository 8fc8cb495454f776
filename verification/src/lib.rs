//! Verified architecture abstraction layer: exact register, descriptor and
//! paging images for x86 and x86-64, with the bit-level laws they obey.

pub mod bits;

mod sealed;

pub mod arch;

pub mod agnostic;

pub mod cache;

pub mod critical;

pub mod feature;
