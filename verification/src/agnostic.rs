//! Architecture-agnostic building blocks for low-level representations:
//! partitioned integers, reserved storage, opaque values, base-relative
//! addresses and a two-slot swap chain.

pub mod partitioned;

pub mod reserved;

pub mod opaque;

pub mod rel_ptr;

pub mod swap;
