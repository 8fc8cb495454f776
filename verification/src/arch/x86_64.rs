//! Representations specific to the 64-bit mode of the x86 architecture.

pub mod paging;

pub mod control;

pub mod register;

pub mod task;

pub mod descriptor;

pub mod gate;
