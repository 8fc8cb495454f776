//! Representations for the x86 architecture.
//!
//! Nekor runs in long mode only; protected-mode structures are modeled where
//! they share their layout with long mode.

pub mod interrupt;

pub mod privilege;

pub mod descriptor;

pub mod segmentation;

pub mod msr;

pub mod fred;

pub mod xstate;

pub mod mode;

pub mod gate;

pub mod cpuid;

pub mod serialize;
