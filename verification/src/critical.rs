//! Critical sections at the architecture level.
//!
//! - Local critical sections ([`lcs`]) disable interrupts on the current core.
//! - Global critical sections ([`gcs`]) additionally exclude the other
//!   contenders for one global resource.
//! - Machine-stop critical sections ([`mscs`]) halt every other core.
//! - Stable-point critical sections ([`spcs`]) stop every core at a safe
//!   point of its work.
//!
//! Each critical section hands out a token; holding the token is the proof
//! that the section is held. Issuing the instructions that enter and leave a
//! section is the platform layer's part.

pub mod lcs;

pub mod gcs;

pub mod mscs;

pub mod spcs;
