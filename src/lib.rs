//! Concurrency and execution-context primitives for a single-address-space
//! processor without an operating system: atomic cells, spin locks,
//! one-time initialisation and the construction of resumable thread contexts.
//!
//! Each operation on a primitive takes exclusive access to it for its whole
//! duration, as a critical section with interrupts disabled does on a single
//! core, so each is one indivisible step. What concurrent callers can observe
//! is then an interleaving of such steps; the laws of `sync` are stated over
//! every such interleaving.

pub mod atomic;
pub mod sync;
pub mod sched;
pub mod volatile;
pub mod cpuid;
pub mod semih;
pub mod delay;
