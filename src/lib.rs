//! Resources whose lifecycle phase is part of their type.
//!
//! Each handle pairs the identity of a resource with a zero-sized marker for
//! the phase the resource is in. An operation exists only on the handles of
//! the phases where it is legal, and every transition consumes the old handle
//! and returns one tagged with the new phase.
//!
//! - `handle`: a file writer, closed or open, over a simulated device that
//!   can fail;
//! - `account`: a bank account, active or frozen, with pluggable
//!   transactions;
//! - `pin`: a GPIO pin, input, output or handed to a peripheral;
//! - `cpu`: a toy CPU with a textual instruction set.

pub mod handle;
pub mod account;
pub mod pin;
pub mod cpu;
