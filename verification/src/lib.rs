//! Core of an interrupt-driven firmware application for a single-core
//! microcontroller.
//!
//! The library models the mechanisms the firmware is built on and proves
//! them correct:
//!
//! - a critical-section discipline ([`guarded_cell`]) under which the
//!   foreground loop and the interrupt handler share state without races;
//! - an edge-triggered interrupt line ([`interrupt_line`]) with its
//!   configure/arm life cycle and the pending-flag protocol;
//! - the blink period the handler halves on every trigger ([`period`]),
//!   clamped to an explicit floor so it never reaches zero;
//! - the single-core execution model ([`machine`]) tying them together,
//!   with proofs that every foreground read observes a whole, completed
//!   write and that every handler invocation clears its pending flag;
//! - the timed control-line handshake ([`handshake`]) that brings an
//!   attached co-processor into a communication-ready state within a
//!   bounded number of polls;
//! - the startup sequencing and foreground loop ([`control_loop`]).
//!
//! Hardware access itself (register blocks, the serial bus, real delays)
//! is not performed here: callers drive the model with the values the
//! hardware produced and perform the actions the model prescribes.

pub mod control_loop;
pub mod guarded_cell;
pub mod handshake;
pub mod interrupt_line;
pub mod machine;
pub mod period;
