//! Logging backend for programs running inside the no$gba emulator.
//!
//! The library decides everything that does not touch the hardware: whether the
//! signature read from the emulator matches, how the interrupt-enable flag is saved
//! and restored around a critical section, the exact bytes of a formatted record,
//! and how the outcome of installing the global logger becomes this crate's result.
pub mod signature;
pub mod guard;
pub mod record;
pub mod registrar;
