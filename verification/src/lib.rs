//! Interrupt-handling core of a small x86-64 kernel.
//!
//! The crate decides; the surrounding kernel acts. Every function here takes
//! plain values (register contents, scancodes, task identities) and returns
//! plain values (register writes to perform, events to deliver, the next task
//! to resume). Nothing in this crate touches hardware.

pub mod apic;
pub mod framebuffer;
pub mod interrupts;
pub mod task;
