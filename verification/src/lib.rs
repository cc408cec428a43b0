//! The interrupt-driven console subsystem of a minimal kernel: a text
//! console over an 80x25 character grid with a blinking cursor, a tiny
//! line-oriented command shell, and models of the interrupt dispatch table
//! and the chained-controller acknowledgment rule that route the timer and
//! keyboard IRQs to the console.
//!
//! Everything that computes — the writer's transitions, line capture and
//! extraction, command dispatch, the handlers' work — is verified against
//! pure specifications. The privileged edges (device memory, I/O ports,
//! loading the table into the CPU) stay with the surrounding program, which
//! exchanges plain values with this library.

pub mod command;
pub mod interrupts;
pub mod vga_buffer;
