//! A CHIP-8 virtual machine core.
//!
//! The crate is split in three parts:
//!
//! * [`insn`] — the instruction decoder: a pure mapping from a 16-bit opcode
//!   word to a tagged instruction value.
//! * [`vm`] — the machine state (memory, registers, stack, timers,
//!   framebuffer, key mask) and the execution engine that interprets one
//!   decoded instruction per step.
//! * [`ui`] — pure helpers for rendering the framebuffer; the actual
//!   drawing and event polling belong to an external driver.
//!
//! Every instruction's effect on the machine state is stated in its
//! contract; the engine itself never panics and never performs I/O.

pub mod insn;
pub mod ui;
pub mod vm;
