//! Instruction-execution core of a Motorola 68000 emulator.
//!
//! A fetched 16-bit instruction register (IR) is decoded through a
//! 65,536-entry dispatch table into an operation, which mutates the
//! architectural state (registers, lazy flag slots, memory) and returns
//! a cycle count, or signals an illegal instruction.

pub mod bits;
pub mod cpu;
pub mod common;
pub mod decode;
pub mod fake;
pub mod laws;
pub mod operator;
pub mod ops;
