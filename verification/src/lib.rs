//! A verified core for the CHIP-8 virtual machine: a 4096-byte memory,
//! sixteen 8-bit registers, a 16-bit index register and program counter,
//! a sixteen-deep call stack, two countdown timers, a 64x32 monochrome
//! framebuffer, and a sixteen-key input surface, driven one instruction
//! at a time by a fetch-decode-execute step.
//!
//! Every instruction's behaviour is stated as a relation between the
//! machine state before and after the step, and the step function is
//! proved to satisfy exactly that relation.

pub mod cpu;
pub mod decode;
pub mod draw;
pub mod font;
pub mod laws;
