//! A verified interpreter for the Intel 8080 instruction set.
//!
//! The crate is split into an instruction catalog ([`disassembler`]), the
//! processor state machine ([`emulator`]), the mathematical model of the
//! machine that every contract speaks of ([`model`]), and proofs of the
//! machine-level laws that the interpreter obeys ([`theorems`]).

pub mod disassembler;
pub mod emulator;
pub mod model;
pub mod theorems;
