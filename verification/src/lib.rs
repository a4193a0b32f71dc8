//! Single-step trace driver for checking that cryptographic routines are
//! constant time.
//!
//! A traced child partitions its execution into windows by raising signals:
//! USR1 opens a window, STOP closes it.  Inside a window the parent
//! single-steps the child, records the instruction pointer of every executed
//! instruction and the effective address of every memory operand, and when a
//! window closes compares the recorded trace with the previous window's
//! trace.  Any divergence between two windows is evidence of data-dependent
//! control flow or memory access.
//!
//! This crate holds the verified core: decoding of `waitpid` status words,
//! projection of register identifiers onto a register snapshot, effective
//! address computation for decoded memory operands, and the signal-driven
//! driver state machine with its trace comparator.  Process control and the
//! native disassembler are reached over FFI by the surrounding binary, which
//! feeds plain values into this core.
#![allow(non_camel_case_types)]

pub mod distorm;
pub mod driver;
pub mod effaddr;
pub mod sys;
