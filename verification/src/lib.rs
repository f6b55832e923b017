//! Core of a batch kernel for one RISC-V hart: the catalog of embedded
//! programs, the loader of the execution region, the trap context and the
//! privilege switch, the system-call dispatcher and the batch controller.
//!
//! Everything here works on plain values. Console output, machine shutdown,
//! the trap entry stub and the instruction-visibility fence are left to the
//! program that drives this library.

pub mod batch;
pub mod boot;
pub mod catalog;
pub mod context;
pub mod hart;
pub mod layout;
pub mod loader;
pub mod syscall;
pub mod trap;
