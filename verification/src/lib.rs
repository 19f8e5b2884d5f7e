//! Basic-block profiling instrumentation for a stack-machine bytecode.
//!
//! A function body is cut into basic blocks, each block body is stored once
//! under a hash of its instruction symbols, and calls to two measurement hooks
//! are woven into the instruction stream at block entry and exit.

pub mod code_blocks;
pub mod declare;
pub mod imports;
pub mod instrumentation;
pub mod operators;
