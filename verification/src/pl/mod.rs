//! The stack machine: bytecode, the stack it works on, and its steps.

pub mod bytecode;
pub mod stack;
