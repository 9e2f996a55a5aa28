//! Small, self-contained demonstrations of common programming concepts:
//! bindings and shadowing, primitive data types, functions and control flow.
//!
//! Every demonstration computes the values it is meant to show and hands
//! them back; presenting them is left to the caller.

pub mod bindings;
pub mod control_flow;
pub mod data_types;
pub mod functions;
