//! Small verified building blocks: branching and looping, plain functions,
//! moving and copying owned values, and variable bindings.

pub mod control_flow;
pub mod ownership;
pub mod functions;
pub mod variables;
