//! Field-level compilation of a Protocol Buffers schema into a TypeScript
//! object model: how a field is addressed, its static type, its storage
//! initializer and the expression that tests whether it is set.

pub mod context;
pub mod descriptor;
pub mod model;
pub mod field;
pub mod laws;
