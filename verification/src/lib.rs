//! Translation of a parsed quantum-circuit program into an ordered
//! instruction model, ready for lowering into a portable quantum
//! intermediate representation.
//!
//! The library resolves raw argument nodes into typed register references,
//! maps gate names to instruction kinds, keeps the register table, and walks
//! the program in order, appending one instruction per recognised statement.

pub mod arguments;
pub mod ast;
pub mod decimal;
pub mod errors;
pub mod gates;
pub mod listener;
pub mod model;
