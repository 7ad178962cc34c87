//! A parser for the line-oriented machine interface that debuggers in the
//! GDB family speak, together with the data types of the debug adapter
//! protocol.
//!
//! [`parser`] turns the text of one output record into a typed tree. Every
//! parsing function is verified against a grammar written as specification
//! functions in [`parser::grammar`].
pub mod dap;
pub mod parser;
