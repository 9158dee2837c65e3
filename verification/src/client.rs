//! Operator-console logic: line parsing and the console's state machine.
//! Terminal I/O and rendering live outside the library.

pub mod app;
pub mod err;
pub mod error;
pub mod parser;
