//! Supervision of a backend worker process: locating its executable, starting
//! it, and reading the port it reports on its standard output.
//!
//! The library holds the decisions only. A host drives a [`supervisor::Supervisor`]:
//! it performs the action the supervisor asks for, and hands back what came of it.

pub mod text;
pub mod error;
pub mod marker;
pub mod supervisor;
pub mod laws;
