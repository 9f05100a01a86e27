//! Printer discovery and direct printing, as decisions over plain values.
//!
//! The spooler itself is not called from here. Each operation is a small state
//! machine: the caller performs the action it asks for and hands back what the
//! spooler replied.

pub mod default_printer;
pub mod enumerate;
pub mod error;
pub mod printer;
pub mod session;
pub mod session_trace;
pub mod text;
