//! The failures that discovery and direct printing can report.

use vstd::prelude::*;

verus! {

/// Why an operation on the print spooler did not succeed.
#[derive(Debug, Clone, Copy, PartialEq, Eq, Structural)]
pub enum PrintError {
    /// No printer of the given name is known.
    NotFound,
    /// The caller may not use the printer.
    AccessDenied,
    /// A query to the spooler itself failed.
    SpoolerUnavailable,
    /// The spooler refused to start the document.
    DocumentStartFailed,
    /// The spooler refused to start the page.
    PageStartFailed,
    /// The printer accepted fewer bytes than were submitted.
    WriteIncomplete,
    /// Ending the page, ending the document or closing the handle failed
    /// after everything before it had succeeded.
    TeardownFailed,
}

} // verus!
