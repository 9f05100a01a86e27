//! The direct-print session: one handle, one document, one page, one write.
//!
//! The session decides; the caller acts. `begin` asks for the first action,
//! and `print_direct` takes the spooler's reply to the action last asked for
//! and asks for the next one, until it asks to `Finish`.

use vstd::prelude::*;
use crate::error::PrintError;

verus! {

/// What the session holds at the spooler.
#[derive(Debug, Clone, Copy, PartialEq, Eq, Structural)]
pub enum SessionState {
    /// Nothing yet: the printer has not been opened.
    Closed,
    /// A handle to the printer.
    Opened,
    /// A handle and a started document.
    DocumentStarted,
    /// A handle, a started document and a started page.
    PageStarted,
    /// The page has been ended; document and handle are still held.
    PageEnded,
    /// The document has been ended; the handle is still held.
    DocumentEnded,
    /// Nothing any more: the session is over.
    ClosedFinal,
}

/// What the caller is asked to do next.
#[derive(Debug, Clone, Copy, PartialEq, Eq, Structural)]
pub enum SessionAction {
    /// Open a handle to the named printer.
    Open,
    /// Register the document, with its payload declared as raw data.
    StartDocument,
    /// Begin the page.
    StartPage,
    /// Send all the data, as it is, in one call.
    Write,
    /// End the page.
    EndPage,
    /// End the document.
    EndDocument,
    /// Release the handle.
    Close,
    /// Nothing is left to do: report the outcome.
    Finish,
}

/// How opening the printer went.
#[derive(Debug, Clone, Copy, PartialEq, Eq, Structural)]
pub enum OpenOutcome {
    /// The spooler handed out a handle.
    Opened,
    /// The spooler knows no printer of that name.
    NotFound,
    /// The spooler refused the caller.
    AccessDenied,
}

/// The spooler's reply to one action.
#[derive(Debug, Clone, Copy, PartialEq, Eq)]
pub enum SessionEvent {
    /// Reply to `Open`.
    OpenReply(OpenOutcome),
    /// Reply to `StartDocument`.
    StartDocumentReply { started: bool },
    /// Reply to `StartPage`.
    StartPageReply { started: bool },
    /// Reply to `Write`: the number of bytes accepted, `None` where the call
    /// itself failed.
    WriteReply { accepted: Option<usize> },
    /// Reply to `EndPage`.
    EndPageReply { ended: bool },
    /// Reply to `EndDocument`.
    EndDocumentReply { ended: bool },
    /// Reply to `Close`.
    CloseReply { closed: bool },
}

/// A direct-print session between two actions.
#[derive(Debug, Clone, Copy, PartialEq, Eq)]
pub struct DirectPrintSession {
    /// The action asked for and not yet answered.
    pub pending: SessionAction,
    /// The first failure met so far.
    pub failure: Option<PrintError>,
    /// Whether any teardown step has failed, reported or not.
    pub teardown_failed: bool,
    /// The number of bytes to print.
    pub data_len: usize,
}

/// The place of an action in the order in which a session can ask for them.
pub open spec fn rank(action: SessionAction) -> int {
    match action {
        SessionAction::Open => 0,
        SessionAction::StartDocument => 1,
        SessionAction::StartPage => 2,
        SessionAction::Write => 3,
        SessionAction::EndPage => 4,
        SessionAction::EndDocument => 5,
        SessionAction::Close => 6,
        SessionAction::Finish => 7,
    }
}

impl SessionEvent {
    /// The action that this event is a reply to.
    pub open spec fn answers(self) -> SessionAction {
        match self {
            SessionEvent::OpenReply(_) => SessionAction::Open,
            SessionEvent::StartDocumentReply { .. } => SessionAction::StartDocument,
            SessionEvent::StartPageReply { .. } => SessionAction::StartPage,
            SessionEvent::WriteReply { .. } => SessionAction::Write,
            SessionEvent::EndPageReply { .. } => SessionAction::EndPage,
            SessionEvent::EndDocumentReply { .. } => SessionAction::EndDocument,
            SessionEvent::CloseReply { .. } => SessionAction::Close,
        }
    }

    /// The failure that this event reports of a print of `data_len` bytes;
    /// `None` where the step succeeded. A write succeeds only if every byte
    /// was accepted.
    pub open spec fn failure(self, data_len: usize) -> Option<PrintError> {
        match self {
            SessionEvent::OpenReply(outcome) => match outcome {
                OpenOutcome::Opened => None,
                OpenOutcome::NotFound => Some(PrintError::NotFound),
                OpenOutcome::AccessDenied => Some(PrintError::AccessDenied),
            },
            SessionEvent::StartDocumentReply { started } => if started {
                None
            } else {
                Some(PrintError::DocumentStartFailed)
            },
            SessionEvent::StartPageReply { started } => if started {
                None
            } else {
                Some(PrintError::PageStartFailed)
            },
            SessionEvent::WriteReply { accepted } => if accepted == Some(data_len) {
                None
            } else {
                Some(PrintError::WriteIncomplete)
            },
            SessionEvent::EndPageReply { ended } => if ended {
                None
            } else {
                Some(PrintError::TeardownFailed)
            },
            SessionEvent::EndDocumentReply { ended } => if ended {
                None
            } else {
                Some(PrintError::TeardownFailed)
            },
            SessionEvent::CloseReply { closed } => if closed {
                None
            } else {
                Some(PrintError::TeardownFailed)
            },
        }
    }
}

/// The action that follows `answered` once the spooler has replied to it.
///
/// Of what was never acquired nothing is torn down: after a failed open the
/// session is over, after a failed document start only the handle is closed,
/// after a failed page start the document is ended and the handle closed. A
/// started page is always ended, whatever the write did.
pub open spec fn following(answered: SessionAction, succeeded: bool) -> SessionAction {
    match answered {
        SessionAction::Open => if succeeded {
            SessionAction::StartDocument
        } else {
            SessionAction::Finish
        },
        SessionAction::StartDocument => if succeeded {
            SessionAction::StartPage
        } else {
            SessionAction::Close
        },
        SessionAction::StartPage => if succeeded {
            SessionAction::Write
        } else {
            SessionAction::EndDocument
        },
        SessionAction::Write => SessionAction::EndPage,
        SessionAction::EndPage => SessionAction::EndDocument,
        SessionAction::EndDocument => SessionAction::Close,
        SessionAction::Close => SessionAction::Finish,
        SessionAction::Finish => SessionAction::Finish,
    }
}

/// Whether `action` releases something: the page, the document or the handle.
pub open spec fn is_teardown(action: SessionAction) -> bool {
    action == SessionAction::EndPage || action == SessionAction::EndDocument || action
        == SessionAction::Close
}

impl DirectPrintSession {
    /// The session before anything has happened: it asks to open the printer.
    pub open spec fn fresh(data_len: usize) -> Self {
        DirectPrintSession {
            pending: SessionAction::Open,
            failure: None,
            teardown_failed: false,
            data_len,
        }
    }

    /// What holds of every session that `begin` and `print_direct` produce:
    /// a failure is on record exactly where the session cannot have gone on
    /// without one.
    pub open spec fn wf(self) -> bool {
        &&& rank(self.pending) <= 3 ==> self.failure is None
        &&& self.teardown_failed ==> self.failure is Some && rank(self.pending) >= 5
        &&& self.failure == Some(PrintError::TeardownFailed) ==> self.teardown_failed
        &&& self.failure != Some(PrintError::SpoolerUnavailable)
        &&& self.failure == Some(PrintError::NotFound) || self.failure == Some(
            PrintError::AccessDenied,
        ) ==> self.pending == SessionAction::Finish && !self.teardown_failed
        &&& self.failure == Some(PrintError::DocumentStartFailed) ==> rank(self.pending) >= 6
        &&& self.failure == Some(PrintError::PageStartFailed) ==> rank(self.pending) >= 5
    }

    /// Whether `event` is the reply that the session waits for. A finished
    /// session waits for none.
    pub open spec fn accepts(self, event: SessionEvent) -> bool {
        self.pending == event.answers()
    }

    /// The session after `event`. A reply that the session does not wait for
    /// changes nothing. Otherwise the next action is asked for, and the
    /// event's failure goes on record unless an earlier one is there already.
    pub open spec fn after(self, event: SessionEvent) -> Self {
        if self.accepts(event) {
            let failed = event.failure(self.data_len);
            DirectPrintSession {
                pending: following(self.pending, failed is None),
                failure: if self.failure is Some {
                    self.failure
                } else {
                    failed
                },
                teardown_failed: self.teardown_failed || (is_teardown(self.pending)
                    && failed is Some),
                data_len: self.data_len,
            }
        } else {
            self
        }
    }

    /// The action that `event` makes the session ask for: the new pending
    /// action, or nothing where the session did not wait for the event.
    pub open spec fn asks_after(self, event: SessionEvent) -> Option<SessionAction> {
        if self.accepts(event) {
            Some(self.after(event).pending)
        } else {
            None
        }
    }

    /// What the session holds at the spooler.
    pub open spec fn held(self) -> SessionState {
        match self.pending {
            SessionAction::Open => SessionState::Closed,
            SessionAction::StartDocument => SessionState::Opened,
            SessionAction::StartPage => SessionState::DocumentStarted,
            SessionAction::Write => SessionState::PageStarted,
            SessionAction::EndPage => SessionState::PageStarted,
            SessionAction::EndDocument => if self.failure == Some(PrintError::PageStartFailed) {
                SessionState::DocumentStarted
            } else {
                SessionState::PageEnded
            },
            SessionAction::Close => if self.failure == Some(PrintError::DocumentStartFailed) {
                SessionState::Opened
            } else {
                SessionState::DocumentEnded
            },
            SessionAction::Finish => SessionState::ClosedFinal,
        }
    }

    /// The outcome of a finished session: success only if no step failed,
    /// otherwise the first failure. `None` while the session is not finished.
    pub open spec fn result(self) -> Option<Result<(), PrintError>> {
        if self.pending == SessionAction::Finish {
            match self.failure {
                None => Some(Ok(())),
                Some(error) => Some(Err(error)),
            }
        } else {
            None
        }
    }

    /// Starts a session for `data_len` bytes and asks to open the printer.
    pub fn begin(data_len: usize) -> (start: (DirectPrintSession, SessionAction))
        ensures
            start.0 == Self::fresh(data_len),
            start.1 == SessionAction::Open,
            start.0.wf(),
            start.0.held() == SessionState::Closed,
    {
        (
            DirectPrintSession {
                pending: SessionAction::Open,
                failure: None,
                teardown_failed: false,
                data_len,
            },
            SessionAction::Open,
        )
    }

    /// What the session holds at the spooler.
    pub fn state(&self) -> (state: SessionState)
        ensures
            state == self.held(),
    {
        match self.pending {
            SessionAction::Open => SessionState::Closed,
            SessionAction::StartDocument => SessionState::Opened,
            SessionAction::StartPage => SessionState::DocumentStarted,
            SessionAction::Write | SessionAction::EndPage => SessionState::PageStarted,
            SessionAction::EndDocument => match self.failure {
                Some(PrintError::PageStartFailed) => SessionState::DocumentStarted,
                _ => SessionState::PageEnded,
            },
            SessionAction::Close => match self.failure {
                Some(PrintError::DocumentStartFailed) => SessionState::Opened,
                _ => SessionState::DocumentEnded,
            },
            SessionAction::Finish => SessionState::ClosedFinal,
        }
    }

    /// The outcome, once the session has asked to `Finish`.
    pub fn outcome(&self) -> (outcome: Option<Result<(), PrintError>>)
        ensures
            outcome == self.result(),
            outcome is Some <==> self.pending == SessionAction::Finish,
            outcome == Some(Ok::<(), PrintError>(())) <==> self.pending == SessionAction::Finish
                && self.failure is None,
    {
        match self.pending {
            SessionAction::Finish => match self.failure {
                None => Some(Ok(())),
                Some(error) => Some(Err(error)),
            },
            _ => None,
        }
    }
}

/// The failure that `event` reports of a print of `data_len` bytes, if any.
fn step_failure(event: SessionEvent, data_len: usize) -> (failed: Option<PrintError>)
    ensures
        failed == event.failure(data_len),
{
    match event {
        SessionEvent::OpenReply(OpenOutcome::Opened) => None,
        SessionEvent::OpenReply(OpenOutcome::NotFound) => Some(PrintError::NotFound),
        SessionEvent::OpenReply(OpenOutcome::AccessDenied) => Some(PrintError::AccessDenied),
        SessionEvent::StartDocumentReply { started } => if started {
            None
        } else {
            Some(PrintError::DocumentStartFailed)
        },
        SessionEvent::StartPageReply { started } => if started {
            None
        } else {
            Some(PrintError::PageStartFailed)
        },
        SessionEvent::WriteReply { accepted } => match accepted {
            Some(count) => if count == data_len {
                None
            } else {
                Some(PrintError::WriteIncomplete)
            },
            None => Some(PrintError::WriteIncomplete),
        },
        SessionEvent::EndPageReply { ended } => if ended {
            None
        } else {
            Some(PrintError::TeardownFailed)
        },
        SessionEvent::EndDocumentReply { ended } => if ended {
            None
        } else {
            Some(PrintError::TeardownFailed)
        },
        SessionEvent::CloseReply { closed } => if closed {
            None
        } else {
            Some(PrintError::TeardownFailed)
        },
    }
}

/// The name under which the one document of a session is registered.
pub fn document_name() -> (name: &'static str)
    ensures
        name@ == "Test Document"@,
{
    "Test Document"
}

/// The data type declared for the document: raw, so that the spooler passes
/// the bytes on to the printer as they are.
pub fn document_data_type() -> (data_type: &'static str)
    ensures
        data_type@ == "RAW"@,
{
    "RAW"
}

/// Takes the spooler's reply to the pending action and asks for the next one.
///
/// The steps are open, start document, start page, write, end page, end
/// document, close. A step that fails ends the forward run; what was acquired
/// before it is still released, in order, whether or not a release fails in
/// turn. The first failure is the one on record: later ones do not replace
/// it. A reply to another action than the pending one, and any reply to a
/// finished session, is ignored: the session stays as it is and asks for
/// nothing.
pub fn print_direct(session: DirectPrintSession, event: SessionEvent) -> (next: (
    DirectPrintSession,
    Option<SessionAction>,
))
    ensures
        next.0 == session.after(event),
        next.1 == session.asks_after(event),
        session.accepts(event) ==> next.1 == Some(next.0.pending) && rank(next.0.pending) > rank(
            session.pending,
        ),
        !session.accepts(event) ==> next.0 == session && next.1 is None,
        session.pending == SessionAction::Finish ==> next.0 == session && next.1 is None,
        session.failure is Some ==> next.0.failure == session.failure,
        next.0.data_len == session.data_len,
        session.wf() ==> next.0.wf(),
{
    let failed = step_failure(event, session.data_len);
    let succeeded = failed.is_none();
    let pending = match (session.pending, event) {
        (SessionAction::Open, SessionEvent::OpenReply(_)) => if succeeded {
            SessionAction::StartDocument
        } else {
            SessionAction::Finish
        },
        (SessionAction::StartDocument, SessionEvent::StartDocumentReply { .. }) => if succeeded {
            SessionAction::StartPage
        } else {
            SessionAction::Close
        },
        (SessionAction::StartPage, SessionEvent::StartPageReply { .. }) => if succeeded {
            SessionAction::Write
        } else {
            SessionAction::EndDocument
        },
        (SessionAction::Write, SessionEvent::WriteReply { .. }) => SessionAction::EndPage,
        (SessionAction::EndPage, SessionEvent::EndPageReply { .. }) => SessionAction::EndDocument,
        (SessionAction::EndDocument, SessionEvent::EndDocumentReply { .. }) => SessionAction::Close,
        (SessionAction::Close, SessionEvent::CloseReply { .. }) => SessionAction::Finish,
        _ => {
            return (session, None);
        },
    };
    let teardown = match session.pending {
        SessionAction::EndPage | SessionAction::EndDocument | SessionAction::Close => true,
        _ => false,
    };
    let failure = match session.failure {
        Some(error) => Some(error),
        None => failed,
    };
    let teardown_failed = session.teardown_failed || (teardown && !succeeded);
    (DirectPrintSession { pending, failure, teardown_failed, data_len: session.data_len }, Some(pending))
}

} // verus!
