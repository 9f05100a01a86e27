use direct_print::error::PrintError;
use direct_print::session::{
    document_data_type, document_name, print_direct, DirectPrintSession, OpenOutcome,
    SessionAction, SessionEvent, SessionState,
};

fn drive(data_len: usize, events: &[SessionEvent]) -> (DirectPrintSession, Vec<SessionAction>) {
    let (mut session, first) = DirectPrintSession::begin(data_len);
    let mut actions = vec![first];
    for event in events {
        let (next, action) = print_direct(session, *event);
        session = next;
        if let Some(action) = action {
            actions.push(action);
        }
    }
    (session, actions)
}

fn times(actions: &[SessionAction], action: SessionAction) -> usize {
    actions.iter().filter(|asked| **asked == action).count()
}

#[test]
fn full_print_succeeds() {
    let (session, actions) = drive(
        20,
        &[
            SessionEvent::OpenReply(OpenOutcome::Opened),
            SessionEvent::StartDocumentReply { started: true },
            SessionEvent::StartPageReply { started: true },
            SessionEvent::WriteReply { accepted: Some(20) },
            SessionEvent::EndPageReply { ended: true },
            SessionEvent::EndDocumentReply { ended: true },
            SessionEvent::CloseReply { closed: true },
        ],
    );
    assert_eq!(
        actions,
        vec![
            SessionAction::Open,
            SessionAction::StartDocument,
            SessionAction::StartPage,
            SessionAction::Write,
            SessionAction::EndPage,
            SessionAction::EndDocument,
            SessionAction::Close,
            SessionAction::Finish,
        ]
    );
    assert_eq!(session.outcome(), Some(Ok(())));
    assert_eq!(session.state(), SessionState::ClosedFinal);
    assert!(!session.teardown_failed);
}

#[test]
fn states_follow_the_steps() {
    let (session, _) = DirectPrintSession::begin(3);
    assert_eq!(session.state(), SessionState::Closed);
    assert_eq!(session.outcome(), None);
    let (session, _) = print_direct(session, SessionEvent::OpenReply(OpenOutcome::Opened));
    assert_eq!(session.state(), SessionState::Opened);
    let (session, _) = print_direct(session, SessionEvent::StartDocumentReply { started: true });
    assert_eq!(session.state(), SessionState::DocumentStarted);
    let (session, _) = print_direct(session, SessionEvent::StartPageReply { started: true });
    assert_eq!(session.state(), SessionState::PageStarted);
    let (session, _) = print_direct(session, SessionEvent::WriteReply { accepted: Some(3) });
    assert_eq!(session.state(), SessionState::PageStarted);
    let (session, _) = print_direct(session, SessionEvent::EndPageReply { ended: true });
    assert_eq!(session.state(), SessionState::PageEnded);
    let (session, _) = print_direct(session, SessionEvent::EndDocumentReply { ended: true });
    assert_eq!(session.state(), SessionState::DocumentEnded);
    assert_eq!(session.outcome(), None);
    let (session, _) = print_direct(session, SessionEvent::CloseReply { closed: true });
    assert_eq!(session.state(), SessionState::ClosedFinal);
}

#[test]
fn unknown_printer_is_not_found() {
    let (session, actions) = drive(4, &[SessionEvent::OpenReply(OpenOutcome::NotFound)]);
    assert_eq!(actions, vec![SessionAction::Open, SessionAction::Finish]);
    assert_eq!(session.outcome(), Some(Err(PrintError::NotFound)));
    assert_eq!(times(&actions, SessionAction::StartDocument), 0);
    assert_eq!(times(&actions, SessionAction::StartPage), 0);
    assert_eq!(times(&actions, SessionAction::Close), 0);
    assert_eq!(session.state(), SessionState::ClosedFinal);
}

#[test]
fn refused_open_is_access_denied() {
    let (session, actions) = drive(4, &[SessionEvent::OpenReply(OpenOutcome::AccessDenied)]);
    assert_eq!(actions, vec![SessionAction::Open, SessionAction::Finish]);
    assert_eq!(session.outcome(), Some(Err(PrintError::AccessDenied)));
}

#[test]
fn short_write_is_incomplete_and_torn_down() {
    let (session, actions) = drive(
        20,
        &[
            SessionEvent::OpenReply(OpenOutcome::Opened),
            SessionEvent::StartDocumentReply { started: true },
            SessionEvent::StartPageReply { started: true },
            SessionEvent::WriteReply { accepted: Some(10) },
            SessionEvent::EndPageReply { ended: true },
            SessionEvent::EndDocumentReply { ended: true },
            SessionEvent::CloseReply { closed: true },
        ],
    );
    assert_eq!(session.outcome(), Some(Err(PrintError::WriteIncomplete)));
    assert_eq!(times(&actions, SessionAction::Write), 1);
    assert_eq!(times(&actions, SessionAction::EndPage), 1);
    assert_eq!(times(&actions, SessionAction::EndDocument), 1);
    assert_eq!(times(&actions, SessionAction::Close), 1);
    assert_eq!(actions.last(), Some(&SessionAction::Finish));
}

#[test]
fn failed_write_call_is_incomplete() {
    let (session, actions) = drive(
        0,
        &[
            SessionEvent::OpenReply(OpenOutcome::Opened),
            SessionEvent::StartDocumentReply { started: true },
            SessionEvent::StartPageReply { started: true },
            SessionEvent::WriteReply { accepted: None },
            SessionEvent::EndPageReply { ended: true },
            SessionEvent::EndDocumentReply { ended: true },
            SessionEvent::CloseReply { closed: true },
        ],
    );
    assert_eq!(session.outcome(), Some(Err(PrintError::WriteIncomplete)));
    assert_eq!(times(&actions, SessionAction::Close), 1);
}

#[test]
fn empty_data_fully_written_succeeds() {
    let (session, _) = drive(
        0,
        &[
            SessionEvent::OpenReply(OpenOutcome::Opened),
            SessionEvent::StartDocumentReply { started: true },
            SessionEvent::StartPageReply { started: true },
            SessionEvent::WriteReply { accepted: Some(0) },
            SessionEvent::EndPageReply { ended: true },
            SessionEvent::EndDocumentReply { ended: true },
            SessionEvent::CloseReply { closed: true },
        ],
    );
    assert_eq!(session.outcome(), Some(Ok(())));
}

#[test]
fn more_bytes_than_submitted_is_incomplete() {
    let (session, _) = drive(
        5,
        &[
            SessionEvent::OpenReply(OpenOutcome::Opened),
            SessionEvent::StartDocumentReply { started: true },
            SessionEvent::StartPageReply { started: true },
            SessionEvent::WriteReply { accepted: Some(6) },
        ],
    );
    assert_eq!(session.failure, Some(PrintError::WriteIncomplete));
    assert_eq!(session.pending, SessionAction::EndPage);
}

#[test]
fn failed_document_start_only_closes() {
    let (session, actions) = drive(
        8,
        &[
            SessionEvent::OpenReply(OpenOutcome::Opened),
            SessionEvent::StartDocumentReply { started: false },
            SessionEvent::CloseReply { closed: true },
        ],
    );
    assert_eq!(
        actions,
        vec![
            SessionAction::Open,
            SessionAction::StartDocument,
            SessionAction::Close,
            SessionAction::Finish,
        ]
    );
    assert_eq!(session.outcome(), Some(Err(PrintError::DocumentStartFailed)));
}

#[test]
fn failed_document_start_still_holds_the_handle() {
    let (session, _) = drive(
        8,
        &[
            SessionEvent::OpenReply(OpenOutcome::Opened),
            SessionEvent::StartDocumentReply { started: false },
        ],
    );
    assert_eq!(session.state(), SessionState::Opened);
    assert_eq!(session.pending, SessionAction::Close);
    assert_eq!(session.outcome(), None);
}

#[test]
fn failed_page_start_ends_the_document_and_closes() {
    let (session, actions) = drive(
        8,
        &[
            SessionEvent::OpenReply(OpenOutcome::Opened),
            SessionEvent::StartDocumentReply { started: true },
            SessionEvent::StartPageReply { started: false },
            SessionEvent::EndDocumentReply { ended: true },
            SessionEvent::CloseReply { closed: true },
        ],
    );
    assert_eq!(
        actions,
        vec![
            SessionAction::Open,
            SessionAction::StartDocument,
            SessionAction::StartPage,
            SessionAction::EndDocument,
            SessionAction::Close,
            SessionAction::Finish,
        ]
    );
    assert_eq!(session.outcome(), Some(Err(PrintError::PageStartFailed)));
}

#[test]
fn failed_page_start_still_holds_the_document() {
    let (session, _) = drive(
        8,
        &[
            SessionEvent::OpenReply(OpenOutcome::Opened),
            SessionEvent::StartDocumentReply { started: true },
            SessionEvent::StartPageReply { started: false },
        ],
    );
    assert_eq!(session.state(), SessionState::DocumentStarted);
    assert_eq!(session.pending, SessionAction::EndDocument);
}

#[test]
fn teardown_failure_alone_is_reported() {
    let (session, actions) = drive(
        2,
        &[
            SessionEvent::OpenReply(OpenOutcome::Opened),
            SessionEvent::StartDocumentReply { started: true },
            SessionEvent::StartPageReply { started: true },
            SessionEvent::WriteReply { accepted: Some(2) },
            SessionEvent::EndPageReply { ended: true },
            SessionEvent::EndDocumentReply { ended: false },
            SessionEvent::CloseReply { closed: true },
        ],
    );
    assert_eq!(session.outcome(), Some(Err(PrintError::TeardownFailed)));
    assert!(session.teardown_failed);
    assert_eq!(times(&actions, SessionAction::Close), 1);
}

#[test]
fn failed_close_is_a_teardown_failure() {
    let (session, _) = drive(
        2,
        &[
            SessionEvent::OpenReply(OpenOutcome::Opened),
            SessionEvent::StartDocumentReply { started: true },
            SessionEvent::StartPageReply { started: true },
            SessionEvent::WriteReply { accepted: Some(2) },
            SessionEvent::EndPageReply { ended: true },
            SessionEvent::EndDocumentReply { ended: true },
            SessionEvent::CloseReply { closed: false },
        ],
    );
    assert_eq!(session.outcome(), Some(Err(PrintError::TeardownFailed)));
    assert_eq!(session.state(), SessionState::ClosedFinal);
}

#[test]
fn teardown_failure_does_not_replace_the_first_failure() {
    let (session, actions) = drive(
        20,
        &[
            SessionEvent::OpenReply(OpenOutcome::Opened),
            SessionEvent::StartDocumentReply { started: true },
            SessionEvent::StartPageReply { started: true },
            SessionEvent::WriteReply { accepted: Some(10) },
            SessionEvent::EndPageReply { ended: false },
            SessionEvent::EndDocumentReply { ended: false },
            SessionEvent::CloseReply { closed: false },
        ],
    );
    assert_eq!(session.outcome(), Some(Err(PrintError::WriteIncomplete)));
    assert!(session.teardown_failed);
    assert_eq!(times(&actions, SessionAction::EndPage), 1);
    assert_eq!(times(&actions, SessionAction::EndDocument), 1);
    assert_eq!(times(&actions, SessionAction::Close), 1);
}

#[test]
fn failed_teardown_step_does_not_stop_the_next() {
    let (session, _) = drive(
        2,
        &[
            SessionEvent::OpenReply(OpenOutcome::Opened),
            SessionEvent::StartDocumentReply { started: true },
            SessionEvent::StartPageReply { started: true },
            SessionEvent::WriteReply { accepted: Some(2) },
            SessionEvent::EndPageReply { ended: false },
        ],
    );
    assert_eq!(session.pending, SessionAction::EndDocument);
    let (session, action) = print_direct(session, SessionEvent::EndDocumentReply { ended: false });
    assert_eq!(action, Some(SessionAction::Close));
    assert_eq!(session.failure, Some(PrintError::TeardownFailed));
}

#[test]
fn closed_session_ignores_teardown() {
    let (done, _) = drive(
        2,
        &[
            SessionEvent::OpenReply(OpenOutcome::Opened),
            SessionEvent::StartDocumentReply { started: true },
            SessionEvent::StartPageReply { started: true },
            SessionEvent::WriteReply { accepted: Some(2) },
            SessionEvent::EndPageReply { ended: true },
            SessionEvent::EndDocumentReply { ended: true },
            SessionEvent::CloseReply { closed: true },
        ],
    );
    let replies = [
        SessionEvent::EndPageReply { ended: true },
        SessionEvent::EndDocumentReply { ended: false },
        SessionEvent::CloseReply { closed: true },
        SessionEvent::CloseReply { closed: false },
        SessionEvent::OpenReply(OpenOutcome::Opened),
    ];
    let mut session = done;
    for reply in replies {
        let (next, action) = print_direct(session, reply);
        assert_eq!(action, None);
        assert_eq!(next, done);
        session = next;
    }
    assert_eq!(session.outcome(), Some(Ok(())));
}

#[test]
fn session_that_never_opened_ignores_teardown() {
    let (done, _) = drive(2, &[SessionEvent::OpenReply(OpenOutcome::NotFound)]);
    let (next, action) = print_direct(done, SessionEvent::CloseReply { closed: true });
    assert_eq!(action, None);
    assert_eq!(next, done);
    let (next, action) = print_direct(next, SessionEvent::CloseReply { closed: true });
    assert_eq!(action, None);
    assert_eq!(next.outcome(), Some(Err(PrintError::NotFound)));
}

#[test]
fn reply_to_another_action_is_ignored() {
    let (session, _) = DirectPrintSession::begin(2);
    let (next, action) = print_direct(session, SessionEvent::CloseReply { closed: true });
    assert_eq!(action, None);
    assert_eq!(next, session);
    let (opened, _) = print_direct(session, SessionEvent::OpenReply(OpenOutcome::Opened));
    let (next, action) = print_direct(opened, SessionEvent::OpenReply(OpenOutcome::Opened));
    assert_eq!(action, None);
    assert_eq!(next, opened);
    let (next, action) = print_direct(opened, SessionEvent::WriteReply { accepted: Some(2) });
    assert_eq!(action, None);
    assert_eq!(next, opened);
}

#[test]
fn no_run_closes_twice() {
    let replies = [
        SessionEvent::OpenReply(OpenOutcome::Opened),
        SessionEvent::CloseReply { closed: true },
        SessionEvent::StartDocumentReply { started: false },
        SessionEvent::CloseReply { closed: true },
        SessionEvent::CloseReply { closed: true },
        SessionEvent::StartDocumentReply { started: true },
        SessionEvent::CloseReply { closed: false },
    ];
    let (session, actions) = drive(2, &replies);
    assert_eq!(times(&actions, SessionAction::Close), 1);
    assert_eq!(times(&actions, SessionAction::Finish), 1);
    assert_eq!(session.outcome(), Some(Err(PrintError::DocumentStartFailed)));
}

#[test]
fn document_is_declared_as_raw_data() {
    assert_eq!(document_data_type(), "RAW");
    assert_eq!(document_name(), "Test Document");
}
