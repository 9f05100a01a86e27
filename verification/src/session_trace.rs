//! Runs of a direct-print session: what holds whatever the spooler replies,
//! and in whatever order the replies are handed in.

use vstd::prelude::*;
use crate::error::PrintError;
use crate::session::{following, rank, DirectPrintSession, SessionAction, SessionEvent};

verus! {

/// The session after the events of `events`, taken in order.
pub open spec fn run(session: DirectPrintSession, events: Seq<SessionEvent>) -> DirectPrintSession
    decreases events.len(),
{
    if events.len() == 0 {
        session
    } else {
        run(session.after(events[0]), events.drop_first())
    }
}

/// The actions that the session asks for during a run, in order. The first is
/// the one pending at the start; an ignored event adds none.
pub open spec fn asked(session: DirectPrintSession, events: Seq<SessionEvent>) -> Seq<
    SessionAction,
>
    decreases events.len(),
{
    if events.len() == 0 {
        seq![session.pending]
    } else if session.accepts(events[0]) {
        seq![session.pending] + asked(session.after(events[0]), events.drop_first())
    } else {
        asked(session, events.drop_first())
    }
}

/// Whether every event of the run that the session took reported success.
pub open spec fn all_succeeded(session: DirectPrintSession, events: Seq<SessionEvent>) -> bool
    decreases events.len(),
{
    if events.len() == 0 {
        true
    } else if session.accepts(events[0]) {
        events[0].failure(session.data_len) is None && all_succeeded(
            session.after(events[0]),
            events.drop_first(),
        )
    } else {
        all_succeeded(session, events.drop_first())
    }
}

/// Whether the session holds a handle while `action` is pending.
pub open spec fn holds_handle(action: SessionAction) -> bool {
    1 <= rank(action) <= 6
}

/// Whether the session holds a started document while `action` is pending.
pub open spec fn holds_document(action: SessionAction) -> bool {
    2 <= rank(action) <= 5
}

/// Whether the session holds a started page while `action` is pending.
pub open spec fn holds_page(action: SessionAction) -> bool {
    3 <= rank(action) <= 4
}

proof fn lemma_contains_prepend(head: SessionAction, tail: Seq<SessionAction>, action: SessionAction)
    ensures
        (seq![head] + tail).contains(action) <==> (head == action || tail.contains(action)),
{
    let whole = seq![head] + tail;
    if head == action {
        assert(whole[0] == action);
    }
    if tail.contains(action) {
        let i = choose|i: int| 0 <= i < tail.len() && tail[i] == action;
        assert(whole[i + 1] == action);
    }
    if whole.contains(action) {
        let i = choose|i: int| 0 <= i < whole.len() && whole[i] == action;
        if i > 0 {
            assert(tail[i - 1] == action);
        }
    }
}

/// A run starts with the action that was pending, and a run of a well-formed
/// session ends in a well-formed session.
pub proof fn lemma_run_basics(session: DirectPrintSession, events: Seq<SessionEvent>)
    ensures
        asked(session, events).len() >= 1,
        asked(session, events)[0] == session.pending,
        asked(session, events).last() == run(session, events).pending,
        run(session, events).data_len == session.data_len,
        session.wf() ==> run(session, events).wf(),
    decreases events.len(),
{
    if events.len() > 0 {
        let rest = events.drop_first();
        if session.accepts(events[0]) {
            lemma_run_basics(session.after(events[0]), rest);
        } else {
            lemma_run_basics(session, rest);
        }
    }
}

/// The actions of a run come in the one order open, start document, start
/// page, write, end page, end document, close, finish, each at most once,
/// whatever events are handed in. So no run asks twice to close the handle.
pub proof fn lemma_asked_in_order(session: DirectPrintSession, events: Seq<SessionEvent>)
    ensures
        forall|i: int|
            0 <= i < asked(session, events).len() ==> rank(session.pending) <= rank(
                #[trigger] asked(session, events)[i],
            ),
        forall|i: int, j: int|
            0 <= i < j < asked(session, events).len() ==> rank(
                #[trigger] asked(session, events)[i],
            ) < rank(#[trigger] asked(session, events)[j]),
        asked(session, events).no_duplicates(),
        asked(session, events).len() <= 8,
    decreases events.len(),
{
    let all = asked(session, events);
    if events.len() > 0 {
        let rest = events.drop_first();
        if session.accepts(events[0]) {
            let next = session.after(events[0]);
            let tail = asked(next, rest);
            lemma_asked_in_order(next, rest);
            assert(rank(next.pending) > rank(session.pending));
            assert forall|i: int| 0 <= i < all.len() implies rank(session.pending) <= rank(
                #[trigger] all[i],
            ) by {
                if i > 0 {
                    assert(all[i] == tail[i - 1]);
                }
            }
            assert forall|i: int, j: int| 0 <= i < j < all.len() implies rank(#[trigger] all[i])
                < rank(#[trigger] all[j]) by {
                assert(all[j] == tail[j - 1]);
                if i > 0 {
                    assert(all[i] == tail[i - 1]);
                }
            }
        } else {
            lemma_asked_in_order(session, rest);
        }
    }
    assert forall|i: int, j: int| 0 <= i < all.len() && 0 <= j < all.len() && i != j implies all[i]
        != all[j] by {
        if i < j {
            assert(rank(all[i]) < rank(all[j]));
        } else {
            assert(rank(all[j]) < rank(all[i]));
        }
    }
    if all.len() > 8 {
        assert(rank(all[0]) < rank(all[1]) < rank(all[2]) < rank(all[3]) < rank(all[4]) < rank(
            all[5],
        ) < rank(all[6]) < rank(all[7]) < rank(all[8]));
    }
}

/// In a run that reaches the end, whatever was acquired is released: the run
/// asks to close the handle if and only if a handle was held at its start or
/// the open succeeded in it (which is when it asks to start the document);
/// likewise for ending the document and ending the page.
pub proof fn lemma_teardown_matches_acquisition(
    session: DirectPrintSession,
    events: Seq<SessionEvent>,
)
    requires
        run(session, events).pending == SessionAction::Finish,
    ensures
        asked(session, events).contains(SessionAction::Close) <==> holds_handle(session.pending)
            || asked(session, events).contains(SessionAction::StartDocument),
        asked(session, events).contains(SessionAction::EndDocument) <==> holds_document(
            session.pending,
        ) || asked(session, events).contains(SessionAction::StartPage),
        asked(session, events).contains(SessionAction::EndPage) <==> holds_page(session.pending)
            || asked(session, events).contains(SessionAction::Write),
    decreases events.len(),
{
    let all = asked(session, events);
    if events.len() == 0 {
        assert(all =~= seq![session.pending]);
        assert(all[0] == SessionAction::Finish);
        assert forall|action: SessionAction| all.contains(action) implies action
            == SessionAction::Finish by {
            let i = choose|i: int| 0 <= i < all.len() && all[i] == action;
        }
    } else {
        let rest = events.drop_first();
        if session.accepts(events[0]) {
            let next = session.after(events[0]);
            let tail = asked(next, rest);
            lemma_teardown_matches_acquisition(next, rest);
            lemma_run_basics(next, rest);
            assert(tail.contains(next.pending)) by {
                assert(tail[0] == next.pending);
            }
            lemma_contains_prepend(session.pending, tail, SessionAction::StartDocument);
            lemma_contains_prepend(session.pending, tail, SessionAction::StartPage);
            lemma_contains_prepend(session.pending, tail, SessionAction::Write);
            lemma_contains_prepend(session.pending, tail, SessionAction::EndPage);
            lemma_contains_prepend(session.pending, tail, SessionAction::EndDocument);
            lemma_contains_prepend(session.pending, tail, SessionAction::Close);
            lemma_asked_in_order(next, rest);
            assert forall|action: SessionAction| tail.contains(action) implies rank(next.pending)
                <= rank(action) by {
                let i = choose|i: int| 0 <= i < tail.len() && tail[i] == action;
                assert(rank(next.pending) <= rank(tail[i]));
            }
        } else {
            lemma_teardown_matches_acquisition(session, rest);
        }
    }
}

/// A fresh session that reaches the end has asked to close the handle exactly
/// where the open succeeded, and never where it failed: `Close` occurs in the
/// run if and only if the outcome is neither `NotFound` nor `AccessDenied`.
pub proof fn lemma_handle_released_iff_opened(data_len: usize, events: Seq<SessionEvent>)
    requires
        run(DirectPrintSession::fresh(data_len), events).pending == SessionAction::Finish,
    ensures
        asked(DirectPrintSession::fresh(data_len), events).contains(SessionAction::Close) <==> run(
            DirectPrintSession::fresh(data_len),
            events,
        ).failure != Some(PrintError::NotFound) && run(
            DirectPrintSession::fresh(data_len),
            events,
        ).failure != Some(PrintError::AccessDenied),
        asked(DirectPrintSession::fresh(data_len), events).no_duplicates(),
{
    let start = DirectPrintSession::fresh(data_len);
    lemma_asked_in_order(start, events);
    lemma_teardown_matches_acquisition(start, events);
    lemma_open_decides(start, events);
}

/// While the open is pending: the run asks to start the document if and only
/// if it does not end with the failure of the open on record.
proof fn lemma_open_decides(session: DirectPrintSession, events: Seq<SessionEvent>)
    requires
        session.pending == SessionAction::Open,
        session.failure is None,
        run(session, events).pending == SessionAction::Finish,
    ensures
        asked(session, events).contains(SessionAction::StartDocument) <==> run(
            session,
            events,
        ).failure != Some(PrintError::NotFound) && run(session, events).failure != Some(
            PrintError::AccessDenied,
        ),
    decreases events.len(),
{
    if events.len() > 0 {
        let rest = events.drop_first();
        if session.accepts(events[0]) {
            let next = session.after(events[0]);
            let tail = asked(next, rest);
            lemma_contains_prepend(session.pending, tail, SessionAction::StartDocument);
            lemma_run_basics(next, rest);
            if next.pending == SessionAction::StartDocument {
                assert(tail[0] == SessionAction::StartDocument);
                lemma_later_failures(next, rest);
            } else {
                assert(next.pending == SessionAction::Finish);
                lemma_finished_ignores(next, rest);
                assert(tail =~= seq![SessionAction::Finish]);
                assert(!tail.contains(SessionAction::StartDocument));
            }
        } else {
            lemma_open_decides(session, rest);
        }
    }
}

/// Once the printer is open, no run records `NotFound` or `AccessDenied`.
proof fn lemma_later_failures(session: DirectPrintSession, events: Seq<SessionEvent>)
    requires
        rank(session.pending) >= 1,
        session.failure != Some(PrintError::NotFound),
        session.failure != Some(PrintError::AccessDenied),
    ensures
        run(session, events).failure != Some(PrintError::NotFound),
        run(session, events).failure != Some(PrintError::AccessDenied),
    decreases events.len(),
{
    if events.len() > 0 {
        lemma_later_failures(session.after(events[0]), events.drop_first());
    }
}

/// A finished session ignores every event: the run leaves it as it is and
/// asks for nothing more. Tearing down a closed session again releases
/// nothing a second time.
pub proof fn lemma_finished_ignores(session: DirectPrintSession, events: Seq<SessionEvent>)
    requires
        session.pending == SessionAction::Finish,
    ensures
        run(session, events) == session,
        asked(session, events) == seq![SessionAction::Finish],
        forall|event: SessionEvent|
            #![trigger session.after(event)]
            #![trigger session.asks_after(event)]
            session.after(event) == session && session.asks_after(event) is None,
    decreases events.len(),
{
    if events.len() > 0 {
        lemma_finished_ignores(session, events.drop_first());
    }
}

/// The first failure stays on record: no later event of a run replaces it.
pub proof fn lemma_first_failure_stays(session: DirectPrintSession, events: Seq<SessionEvent>)
    requires
        session.failure is Some,
    ensures
        run(session, events).failure == session.failure,
    decreases events.len(),
{
    if events.len() > 0 {
        lemma_first_failure_stays(session.after(events[0]), events.drop_first());
    }
}

/// A run ends without a failure on record if and only if it started without
/// one and every step taken in it succeeded. So a finished session reports
/// success only if open, start document, start page, the full write, end page,
/// end document and close all succeeded.
pub proof fn lemma_success_iff_all_succeeded(session: DirectPrintSession, events: Seq<SessionEvent>)
    ensures
        run(session, events).failure is None <==> session.failure is None && all_succeeded(
            session,
            events,
        ),
    decreases events.len(),
{
    if events.len() > 0 {
        let rest = events.drop_first();
        let next = session.after(events[0]);
        lemma_success_iff_all_succeeded(next, rest);
        if session.failure is Some {
            lemma_first_failure_stays(session, events);
        }
    }
}

/// A fresh session that reports success has asked for all eight actions, in
/// order.
pub proof fn lemma_success_runs_every_step(data_len: usize, events: Seq<SessionEvent>)
    requires
        run(DirectPrintSession::fresh(data_len), events).result() == Some(
            Ok::<(), PrintError>(()),
        ),
    ensures
        asked(DirectPrintSession::fresh(data_len), events) == seq![
            SessionAction::Open,
            SessionAction::StartDocument,
            SessionAction::StartPage,
            SessionAction::Write,
            SessionAction::EndPage,
            SessionAction::EndDocument,
            SessionAction::Close,
            SessionAction::Finish,
        ],
{
    lemma_success_steps(DirectPrintSession::fresh(data_len), events);
}

/// The actions from `first` to `Finish`, each following the other on success.
pub open spec fn steps_from(first: SessionAction) -> Seq<SessionAction>
    decreases 7 - rank(first),
{
    if first == SessionAction::Finish {
        seq![first]
    } else {
        seq![first] + steps_from(following(first, true))
    }
}

proof fn lemma_success_steps(session: DirectPrintSession, events: Seq<SessionEvent>)
    requires
        run(session, events).pending == SessionAction::Finish,
        run(session, events).failure is None,
    ensures
        asked(session, events) == steps_from(session.pending),
        session.pending == SessionAction::Open ==> steps_from(session.pending) == seq![
            SessionAction::Open,
            SessionAction::StartDocument,
            SessionAction::StartPage,
            SessionAction::Write,
            SessionAction::EndPage,
            SessionAction::EndDocument,
            SessionAction::Close,
            SessionAction::Finish,
        ],
    decreases events.len(),
{
    reveal_with_fuel(steps_from, 9);
    lemma_success_iff_all_succeeded(session, events);
    if events.len() > 0 {
        let rest = events.drop_first();
        if session.accepts(events[0]) {
            let next = session.after(events[0]);
            lemma_success_iff_all_succeeded(next, rest);
            lemma_success_steps(next, rest);
        } else {
            lemma_success_steps(session, rest);
        }
    }
    if session.pending == SessionAction::Open {
        assert(steps_from(session.pending) =~= seq![
            SessionAction::Open,
            SessionAction::StartDocument,
            SessionAction::StartPage,
            SessionAction::Write,
            SessionAction::EndPage,
            SessionAction::EndDocument,
            SessionAction::Close,
            SessionAction::Finish,
        ]);
    }
}

} // verus!
