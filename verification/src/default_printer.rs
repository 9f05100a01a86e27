//! Resolving the name of the default printer: a query with no buffer to learn
//! the size, and a second one with a buffer of that size.

use vstd::prelude::*;
use crate::error::PrintError;
use crate::text::{get_wchar_t_value, scan_window, text_units, utf16_lossy};

verus! {

/// What the spooler replied to a query for the default printer's name.
#[derive(Debug, PartialEq, Eq)]
pub enum NameReply {
    /// The query itself failed.
    Failed,
    /// No default printer is configured.
    NoDefault,
    /// The buffer was too small; the name needs `needed` units.
    TooSmall { needed: u32 },
    /// The buffer was filled; `units` is the buffer.
    Filled { units: Vec<u16> },
}

/// What the caller is asked to do next.
#[derive(Debug, PartialEq, Eq)]
pub enum ResolverAction {
    /// Query the spooler with a buffer of `capacity` units.
    Query { capacity: u32 },
    /// Report the outcome: the name, or `None` where no default printer is
    /// configured, or the failure.
    Finish(Result<Option<String>, PrintError>),
}

/// A resolver action with its text as a sequence of characters.
pub enum ResolverActionView {
    Query { capacity: u32 },
    Finish(Result<Option<Seq<char>>, PrintError>),
}

impl View for ResolverAction {
    type V = ResolverActionView;

    open spec fn view(&self) -> ResolverActionView {
        match *self {
            ResolverAction::Query { capacity } => ResolverActionView::Query { capacity },
            ResolverAction::Finish(Err(error)) => ResolverActionView::Finish(Err(error)),
            ResolverAction::Finish(Ok(None)) => ResolverActionView::Finish(Ok(None)),
            ResolverAction::Finish(Ok(Some(name))) => ResolverActionView::Finish(Ok(Some(name@))),
        }
    }
}

/// The view of an action that may be absent.
pub open spec fn action_view(action: Option<ResolverAction>) -> Option<ResolverActionView> {
    match action {
        None => None,
        Some(action) => Some(action@),
    }
}

/// The name that a filled buffer holds: what is decoded from its units in
/// front of the first zero.
pub open spec fn name_in(units: Seq<u16>) -> Seq<char> {
    utf16_lossy(text_units(units))
}

/// The resolver, which is the query that is under way.
#[derive(Debug, Clone, Copy, PartialEq, Eq, Structural)]
pub enum DefaultPrinterResolver {
    /// The query with no buffer.
    Sizing,
    /// The query with a buffer of the size learned.
    Fetching,
    /// None: the resolver is done.
    Done,
}

impl DefaultPrinterResolver {
    /// Whether `reply` sends the resolver into its second query.
    pub open spec fn fetches_after(self, reply: NameReply) -> bool {
        self == DefaultPrinterResolver::Sizing && reply is TooSmall
    }

    /// The resolver after `reply`: every reply ends it, but for the size that
    /// the first query reports.
    pub open spec fn after(self, reply: NameReply) -> Self {
        if self == DefaultPrinterResolver::Done {
            self
        } else if self.fetches_after(reply) {
            DefaultPrinterResolver::Fetching
        } else {
            DefaultPrinterResolver::Done
        }
    }

    /// The action that `reply` makes the resolver ask for; nothing once it is
    /// done. A name is never reported for a failure, and a failure never for
    /// a missing default.
    pub open spec fn asks_after(self, reply: NameReply) -> Option<ResolverActionView> {
        if self == DefaultPrinterResolver::Done {
            None
        } else {
            match reply {
                NameReply::Failed => Some(
                    ResolverActionView::Finish(Err(PrintError::SpoolerUnavailable)),
                ),
                NameReply::NoDefault => Some(ResolverActionView::Finish(Ok(None))),
                NameReply::TooSmall { needed } => if self == DefaultPrinterResolver::Sizing {
                    Some(ResolverActionView::Query { capacity: needed })
                } else {
                    Some(ResolverActionView::Finish(Err(PrintError::SpoolerUnavailable)))
                },
                NameReply::Filled { units } => Some(
                    ResolverActionView::Finish(Ok(Some(name_in(units@)))),
                ),
            }
        }
    }

    /// Starts the resolver and asks for the query with no buffer.
    pub fn begin() -> (start: (DefaultPrinterResolver, ResolverAction))
        ensures
            start.0 == DefaultPrinterResolver::Sizing,
            start.1@ == (ResolverActionView::Query { capacity: 0 }),
    {
        (DefaultPrinterResolver::Sizing, ResolverAction::Query { capacity: 0 })
    }
}

/// Takes the spooler's reply to the query under way and asks for the next
/// action.
///
/// The first query learns the size and the second fetches the name. Where the
/// spooler says that no default printer is configured, the outcome is `None`,
/// which is no failure. A query that fails, and a second query whose buffer is
/// again too small, give `SpoolerUnavailable`. A filled buffer gives the name
/// in front of its terminator, decoded.
pub fn get_default_printer(resolver: DefaultPrinterResolver, reply: &NameReply) -> (next: (
    DefaultPrinterResolver,
    Option<ResolverAction>,
))
    ensures
        next.0 == resolver.after(*reply),
        action_view(next.1) == resolver.asks_after(*reply),
        resolver == DefaultPrinterResolver::Done ==> next.1 is None,
        resolver != DefaultPrinterResolver::Done ==> next.1 is Some,
{
    match resolver {
        DefaultPrinterResolver::Done => (resolver, None),
        _ => match reply {
            NameReply::Failed => (
                DefaultPrinterResolver::Done,
                Some(ResolverAction::Finish(Err(PrintError::SpoolerUnavailable))),
            ),
            NameReply::NoDefault => (
                DefaultPrinterResolver::Done,
                Some(ResolverAction::Finish(Ok(None))),
            ),
            NameReply::TooSmall { needed } => match resolver {
                DefaultPrinterResolver::Sizing => (
                    DefaultPrinterResolver::Fetching,
                    Some(ResolverAction::Query { capacity: *needed }),
                ),
                _ => (
                    DefaultPrinterResolver::Done,
                    Some(ResolverAction::Finish(Err(PrintError::SpoolerUnavailable))),
                ),
            },
            NameReply::Filled { units } => {
                let name = get_wchar_t_value(units.as_slice(), Some(0), units.len());
                proof {
                    assert(scan_window(units@, 0, units@.len() as int) =~= units@);
                }
                (DefaultPrinterResolver::Done, Some(ResolverAction::Finish(Ok(Some(name)))))
            },
        },
    }
}

} // verus!
