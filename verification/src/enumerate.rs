//! Listing the printers: the size-then-fetch negotiation with the spooler, and
//! the descriptors made from the records that it returned.

use vstd::prelude::*;
use crate::error::PrintError;
use crate::printer::{
    has_shared_flag,
    map_status,
    shared_bit,
    state_of_code,
    views_of,
    Printer,
    PrinterView,
};
use crate::text::{get_wchar_t_value, scan_window, text_units, utf16_lossy};

verus! {

/// One printer record as the spooler returned it: where its texts start in the
/// wide-character buffer that came with it (`None` for a null pointer), and
/// its raw status and attributes.
#[derive(Debug, Clone, Copy, PartialEq, Eq)]
pub struct RawPrinterRecord {
    pub name: Option<usize>,
    pub driver_name: Option<usize>,
    pub location: Option<usize>,
    pub status: u32,
    pub attributes: u32,
}

/// The text of a record's field: empty for a null origin, otherwise what is
/// decoded from the units between the origin and the first zero behind it, or
/// the end of the buffer where no zero follows. An origin behind the end of
/// the buffer gives the empty text.
pub open spec fn field_text(buffer: Seq<u16>, origin: Option<usize>) -> Seq<char> {
    match origin {
        None => Seq::empty(),
        Some(start) => if start <= buffer.len() {
            utf16_lossy(text_units(buffer.skip(start as int)))
        } else {
            Seq::empty()
        },
    }
}

/// The name of the default printer as a sequence of characters.
pub open spec fn name_view(name: Option<String>) -> Option<Seq<char>> {
    match name {
        None => None,
        Some(text) => Some(text@),
    }
}

/// The descriptor of a printer with the given decoded texts. The printer is
/// the default one if and only if a default is configured and its name is the
/// printer's system name, compared as text.
pub open spec fn described(
    name: Seq<char>,
    driver_name: Seq<char>,
    location: Seq<char>,
    status: u32,
    attributes: u32,
    default_name: Option<Seq<char>>,
) -> PrinterView {
    PrinterView {
        name,
        system_name: name,
        driver_name,
        location,
        is_default: default_name == Some(name),
        is_shared: shared_bit(attributes),
        state: state_of_code(status),
    }
}

/// The descriptor that stands for `record`.
pub open spec fn descriptor(
    buffer: Seq<u16>,
    record: RawPrinterRecord,
    default_name: Option<Seq<char>>,
) -> PrinterView {
    described(
        field_text(buffer, record.name),
        field_text(buffer, record.driver_name),
        field_text(buffer, record.location),
        record.status,
        record.attributes,
        default_name,
    )
}

/// The descriptors that stand for `records`, one for each, in their order.
pub open spec fn descriptors(
    buffer: Seq<u16>,
    records: Seq<RawPrinterRecord>,
    default_name: Option<Seq<char>>,
) -> Seq<PrinterView> {
    Seq::new(records.len(), |i: int| descriptor(buffer, records[i], default_name))
}

/// Makes a descriptor from decoded texts and the raw status and attributes.
pub fn describe_printer(
    name: String,
    driver_name: String,
    location: String,
    status: u32,
    attributes: u32,
    default_name: &Option<String>,
) -> (printer: Printer)
    ensures
        printer@ == described(
            name@,
            driver_name@,
            location@,
            status,
            attributes,
            name_view(*default_name),
        ),
{
    let system_name = name.clone();
    let is_default = match default_name {
        Some(default) => *default == system_name,
        None => false,
    };
    Printer {
        name,
        system_name,
        driver_name,
        location,
        is_default,
        is_shared: has_shared_flag(attributes),
        state: map_status(status),
    }
}

/// Decodes the text of one field of a record, the scan limited to what the
/// buffer holds behind the origin.
fn field_value(buffer: &[u16], origin: Option<usize>) -> (text: String)
    ensures
        text@ == field_text(buffer@, origin),
{
    let room: usize = match origin {
        Some(start) => if start <= buffer.len() {
            buffer.len() - start
        } else {
            0
        },
        None => 0,
    };
    proof {
        if let Some(start) = origin {
            if start <= buffer@.len() {
                assert(scan_window(buffer@, start as int, room as int) =~= buffer@.skip(
                    start as int,
                ));
            } else {
                assert(text_units(Seq::<u16>::empty()) =~= Seq::<u16>::empty());
            }
        }
    }
    get_wchar_t_value(buffer, origin, room)
}

/// Describes the printers of one enumeration.
///
/// `records` are the records that the spooler returned, `buffer` the
/// wide-character buffer that their texts lie in, and `default_name` the name
/// of the default printer as resolved for this enumeration. The result has one
/// descriptor for each record, in the spooler's order.
pub fn get_printers(
    buffer: &[u16],
    records: &[RawPrinterRecord],
    default_name: &Option<String>,
) -> (printers: Vec<Printer>)
    ensures
        printers@.len() == records@.len(),
        views_of(printers@) == descriptors(buffer@, records@, name_view(*default_name)),
        forall|i: int|
            0 <= i < records@.len() ==> (#[trigger] printers@[i])@ == descriptor(
                buffer@,
                records@[i],
                name_view(*default_name),
            ),
{
    let mut printers: Vec<Printer> = Vec::new();
    let mut i: usize = 0;
    while i < records.len()
        invariant
            i <= records@.len(),
            printers@.len() == i,
            forall|j: int|
                0 <= j < i ==> (#[trigger] printers@[j])@ == descriptor(
                    buffer@,
                    records@[j],
                    name_view(*default_name),
                ),
        decreases records@.len() - i,
    {
        let record = records[i];
        let name = field_value(buffer, record.name);
        let driver_name = field_value(buffer, record.driver_name);
        let location = field_value(buffer, record.location);
        let printer = describe_printer(
            name,
            driver_name,
            location,
            record.status,
            record.attributes,
            default_name,
        );
        printers.push(printer);
        i = i + 1;
    }
    assert(views_of(printers@) =~= descriptors(buffer@, records@, name_view(*default_name)));
    printers
}

/// Where the negotiation with the spooler stands.
#[derive(Debug, Clone, Copy, PartialEq, Eq, Structural)]
pub enum EnumPhase {
    /// A query with no buffer is under way, to learn size and count.
    Sizing,
    /// A query with a buffer of the size learned is under way.
    Fetching,
    /// The negotiation is over.
    Done,
}

/// What the spooler replied to a query for the printers.
#[derive(Debug, Clone, Copy, PartialEq, Eq)]
pub enum QueryReply {
    /// The query itself failed.
    Failed,
    /// The buffer was too small and was left as it was. The spooler reported
    /// the size in bytes that it needs, and a number of printers.
    TooSmall { bytes: u32, count: u32 },
    /// The buffer was filled. The spooler reported the size in bytes of what
    /// it wrote, and the number of printers.
    Filled { bytes: u32, count: u32 },
}

impl QueryReply {
    /// The size in bytes that the reply reports; zero for a failed query.
    pub open spec fn bytes(self) -> u32 {
        match self {
            QueryReply::Failed => 0,
            QueryReply::TooSmall { bytes, .. } => bytes,
            QueryReply::Filled { bytes, .. } => bytes,
        }
    }

    /// The number of printers that the reply reports; zero for a failed query.
    pub open spec fn count(self) -> u32 {
        match self {
            QueryReply::Failed => 0,
            QueryReply::TooSmall { count, .. } => count,
            QueryReply::Filled { count, .. } => count,
        }
    }
}

/// What the caller is asked to do next.
#[derive(Debug, Clone, Copy, PartialEq, Eq)]
pub enum EnumAction {
    /// Query the spooler with no buffer.
    QuerySize,
    /// Allocate a buffer of exactly `capacity` bytes and query with it.
    Fetch { capacity: u32 },
    /// Take the first `records` records of the buffer last fetched and
    /// describe them; the negotiation is over.
    Read { records: u32 },
    /// Report the failure; the negotiation is over.
    Fail(PrintError),
}

/// The negotiation of one enumeration.
#[derive(Debug, Clone, Copy, PartialEq, Eq)]
pub struct PrinterEnumerator {
    /// The query that is under way.
    pub phase: EnumPhase,
    /// Whether the one retry has been spent.
    pub retried: bool,
    /// The size in bytes of the buffer of the fetch under way.
    pub capacity: u32,
    /// The number of printers that the last sizing query reported.
    pub expected: u32,
    /// The size in bytes of one record.
    pub record_size: u32,
}

/// The number of records that may be read after a fetch into a buffer of
/// `capacity` bytes that reported `bytes` bytes and `count` records of
/// `record_size` bytes each: all that were reported, but no more than lie
/// whole within both the bytes reported and the buffer.
pub open spec fn readable_records(count: u32, bytes: u32, capacity: u32, record_size: u32) -> int {
    if record_size == 0 {
        0
    } else {
        let usable: int = if bytes <= capacity {
            bytes as int
        } else {
            capacity as int
        };
        if count <= usable / (record_size as int) {
            count as int
        } else {
            usable / (record_size as int)
        }
    }
}

impl PrinterEnumerator {
    /// The negotiation before any reply: the sizing query is under way.
    pub open spec fn fresh(record_size: u32) -> Self {
        PrinterEnumerator {
            phase: EnumPhase::Sizing,
            retried: false,
            capacity: 0,
            expected: 0,
            record_size,
        }
    }

    /// Whether a fetch that `reply` answers has to be tried again: the one
    /// retry is not spent, and the buffer was too small or the number of
    /// printers is not the one that sizing reported.
    pub open spec fn retries_after(self, reply: QueryReply) -> bool {
        !self.retried && (reply is TooSmall || (reply is Filled && reply.count()
            != self.expected))
    }

    /// The action that `reply` makes the negotiation ask for; nothing once it
    /// is over.
    ///
    /// A failed query gives `SpoolerUnavailable`, in either phase. Whatever
    /// else the sizing query reports, a buffer of the size reported is fetched.
    /// A fetch that has to be tried again goes back to sizing. A filled buffer
    /// is read otherwise, as far as its records lie within it: with the count
    /// that sizing reported, or after the retry with whatever count the second
    /// fetch reports. A buffer that is too small for the second time was never
    /// filled, so nothing can be read and the spooler counts as unavailable.
    pub open spec fn asks_after(self, reply: QueryReply) -> Option<EnumAction> {
        match self.phase {
            EnumPhase::Done => None,
            EnumPhase::Sizing => if reply is Failed {
                Some(EnumAction::Fail(PrintError::SpoolerUnavailable))
            } else {
                Some(EnumAction::Fetch { capacity: reply.bytes() })
            },
            EnumPhase::Fetching => if reply is Failed {
                Some(EnumAction::Fail(PrintError::SpoolerUnavailable))
            } else if self.retries_after(reply) {
                Some(EnumAction::QuerySize)
            } else if reply is Filled {
                Some(
                    EnumAction::Read {
                        records: readable_records(
                            reply.count(),
                            reply.bytes(),
                            self.capacity,
                            self.record_size,
                        ) as u32,
                    },
                )
            } else {
                Some(EnumAction::Fail(PrintError::SpoolerUnavailable))
            },
        }
    }

    /// The negotiation after `reply`: fetching once the size is known, sizing
    /// again for the retry, over with every other reply.
    pub open spec fn after(self, reply: QueryReply) -> Self {
        match self.asks_after(reply) {
            None => self,
            Some(EnumAction::Fetch { capacity }) => PrinterEnumerator {
                phase: EnumPhase::Fetching,
                capacity,
                expected: reply.count(),
                ..self
            },
            Some(EnumAction::QuerySize) => PrinterEnumerator {
                phase: EnumPhase::Sizing,
                retried: true,
                ..self
            },
            Some(_) => PrinterEnumerator { phase: EnumPhase::Done, ..self },
        }
    }

    /// Starts the negotiation for records of `record_size` bytes and asks for
    /// the sizing query.
    pub fn begin(record_size: u32) -> (start: (PrinterEnumerator, EnumAction))
        ensures
            start.0 == Self::fresh(record_size),
            start.1 == EnumAction::QuerySize,
    {
        (
            PrinterEnumerator {
                phase: EnumPhase::Sizing,
                retried: false,
                capacity: 0,
                expected: 0,
                record_size,
            },
            EnumAction::QuerySize,
        )
    }

    /// Takes the spooler's reply to the query under way and asks for the next
    /// action.
    ///
    /// A failed query ends the negotiation with `SpoolerUnavailable`. The
    /// sizing reply fixes the buffer's size and the expected count. A fetch
    /// that fills the buffer and reports the expected count ends the
    /// negotiation with the number of records to read. One that reports
    /// another count, or finds the buffer too small, starts the negotiation
    /// over, once; after that, whatever the second fetch fills in is taken.
    /// The number of records to read never reaches behind the buffer.
    pub fn advance(self, reply: QueryReply) -> (next: (PrinterEnumerator, Option<EnumAction>))
        ensures
            next.0 == self.after(reply),
            next.1 == self.asks_after(reply),
            self.phase == EnumPhase::Done ==> next.0 == self && next.1 is None,
            self.phase != EnumPhase::Done && reply is Failed ==> next.1 == Some(
                EnumAction::Fail(PrintError::SpoolerUnavailable),
            ) && next.0.phase == EnumPhase::Done,
            next.1 matches Some(EnumAction::Read { records }) ==> reply is Filled && records
                <= reply.count() && records * self.record_size <= self.capacity && records
                * self.record_size <= reply.bytes() && (reply.count() == self.expected
                || self.retried),
            next.1 == Some(EnumAction::QuerySize) ==> !self.retried && next.0.retried,
            next.0.record_size == self.record_size,
    {
        match self.phase {
            EnumPhase::Done => (self, None),
            EnumPhase::Sizing => match reply {
                QueryReply::Failed => (
                    PrinterEnumerator { phase: EnumPhase::Done, ..self },
                    Some(EnumAction::Fail(PrintError::SpoolerUnavailable)),
                ),
                QueryReply::TooSmall { bytes, count } | QueryReply::Filled { bytes, count } => (
                    PrinterEnumerator {
                        phase: EnumPhase::Fetching,
                        capacity: bytes,
                        expected: count,
                        ..self
                    },
                    Some(EnumAction::Fetch { capacity: bytes }),
                ),
            },
            EnumPhase::Fetching => match reply {
                QueryReply::Failed => (
                    PrinterEnumerator { phase: EnumPhase::Done, ..self },
                    Some(EnumAction::Fail(PrintError::SpoolerUnavailable)),
                ),
                QueryReply::TooSmall { .. } => if self.retried {
                    (
                        PrinterEnumerator { phase: EnumPhase::Done, ..self },
                        Some(EnumAction::Fail(PrintError::SpoolerUnavailable)),
                    )
                } else {
                    (
                        PrinterEnumerator { phase: EnumPhase::Sizing, retried: true, ..self },
                        Some(EnumAction::QuerySize),
                    )
                },
                QueryReply::Filled { bytes, count } => if count == self.expected || self.retried {
                    let records = records_in_reach(count, bytes, self.capacity, self.record_size);
                    (
                        PrinterEnumerator { phase: EnumPhase::Done, ..self },
                        Some(EnumAction::Read { records }),
                    )
                } else {
                    (
                        PrinterEnumerator { phase: EnumPhase::Sizing, retried: true, ..self },
                        Some(EnumAction::QuerySize),
                    )
                },
            },
        }
    }
}

/// The number of records that may be read after a fetch: see
/// `readable_records`. No record that it counts reaches behind the buffer or
/// behind the bytes that the spooler reported, and where all the reported
/// records lie within both, it counts them all.
pub fn records_in_reach(count: u32, bytes: u32, capacity: u32, record_size: u32) -> (records: u32)
    ensures
        records == readable_records(count, bytes, capacity, record_size),
        records <= count,
        records * record_size <= capacity,
        records * record_size <= bytes,
        record_size > 0 && count * record_size <= bytes <= capacity ==> records == count,
{
    if record_size == 0 {
        0
    } else {
        let usable: u32 = if bytes <= capacity {
            bytes
        } else {
            capacity
        };
        let fit: u32 = usable / record_size;
        assert(fit * record_size <= usable) by (nonlinear_arith)
            requires
                fit == usable / record_size,
                record_size > 0,
        ;
        let records: u32 = if count <= fit {
            count
        } else {
            fit
        };
        assert(records * record_size <= fit * record_size) by (nonlinear_arith)
            requires
                records <= fit,
        ;
        assert(count * record_size <= usable ==> count <= fit) by (nonlinear_arith)
            requires
                fit == usable / record_size,
                record_size > 0,
        ;
        records
    }
}

/// Whether no two records have the same system name.
pub open spec fn distinct_system_names(buffer: Seq<u16>, records: Seq<RawPrinterRecord>) -> bool {
    forall|i: int, j: int|
        0 <= i < j < records.len() ==> field_text(buffer, #[trigger] records[i].name)
            != field_text(buffer, #[trigger] records[j].name)
}

/// The number of descriptors that are flagged as the default printer.
pub open spec fn default_count(printers: Seq<PrinterView>) -> nat
    decreases printers.len(),
{
    if printers.len() == 0 {
        0
    } else {
        default_count(printers.drop_last()) + if printers.last().is_default {
            1nat
        } else {
            0nat
        }
    }
}

/// Whether some record has the system name `name`.
pub open spec fn is_listed(buffer: Seq<u16>, records: Seq<RawPrinterRecord>, name: Seq<char>) -> bool {
    exists|i: int| 0 <= i < records.len() && field_text(buffer, #[trigger] records[i].name) == name
}

proof fn lemma_none_flagged(printers: Seq<PrinterView>)
    requires
        forall|i: int| 0 <= i < printers.len() ==> !(#[trigger] printers[i]).is_default,
    ensures
        default_count(printers) == 0,
    decreases printers.len(),
{
    if printers.len() > 0 {
        let front = printers.drop_last();
        assert forall|i: int| 0 <= i < front.len() implies !(#[trigger] front[i]).is_default by {
            assert(front[i] == printers[i]);
        }
        lemma_none_flagged(front);
    }
}

proof fn lemma_one_flagged(printers: Seq<PrinterView>, at: int)
    requires
        0 <= at < printers.len(),
        forall|i: int| 0 <= i < printers.len() ==> ((#[trigger] printers[i]).is_default <==> i == at),
    ensures
        default_count(printers) == 1,
    decreases printers.len(),
{
    let front = printers.drop_last();
    if at == printers.len() - 1 {
        assert forall|i: int| 0 <= i < front.len() implies !(#[trigger] front[i]).is_default by {
            assert(front[i] == printers[i]);
        }
        lemma_none_flagged(front);
    } else {
        assert forall|i: int| 0 <= i < front.len() implies ((#[trigger] front[i]).is_default <==> i
            == at) by {
            assert(front[i] == printers[i]);
        }
        lemma_one_flagged(front, at);
    }
}

/// A descriptor is flagged as the default printer exactly where a default is
/// configured and its name is the descriptor's system name.
pub proof fn lemma_flag_means_default(
    buffer: Seq<u16>,
    records: Seq<RawPrinterRecord>,
    default_name: Option<Seq<char>>,
)
    ensures
        descriptors(buffer, records, default_name).len() == records.len(),
        forall|i: int|
            0 <= i < records.len() ==> ((#[trigger] descriptors(
                buffer,
                records,
                default_name,
            )[i]).is_default <==> default_name == Some(
                descriptors(buffer, records, default_name)[i].system_name,
            )),
        forall|i: int|
            0 <= i < records.len() ==> (#[trigger] descriptors(
                buffer,
                records,
                default_name,
            )[i]).system_name == field_text(buffer, records[i].name),
{
}

/// Whether at most one record has the system name `name`.
pub open spec fn named_at_most_once(
    buffer: Seq<u16>,
    records: Seq<RawPrinterRecord>,
    name: Seq<char>,
) -> bool {
    forall|i: int, j: int|
        0 <= i < j < records.len() ==> !(field_text(buffer, #[trigger] records[i].name) == name
            && field_text(buffer, #[trigger] records[j].name) == name)
}

/// Of the printers of one enumeration at most one is flagged as the default
/// printer: exactly one where a default is configured and listed, none
/// otherwise. This holds wherever the spooler lists the default printer's
/// name no more than once.
pub proof fn lemma_default_is_unique(
    buffer: Seq<u16>,
    records: Seq<RawPrinterRecord>,
    default_name: Option<Seq<char>>,
)
    requires
        default_name is Some ==> named_at_most_once(buffer, records, default_name->0),
    ensures
        default_count(descriptors(buffer, records, default_name)) <= 1,
        default_count(descriptors(buffer, records, default_name)) == 1 <==> default_name is Some
            && is_listed(buffer, records, default_name->0),
        forall|i: int, j: int|
            0 <= i < records.len() && 0 <= j < records.len() && (#[trigger] descriptors(
                buffer,
                records,
                default_name,
            )[i]).is_default && (#[trigger] descriptors(buffer, records, default_name)[j]).is_default
                ==> i == j,
{
    let printers = descriptors(buffer, records, default_name);
    if default_name is Some && is_listed(buffer, records, default_name->0) {
        let name = default_name->0;
        let at = choose|i: int|
            0 <= i < records.len() && field_text(buffer, #[trigger] records[i].name) == name;
        assert forall|i: int| 0 <= i < printers.len() implies ((#[trigger] printers[i]).is_default
            <==> i == at) by {
            if i != at && printers[i].is_default {
                assert(field_text(buffer, records[i].name) == name);
                if i < at {
                    assert(!(field_text(buffer, records[i].name) == name && field_text(
                        buffer,
                        records[at].name,
                    ) == name));
                } else {
                    assert(!(field_text(buffer, records[at].name) == name && field_text(
                        buffer,
                        records[i].name,
                    ) == name));
                }
            }
        }
        lemma_one_flagged(printers, at);
    } else {
        assert forall|i: int| 0 <= i < printers.len() implies !(#[trigger] printers[i]).is_default by {
            if printers[i].is_default {
                assert(field_text(buffer, records[i].name) == default_name->0);
            }
        }
        lemma_none_flagged(printers);
    }
}

/// The spooler addresses each printer by its system name, so the names of one
/// enumeration differ from one another; at most one printer is flagged then,
/// whatever the default is.
pub proof fn lemma_distinct_names_flag_at_most_one(
    buffer: Seq<u16>,
    records: Seq<RawPrinterRecord>,
    default_name: Option<Seq<char>>,
)
    requires
        distinct_system_names(buffer, records),
    ensures
        default_count(descriptors(buffer, records, default_name)) <= 1,
        default_count(descriptors(buffer, records, default_name)) == 1 <==> default_name is Some
            && is_listed(buffer, records, default_name->0),
{
    if default_name is Some {
        assert(named_at_most_once(buffer, records, default_name->0));
    }
    lemma_default_is_unique(buffer, records, default_name);
}

/// With no default printer configured, no descriptor is flagged, whatever the
/// names are.
pub proof fn lemma_no_default_no_flag(buffer: Seq<u16>, records: Seq<RawPrinterRecord>)
    ensures
        default_count(descriptors(buffer, records, None)) == 0,
        forall|i: int|
            0 <= i < records.len() ==> !(#[trigger] descriptors(buffer, records, None)[i]).is_default,
{
    lemma_none_flagged(descriptors(buffer, records, None));
}

/// Where the spooler reports the same size and count to both queries, and the
/// records lie within that size, all of them are read: as many descriptors
/// come out as printers were reported.
pub proof fn lemma_steady_enumeration_reads_all(record_size: u32, bytes: u32, count: u32)
    requires
        record_size > 0,
        count * record_size <= bytes,
    ensures
        PrinterEnumerator::fresh(record_size).after(QueryReply::TooSmall { bytes, count }).asks_after(
            QueryReply::Filled { bytes, count },
        ) == Some(EnumAction::Read { records: count }),
        PrinterEnumerator::fresh(record_size).after(QueryReply::Filled { bytes, count }).asks_after(
            QueryReply::Filled { bytes, count },
        ) == Some(EnumAction::Read { records: count }),
{
    assert(count <= (bytes as int) / (record_size as int)) by (nonlinear_arith)
        requires
            record_size > 0,
            count * record_size <= bytes,
    ;
}

/// A negotiation is over after four replies at the latest, whatever they are:
/// the size-then-fetch exchange is tried twice at most.
pub proof fn lemma_negotiation_ends(
    record_size: u32,
    first: QueryReply,
    second: QueryReply,
    third: QueryReply,
    fourth: QueryReply,
)
    ensures
        PrinterEnumerator::fresh(record_size).after(first).after(second).after(third).after(
            fourth,
        ).phase == EnumPhase::Done,
        PrinterEnumerator::fresh(record_size).after(first).after(second).phase != EnumPhase::Done
            ==> first !is Failed && (second is TooSmall || (second is Filled && second.count()
            != first.count())),
        PrinterEnumerator::fresh(record_size).after(first).after(second).after(third).phase
            != EnumPhase::Done ==> PrinterEnumerator::fresh(record_size).after(first).after(
            second,
        ).after(third).retried,
{
}

} // verus!
