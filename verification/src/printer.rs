//! The descriptor of a printer and the states it can be in.

use vstd::prelude::*;

verus! {

/// What a printer is doing, as far as the spooler tells.
#[derive(Debug, Clone, Copy, PartialEq, Eq, Structural)]
pub enum PrinterState {
    /// Able to receive jobs; idle.
    Ready,
    /// Not accepting jobs; stopped.
    Paused,
    /// Working on a document.
    Printing,
    /// Anything else: errors, missing resources, manual intervention.
    Unknown,
}

/// The state that a raw status code of the spooler stands for.
pub open spec fn state_of_code(raw_code: u32) -> PrinterState {
    if raw_code == 0 {
        PrinterState::Ready
    } else if raw_code == 1 || raw_code == 2 {
        PrinterState::Paused
    } else if raw_code == 5 {
        PrinterState::Printing
    } else {
        PrinterState::Unknown
    }
}

/// Maps a raw status code to a printer state. Every code has exactly one state.
pub fn map_status(raw_code: u32) -> (state: PrinterState)
    ensures
        state == state_of_code(raw_code),
        raw_code == 0 ==> state == PrinterState::Ready,
        raw_code == 1 || raw_code == 2 ==> state == PrinterState::Paused,
        raw_code == 5 ==> state == PrinterState::Printing,
        raw_code != 0 && raw_code != 1 && raw_code != 2 && raw_code != 5 ==> state
            == PrinterState::Unknown,
{
    match raw_code {
        0 => PrinterState::Ready,
        1 | 2 => PrinterState::Paused,
        5 => PrinterState::Printing,
        _ => PrinterState::Unknown,
    }
}

/// The bit of a printer's attributes that says that the printer is shared.
pub const SHARED_ATTRIBUTE: u32 = 0x8;

/// Whether `attributes` has the shared bit set.
pub open spec fn shared_bit(attributes: u32) -> bool {
    attributes & SHARED_ATTRIBUTE == SHARED_ATTRIBUTE
}

/// Whether the attributes of a printer say that it is shared: the bit of
/// value 8 is set, whatever the other bits are.
pub fn has_shared_flag(attributes: u32) -> (shared: bool)
    ensures
        shared == shared_bit(attributes),
        shared == ((attributes / 8) % 2 == 1),
{
    assert((attributes & 0x8 == 0x8) == ((attributes / 8) % 2 == 1)) by (bit_vector);
    (attributes & SHARED_ATTRIBUTE) == SHARED_ATTRIBUTE
}

/// A printer as the spooler described it at one moment.
#[derive(Debug, Clone, PartialEq, Eq)]
pub struct Printer {
    /// The name shown to people.
    pub name: String,
    /// The name by which the spooler addresses the printer.
    pub system_name: String,
    /// The name of the installed driver.
    pub driver_name: String,
    /// Where the printer stands; empty where nobody said.
    pub location: String,
    /// Whether this is the default printer.
    pub is_default: bool,
    /// Whether the printer is shared.
    pub is_shared: bool,
    /// What the printer is doing.
    pub state: PrinterState,
}

/// A printer descriptor with its texts as sequences of characters.
pub struct PrinterView {
    pub name: Seq<char>,
    pub system_name: Seq<char>,
    pub driver_name: Seq<char>,
    pub location: Seq<char>,
    pub is_default: bool,
    pub is_shared: bool,
    pub state: PrinterState,
}

impl View for Printer {
    type V = PrinterView;

    open spec fn view(&self) -> PrinterView {
        PrinterView {
            name: self.name@,
            system_name: self.system_name@,
            driver_name: self.driver_name@,
            location: self.location@,
            is_default: self.is_default,
            is_shared: self.is_shared,
            state: self.state,
        }
    }
}

/// The views of a sequence of printers, in the same order.
pub open spec fn views_of(printers: Seq<Printer>) -> Seq<PrinterView> {
    Seq::new(printers.len(), |i: int| printers[i]@)
}

} // verus!
