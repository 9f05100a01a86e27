use direct_print::enumerate::{describe_printer, get_printers, RawPrinterRecord};
use direct_print::printer::{has_shared_flag, map_status, Printer, PrinterState};

fn place(buffer: &mut Vec<u16>, text: &str) -> Option<usize> {
    let origin = buffer.len();
    buffer.extend(text.encode_utf16());
    buffer.push(0);
    Some(origin)
}

#[test]
fn status_codes_map_to_states() {
    assert_eq!(map_status(0), PrinterState::Ready);
    assert_eq!(map_status(1), PrinterState::Paused);
    assert_eq!(map_status(2), PrinterState::Paused);
    assert_eq!(map_status(5), PrinterState::Printing);
}

#[test]
fn other_status_codes_are_unknown() {
    assert_eq!(map_status(3), PrinterState::Unknown);
    assert_eq!(map_status(4), PrinterState::Unknown);
    assert_eq!(map_status(6), PrinterState::Unknown);
    assert_eq!(map_status(0x400), PrinterState::Unknown);
    assert_eq!(map_status(u32::MAX), PrinterState::Unknown);
}

#[test]
fn shared_flag_is_the_bit_of_value_eight() {
    assert!(has_shared_flag(0x8));
    assert!(has_shared_flag(0xF));
    assert!(has_shared_flag(0x0000_0848));
    assert!(has_shared_flag(u32::MAX));
    assert!(!has_shared_flag(0));
    assert!(!has_shared_flag(0x7));
    assert!(!has_shared_flag(0x10));
    assert!(!has_shared_flag(0xFFFF_FFF7));
}

#[test]
fn one_default_printer_is_listed() {
    let mut buffer: Vec<u16> = Vec::new();
    let name = place(&mut buffer, "PDF-Printer");
    let driver_name = place(&mut buffer, "PDF Driver");
    let records = vec![RawPrinterRecord { name, driver_name, location: None, status: 0, attributes: 0 }];
    let default_name = Some(String::from("PDF-Printer"));
    let printers = get_printers(&buffer, &records, &default_name);
    assert_eq!(
        printers,
        vec![Printer {
            name: String::from("PDF-Printer"),
            system_name: String::from("PDF-Printer"),
            driver_name: String::from("PDF Driver"),
            location: String::new(),
            is_default: true,
            is_shared: false,
            state: PrinterState::Ready,
        }]
    );
}

#[test]
fn no_records_give_no_printers() {
    let printers = get_printers(&[], &[], &Some(String::from("PDF-Printer")));
    assert!(printers.is_empty());
}

#[test]
fn printers_keep_the_order_of_the_records() {
    let mut buffer: Vec<u16> = Vec::new();
    let first = place(&mut buffer, "Zebra");
    let second = place(&mut buffer, "Alpha");
    let third = place(&mut buffer, "Office-2F");
    let location = place(&mut buffer, "Second floor");
    let driver_name = place(&mut buffer, "Generic");
    let records = vec![
        RawPrinterRecord { name: first, driver_name, location: None, status: 5, attributes: 0x8 },
        RawPrinterRecord { name: second, driver_name, location: None, status: 1, attributes: 0x40 },
        RawPrinterRecord { name: third, driver_name, location, status: 7, attributes: 0x48 },
    ];
    let printers = get_printers(&buffer, &records, &Some(String::from("Alpha")));
    assert_eq!(printers.len(), 3);
    let names: Vec<&str> = printers.iter().map(|printer| printer.name.as_str()).collect();
    assert_eq!(names, vec!["Zebra", "Alpha", "Office-2F"]);
    let flags: Vec<bool> = printers.iter().map(|printer| printer.is_default).collect();
    assert_eq!(flags, vec![false, true, false]);
    let shared: Vec<bool> = printers.iter().map(|printer| printer.is_shared).collect();
    assert_eq!(shared, vec![true, false, true]);
    let states: Vec<PrinterState> = printers.iter().map(|printer| printer.state).collect();
    assert_eq!(states, vec![PrinterState::Printing, PrinterState::Paused, PrinterState::Unknown]);
    assert_eq!(printers[2].location, "Second floor");
    assert_eq!(printers[2].driver_name, "Generic");
    assert_eq!(printers[0].location, "");
}

#[test]
fn no_default_configured_flags_none() {
    let mut buffer: Vec<u16> = Vec::new();
    let first = place(&mut buffer, "Alpha");
    let second = place(&mut buffer, "Beta");
    let records = vec![
        RawPrinterRecord { name: first, driver_name: None, location: None, status: 0, attributes: 0 },
        RawPrinterRecord { name: second, driver_name: None, location: None, status: 0, attributes: 0 },
    ];
    let printers = get_printers(&buffer, &records, &None);
    assert_eq!(printers.iter().filter(|printer| printer.is_default).count(), 0);
}

#[test]
fn default_that_is_not_listed_flags_none() {
    let mut buffer: Vec<u16> = Vec::new();
    let first = place(&mut buffer, "Alpha");
    let second = place(&mut buffer, "Beta");
    let records = vec![
        RawPrinterRecord { name: first, driver_name: None, location: None, status: 0, attributes: 0 },
        RawPrinterRecord { name: second, driver_name: None, location: None, status: 0, attributes: 0 },
    ];
    let printers = get_printers(&buffer, &records, &Some(String::from("Gamma")));
    assert_eq!(printers.iter().filter(|printer| printer.is_default).count(), 0);
    let printers = get_printers(&buffer, &records, &Some(String::from("alpha")));
    assert_eq!(printers.iter().filter(|printer| printer.is_default).count(), 0);
}

#[test]
fn listed_default_flags_exactly_one() {
    let mut buffer: Vec<u16> = Vec::new();
    let first = place(&mut buffer, "Alpha");
    let second = place(&mut buffer, "Beta");
    let third = place(&mut buffer, "Gamma");
    let records = vec![
        RawPrinterRecord { name: first, driver_name: None, location: None, status: 0, attributes: 0 },
        RawPrinterRecord { name: second, driver_name: None, location: None, status: 0, attributes: 0 },
        RawPrinterRecord { name: third, driver_name: None, location: None, status: 0, attributes: 0 },
    ];
    let printers = get_printers(&buffer, &records, &Some(String::from("Gamma")));
    assert_eq!(printers.iter().filter(|printer| printer.is_default).count(), 1);
    assert!(printers[2].is_default);
}

#[test]
fn null_texts_are_empty() {
    let buffer: Vec<u16> = vec![0x41, 0];
    let records =
        vec![RawPrinterRecord { name: None, driver_name: None, location: None, status: 2, attributes: 8 }];
    let printers = get_printers(&buffer, &records, &Some(String::from("A")));
    assert_eq!(printers.len(), 1);
    assert_eq!(printers[0].name, "");
    assert_eq!(printers[0].system_name, "");
    assert_eq!(printers[0].driver_name, "");
    assert_eq!(printers[0].location, "");
    assert!(!printers[0].is_default);
    assert!(printers[0].is_shared);
    assert_eq!(printers[0].state, PrinterState::Paused);
}

#[test]
fn text_without_terminator_ends_with_the_buffer() {
    let buffer: Vec<u16> = "LabelWriter".encode_utf16().collect();
    let records = vec![RawPrinterRecord {
        name: Some(0),
        driver_name: Some(5),
        location: Some(40),
        status: 0,
        attributes: 0,
    }];
    let printers = get_printers(&buffer, &records, &None);
    assert_eq!(printers[0].name, "LabelWriter");
    assert_eq!(printers[0].driver_name, "Writer");
    assert_eq!(printers[0].location, "");
}

#[test]
fn name_and_system_name_are_the_same_text() {
    let mut buffer: Vec<u16> = Vec::new();
    let name = place(&mut buffer, "Office-2F");
    let records =
        vec![RawPrinterRecord { name, driver_name: None, location: None, status: 0, attributes: 0 }];
    let printers = get_printers(&buffer, &records, &None);
    assert_eq!(printers[0].name, printers[0].system_name);
    assert_eq!(printers[0].system_name, "Office-2F");
}

#[test]
fn describes_from_decoded_texts() {
    let printer = describe_printer(
        String::from("Front Desk"),
        String::from("Laser 4"),
        String::from("Lobby"),
        5,
        0x8,
        &Some(String::from("Front Desk")),
    );
    assert_eq!(
        printer,
        Printer {
            name: String::from("Front Desk"),
            system_name: String::from("Front Desk"),
            driver_name: String::from("Laser 4"),
            location: String::from("Lobby"),
            is_default: true,
            is_shared: true,
            state: PrinterState::Printing,
        }
    );
    let other = describe_printer(
        String::from("Front Desk"),
        String::new(),
        String::new(),
        9,
        0x7,
        &Some(String::from("Back Office")),
    );
    assert!(!other.is_default);
    assert!(!other.is_shared);
    assert_eq!(other.state, PrinterState::Unknown);
}

#[test]
fn default_flag_goes_by_the_name_alone() {
    let mut buffer: Vec<u16> = Vec::new();
    let first = place(&mut buffer, "Twin");
    let second = place(&mut buffer, "Twin");
    let records = vec![
        RawPrinterRecord { name: first, driver_name: None, location: None, status: 0, attributes: 0 },
        RawPrinterRecord { name: second, driver_name: None, location: None, status: 0, attributes: 0 },
    ];
    let printers = get_printers(&buffer, &records, &Some(String::from("Twin")));
    assert!(printers[0].is_default);
    assert!(printers[1].is_default);
}
