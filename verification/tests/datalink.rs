use serialpcap::datalink::{
    decode_lines, encode_lines, get_datalink_types, get_encapsulated_data, lookup_datalink,
    parse_datalink, parse_rtac_header, raw_encapsulate, rtac_encapsulate, unknown_datalink,
    unsupported_datalink, DataLink, DatalinkTable, EncapsulationFormat, RtacHeader,
    LINKTYPE_RAW, LINKTYPE_RTAC_SERIAL, LINKTYPE_USER0, LINKTYPE_USER15, MAX_DATALINK_TYPES,
    RTAC_EVENT_DATA, RTAC_HEADER_LEN,
};
use serialpcap::portinfo::PortControlLines;
use serialpcap::state::SerialEvent;

fn low() -> PortControlLines {
    PortControlLines::new()
}

#[test]
fn bitmask_of_cts_and_rts_is_nine() {
    let lines = PortControlLines { cts: true, rts: true, ..low() };
    assert_eq!(encode_lines(&lines), 0x09);
}

#[test]
fn each_line_has_its_own_bit() {
    assert_eq!(encode_lines(&low()), 0x00);
    assert_eq!(encode_lines(&PortControlLines { cts: true, ..low() }), 0x01);
    assert_eq!(encode_lines(&PortControlLines { cd: true, ..low() }), 0x02);
    assert_eq!(encode_lines(&PortControlLines { dsr: true, ..low() }), 0x04);
    assert_eq!(encode_lines(&PortControlLines { rts: true, ..low() }), 0x08);
    assert_eq!(encode_lines(&PortControlLines { dtr: true, ..low() }), 0x10);
    assert_eq!(encode_lines(&PortControlLines { ri: true, ..low() }), 0x20);
    let all = PortControlLines { dsr: true, cts: true, cd: true, ri: true, dtr: true, rts: true };
    assert_eq!(encode_lines(&all), 0x3F);
}

#[test]
fn bitmask_reads_back_for_every_snapshot() {
    for mask in 0u8..64 {
        let lines = decode_lines(mask);
        assert_eq!(encode_lines(&lines), mask);
    }
    assert_eq!(decode_lines(0x09), PortControlLines { cts: true, rts: true, ..low() });
    assert_eq!(decode_lines(0xC0), low());
}

#[test]
fn raw_is_the_payload_unchanged() {
    assert_eq!(raw_encapsulate(&[1, 2, 3]), vec![1, 2, 3]);
    assert_eq!(raw_encapsulate(&[]), Vec::<u8>::new());
}

#[test]
fn structured_frame_has_the_stated_layout() {
    let lines = PortControlLines { cts: true, rts: true, ..low() };
    let event = SerialEvent::at(1_000_000_000_000_555, vec![0x41, 0x42], 2, lines);
    let frame = rtac_encapsulate(event, "serial");
    assert_eq!(
        frame,
        vec![0x00, 0xCA, 0x9A, 0x3B, 0x2B, 0x02, 0x00, 0x00, 0x01, 0x09, 0x00, 0x00, 0x41, 0x42]
    );
    assert_eq!(frame.len(), RTAC_HEADER_LEN + 2);
    assert_eq!(frame[8], RTAC_EVENT_DATA);
}

#[test]
fn structured_frame_of_an_empty_event_is_the_header() {
    let event = SerialEvent::at(1_000_444, vec![], 0, low());
    assert_eq!(
        rtac_encapsulate(event, "bus"),
        vec![0x01, 0x00, 0x00, 0x00, 0xBC, 0x01, 0x00, 0x00, 0x01, 0x00, 0x00, 0x00]
    );
}

#[test]
fn structured_frame_before_the_epoch_rounds_seconds_down() {
    let event = SerialEvent::at(-1, vec![7], 1, low());
    assert_eq!(
        rtac_encapsulate(event, "serial"),
        vec![0xFF, 0xFF, 0xFF, 0xFF, 0x3F, 0x42, 0x0F, 0x00, 0x01, 0x00, 0x00, 0x00, 0x07]
    );
}

#[test]
fn structured_frame_keeps_seconds_to_32_bits() {
    let timestamp = (4_294_967_296i64 + 5) * 1_000_000 + 7;
    let event = SerialEvent::at(timestamp, vec![], 0, low());
    assert_eq!(
        rtac_encapsulate(event, "serial"),
        vec![0x05, 0x00, 0x00, 0x00, 0x07, 0x00, 0x00, 0x00, 0x01, 0x00, 0x00, 0x00]
    );
}

#[test]
fn structured_header_round_trip() {
    let lines = PortControlLines { dsr: true, ri: true, dtr: true, ..low() };
    let event = SerialEvent::at(1_431_648_000_123_456, vec![1, 2, 3], 3, lines);
    let frame = rtac_encapsulate(event, "serial");
    assert_eq!(
        parse_rtac_header(&frame),
        Some(RtacHeader {
            seconds: 1_431_648_000,
            micros: 123_456,
            event_type: 0x01,
            control_lines: lines,
        })
    );
    assert_eq!(frame[12..].to_vec(), vec![1, 2, 3]);
}

#[test]
fn header_parser_rejects_short_and_reserved() {
    let good = [0x05, 0, 0, 0, 0x07, 0, 0, 0, 0x01, 0x3F, 0, 0];
    assert!(parse_rtac_header(&good).is_some());
    assert_eq!(parse_rtac_header(&good[..11]), None);
    assert_eq!(parse_rtac_header(&[]), None);
    let mut bit6 = good;
    bit6[9] = 0x40;
    assert_eq!(parse_rtac_header(&bit6), None);
    let mut bit7 = good;
    bit7[9] = 0x80;
    assert_eq!(parse_rtac_header(&bit7), None);
    let mut byte10 = good;
    byte10[10] = 1;
    assert_eq!(parse_rtac_header(&byte10), None);
    let mut byte11 = good;
    byte11[11] = 1;
    assert_eq!(parse_rtac_header(&byte11), None);
}

#[test]
fn header_parser_reads_fields_least_significant_first() {
    let bytes = [0x78, 0x56, 0x34, 0x12, 0x40, 0x42, 0x0F, 0x00, 0x02, 0x21, 0, 0, 0xAA];
    assert_eq!(
        parse_rtac_header(&bytes),
        Some(RtacHeader {
            seconds: 0x1234_5678,
            micros: 1_000_000,
            event_type: 0x02,
            control_lines: PortControlLines { cts: true, ri: true, ..low() },
        })
    );
}

#[test]
fn link_types_map_to_their_layout() {
    assert_eq!(DataLink { code: LINKTYPE_RAW }.format(), Some(EncapsulationFormat::Raw));
    assert_eq!(DataLink { code: LINKTYPE_USER0 }.format(), Some(EncapsulationFormat::Raw));
    assert_eq!(DataLink { code: 155 }.format(), Some(EncapsulationFormat::Raw));
    assert_eq!(DataLink { code: LINKTYPE_USER15 }.format(), Some(EncapsulationFormat::Raw));
    assert_eq!(
        DataLink { code: LINKTYPE_RTAC_SERIAL }.format(),
        Some(EncapsulationFormat::StructuredSerial)
    );
    assert_eq!(DataLink { code: 146 }.format(), None);
    assert_eq!(DataLink { code: 163 }.format(), None);
    assert_eq!(DataLink { code: 1 }.format(), None);
    assert_eq!(DataLink { code: 100 }.format(), None);
}

#[test]
fn encapsulation_follows_the_link_type() {
    let lines = PortControlLines { cts: true, ..low() };
    let raw = get_encapsulated_data(
        SerialEvent::at(5, vec![9, 8], 2, lines),
        "serial",
        &DataLink { code: LINKTYPE_USER0 },
    );
    assert_eq!(raw, Ok(vec![9, 8]));
    let raw = get_encapsulated_data(
        SerialEvent::at(5, vec![9, 8], 2, lines),
        "serial",
        &DataLink { code: LINKTYPE_RAW },
    );
    assert_eq!(raw, Ok(vec![9, 8]));
    let structured = get_encapsulated_data(
        SerialEvent::at(2_000_005, vec![9, 8], 2, lines),
        "serial",
        &DataLink { code: LINKTYPE_RTAC_SERIAL },
    );
    assert_eq!(structured, Ok(vec![2, 0, 0, 0, 5, 0, 0, 0, 1, 1, 0, 0, 9, 8]));
}

#[test]
fn unsupported_link_type_is_named_in_the_error() {
    let known = get_encapsulated_data(
        SerialEvent::at(5, vec![9], 1, low()),
        "serial",
        &DataLink { code: 1 },
    );
    assert_eq!(known, Err(String::from("Unsupported datalink type: ETHERNET")));
    let unknown = get_encapsulated_data(
        SerialEvent::at(5, vec![9], 1, low()),
        "serial",
        &DataLink { code: 300 },
    );
    assert_eq!(unknown, Err(String::from("Unsupported datalink type: Unknown(300)")));
}

#[test]
fn error_texts() {
    assert_eq!(unsupported_datalink("PPP"), "Unsupported datalink type: PPP");
    assert_eq!(unknown_datalink("ppq"), "Unknown datalink type: ppq");
}

#[test]
fn table_of_names_holds_the_known_link_types() {
    let table = get_datalink_types();
    assert_eq!(table.get(&String::from("NULL")), Some(DataLink { code: 0 }));
    assert_eq!(table.get(&String::from("ETHERNET")), Some(DataLink { code: 1 }));
    assert_eq!(table.get(&String::from("RAW")), Some(DataLink { code: LINKTYPE_RAW }));
    assert_eq!(table.get(&String::from("USER0")), Some(DataLink { code: LINKTYPE_USER0 }));
    assert_eq!(table.get(&String::from("USER15")), Some(DataLink { code: LINKTYPE_USER15 }));
    assert_eq!(
        table.get(&String::from("RTAC_SERIAL")),
        Some(DataLink { code: LINKTYPE_RTAC_SERIAL })
    );
    assert_eq!(table.get(&String::from("Unknown(11)")), None);
    assert_eq!(table.get(&String::from("ethernet")), None);
    assert_eq!(table.get(&String::from("")), None);
    assert_eq!(MAX_DATALINK_TYPES, 512);
}

#[test]
fn table_insert_replaces_and_get_finds() {
    let mut table = DatalinkTable::new();
    assert_eq!(table.get(&String::from("A")), None);
    table.insert(String::from("A"), DataLink { code: 1 });
    table.insert(String::from("B"), DataLink { code: 2 });
    assert_eq!(table.get(&String::from("A")), Some(DataLink { code: 1 }));
    assert_eq!(table.get(&String::from("B")), Some(DataLink { code: 2 }));
    table.insert(String::from("A"), DataLink { code: 3 });
    assert_eq!(table.get(&String::from("A")), Some(DataLink { code: 3 }));
    assert_eq!(table.get(&String::from("B")), Some(DataLink { code: 2 }));
    assert_eq!(table.get(&String::from("C")), None);
}

#[test]
fn names_are_parsed_whatever_their_case() {
    assert_eq!(parse_datalink("USER0"), Ok(DataLink { code: 147 }));
    assert_eq!(parse_datalink("user0"), Ok(DataLink { code: 147 }));
    assert_eq!(parse_datalink("Rtac_Serial"), Ok(DataLink { code: 250 }));
    assert_eq!(parse_datalink("ethernet"), Ok(DataLink { code: 1 }));
}

#[test]
fn unknown_names_are_errors_that_quote_the_input() {
    assert_eq!(parse_datalink("nope"), Err(String::from("Unknown datalink type: nope")));
    assert_eq!(parse_datalink(""), Err(String::from("Unknown datalink type: ")));
    assert_eq!(
        parse_datalink("Unknown(300)"),
        Err(String::from("Unknown datalink type: Unknown(300)"))
    );
}

#[test]
fn lookup_goes_by_the_upper_case_form() {
    let mut table = DatalinkTable::new();
    table.insert(String::from("MINE"), DataLink { code: 9 });
    table.insert(String::from("lower"), DataLink { code: 10 });
    assert_eq!(lookup_datalink(&table, "mine"), Ok(DataLink { code: 9 }));
    assert_eq!(lookup_datalink(&table, "MINE"), Ok(DataLink { code: 9 }));
    assert_eq!(
        lookup_datalink(&table, "lower"),
        Err(String::from("Unknown datalink type: lower"))
    );
}
