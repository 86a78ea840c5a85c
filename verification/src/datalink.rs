use vstd::prelude::*;
use crate::portinfo::PortControlLines;
use crate::state::{subsec_micros, whole_seconds, SerialEvent, MICROS_PER_SECOND};

verus! {

/// Link-type codes below this bound are given a name in the table of names.
pub const MAX_DATALINK_TYPES: u32 = 512;

/// Link-type code of raw payloads.
pub const LINKTYPE_RAW: u32 = 101;

/// Link-type code of the first of the sixteen user-defined types.
pub const LINKTYPE_USER0: u32 = 147;

/// Link-type code of the last of the sixteen user-defined types.
pub const LINKTYPE_USER15: u32 = 162;

/// Link-type code of structured serial frames.
pub const LINKTYPE_RTAC_SERIAL: u32 = 250;

/// A link type of a packet-capture container, held by its numeric code: the
/// tag in the container's header that tells a reader how to take the payload.
#[derive(Debug, Clone, Copy, PartialEq, Eq, Structural)]
pub struct DataLink {
    /// The link-type code.
    pub code: u32,
}

/// The byte layouts in which an event can be handed to the container.
#[derive(Debug, Clone, Copy, PartialEq, Eq, Structural)]
pub enum EncapsulationFormat {
    /// The payload unchanged.
    Raw,
    /// A twelve-byte header with time and control lines, then the payload.
    StructuredSerial,
}

/// The layout that goes with a link type: raw for the raw and the sixteen
/// user-defined types, structured for the structured serial type, and none for
/// any other.
pub open spec fn format_of(datalink: DataLink) -> Option<EncapsulationFormat> {
    if datalink.code == LINKTYPE_RAW || LINKTYPE_USER0 <= datalink.code <= LINKTYPE_USER15 {
        Some(EncapsulationFormat::Raw)
    } else if datalink.code == LINKTYPE_RTAC_SERIAL {
        Some(EncapsulationFormat::StructuredSerial)
    } else {
        None
    }
}

/// What `pcap_file` makes of a link-type code: whether `DataLink::from` knows
/// the code (gives a variant other than `Unknown`), and the text that the
/// `Debug` form of that value prints.
pub uninterp spec fn datalink_label(code: u32) -> (bool, Seq<char>);

/// The upper-case form of a text, as `str::to_uppercase` gives it.
pub uninterp spec fn uppercase(text: Seq<char>) -> Seq<char>;

/// Calls `pcap_file::DataLink::from` on the code and prints the value with its
/// derived `Debug`. Both depend on the code alone, so the result is the named
/// `datalink_label` of the code.
#[verifier::external_body]
fn describe_datalink(code: u32) -> (label: (bool, String))
    ensures
        label.0 == datalink_label(code).0,
        label.1@ == datalink_label(code).1,
{
    let link = pcap_file::DataLink::from(code);
    (!matches!(link, pcap_file::DataLink::Unknown(_)), format!("{:?}", link))
}

/// Calls `str::to_uppercase`, whose result depends on the text alone.
#[verifier::external_body]
fn to_uppercase(text: &str) -> (upper: String)
    ensures
        upper@ == uppercase(text@),
{
    text.to_uppercase()
}

impl DataLink {
    /// The layout that goes with this link type, if it has one.
    pub fn format(&self) -> (format: Option<EncapsulationFormat>)
        ensures
            format == format_of(*self),
    {
        if self.code == LINKTYPE_RAW || (LINKTYPE_USER0 <= self.code && self.code
            <= LINKTYPE_USER15) {
            Some(EncapsulationFormat::Raw)
        } else if self.code == LINKTYPE_RTAC_SERIAL {
            Some(EncapsulationFormat::StructuredSerial)
        } else {
            None
        }
    }
}

/// One line of the table of names.
#[derive(Debug, PartialEq, Eq)]
pub struct DatalinkEntry {
    /// The name of the link type.
    pub name: String,
    /// The link type.
    pub datalink: DataLink,
}

/// The map that a list of entries stands for: a later entry replaces an
/// earlier one of the same name.
pub open spec fn entries_map(entries: Seq<DatalinkEntry>) -> Map<Seq<char>, DataLink>
    decreases entries.len(),
{
    if entries.len() == 0 {
        Map::empty()
    } else {
        entries_map(entries.drop_last()).insert(entries.last().name@, entries.last().datalink)
    }
}

/// A name that no entry holds is not in the map of the entries.
pub proof fn lemma_entries_map_absent(entries: Seq<DatalinkEntry>, name: Seq<char>)
    requires
        forall|i: int| 0 <= i < entries.len() ==> (#[trigger] entries[i]).name@ != name,
    ensures
        !entries_map(entries).dom().contains(name),
    decreases entries.len(),
{
    if entries.len() > 0 {
        let earlier = entries.drop_last();
        assert forall|i: int| 0 <= i < earlier.len() implies (#[trigger] earlier[i]).name@
            != name by {
            assert(earlier[i] == entries[i]);
        }
        lemma_entries_map_absent(earlier, name);
        assert(entries.last() == entries[entries.len() - 1]);
    }
}

/// The map of the entries sends a name to the link type of the last entry
/// that holds it.
pub proof fn lemma_entries_map_last(entries: Seq<DatalinkEntry>, name: Seq<char>, at: int)
    requires
        0 <= at < entries.len(),
        entries[at].name@ == name,
        forall|i: int| at < i < entries.len() ==> (#[trigger] entries[i]).name@ != name,
    ensures
        entries_map(entries).dom().contains(name),
        entries_map(entries)[name] == entries[at].datalink,
    decreases entries.len(),
{
    let earlier = entries.drop_last();
    assert(entries.last() == entries[entries.len() - 1]);
    if at < entries.len() - 1 {
        assert(earlier[at] == entries[at]);
        assert forall|i: int| at < i < earlier.len() implies (#[trigger] earlier[i]).name@
            != name by {
            assert(earlier[i] == entries[i]);
        }
        lemma_entries_map_last(earlier, name, at);
    }
}

/// The names of the link types, each with its link type.
pub struct DatalinkTable {
    entries: Vec<DatalinkEntry>,
}

impl View for DatalinkTable {
    type V = Map<Seq<char>, DataLink>;

    closed spec fn view(&self) -> Map<Seq<char>, DataLink> {
        entries_map(self.entries@)
    }
}

impl DatalinkTable {
    /// A table without names.
    pub fn new() -> (table: Self)
        ensures
            table@ == Map::<Seq<char>, DataLink>::empty(),
    {
        DatalinkTable { entries: Vec::new() }
    }

    /// Gives `name` the link type `datalink`, in place of any it had.
    pub fn insert(&mut self, name: String, datalink: DataLink)
        ensures
            final(self)@ == old(self)@.insert(name@, datalink),
    {
        let ghost before = self.entries@;
        self.entries.push(DatalinkEntry { name, datalink });
        assert(self.entries@.drop_last() == before);
    }

    /// The link type that goes by `name`, if there is one.
    pub fn get(&self, name: &String) -> (found: Option<DataLink>)
        ensures
            found == if self@.dom().contains(name@) {
                Some(self@[name@])
            } else {
                None
            },
    {
        let mut at: usize = self.entries.len();
        while at > 0
            invariant
                at <= self.entries@.len(),
                forall|i: int| at <= i < self.entries@.len() ==> (#[trigger] self.entries@[i]).name@
                    != name@,
            decreases at,
        {
            at = at - 1;
            if self.entries[at].name == *name {
                proof {
                    lemma_entries_map_last(self.entries@, name@, at as int);
                }
                return Some(self.entries[at].datalink);
            }
        }
        proof {
            lemma_entries_map_absent(self.entries@, name@);
        }
        None
    }
}

/// The names of the link types with a code below `limit`, as `pcap_file`
/// knows them: each known code under the `Debug` text of its value.
pub open spec fn datalink_names(limit: nat) -> Map<Seq<char>, DataLink>
    decreases limit,
{
    if limit == 0 {
        Map::empty()
    } else {
        let code = (limit - 1) as u32;
        let earlier = datalink_names((limit - 1) as nat);
        if datalink_label(code).0 {
            earlier.insert(datalink_label(code).1, DataLink { code })
        } else {
            earlier
        }
    }
}

/// Builds the table of names: every link-type code below
/// `MAX_DATALINK_TYPES` that `pcap_file` knows, under its name.
pub fn get_datalink_types() -> (table: DatalinkTable)
    ensures
        table@ == datalink_names(MAX_DATALINK_TYPES as nat),
{
    let mut table = DatalinkTable::new();
    let mut code: u32 = 0;
    while code < MAX_DATALINK_TYPES
        invariant
            code <= MAX_DATALINK_TYPES,
            table@ == datalink_names(code as nat),
        decreases MAX_DATALINK_TYPES - code,
    {
        let label = describe_datalink(code);
        if label.0 {
            table.insert(label.1, DataLink { code });
        }
        code = code + 1;
    }
    table
}

/// The text of the error for a name that the table does not hold.
pub open spec fn unknown_datalink_message(datalink_str: Seq<char>) -> Seq<char> {
    "Unknown datalink type: "@ + datalink_str
}

/// Looks `datalink_str` up in `table` by its upper-case form.
pub fn lookup_datalink(table: &DatalinkTable, datalink_str: &str) -> (parsed: Result<
    DataLink,
    String,
>)
    ensures
        table@.dom().contains(uppercase(datalink_str@)) ==> parsed == Ok::<DataLink, String>(
            table@[uppercase(datalink_str@)],
        ),
        !table@.dom().contains(uppercase(datalink_str@)) ==> parsed is Err
            && parsed->Err_0@ == unknown_datalink_message(datalink_str@),
{
    let key = to_uppercase(datalink_str);
    match table.get(&key) {
        Some(datalink) => Ok(datalink),
        None => Err(unknown_datalink(datalink_str)),
    }
}

/// Parses the name of a link type, whatever its case, against the table of
/// names.
pub fn parse_datalink(datalink_str: &str) -> (parsed: Result<DataLink, String>)
    ensures
        datalink_names(MAX_DATALINK_TYPES as nat).dom().contains(uppercase(datalink_str@))
            ==> parsed == Ok::<DataLink, String>(
            datalink_names(MAX_DATALINK_TYPES as nat)[uppercase(datalink_str@)],
        ),
        !datalink_names(MAX_DATALINK_TYPES as nat).dom().contains(uppercase(datalink_str@))
            ==> parsed is Err && parsed->Err_0@ == unknown_datalink_message(datalink_str@),
{
    let table = get_datalink_types();
    lookup_datalink(&table, datalink_str)
}

/// Length of the fixed header that precedes the payload of a structured frame.
pub const RTAC_HEADER_LEN: usize = 12;

/// Event-type tag of a data event.
pub const RTAC_EVENT_DATA: u8 = 0x01;

/// The four bytes of `value`, least significant first.
pub open spec fn le_bytes(value: u32) -> Seq<u8> {
    seq![
        (value % 256) as u8,
        (value / 256 % 256) as u8,
        (value / 65536 % 256) as u8,
        (value / 16777216) as u8,
    ]
}

/// The number whose four bytes, least significant first, are `b0` to `b3`.
pub open spec fn le_value(b0: u8, b1: u8, b2: u8, b3: u8) -> u32 {
    (b0 + b1 * 256 + b2 * 65536 + b3 * 16777216) as u32
}

/// The seconds field of a structured header: whole seconds since the epoch,
/// kept to the 32 bits that the field holds.
pub open spec fn seconds_field(timestamp: i64) -> u32 {
    (whole_seconds(timestamp) % 0x1_0000_0000) as u32
}

/// The microseconds field of a structured header.
pub open spec fn micros_field(timestamp: i64) -> u32 {
    subsec_micros(timestamp) as u32
}

/// The value of one bit of the control-line byte: `weight` where the line is
/// high, nothing where it is low.
pub open spec fn bit_value(level: bool, weight: int) -> int {
    if level {
        weight
    } else {
        0
    }
}

/// The control-line byte of a structured header: bit 0 CTS, bit 1 CD,
/// bit 2 DSR, bit 3 RTS, bit 4 DTR, bit 5 RI; bits 6 and 7 are zero.
pub open spec fn line_bitmask(lines: PortControlLines) -> u8 {
    (bit_value(lines.cts, 1) + bit_value(lines.cd, 2) + bit_value(lines.dsr, 4) + bit_value(
        lines.rts,
        8,
    ) + bit_value(lines.dtr, 16) + bit_value(lines.ri, 32)) as u8
}

/// The control lines that a control-line byte stands for.
pub open spec fn lines_of_bitmask(mask: u8) -> PortControlLines {
    PortControlLines {
        cts: mask % 2 == 1,
        cd: mask / 2 % 2 == 1,
        dsr: mask / 4 % 2 == 1,
        rts: mask / 8 % 2 == 1,
        dtr: mask / 16 % 2 == 1,
        ri: mask / 32 % 2 == 1,
    }
}

/// The twelve header bytes of a structured frame.
pub open spec fn rtac_header(timestamp: i64, lines: PortControlLines) -> Seq<u8> {
    le_bytes(seconds_field(timestamp)) + le_bytes(micros_field(timestamp)) + seq![
        RTAC_EVENT_DATA,
        line_bitmask(lines),
        0u8,
        0u8,
    ]
}

/// A structured frame: the header, then the payload unchanged.
pub open spec fn rtac_frame(event: SerialEvent) -> Seq<u8> {
    rtac_header(event.timestamp, event.control_lines) + event.data@
}

/// Encodes the control lines as the bitmask byte of a structured header.
pub fn encode_lines(lines: &PortControlLines) -> (mask: u8)
    ensures
        mask == line_bitmask(*lines),
{
    let cts: u8 = if lines.cts { 0x01 } else { 0 };
    let cd: u8 = if lines.cd { 0x02 } else { 0 };
    let dsr: u8 = if lines.dsr { 0x04 } else { 0 };
    let rts: u8 = if lines.rts { 0x08 } else { 0 };
    let dtr: u8 = if lines.dtr { 0x10 } else { 0 };
    let ri: u8 = if lines.ri { 0x20 } else { 0 };
    let mask: u8 = cts | cd | dsr | rts | dtr | ri;
    assert(mask == cts + cd + dsr + rts + dtr + ri) by (bit_vector)
        requires
            mask == cts | cd | dsr | rts | dtr | ri,
            cts == 0x01 || cts == 0,
            cd == 0x02 || cd == 0,
            dsr == 0x04 || dsr == 0,
            rts == 0x08 || rts == 0,
            dtr == 0x10 || dtr == 0,
            ri == 0x20 || ri == 0,
    ;
    mask
}

/// Appends the four bytes of `value`, least significant first.
fn push_le_bytes(out: &mut Vec<u8>, value: u32)
    ensures
        final(out)@ == old(out)@ + le_bytes(value),
{
    out.push((value % 256) as u8);
    out.push((value / 256 % 256) as u8);
    out.push((value / 65536 % 256) as u8);
    out.push((value / 16777216) as u8);
}

/// The null encapsulation: the payload as it is.
pub fn raw_encapsulate(data: &[u8]) -> (out: Vec<u8>)
    ensures
        out@ == data@,
{
    let mut out: Vec<u8> = Vec::new();
    out.extend_from_slice(data);
    out
}

/// The structured encapsulation: a twelve-byte header that carries the time of
/// capture and the control lines, followed by the payload.
pub fn rtac_encapsulate(new_state: SerialEvent, _bus_name: &str) -> (out: Vec<u8>)
    ensures
        out@ == rtac_frame(new_state),
{
    let timestamp = new_state.timestamp;
    let seconds: i64 = timestamp.checked_div_euclid(MICROS_PER_SECOND).unwrap();
    let low_seconds: i64 = seconds.checked_rem_euclid(0x1_0000_0000).unwrap();
    let micros: i64 = timestamp.checked_rem_euclid(MICROS_PER_SECOND).unwrap();
    let mut out: Vec<u8> = Vec::new();
    push_le_bytes(&mut out, low_seconds as u32);
    push_le_bytes(&mut out, micros as u32);
    out.push(RTAC_EVENT_DATA);
    out.push(encode_lines(&new_state.control_lines));
    out.push(0x00);
    out.push(0x00);
    out.extend_from_slice(new_state.data.as_slice());
    out
}

/// The text of the error for a link type that has no layout.
pub open spec fn unsupported_datalink_message(datalink: DataLink) -> Seq<char> {
    "Unsupported datalink type: "@ + datalink_label(datalink.code).1
}

/// What `get_encapsulated_data` gives for an event and a link type.
pub open spec fn encapsulated(event: SerialEvent, datalink: DataLink) -> Result<
    Seq<u8>,
    Seq<char>,
> {
    match format_of(datalink) {
        Some(EncapsulationFormat::Raw) => Ok(event.data@),
        Some(EncapsulationFormat::StructuredSerial) => Ok(rtac_frame(event)),
        None => Err(unsupported_datalink_message(datalink)),
    }
}

/// The words of the error for a link type without a layout, from the text
/// that shows the link type.
pub fn unsupported_datalink(label: &str) -> (message: String)
    ensures
        message@ == "Unsupported datalink type: "@ + label@,
{
    String::from_str("Unsupported datalink type: ").concat(label)
}

/// The words of the error for a name that is not the name of a link type.
pub fn unknown_datalink(datalink_str: &str) -> (message: String)
    ensures
        message@ == unknown_datalink_message(datalink_str@),
{
    String::from_str("Unknown datalink type: ").concat(datalink_str)
}

/// Encodes the event in the layout that goes with the link type. A link type
/// without a layout is an error that names the link type.
pub fn get_encapsulated_data(new_state: SerialEvent, bus_name: &str, datalink: &DataLink) -> (out:
    Result<Vec<u8>, String>)
    ensures
        match encapsulated(new_state, *datalink) {
            Ok(bytes) => out is Ok && out->Ok_0@ == bytes,
            Err(message) => out is Err && out->Err_0@ == message,
        },
{
    match datalink.format() {
        Some(EncapsulationFormat::Raw) => Ok(raw_encapsulate(new_state.data.as_slice())),
        Some(EncapsulationFormat::StructuredSerial) => Ok(rtac_encapsulate(new_state, bus_name)),
        None => {
            let label = describe_datalink(datalink.code);
            Err(unsupported_datalink(label.1.as_str()))
        },
    }
}

/// The fixed header of a structured frame, as read back from its bytes.
#[derive(Debug, Clone, Copy, PartialEq, Eq, Structural)]
pub struct RtacHeader {
    /// Whole seconds since the epoch, to the 32 bits of the field.
    pub seconds: u32,
    /// Microsecond-of-second component.
    pub micros: u32,
    /// Event-type tag.
    pub event_type: u8,
    /// The control lines that the bitmask byte stands for.
    pub control_lines: PortControlLines,
}

/// What the first twelve bytes of `bytes` say, where they are a well-formed
/// header: at least twelve bytes, with the reserved bits and bytes zero.
pub open spec fn parsed_rtac_header(bytes: Seq<u8>) -> Option<RtacHeader> {
    if bytes.len() < 12 || bytes[9] >= 64 || bytes[10] != 0 || bytes[11] != 0 {
        None
    } else {
        Some(
            RtacHeader {
                seconds: le_value(bytes[0], bytes[1], bytes[2], bytes[3]),
                micros: le_value(bytes[4], bytes[5], bytes[6], bytes[7]),
                event_type: bytes[8],
                control_lines: lines_of_bitmask(bytes[9]),
            },
        )
    }
}

/// Reads a control-line byte back into the six lines.
pub fn decode_lines(mask: u8) -> (lines: PortControlLines)
    ensures
        lines == lines_of_bitmask(mask),
{
    assert((mask & 0x01 != 0) == (mask % 2 == 1) && (mask & 0x02 != 0) == (mask / 2 % 2 == 1) && (
    mask & 0x04 != 0) == (mask / 4 % 2 == 1) && (mask & 0x08 != 0) == (mask / 8 % 2 == 1) && (mask
        & 0x10 != 0) == (mask / 16 % 2 == 1) && (mask & 0x20 != 0) == (mask / 32 % 2 == 1))
        by (bit_vector);
    PortControlLines {
        cts: mask & 0x01 != 0,
        cd: mask & 0x02 != 0,
        dsr: mask & 0x04 != 0,
        rts: mask & 0x08 != 0,
        dtr: mask & 0x10 != 0,
        ri: mask & 0x20 != 0,
    }
}

/// Reads four bytes, least significant first, as one number.
fn read_le_value(b0: u8, b1: u8, b2: u8, b3: u8) -> (value: u32)
    ensures
        value == le_value(b0, b1, b2, b3),
{
    let low: u32 = b0 as u32 + b1 as u32 * 256 + b2 as u32 * 65536;
    low + b3 as u32 * 16777216
}

/// Parses the fixed header of a structured frame. `None` where fewer than
/// twelve bytes are given or a reserved bit or byte is set.
pub fn parse_rtac_header(bytes: &[u8]) -> (header: Option<RtacHeader>)
    ensures
        header == parsed_rtac_header(bytes@),
{
    if bytes.len() < RTAC_HEADER_LEN {
        return None;
    }
    let mask = bytes[9];
    assert((mask & 0xC0 != 0) == (mask >= 64)) by (bit_vector);
    if mask & 0xC0 != 0 || bytes[10] != 0 || bytes[11] != 0 {
        return None;
    }
    Some(
        RtacHeader {
            seconds: read_le_value(bytes[0], bytes[1], bytes[2], bytes[3]),
            micros: read_le_value(bytes[4], bytes[5], bytes[6], bytes[7]),
            event_type: bytes[8],
            control_lines: decode_lines(bytes[9]),
        },
    )
}

/// Four bytes written least significant first read back as the same number.
pub proof fn lemma_le_bytes_round_trip(value: u32)
    ensures
        le_bytes(value).len() == 4,
        le_value(le_bytes(value)[0], le_bytes(value)[1], le_bytes(value)[2], le_bytes(value)[3])
            == value,
{
}

/// A control-line byte reads back as the lines it was made from, and its two
/// reserved bits are zero.
pub proof fn lemma_bitmask_round_trip(lines: PortControlLines)
    ensures
        lines_of_bitmask(line_bitmask(lines)) == lines,
        line_bitmask(lines) < 64,
{
}

/// Encoding an event in the structured format and parsing the first twelve
/// bytes again gives back the whole seconds (to 32 bits), the microsecond of
/// the second, the data event tag and the six control lines of the event.
/// The seconds come back exactly from the epoch on and as long as 32 bits
/// hold them; the microseconds always do.
pub proof fn lemma_rtac_round_trip(event: SerialEvent)
    ensures
        0 <= whole_seconds(event.timestamp) < 0x1_0000_0000 ==> seconds_field(event.timestamp)
            == whole_seconds(event.timestamp),
        micros_field(event.timestamp) == subsec_micros(event.timestamp),
        0 <= subsec_micros(event.timestamp) < MICROS_PER_SECOND,
        parsed_rtac_header(rtac_frame(event)) == Some(
            RtacHeader {
                seconds: seconds_field(event.timestamp),
                micros: micros_field(event.timestamp),
                event_type: RTAC_EVENT_DATA,
                control_lines: event.control_lines,
            },
        ),
        rtac_frame(event).skip(12) == event.data@,
{
    lemma_le_bytes_round_trip(seconds_field(event.timestamp));
    lemma_le_bytes_round_trip(micros_field(event.timestamp));
    lemma_bitmask_round_trip(event.control_lines);
    let frame = rtac_frame(event);
    assert(frame.len() >= 12);
    assert(frame.skip(12) =~= event.data@);
}

} // verus!
