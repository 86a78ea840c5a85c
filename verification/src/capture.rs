use vstd::prelude::*;
use crate::datalink::{encapsulated, get_encapsulated_data, DataLink};
use crate::framing::{full_frames, payloads, remainder, FrameAssembler};
use crate::portinfo::PortControlLines;
use crate::state::{clock_micros, SerialEvent};

verus! {

/// The largest number of payload bytes in one frame.
pub const MAX_PACKET_SIZE: usize = 1024;

/// Represents the encapsulation mode used for the captured data.
#[derive(Debug, Clone, Copy, PartialEq, Eq, Structural)]
pub enum EncapsulationMode {
    /// The payload goes out unchanged, whatever the link type.
    Raw,
    /// The payload goes out in the layout of the link type.
    DatalinkType,
}

/// Parity checking of the serial line.
#[derive(Debug, Clone, Copy, PartialEq, Eq, Structural)]
pub enum Parity {
    /// No parity bit.
    Off,
    /// Odd parity.
    Odd,
    /// Even parity.
    Even,
}

/// Number of stop bits of the serial line.
#[derive(Debug, Clone, Copy, PartialEq, Eq, Structural)]
pub enum StopBits {
    /// One stop bit.
    One,
    /// Two stop bits.
    Two,
}

/// The parity that a flag stands for: `'o'` is odd, `'e'` is even, and any
/// other character is none.
pub open spec fn parity_of(flag: char) -> Parity {
    if flag == 'o' {
        Parity::Odd
    } else if flag == 'e' {
        Parity::Even
    } else {
        Parity::Off
    }
}

/// The stop bits that a count stands for: two for 2, and one for any other.
pub open spec fn stop_bits_of(count: u8) -> StopBits {
    if count == 2 {
        StopBits::Two
    } else {
        StopBits::One
    }
}

/// The settings of the serial line.
#[derive(Debug, Clone, Copy, PartialEq, Eq, Structural)]
pub struct LineSettings {
    /// The communication speed in bits per second.
    pub baud_rate: u32,
    /// Parity checking.
    pub parity: Parity,
    /// Number of stop bits.
    pub stop_bits: StopBits,
    /// Time gap between frames in milliseconds: the time for which the line
    /// must stay idle for a frame to end, and the longest wait of one read.
    pub frame_gap_ms: u64,
}

/// How one read of the port ended.
#[derive(Debug, PartialEq, Eq)]
pub enum ReadOutcome {
    /// Bytes came in.
    Bytes(Vec<u8>),
    /// Nothing came within the inter-frame gap.
    TimedOut,
    /// The read failed for another reason, given in words.
    Failed(String),
}

impl ReadOutcome {
    /// The outcome of a read that gave `bytes`. A read that gave no byte at
    /// all stands for the end of the stream and counts as an idle gap, so
    /// that what waits goes out.
    pub fn from_read(bytes: Vec<u8>) -> (outcome: ReadOutcome)
        ensures
            outcome == (if bytes@.len() == 0 {
                ReadOutcome::TimedOut
            } else {
                ReadOutcome::Bytes(bytes)
            }),
    {
        if bytes.is_empty() {
            ReadOutcome::TimedOut
        } else {
            ReadOutcome::Bytes(bytes)
        }
    }
}

/// What follows from one read of the port.
#[derive(Debug, PartialEq, Eq)]
pub enum FrameAction {
    /// These frames are closed, in order; there may be none. Read on.
    Frames(Vec<Vec<u8>>),
    /// The line fell idle with nothing waiting: no frame is closed. The
    /// control lines may still have changed, so an event without bytes, with
    /// the lines as they stand, is due to the session; it goes out only where
    /// the lines differ from those of the last packet. Then read on.
    Idle,
    /// The capture is over, for the reason given. The frames are what was
    /// waiting when the read failed, closed as a last frame; they go out
    /// before the failure is handed on.
    Abort(Vec<Vec<u8>>, String),
}

impl FrameAction {
    /// The frames that this action hands out, in order.
    pub open spec fn frames(self) -> Seq<Vec<u8>> {
        match self {
            FrameAction::Frames(frames) => frames@,
            FrameAction::Idle => Seq::empty(),
            FrameAction::Abort(frames, _) => frames@,
        }
    }
}

/// The frames that close what waits: one frame with those bytes, or none
/// where nothing waits.
pub open spec fn closing_frames(pending: Seq<u8>) -> Seq<Seq<u8>> {
    if pending.len() > 0 {
        seq![pending]
    } else {
        Seq::empty()
    }
}

/// A packet for the container.
#[derive(Debug, PartialEq, Eq)]
pub struct CapturedPacket {
    /// Microseconds since the capture began.
    pub timestamp_micros: u64,
    /// The bytes of the packet.
    pub data: Vec<u8>,
}

/// The later of two times.
pub open spec fn later(a: i64, b: i64) -> i64 {
    if a >= b {
        a
    } else {
        b
    }
}

/// What becomes of one event of a session.
pub enum CaptureDecision {
    /// Nothing goes out: the event tells nothing new.
    Drop,
    /// A packet with these bytes goes out.
    Forward(Seq<u8>),
    /// Nothing goes out, and the capture fails with these words.
    Fail(Seq<char>),
}

/// What becomes of `event` in a session whose last packet had the control
/// lines `last_lines` and whose latest event had the time `last_timestamp`.
pub open spec fn capture_decision(
    event: SerialEvent,
    last_lines: PortControlLines,
    last_timestamp: i64,
    mode: EncapsulationMode,
    datalink: DataLink,
) -> CaptureDecision {
    if event.data@.len() == 0 && event.control_lines == last_lines {
        CaptureDecision::Drop
    } else {
        match mode {
            EncapsulationMode::Raw => CaptureDecision::Forward(event.data@),
            EncapsulationMode::DatalinkType => match encapsulated(
                SerialEvent { timestamp: later(event.timestamp, last_timestamp), ..event },
                datalink,
            ) {
                Ok(bytes) => CaptureDecision::Forward(bytes),
                Err(message) => CaptureDecision::Fail(message),
            },
        }
    }
}

/// The rule of suppression. An event without bytes whose control lines are
/// those of the packet that went out last never goes out. An event without
/// bytes whose control lines differ goes out, and so does any event with
/// bytes, wherever the output has a layout: in raw mode, or with a link type
/// that has one.
pub proof fn lemma_suppression_rule(
    event: SerialEvent,
    last_lines: PortControlLines,
    last_timestamp: i64,
    mode: EncapsulationMode,
    datalink: DataLink,
)
    ensures
        event.data@.len() == 0 && event.control_lines == last_lines ==> capture_decision(
            event,
            last_lines,
            last_timestamp,
            mode,
            datalink,
        ) is Drop,
        (event.data@.len() > 0 || event.control_lines != last_lines) && (mode is Raw
            || crate::datalink::format_of(datalink) is Some) ==> capture_decision(
            event,
            last_lines,
            last_timestamp,
            mode,
            datalink,
        ) is Forward,
{
}

/// A packet that goes out is never more than the twelve bytes of a header
/// longer than the payload of its event.
pub proof fn lemma_packet_length(
    event: SerialEvent,
    last_lines: PortControlLines,
    last_timestamp: i64,
    mode: EncapsulationMode,
    datalink: DataLink,
)
    ensures
        match capture_decision(event, last_lines, last_timestamp, mode, datalink) {
            CaptureDecision::Forward(bytes) => event.data@.len() <= bytes.len()
                <= event.data@.len() + crate::datalink::RTAC_HEADER_LEN,
            _ => true,
        },
{
}

/// Represents a serial port capture session with configurable parameters:
/// the settings of the line, the link type and the encapsulation mode of the
/// output, and what the session has seen so far.
pub struct CaptureSerial {
    datalink: DataLink,
    settings: LineSettings,
    encap_mode: EncapsulationMode,
    assembler: FrameAssembler,
    zero_time: i64,
    last_timestamp: i64,
    last_lines: PortControlLines,
}

impl CaptureSerial {
    /// What holds of every session: its times never go back behind its
    /// beginning, and its frames hold `MAX_PACKET_SIZE` bytes at most.
    pub closed spec fn wf(self) -> bool {
        self.zero_time <= self.last_timestamp && self.assembler.limit() == MAX_PACKET_SIZE
    }

    /// The settings of the line.
    pub closed spec fn settings(self) -> LineSettings {
        self.settings
    }

    /// The link type of the output.
    pub closed spec fn link_type(self) -> DataLink {
        self.datalink
    }

    /// The encapsulation mode of the output.
    pub closed spec fn mode(self) -> EncapsulationMode {
        self.encap_mode
    }

    /// The bytes that wait for the end of their frame.
    pub closed spec fn pending(self) -> Seq<u8> {
        self.assembler.pending()
    }

    /// The time at which the capture began.
    pub closed spec fn zero_time(self) -> i64 {
        self.zero_time
    }

    /// The time of the latest event, or that of the beginning before any.
    /// Times within one session never go back.
    pub closed spec fn last_timestamp(self) -> i64 {
        self.last_timestamp
    }

    /// The control lines of the packet that went out last; all low before
    /// any.
    pub closed spec fn last_lines(self) -> PortControlLines {
        self.last_lines
    }

    /// A session that begins now.
    pub fn new(
        baud_rate: u32,
        parity: char,
        stopbits: u8,
        frame_gap_ms: u64,
        datalink: DataLink,
        encap_mode: EncapsulationMode,
    ) -> (session: Self)
        ensures
            session.wf(),
            session.settings() == (LineSettings {
                baud_rate,
                parity: parity_of(parity),
                stop_bits: stop_bits_of(stopbits),
                frame_gap_ms,
            }),
            session.link_type() == datalink,
            session.mode() == encap_mode,
            session.pending() == Seq::<u8>::empty(),
            session.last_timestamp() == session.zero_time(),
            session.last_lines() == PortControlLines::all_low(),
    {
        let now = clock_micros();
        CaptureSerial::starting_at(now, baud_rate, parity, stopbits, frame_gap_ms, datalink, encap_mode)
    }

    /// A session that begins at `zero_time`.
    pub fn starting_at(
        zero_time: i64,
        baud_rate: u32,
        parity: char,
        stopbits: u8,
        frame_gap_ms: u64,
        datalink: DataLink,
        encap_mode: EncapsulationMode,
    ) -> (session: Self)
        ensures
            session.wf(),
            session.settings() == (LineSettings {
                baud_rate,
                parity: parity_of(parity),
                stop_bits: stop_bits_of(stopbits),
                frame_gap_ms,
            }),
            session.link_type() == datalink,
            session.mode() == encap_mode,
            session.pending() == Seq::<u8>::empty(),
            session.zero_time() == zero_time,
            session.last_timestamp() == zero_time,
            session.last_lines() == PortControlLines::all_low(),
    {
        let parity = if parity == 'o' {
            Parity::Odd
        } else if parity == 'e' {
            Parity::Even
        } else {
            Parity::Off
        };
        let stop_bits = if stopbits == 2 {
            StopBits::Two
        } else {
            StopBits::One
        };
        let assembler = FrameAssembler::new(MAX_PACKET_SIZE).unwrap();
        CaptureSerial {
            datalink,
            settings: LineSettings { baud_rate, parity, stop_bits, frame_gap_ms },
            encap_mode,
            assembler,
            zero_time,
            last_timestamp: zero_time,
            last_lines: PortControlLines::new(),
        }
    }

    /// The settings of the line, for whoever opens the port.
    pub fn line_settings(&self) -> (settings: LineSettings)
        ensures
            settings == self.settings(),
    {
        self.settings
    }

    /// The link type of the output, for the header of the container.
    pub fn datalink(&self) -> (datalink: DataLink)
        ensures
            datalink == self.link_type(),
    {
        self.datalink
    }

    /// The encapsulation mode of the output.
    pub fn encap_mode(&self) -> (mode: EncapsulationMode)
        ensures
            mode == self.mode(),
    {
        self.encap_mode
    }

    /// The number of bytes that the next read may take at most: what still
    /// fits the frame under way. It is never zero.
    pub fn read_size(&self) -> (size: usize)
        requires
            self.wf(),
        ensures
            size == MAX_PACKET_SIZE - self.pending().len(),
            0 < size <= MAX_PACKET_SIZE,
    {
        self.assembler.room()
    }

    /// Closes the frame under way, if there is one.
    fn close_pending(&mut self) -> (frames: Vec<Vec<u8>>)
        requires
            old(self).wf(),
        ensures
            final(self).wf(),
            final(self).settings() == old(self).settings(),
            final(self).link_type() == old(self).link_type(),
            final(self).mode() == old(self).mode(),
            final(self).zero_time() == old(self).zero_time(),
            final(self).last_timestamp() == old(self).last_timestamp(),
            final(self).last_lines() == old(self).last_lines(),
            final(self).pending() == Seq::<u8>::empty(),
            payloads(frames@) == closing_frames(old(self).pending()),
            forall|i: int|
                0 <= i < frames@.len() ==> 0 < (#[trigger] frames@[i])@.len() < MAX_PACKET_SIZE,
    {
        let mut frames: Vec<Vec<u8>> = Vec::new();
        match self.assembler.on_timeout() {
            Some(frame) => {
                frames.push(frame);
            },
            None => {},
        }
        assert(payloads(frames@) == closing_frames(old(self).pending()));
        frames
    }

    /// Takes the outcome of one read of the port. Bytes go to the frame under
    /// way, and every frame that they fill is closed at once. A read that
    /// timed out closes the frame under way; where none is under way the
    /// line is idle, and no frame comes of it. Any other
    /// failure ends the capture: the frame under way is closed and handed out
    /// with the failure, so that no byte that was read is lost.
    pub fn capture_packet(&mut self, outcome: ReadOutcome) -> (action: FrameAction)
        requires
            old(self).wf(),
        ensures
            final(self).wf(),
            final(self).settings() == old(self).settings(),
            final(self).link_type() == old(self).link_type(),
            final(self).mode() == old(self).mode(),
            final(self).zero_time() == old(self).zero_time(),
            final(self).last_timestamp() == old(self).last_timestamp(),
            final(self).last_lines() == old(self).last_lines(),
            final(self).pending().len() < MAX_PACKET_SIZE,
            forall|i: int|
                0 <= i < action.frames().len() ==> 0 < (#[trigger] action.frames()[i])@.len()
                    <= MAX_PACKET_SIZE,
            match outcome {
                ReadOutcome::Bytes(bytes) => {
                    &&& action is Frames
                    &&& payloads(action->Frames_0@) == full_frames(
                        old(self).pending() + bytes@,
                        MAX_PACKET_SIZE as nat,
                    )
                    &&& final(self).pending() == remainder(
                        old(self).pending() + bytes@,
                        MAX_PACKET_SIZE as nat,
                    )
                },
                ReadOutcome::TimedOut => {
                    &&& old(self).pending().len() == 0 ==> action is Idle
                    &&& old(self).pending().len() > 0 ==> action is Frames && payloads(
                        action->Frames_0@,
                    ) == seq![old(self).pending()]
                    &&& final(self).pending() == Seq::<u8>::empty()
                },
                ReadOutcome::Failed(cause) => {
                    &&& action is Abort
                    &&& payloads(action->Abort_0@) == closing_frames(old(self).pending())
                    &&& action->Abort_1 == cause
                    &&& final(self).pending() == Seq::<u8>::empty()
                },
            },
    {
        match outcome {
            ReadOutcome::Bytes(bytes) => FrameAction::Frames(
                self.assembler.push_bytes(bytes.as_slice()),
            ),
            ReadOutcome::TimedOut => {
                let frames = self.close_pending();
                assert(payloads(frames@).len() == frames@.len());
                if frames.is_empty() {
                    FrameAction::Idle
                } else {
                    FrameAction::Frames(frames)
                }
            },
            ReadOutcome::Failed(cause) => FrameAction::Abort(self.close_pending(), cause),
        }
    }

    /// Takes one event of the session and decides what goes to the
    /// container. The time of the event is moved up to the time of the event
    /// before it where the clock went back. An event without bytes whose
    /// control lines are those of the packet that went out last is dropped.
    /// Any other event goes out, raw or in the layout of the link type as the
    /// mode says, stamped with the time since the capture began, and its
    /// control lines are remembered. A link type without a layout is an
    /// error, and nothing goes out.
    pub fn capture(&mut self, event: SerialEvent) -> (forwarded: Result<
        Option<CapturedPacket>,
        String,
    >)
        requires
            old(self).wf(),
        ensures
            final(self).wf(),
            final(self).settings() == old(self).settings(),
            final(self).link_type() == old(self).link_type(),
            final(self).mode() == old(self).mode(),
            final(self).pending() == old(self).pending(),
            final(self).zero_time() == old(self).zero_time(),
            final(self).last_timestamp() == later(event.timestamp, old(self).last_timestamp()),
            match capture_decision(
                event,
                old(self).last_lines(),
                old(self).last_timestamp(),
                old(self).mode(),
                old(self).link_type(),
            ) {
                CaptureDecision::Drop => {
                    &&& forwarded is Ok
                    &&& forwarded->Ok_0 is None
                    &&& final(self).last_lines() == old(self).last_lines()
                },
                CaptureDecision::Forward(bytes) => {
                    &&& forwarded is Ok
                    &&& forwarded->Ok_0 is Some
                    &&& forwarded->Ok_0->Some_0.data@ == bytes
                    &&& forwarded->Ok_0->Some_0.timestamp_micros == final(self).last_timestamp()
                        - old(self).zero_time()
                    &&& final(self).last_lines() == event.control_lines
                },
                CaptureDecision::Fail(message) => {
                    &&& forwarded is Err
                    &&& forwarded->Err_0@ == message
                    &&& final(self).last_lines() == old(self).last_lines()
                },
            },
    {
        let stamp = if event.timestamp >= self.last_timestamp {
            event.timestamp
        } else {
            self.last_timestamp
        };
        self.last_timestamp = stamp;
        if event.is_insignificant(&self.last_lines) {
            return Ok(None);
        }
        let lines = event.control_lines;
        let data = match self.encap_mode {
            EncapsulationMode::Raw => event.data,
            EncapsulationMode::DatalinkType => {
                let stamped = SerialEvent { timestamp: stamp, ..event };
                match get_encapsulated_data(stamped, "serial", &self.datalink) {
                    Ok(data) => data,
                    Err(message) => {
                        return Err(message);
                    },
                }
            },
        };
        self.last_lines = lines;
        let elapsed = stamp as i128 - self.zero_time as i128;
        Ok(Some(CapturedPacket { timestamp_micros: elapsed as u64, data }))
    }
}

} // verus!
