use vstd::prelude::*;

verus! {

/// Snapshot of the six modem control lines of a serial port. Every line is
/// always given: one that could not be read stands as low.
#[derive(Debug, Clone, Copy, PartialEq, Eq, Structural)]
pub struct PortControlLines {
    /// Data Set Ready
    pub dsr: bool,
    /// Clear To Send
    pub cts: bool,
    /// Carrier Detect
    pub cd: bool,
    /// Ring Indicator
    pub ri: bool,
    /// Data Terminal Ready
    pub dtr: bool,
    /// Request To Send
    pub rts: bool,
}

impl PortControlLines {
    /// The snapshot with every line low.
    pub open spec fn all_low() -> Self {
        PortControlLines { dsr: false, cts: false, cd: false, ri: false, dtr: false, rts: false }
    }

    /// A snapshot with every line low.
    pub fn new() -> (lines: Self)
        ensures
            lines == Self::all_low(),
    {
        PortControlLines { dsr: false, cts: false, cd: false, ri: false, dtr: false, rts: false }
    }
}

impl Default for PortControlLines {
    fn default() -> (lines: Self)
        ensures
            lines == Self::all_low(),
    {
        PortControlLines::new()
    }
}

/// The optional lines that one port supports, beyond what every UART has.
/// They are fixed when the port is made.
#[derive(Debug, Clone, Copy, PartialEq, Eq, Structural)]
pub struct CapabilityFlags {
    /// An output backs the ring indicator.
    pub can_set_ring_indicator: bool,
    /// An output backs the carrier detect.
    pub can_set_carrier_detect: bool,
    /// The hardware reports the level of DTR.
    pub can_read_data_terminal_ready: bool,
    /// The hardware reports the level of RTS.
    pub can_read_request_to_send: bool,
}

/// The kinds of failure of an operation on a port.
#[derive(Debug, Clone, Copy, PartialEq, Eq, Structural)]
pub enum PortErrorKind {
    /// A read or a write on the device failed.
    TransportIo,
    /// The level of the line is not known to the port.
    LineReadUnsupported,
    /// Nothing backs the output line.
    LineWriteUnsupported,
}

/// A failure of an operation on a port.
#[derive(Debug, PartialEq, Eq)]
pub struct PortError {
    /// What kind of failure it is.
    pub kind: PortErrorKind,
    /// The failure in words.
    pub description: String,
}

/// One output to drive on a port, and the level to give it.
#[derive(Debug, Clone, Copy, PartialEq, Eq, Structural)]
pub enum LineWrite {
    /// The DTR output of the UART.
    DataTerminalReady(bool),
    /// The RTS output of the UART.
    RequestToSend(bool),
    /// The auxiliary output that stands for the ring indicator.
    RingIndicator(bool),
    /// The auxiliary output that stands for the carrier detect.
    CarrierDetect(bool),
}

impl LineWrite {
    /// RTS and DTR are the primary lines: a failure to drive one is an error.
    /// A failure on the ring indicator or the carrier detect is passed over.
    pub open spec fn is_primary(self) -> bool {
        self is DataTerminalReady || self is RequestToSend
    }

    /// Tells the primary lines from the optional ones.
    pub fn primary(&self) -> (primary: bool)
        ensures
            primary == self.is_primary(),
    {
        match self {
            LineWrite::DataTerminalReady(_) => true,
            LineWrite::RequestToSend(_) => true,
            LineWrite::RingIndicator(_) => false,
            LineWrite::CarrierDetect(_) => false,
        }
    }
}

/// What the hardware said of the four input lines; none for a line that it
/// could not report.
#[derive(Debug, Clone, Copy, PartialEq, Eq, Structural)]
pub struct LineReadings {
    /// Data Set Ready
    pub dsr: Option<bool>,
    /// Clear To Send
    pub cts: Option<bool>,
    /// Carrier Detect
    pub cd: Option<bool>,
    /// Ring Indicator
    pub ri: Option<bool>,
}

/// The level that stands for a reading: low where there is none.
pub open spec fn level_or_low(reading: Option<bool>) -> bool {
    match reading {
        Some(level) => level,
        None => false,
    }
}

/// The level that stands for a reading: low where there is none.
pub fn reading_or_low(reading: Option<bool>) -> (level: bool)
    ensures
        level == level_or_low(reading),
{
    match reading {
        Some(level) => level,
        None => false,
    }
}

/// The words of the error for a write that failed: the cause itself for RTS
/// and DTR, and the name of the line for an auxiliary output.
pub open spec fn write_failure_text(write: LineWrite, cause: Seq<char>) -> Seq<char> {
    match write {
        LineWrite::DataTerminalReady(_) => cause,
        LineWrite::RequestToSend(_) => cause,
        LineWrite::RingIndicator(_) => "Failed to set Ring Indicator"@,
        LineWrite::CarrierDetect(_) => "Failed to set Carrier Detect"@,
    }
}

/// The error of a write that failed for the given cause.
fn write_error(write: LineWrite, cause: String) -> (error: PortError)
    ensures
        error.kind == PortErrorKind::TransportIo,
        error.description@ == write_failure_text(write, cause@),
{
    match write {
        LineWrite::DataTerminalReady(_) => PortError {
            kind: PortErrorKind::TransportIo,
            description: cause,
        },
        LineWrite::RequestToSend(_) => PortError {
            kind: PortErrorKind::TransportIo,
            description: cause,
        },
        LineWrite::RingIndicator(_) => port_error(
            PortErrorKind::TransportIo,
            "Failed to set Ring Indicator",
        ),
        LineWrite::CarrierDetect(_) => port_error(
            PortErrorKind::TransportIo,
            "Failed to set Carrier Detect",
        ),
    }
}

/// An error of the given kind with the given words.
fn port_error(kind: PortErrorKind, description: &str) -> (error: PortError)
    ensures
        error.kind == kind,
        error.description@ == description@,
{
    PortError { kind, description: String::from_str(description) }
}

/// A port that keeps track of more than a plain UART can tell: which optional
/// outputs it has, and the levels last commanded on RTS and DTR, which no UART
/// reads back. The port itself is driven elsewhere; an implementation holds
/// what is known of it and decides what each operation comes to.
pub trait AdvancedSerialPort: Send + Sync {
    /// The optional lines of this port.
    spec fn capabilities(&self) -> CapabilityFlags;

    /// The level last driven on RTS, where one was driven.
    spec fn commanded_rts(&self) -> Option<bool>;

    /// The level last driven on DTR, where one was driven.
    spec fn commanded_dtr(&self) -> Option<bool>;

    /// The level of RTS: the one last driven, or an error where none was.
    fn read_request_to_send(&self) -> (level: Result<bool, PortError>)
        ensures
            self.commanded_rts() is Some ==> level == Ok::<bool, PortError>(
                self.commanded_rts()->Some_0,
            ),
            self.commanded_rts() is None ==> level is Err && level->Err_0.kind
                == PortErrorKind::LineReadUnsupported && level->Err_0.description@
                == "Unknown value in Request To Send"@,
    ;

    /// The level of DTR: the one last driven, or an error where none was.
    fn read_data_terminal_ready(&self) -> (level: Result<bool, PortError>)
        ensures
            self.commanded_dtr() is Some ==> level == Ok::<bool, PortError>(
                self.commanded_dtr()->Some_0,
            ),
            self.commanded_dtr() is None ==> level is Err && level->Err_0.kind
                == PortErrorKind::LineReadUnsupported && level->Err_0.description@
                == "Unknown value in Data Terminal Ready"@,
    ;

    /// Whether an output backs the ring indicator.
    fn can_set_ring_indicator(&self) -> (can: bool)
        ensures
            can == self.capabilities().can_set_ring_indicator,
    ;

    /// Whether an output backs the carrier detect.
    fn can_set_carrier_detect(&self) -> (can: bool)
        ensures
            can == self.capabilities().can_set_carrier_detect,
    ;

    /// Whether the hardware reports the level of DTR.
    fn can_read_data_terminal_ready(&self) -> (can: bool)
        ensures
            can == self.capabilities().can_read_data_terminal_ready,
    ;

    /// Whether the hardware reports the level of RTS.
    fn can_read_request_to_send(&self) -> (can: bool)
        ensures
            can == self.capabilities().can_read_request_to_send,
    ;

    /// The write that sets the ring indicator to `level`, or an error where
    /// no output backs that line.
    fn set_ring_indicator(&self, level: bool) -> (write: Result<LineWrite, PortError>)
        ensures
            self.capabilities().can_set_ring_indicator ==> write == Ok::<LineWrite, PortError>(
                LineWrite::RingIndicator(level),
            ),
            !self.capabilities().can_set_ring_indicator ==> write is Err && write->Err_0.kind
                == PortErrorKind::LineWriteUnsupported && write->Err_0.description@
                == "Ring Indicator output not supported"@,
    ;

    /// The write that sets the carrier detect to `level`, or an error where
    /// no output backs that line.
    fn set_carrier_detect(&self, level: bool) -> (write: Result<LineWrite, PortError>)
        ensures
            self.capabilities().can_set_carrier_detect ==> write == Ok::<LineWrite, PortError>(
                LineWrite::CarrierDetect(level),
            ),
            !self.capabilities().can_set_carrier_detect ==> write is Err && write->Err_0.kind
                == PortErrorKind::LineWriteUnsupported && write->Err_0.description@
                == "Carrier Detect output not supported"@,
    ;

    /// Takes note of a write of `level` to RTS and of how it went: the level
    /// is remembered where the write went through, and a failed write is an
    /// error that holds the cause and changes nothing.
    fn write_request_to_send(&mut self, level: bool, outcome: Result<(), String>) -> (done: Result<
        (),
        PortError,
    >)
        ensures
            final(self).capabilities() == old(self).capabilities(),
            final(self).commanded_dtr() == old(self).commanded_dtr(),
            outcome is Ok ==> done is Ok && final(self).commanded_rts() == Some(level),
            outcome is Err ==> done is Err && done->Err_0.kind == PortErrorKind::TransportIo
                && done->Err_0.description@ == outcome->Err_0@ && final(self).commanded_rts()
                == old(self).commanded_rts(),
    ;

    /// Takes note of a write of `level` to DTR and of how it went: the level
    /// is remembered where the write went through, and a failed write is an
    /// error that holds the cause and changes nothing.
    fn write_data_terminal_ready(&mut self, level: bool, outcome: Result<(), String>) -> (done:
        Result<(), PortError>)
        ensures
            final(self).capabilities() == old(self).capabilities(),
            final(self).commanded_rts() == old(self).commanded_rts(),
            outcome is Ok ==> done is Ok && final(self).commanded_dtr() == Some(level),
            outcome is Err ==> done is Err && done->Err_0.kind == PortErrorKind::TransportIo
                && done->Err_0.description@ == outcome->Err_0@ && final(self).commanded_dtr()
                == old(self).commanded_dtr(),
    ;

    /// Takes note of how a write went, whichever line it was for. A write to
    /// RTS or DTR that went through is remembered. A failed write is an error
    /// that changes nothing: it holds the cause for RTS and DTR, and names the
    /// line for an auxiliary output.
    fn complete_write(&mut self, write: LineWrite, outcome: Result<(), String>) -> (done: Result<
        (),
        PortError,
    >)
        ensures
            final(self).capabilities() == old(self).capabilities(),
            final(self).commanded_rts() == (if outcome is Ok && write is RequestToSend {
                Some(write->RequestToSend_0)
            } else {
                old(self).commanded_rts()
            }),
            final(self).commanded_dtr() == (if outcome is Ok && write is DataTerminalReady {
                Some(write->DataTerminalReady_0)
            } else {
                old(self).commanded_dtr()
            }),
            outcome is Ok ==> done is Ok,
            outcome is Err ==> done is Err && done->Err_0.kind == PortErrorKind::TransportIo
                && done->Err_0.description@ == write_failure_text(write, outcome->Err_0@),
    ;
}

/// A UART with up to two auxiliary outputs, one for the ring indicator and
/// one for the carrier detect, which the UART itself cannot drive. It
/// remembers the levels last driven on RTS and DTR, and answers reads of
/// those lines from memory.
#[derive(Debug, Clone, Copy)]
pub struct SerialPortWithGpios {
    ri_out_gpio: bool,
    cd_out_gpio: bool,
    last_set_rts: Option<bool>,
    last_set_dtr: Option<bool>,
}

/// The error of a failed write, in the words of the line and of the cause.
fn write_failure(prefix: &str, cause: &str) -> (error: PortError)
    ensures
        error.kind == PortErrorKind::TransportIo,
        error.description@ == prefix@ + cause@,
{
    PortError {
        kind: PortErrorKind::TransportIo,
        description: String::from_str(prefix).concat(cause),
    }
}

impl SerialPortWithGpios {
    /// A port with the given auxiliary outputs, on which no level was driven
    /// yet. Its capabilities are those outputs; it reads back neither RTS nor
    /// DTR from the hardware.
    pub fn new(ri_out_gpio: bool, cd_out_gpio: bool) -> (port: Self)
        ensures
            port.capabilities() == (CapabilityFlags {
                can_set_ring_indicator: ri_out_gpio,
                can_set_carrier_detect: cd_out_gpio,
                can_read_data_terminal_ready: false,
                can_read_request_to_send: false,
            }),
            port.commanded_rts() is None,
            port.commanded_dtr() is None,
    {
        SerialPortWithGpios { ri_out_gpio, cd_out_gpio, last_set_rts: None, last_set_dtr: None }
    }

    /// Takes note of a write of `level` to RTS. A write that went through is
    /// remembered; one that failed is an error that names the line and the
    /// cause, and changes nothing.
    pub fn write_request_to_send(&mut self, level: bool, outcome: Result<(), String>) -> (done:
        Result<(), PortError>)
        ensures
            final(self).capabilities() == old(self).capabilities(),
            final(self).commanded_dtr() == old(self).commanded_dtr(),
            outcome is Ok ==> done is Ok && final(self).commanded_rts() == Some(level),
            outcome is Err ==> final(self).commanded_rts() == old(self).commanded_rts()
                && done is Err && done->Err_0.kind == PortErrorKind::TransportIo
                && done->Err_0.description@ == "Failed to set Request To Send: "@
                + outcome->Err_0@,
    {
        match outcome {
            Ok(()) => {
                self.last_set_rts = Some(level);
                Ok(())
            },
            Err(cause) => Err(write_failure("Failed to set Request To Send: ", cause.as_str())),
        }
    }

    /// Takes note of a write of `level` to DTR. A write that went through is
    /// remembered; one that failed is an error that names the line and the
    /// cause, and changes nothing.
    pub fn write_data_terminal_ready(&mut self, level: bool, outcome: Result<(), String>) -> (done:
        Result<(), PortError>)
        ensures
            final(self).capabilities() == old(self).capabilities(),
            final(self).commanded_rts() == old(self).commanded_rts(),
            outcome is Ok ==> done is Ok && final(self).commanded_dtr() == Some(level),
            outcome is Err ==> final(self).commanded_dtr() == old(self).commanded_dtr()
                && done is Err && done->Err_0.kind == PortErrorKind::TransportIo
                && done->Err_0.description@ == "Failed to set Data Terminal Ready: "@
                + outcome->Err_0@,
    {
        match outcome {
            Ok(()) => {
                self.last_set_dtr = Some(level);
                Ok(())
            },
            Err(cause) => Err(write_failure("Failed to set Data Terminal Ready: ", cause.as_str())),
        }
    }
}

impl AdvancedSerialPort for SerialPortWithGpios {
    closed spec fn capabilities(&self) -> CapabilityFlags {
        CapabilityFlags {
            can_set_ring_indicator: self.ri_out_gpio,
            can_set_carrier_detect: self.cd_out_gpio,
            can_read_data_terminal_ready: false,
            can_read_request_to_send: false,
        }
    }

    closed spec fn commanded_rts(&self) -> Option<bool> {
        self.last_set_rts
    }

    closed spec fn commanded_dtr(&self) -> Option<bool> {
        self.last_set_dtr
    }

    fn read_request_to_send(&self) -> (level: Result<bool, PortError>) {
        match self.last_set_rts {
            Some(level) => Ok(level),
            None => Err(
                port_error(PortErrorKind::LineReadUnsupported, "Unknown value in Request To Send"),
            ),
        }
    }

    fn read_data_terminal_ready(&self) -> (level: Result<bool, PortError>) {
        match self.last_set_dtr {
            Some(level) => Ok(level),
            None => Err(
                port_error(
                    PortErrorKind::LineReadUnsupported,
                    "Unknown value in Data Terminal Ready",
                ),
            ),
        }
    }

    fn can_set_ring_indicator(&self) -> (can: bool) {
        self.ri_out_gpio
    }

    fn can_set_carrier_detect(&self) -> (can: bool) {
        self.cd_out_gpio
    }

    fn can_read_data_terminal_ready(&self) -> (can: bool) {
        false
    }

    fn can_read_request_to_send(&self) -> (can: bool) {
        false
    }

    fn set_ring_indicator(&self, level: bool) -> (write: Result<LineWrite, PortError>) {
        if self.ri_out_gpio {
            Ok(LineWrite::RingIndicator(level))
        } else {
            Err(
                port_error(
                    PortErrorKind::LineWriteUnsupported,
                    "Ring Indicator output not supported",
                ),
            )
        }
    }

    fn set_carrier_detect(&self, level: bool) -> (write: Result<LineWrite, PortError>) {
        if self.cd_out_gpio {
            Ok(LineWrite::CarrierDetect(level))
        } else {
            Err(
                port_error(
                    PortErrorKind::LineWriteUnsupported,
                    "Carrier Detect output not supported",
                ),
            )
        }
    }

    fn write_request_to_send(&mut self, level: bool, outcome: Result<(), String>) -> (done: Result<
        (),
        PortError,
    >) {
        self.complete_write(LineWrite::RequestToSend(level), outcome)
    }

    fn write_data_terminal_ready(&mut self, level: bool, outcome: Result<(), String>) -> (done:
        Result<(), PortError>) {
        self.complete_write(LineWrite::DataTerminalReady(level), outcome)
    }

    fn complete_write(&mut self, write: LineWrite, outcome: Result<(), String>) -> (done: Result<
        (),
        PortError,
    >) {
        match outcome {
            Ok(()) => {
                match write {
                    LineWrite::RequestToSend(level) => {
                        self.last_set_rts = Some(level);
                    },
                    LineWrite::DataTerminalReady(level) => {
                        self.last_set_dtr = Some(level);
                    },
                    _ => {},
                }
                Ok(())
            },
            Err(cause) => Err(write_error(write, cause)),
        }
    }
}

/// A port of either kind: a plain UART, of which nothing is kept, or one that
/// keeps track of more.
pub enum AnySerialPort {
    /// A plain UART. It has none of the optional lines, and the levels of RTS
    /// and DTR are never known.
    Basic,
    /// A port that keeps track of its optional lines and of RTS and DTR.
    Advanced(Box<dyn AdvancedSerialPort>),
}

/// The writes that reflect a source snapshot onto a port with the given
/// optional lines, in the order in which they are made: DTR, then RTS, each
/// at the level of the same line of the source; then the ring indicator and
/// the carrier detect, each only where an output backs it.
pub open spec fn reflection_writes(source: PortControlLines, flags: CapabilityFlags) -> Seq<
    LineWrite,
> {
    seq![LineWrite::DataTerminalReady(source.dtr), LineWrite::RequestToSend(source.rts)] + (
    if flags.can_set_ring_indicator {
        seq![LineWrite::RingIndicator(source.ri)]
    } else {
        Seq::empty()
    }) + (if flags.can_set_carrier_detect {
        seq![LineWrite::CarrierDetect(source.cd)]
    } else {
        Seq::empty()
    })
}

/// The lines that the far end of a port sees once a write went through. The
/// two ends are wired crosswise: what this end drives on RTS is CTS at the
/// far end, and what it drives on DTR is DSR there.
pub open spec fn lines_after_write(seen: PortControlLines, write: LineWrite) -> PortControlLines {
    match write {
        LineWrite::DataTerminalReady(level) => PortControlLines { dsr: level, ..seen },
        LineWrite::RequestToSend(level) => PortControlLines { cts: level, ..seen },
        LineWrite::RingIndicator(level) => PortControlLines { ri: level, ..seen },
        LineWrite::CarrierDetect(level) => PortControlLines { cd: level, ..seen },
    }
}

/// The lines that the far end of a port sees once all of `writes` went
/// through, in order.
pub open spec fn lines_after_writes(seen: PortControlLines, writes: Seq<LineWrite>) -> PortControlLines
    decreases writes.len(),
{
    if writes.len() == 0 {
        seen
    } else {
        lines_after_write(lines_after_writes(seen, writes.drop_last()), writes.last())
    }
}

/// The lines at the far end of the destination after a reflection in which
/// every write went through: CTS is the RTS of the source and DSR its DTR; the
/// ring indicator and the carrier detect are those of the source where an
/// output backs them, and stay as they were where none does.
pub open spec fn reflected_lines(
    source: PortControlLines,
    seen: PortControlLines,
    flags: CapabilityFlags,
) -> PortControlLines {
    PortControlLines {
        cts: source.rts,
        dsr: source.dtr,
        ri: if flags.can_set_ring_indicator {
            source.ri
        } else {
            seen.ri
        },
        cd: if flags.can_set_carrier_detect {
            source.cd
        } else {
            seen.cd
        },
        dtr: seen.dtr,
        rts: seen.rts,
    }
}

/// The default wiring of a reflection: the writes that it makes bring the far
/// end of the destination to `reflected_lines`. The ring indicator and the
/// carrier detect change only where the destination has an output for them.
pub proof fn lemma_reflection_default_wiring(
    source: PortControlLines,
    seen: PortControlLines,
    flags: CapabilityFlags,
)
    ensures
        lines_after_writes(seen, reflection_writes(source, flags)) == reflected_lines(
            source,
            seen,
            flags,
        ),
        reflected_lines(source, seen, flags).cts == source.rts,
        reflected_lines(source, seen, flags).dsr == source.dtr,
        !flags.can_set_ring_indicator ==> reflected_lines(source, seen, flags).ri == seen.ri,
        !flags.can_set_carrier_detect ==> reflected_lines(source, seen, flags).cd == seen.cd,
{
    let dtr = LineWrite::DataTerminalReady(source.dtr);
    let rts = LineWrite::RequestToSend(source.rts);
    let ri = LineWrite::RingIndicator(source.ri);
    let cd = LineWrite::CarrierDetect(source.cd);
    let writes = reflection_writes(source, flags);
    let w0 = Seq::<LineWrite>::empty();
    let w1 = seq![dtr];
    let w2 = seq![dtr, rts];
    assert(lines_after_writes(seen, w0) == seen);
    assert(w1.drop_last() == w0);
    assert(w2.drop_last() == w1);
    assert(lines_after_writes(seen, w1) == lines_after_write(seen, dtr));
    assert(lines_after_writes(seen, w2) == lines_after_write(lines_after_write(seen, dtr), rts));
    if flags.can_set_ring_indicator {
        let w3 = seq![dtr, rts, ri];
        assert(w3.drop_last() == w2);
        assert(lines_after_writes(seen, w3) == lines_after_write(
            lines_after_writes(seen, w2),
            ri,
        ));
        if flags.can_set_carrier_detect {
            let w4 = seq![dtr, rts, ri, cd];
            assert(w4.drop_last() == w3);
            assert(writes == w4);
        } else {
            assert(writes == w3);
        }
    } else {
        if flags.can_set_carrier_detect {
            let w3 = seq![dtr, rts, cd];
            assert(w3.drop_last() == w2);
            assert(writes == w3);
        } else {
            assert(writes == w2);
        }
    }
}

/// A reflection under way: the writes to make, how many of them are behind,
/// and the failure of a primary write, where one failed.
pub struct Reflection {
    writes: Vec<LineWrite>,
    done: usize,
    failure: Option<PortError>,
}

impl Reflection {
    #[verifier::type_invariant]
    spec fn well_formed(self) -> bool {
        self.done <= self.writes@.len()
    }

    /// The writes of this reflection, in order.
    pub closed spec fn writes(self) -> Seq<LineWrite> {
        self.writes@
    }

    /// The number of writes that are behind.
    pub closed spec fn done(self) -> nat {
        self.done as nat
    }

    /// The failure of a primary write, where one failed.
    pub closed spec fn failure(self) -> Option<PortError> {
        self.failure
    }

    /// The write to make next; none once a primary write failed or all writes
    /// are behind.
    pub open spec fn pending(self) -> Option<LineWrite> {
        if self.failure() is None && self.done() < self.writes().len() {
            Some(self.writes()[self.done() as int])
        } else {
            None
        }
    }

    /// The write to make next, if any is left.
    pub fn next_write(&self) -> (write: Option<LineWrite>)
        ensures
            write == self.pending(),
            write is Some ==> self.done() < self.writes().len(),
    {
        proof {
            use_type_invariant(self);
        }
        if self.failure.is_none() && self.done < self.writes.len() {
            Some(self.writes[self.done])
        } else {
            None
        }
    }

    /// How the reflection ended: with the failure of a primary write, or well.
    pub fn finish(self) -> (result: Result<(), PortError>)
        ensures
            result == (match self.failure() {
                Some(error) => Err::<(), PortError>(error),
                None => Ok::<(), PortError>(()),
            }),
    {
        match self.failure {
            Some(error) => Err(error),
            None => Ok(()),
        }
    }
}

impl AnySerialPort {
    /// The optional lines of the port: none for a plain UART.
    pub open spec fn capabilities(&self) -> CapabilityFlags {
        match self {
            AnySerialPort::Basic => CapabilityFlags {
                can_set_ring_indicator: false,
                can_set_carrier_detect: false,
                can_read_data_terminal_ready: false,
                can_read_request_to_send: false,
            },
            AnySerialPort::Advanced(port) => port.capabilities(),
        }
    }

    /// The level last driven on RTS, where the port keeps it.
    pub open spec fn commanded_rts(&self) -> Option<bool> {
        match self {
            AnySerialPort::Basic => None,
            AnySerialPort::Advanced(port) => port.commanded_rts(),
        }
    }

    /// The level last driven on DTR, where the port keeps it.
    pub open spec fn commanded_dtr(&self) -> Option<bool> {
        match self {
            AnySerialPort::Basic => None,
            AnySerialPort::Advanced(port) => port.commanded_dtr(),
        }
    }

    /// The optional lines of the port.
    pub fn capability_flags(&self) -> (flags: CapabilityFlags)
        ensures
            flags == self.capabilities(),
    {
        match self {
            AnySerialPort::Basic => CapabilityFlags {
                can_set_ring_indicator: false,
                can_set_carrier_detect: false,
                can_read_data_terminal_ready: false,
                can_read_request_to_send: false,
            },
            AnySerialPort::Advanced(port) => CapabilityFlags {
                can_set_ring_indicator: port.can_set_ring_indicator(),
                can_set_carrier_detect: port.can_set_carrier_detect(),
                can_read_data_terminal_ready: port.can_read_data_terminal_ready(),
                can_read_request_to_send: port.can_read_request_to_send(),
            },
        }
    }

    /// The snapshot of the control lines, from what the hardware said of the
    /// four input lines and what the port knows of RTS and DTR. Each line is
    /// taken as well as it can be: one that is not known stands as low.
    pub fn capture_control_lines(&self, readings: &LineReadings) -> (lines: PortControlLines)
        ensures
            lines == (PortControlLines {
                dsr: level_or_low(readings.dsr),
                cts: level_or_low(readings.cts),
                cd: level_or_low(readings.cd),
                ri: level_or_low(readings.ri),
                dtr: level_or_low(self.commanded_dtr()),
                rts: level_or_low(self.commanded_rts()),
            }),
    {
        let (dtr, rts) = match self {
            AnySerialPort::Basic => (false, false),
            AnySerialPort::Advanced(port) => {
                let dtr = match port.read_data_terminal_ready() {
                    Ok(level) => level,
                    Err(_) => false,
                };
                let rts = match port.read_request_to_send() {
                    Ok(level) => level,
                    Err(_) => false,
                };
                (dtr, rts)
            },
        };
        PortControlLines {
            dsr: reading_or_low(readings.dsr),
            cts: reading_or_low(readings.cts),
            cd: reading_or_low(readings.cd),
            ri: reading_or_low(readings.ri),
            dtr,
            rts,
        }
    }

    /// Starts the reflection of a source snapshot onto this port: lays down
    /// the writes to make. None is behind yet.
    pub fn reflect_control_lines(&self, lines: &PortControlLines) -> (reflection: Reflection)
        ensures
            reflection.writes() == reflection_writes(*lines, self.capabilities()),
            reflection.done() == 0,
            reflection.failure() is None,
    {
        let flags = self.capability_flags();
        let mut writes: Vec<LineWrite> = Vec::new();
        writes.push(LineWrite::DataTerminalReady(lines.dtr));
        writes.push(LineWrite::RequestToSend(lines.rts));
        if flags.can_set_ring_indicator {
            writes.push(LineWrite::RingIndicator(lines.ri));
        }
        if flags.can_set_carrier_detect {
            writes.push(LineWrite::CarrierDetect(lines.cd));
        }
        assert(writes@ == reflection_writes(*lines, self.capabilities()));
        Reflection { writes, done: 0, failure: None }
    }

    /// The write that sets the ring indicator to `level`, or an error where
    /// no output backs that line, as on every plain UART.
    pub fn set_ring_indicator(&self, level: bool) -> (write: Result<LineWrite, PortError>)
        ensures
            self.capabilities().can_set_ring_indicator ==> write == Ok::<LineWrite, PortError>(
                LineWrite::RingIndicator(level),
            ),
            !self.capabilities().can_set_ring_indicator ==> write is Err && write->Err_0.kind
                == PortErrorKind::LineWriteUnsupported && write->Err_0.description@
                == "Ring Indicator output not supported"@,
    {
        match self {
            AnySerialPort::Basic => Err(
                port_error(
                    PortErrorKind::LineWriteUnsupported,
                    "Ring Indicator output not supported",
                ),
            ),
            AnySerialPort::Advanced(port) => port.set_ring_indicator(level),
        }
    }

    /// The write that sets the carrier detect to `level`, or an error where
    /// no output backs that line, as on every plain UART.
    pub fn set_carrier_detect(&self, level: bool) -> (write: Result<LineWrite, PortError>)
        ensures
            self.capabilities().can_set_carrier_detect ==> write == Ok::<LineWrite, PortError>(
                LineWrite::CarrierDetect(level),
            ),
            !self.capabilities().can_set_carrier_detect ==> write is Err && write->Err_0.kind
                == PortErrorKind::LineWriteUnsupported && write->Err_0.description@
                == "Carrier Detect output not supported"@,
    {
        match self {
            AnySerialPort::Basic => Err(
                port_error(
                    PortErrorKind::LineWriteUnsupported,
                    "Carrier Detect output not supported",
                ),
            ),
            AnySerialPort::Advanced(port) => port.set_carrier_detect(level),
        }
    }

    /// Takes note of how a write went, whichever line it was for. A write to
    /// RTS or DTR that went through is remembered by a port that keeps track.
    /// A failed write is an error that changes nothing: it holds the cause
    /// for RTS and DTR, and names the line for an auxiliary output.
    pub fn complete_write(&mut self, write: LineWrite, outcome: Result<(), String>) -> (done:
        Result<(), PortError>)
        ensures
            *final(self) is Basic <==> *old(self) is Basic,
            final(self).capabilities() == old(self).capabilities(),
            final(self).commanded_rts() == (if *old(self) is Advanced && outcome is Ok
                && write is RequestToSend {
                Some(write->RequestToSend_0)
            } else {
                old(self).commanded_rts()
            }),
            final(self).commanded_dtr() == (if *old(self) is Advanced && outcome is Ok
                && write is DataTerminalReady {
                Some(write->DataTerminalReady_0)
            } else {
                old(self).commanded_dtr()
            }),
            outcome is Ok ==> done is Ok,
            outcome is Err ==> done is Err && done->Err_0.kind == PortErrorKind::TransportIo
                && done->Err_0.description@ == write_failure_text(write, outcome->Err_0@),
    {
        match self {
            AnySerialPort::Basic => match outcome {
                Ok(()) => Ok(()),
                Err(cause) => Err(write_error(write, cause)),
            },
            AnySerialPort::Advanced(port) => port.complete_write(write, outcome),
        }
    }

    /// Takes note of how the pending write of a reflection went. A primary
    /// write that went through is remembered by a port that keeps track, and
    /// the reflection goes on; one that failed ends the reflection with an
    /// error that holds the cause. A write to an optional line is passed over
    /// however it went. Where no write is pending, nothing changes.
    pub fn record_write(&mut self, reflection: &mut Reflection, outcome: Result<(), String>)
        ensures
            *final(self) is Basic <==> *old(self) is Basic,
            final(self).capabilities() == old(self).capabilities(),
            final(reflection).writes() == old(reflection).writes(),
            old(reflection).pending() is None ==> {
                &&& final(reflection).done() == old(reflection).done()
                &&& final(reflection).failure() == old(reflection).failure()
                &&& final(self).commanded_rts() == old(self).commanded_rts()
                &&& final(self).commanded_dtr() == old(self).commanded_dtr()
            },
            old(reflection).pending() is Some ==> {
                let write = old(reflection).pending()->Some_0;
                let failed = write.is_primary() && outcome is Err;
                &&& final(reflection).done() == (if failed {
                    old(reflection).done()
                } else {
                    old(reflection).done() + 1
                })
                &&& failed ==> final(reflection).failure() is Some
                    && final(reflection).failure()->Some_0.kind == PortErrorKind::TransportIo
                    && final(reflection).failure()->Some_0.description@ == outcome->Err_0@
                &&& !failed ==> final(reflection).failure() is None
                &&& final(self).commanded_rts() == (if *old(self) is Advanced && outcome is Ok
                    && write is RequestToSend {
                    Some(write->RequestToSend_0)
                } else {
                    old(self).commanded_rts()
                })
                &&& final(self).commanded_dtr() == (if *old(self) is Advanced && outcome is Ok
                    && write is DataTerminalReady {
                    Some(write->DataTerminalReady_0)
                } else {
                    old(self).commanded_dtr()
                })
            },
    {
        proof {
            use_type_invariant(&*reflection);
        }
        let write = match reflection.next_write() {
            Some(write) => write,
            None => {
                return ;
            },
        };
        let primary = write.primary();
        match self.complete_write(write, outcome) {
            Err(error) if primary => {
                reflection.failure = Some(error);
            },
            _ => {
                assert(reflection.done < reflection.writes.len());
                reflection.done = reflection.done + 1;
            },
        }
    }
}

} // verus!
