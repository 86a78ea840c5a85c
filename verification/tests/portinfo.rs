use serialpcap::portinfo::{
    AdvancedSerialPort, AnySerialPort, CapabilityFlags, LineReadings, LineWrite, PortControlLines,
    PortErrorKind, SerialPortWithGpios,
};

fn lines(dsr: bool, cts: bool, cd: bool, ri: bool, dtr: bool, rts: bool) -> PortControlLines {
    PortControlLines { dsr, cts, cd, ri, dtr, rts }
}

#[test]
fn new_lines_are_all_low() {
    let fresh = PortControlLines::new();
    assert_eq!(fresh, lines(false, false, false, false, false, false));
    assert_eq!(PortControlLines::default(), fresh);
}

#[test]
fn lines_compare_by_every_field() {
    let a = lines(true, false, false, false, false, false);
    assert_ne!(a, PortControlLines::new());
    assert_eq!(a, lines(true, false, false, false, false, false));
    assert_ne!(a, lines(true, false, false, false, false, true));
}

#[test]
fn primary_lines_are_rts_and_dtr() {
    assert!(LineWrite::RequestToSend(true).primary());
    assert!(LineWrite::DataTerminalReady(false).primary());
    assert!(!LineWrite::RingIndicator(true).primary());
    assert!(!LineWrite::CarrierDetect(true).primary());
}

#[test]
fn basic_port_has_no_optional_line() {
    let port = AnySerialPort::Basic;
    assert_eq!(
        port.capability_flags(),
        CapabilityFlags {
            can_set_ring_indicator: false,
            can_set_carrier_detect: false,
            can_read_data_terminal_ready: false,
            can_read_request_to_send: false,
        }
    );
}

#[test]
fn gpio_port_flags_follow_its_outputs() {
    let port = AnySerialPort::Advanced(Box::new(SerialPortWithGpios::new(true, false)));
    assert_eq!(
        port.capability_flags(),
        CapabilityFlags {
            can_set_ring_indicator: true,
            can_set_carrier_detect: false,
            can_read_data_terminal_ready: false,
            can_read_request_to_send: false,
        }
    );
    let port = SerialPortWithGpios::new(false, true);
    assert!(!port.can_set_ring_indicator());
    assert!(port.can_set_carrier_detect());
    assert!(!port.can_read_data_terminal_ready());
    assert!(!port.can_read_request_to_send());
}

#[test]
fn capture_on_basic_port_substitutes_low() {
    let port = AnySerialPort::Basic;
    let readings = LineReadings { dsr: Some(true), cts: None, cd: Some(false), ri: Some(true) };
    assert_eq!(
        port.capture_control_lines(&readings),
        lines(true, false, false, true, false, false)
    );
    let nothing = LineReadings { dsr: None, cts: None, cd: None, ri: None };
    assert_eq!(port.capture_control_lines(&nothing), PortControlLines::new());
}

#[test]
fn capture_on_gpio_port_answers_rts_and_dtr_from_memory() {
    let mut gpio = SerialPortWithGpios::new(false, false);
    assert_eq!(gpio.write_request_to_send(true, Ok(())), Ok(()));
    let port = AnySerialPort::Advanced(Box::new(gpio));
    let readings = LineReadings { dsr: None, cts: Some(true), cd: None, ri: None };
    assert_eq!(
        port.capture_control_lines(&readings),
        lines(false, true, false, false, false, true)
    );
}

#[test]
fn unknown_rts_and_dtr_are_read_errors() {
    let port = SerialPortWithGpios::new(true, true);
    let rts = port.read_request_to_send().unwrap_err();
    assert_eq!(rts.kind, PortErrorKind::LineReadUnsupported);
    assert_eq!(rts.description, "Unknown value in Request To Send");
    let dtr = port.read_data_terminal_ready().unwrap_err();
    assert_eq!(dtr.kind, PortErrorKind::LineReadUnsupported);
    assert_eq!(dtr.description, "Unknown value in Data Terminal Ready");
}

#[test]
fn commanded_levels_are_read_back() {
    let mut port = SerialPortWithGpios::new(false, false);
    assert_eq!(port.write_request_to_send(false, Ok(())), Ok(()));
    assert_eq!(port.write_data_terminal_ready(true, Ok(())), Ok(()));
    assert_eq!(port.read_request_to_send(), Ok(false));
    assert_eq!(port.read_data_terminal_ready(), Ok(true));
    assert_eq!(port.write_request_to_send(true, Ok(())), Ok(()));
    assert_eq!(port.read_request_to_send(), Ok(true));
}

#[test]
fn failed_primary_write_names_line_and_cause() {
    let mut port = SerialPortWithGpios::new(false, false);
    assert_eq!(port.write_request_to_send(false, Ok(())), Ok(()));
    let error = port.write_request_to_send(true, Err(String::from("device gone"))).unwrap_err();
    assert_eq!(error.kind, PortErrorKind::TransportIo);
    assert_eq!(error.description, "Failed to set Request To Send: device gone");
    assert_eq!(port.read_request_to_send(), Ok(false));
    let error = port.write_data_terminal_ready(true, Err(String::from("busy"))).unwrap_err();
    assert_eq!(error.kind, PortErrorKind::TransportIo);
    assert_eq!(error.description, "Failed to set Data Terminal Ready: busy");
    assert!(port.read_data_terminal_ready().is_err());
}

#[test]
fn trait_write_keeps_the_cause_as_it_is() {
    let mut port = SerialPortWithGpios::new(false, false);
    let error =
        AdvancedSerialPort::write_request_to_send(&mut port, true, Err(String::from("gone")))
            .unwrap_err();
    assert_eq!(error.kind, PortErrorKind::TransportIo);
    assert_eq!(error.description, "gone");
    assert_eq!(AdvancedSerialPort::write_data_terminal_ready(&mut port, true, Ok(())), Ok(()));
    assert_eq!(port.read_data_terminal_ready(), Ok(true));
}

#[test]
fn optional_outputs_without_backing_are_write_errors() {
    let port = SerialPortWithGpios::new(false, false);
    let ri = port.set_ring_indicator(true).unwrap_err();
    assert_eq!(ri.kind, PortErrorKind::LineWriteUnsupported);
    assert_eq!(ri.description, "Ring Indicator output not supported");
    let cd = port.set_carrier_detect(false).unwrap_err();
    assert_eq!(cd.kind, PortErrorKind::LineWriteUnsupported);
    assert_eq!(cd.description, "Carrier Detect output not supported");
}

#[test]
fn optional_outputs_with_backing_give_their_write() {
    let port = SerialPortWithGpios::new(true, true);
    assert_eq!(port.set_ring_indicator(true), Ok(LineWrite::RingIndicator(true)));
    assert_eq!(port.set_carrier_detect(false), Ok(LineWrite::CarrierDetect(false)));
}

#[test]
fn complete_write_covers_all_four_lines() {
    let mut port = SerialPortWithGpios::new(true, true);
    assert_eq!(port.complete_write(LineWrite::RequestToSend(true), Ok(())), Ok(()));
    assert_eq!(port.read_request_to_send(), Ok(true));
    assert_eq!(port.complete_write(LineWrite::DataTerminalReady(false), Ok(())), Ok(()));
    assert_eq!(port.read_data_terminal_ready(), Ok(false));
    assert_eq!(port.complete_write(LineWrite::RingIndicator(true), Ok(())), Ok(()));
    let ri = port.complete_write(LineWrite::RingIndicator(true), Err(String::from("x")));
    let ri = ri.unwrap_err();
    assert_eq!(ri.kind, PortErrorKind::TransportIo);
    assert_eq!(ri.description, "Failed to set Ring Indicator");
    let cd = port.complete_write(LineWrite::CarrierDetect(true), Err(String::from("x")));
    assert_eq!(cd.unwrap_err().description, "Failed to set Carrier Detect");
    let rts = port.complete_write(LineWrite::RequestToSend(false), Err(String::from("x")));
    let rts = rts.unwrap_err();
    assert_eq!(rts.kind, PortErrorKind::TransportIo);
    assert_eq!(rts.description, "x");
    assert_eq!(port.read_request_to_send(), Ok(true));
    let dtr = port.complete_write(LineWrite::DataTerminalReady(true), Err(String::from("y")));
    assert_eq!(dtr.unwrap_err().description, "y");
    assert_eq!(port.read_data_terminal_ready(), Ok(false));
}

#[test]
fn any_port_completes_writes_and_keeps_track_where_it_can() {
    let nothing = LineReadings { dsr: None, cts: None, cd: None, ri: None };
    let mut basic = AnySerialPort::Basic;
    assert_eq!(basic.complete_write(LineWrite::RequestToSend(true), Ok(())), Ok(()));
    assert_eq!(basic.capture_control_lines(&nothing), PortControlLines::new());
    let failed = basic.complete_write(LineWrite::DataTerminalReady(true), Err(String::from("io")));
    let failed = failed.unwrap_err();
    assert_eq!(failed.kind, PortErrorKind::TransportIo);
    assert_eq!(failed.description, "io");
    let mut gpio = AnySerialPort::Advanced(Box::new(SerialPortWithGpios::new(true, false)));
    assert_eq!(gpio.complete_write(LineWrite::DataTerminalReady(true), Ok(())), Ok(()));
    assert!(gpio.capture_control_lines(&nothing).dtr);
    let failed = gpio.complete_write(LineWrite::RequestToSend(true), Err(String::from("io")));
    assert_eq!(failed.unwrap_err().description, "io");
    assert!(!gpio.capture_control_lines(&nothing).rts);
    let ri = gpio.complete_write(LineWrite::RingIndicator(true), Err(String::from("io")));
    assert_eq!(ri.unwrap_err().description, "Failed to set Ring Indicator");
}

#[test]
fn any_port_sets_optional_lines_only_where_backed() {
    let basic = AnySerialPort::Basic;
    let ri = basic.set_ring_indicator(true).unwrap_err();
    assert_eq!(ri.kind, PortErrorKind::LineWriteUnsupported);
    assert_eq!(ri.description, "Ring Indicator output not supported");
    let cd = basic.set_carrier_detect(true).unwrap_err();
    assert_eq!(cd.kind, PortErrorKind::LineWriteUnsupported);
    assert_eq!(cd.description, "Carrier Detect output not supported");
    let gpio = AnySerialPort::Advanced(Box::new(SerialPortWithGpios::new(true, false)));
    assert_eq!(gpio.set_ring_indicator(false), Ok(LineWrite::RingIndicator(false)));
    let cd = gpio.set_carrier_detect(true).unwrap_err();
    assert_eq!(cd.kind, PortErrorKind::LineWriteUnsupported);
    assert_eq!(cd.description, "Carrier Detect output not supported");
}
