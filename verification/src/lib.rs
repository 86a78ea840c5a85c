//! Sans-I/O core of a serial line capture tool: control-line snapshots and
//! their reflection between ports, idle-gap framing of a byte stream, and the
//! encapsulation of captured events for a packet-capture container.

pub mod portinfo;
pub mod state;
pub mod datalink;
pub mod framing;
pub mod capture;
