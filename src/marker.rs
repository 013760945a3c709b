//! Recognising the line on which the worker reports its port.

use vstd::prelude::*;
use crate::text::{decode_lossy, lossy_text, parse_u16, parse_u16_text, strip_prefix, trim, trim_ws};

verus! {

/// What a line of the worker's standard output says.
#[derive(PartialEq, Eq, Structural, Clone, Copy, Debug)]
pub enum LineScan {
    /// An ordinary log line, without the port marker.
    Log,
    /// A line that starts with the port marker, and the port after it if it
    /// parses as one.
    Marker(Option<u16>),
}

/// The text that starts the line on which the worker reports its port.
pub open spec fn port_marker() -> Seq<char> {
    "SHIPAGENT_PORT="@
}

/// What a line of text says: a port marker, with the rest of the line,
/// trimmed, read as a port; or a log line.
pub open spec fn scan_spec(t: Seq<char>) -> LineScan {
    if port_marker().is_prefix_of(t) {
        LineScan::Marker(parse_u16_text(trim_ws(t.skip(port_marker().len() as int))))
    } else {
        LineScan::Log
    }
}

/// Reads a line of text for the port marker.
pub fn scan_text(text: &str) -> (r: LineScan)
    ensures
        r == scan_spec(text@),
{
    match strip_prefix(text, "SHIPAGENT_PORT=") {
        Some(rest) => LineScan::Marker(parse_u16(trim(rest))),
        None => LineScan::Log,
    }
}

/// Reads a raw output line for the port marker; invalid UTF-8 is replaced
/// before the line is read.
pub fn scan_line(line: &[u8]) -> (r: LineScan)
    ensures
        r == scan_spec(lossy_text(line@)),
{
    let text = decode_lossy(line);
    scan_text(text.as_str())
}

} // verus!
