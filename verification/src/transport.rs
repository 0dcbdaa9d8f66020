//! Resolution of the configured target address into a transport route.
//!
//! An address beginning with the local serial-device prefix `\\.\` routes to
//! the device path; an address containing `:` routes to a raw TCP socket;
//! anything else is rejected before any I/O is attempted.

use vstd::prelude::*;

verus! {

/// The transport a target address routes to.
#[derive(Clone, Debug)]
pub enum ResolvedTarget {
    /// An exclusive-write handle on a local serial device path.
    Serial(String),
    /// A raw TCP connection to `host:port`.
    Tcp(String),
}

/// Whether the address begins with the serial-device prefix `\\.\`.
pub open spec fn has_serial_prefix(s: Seq<char>) -> bool {
    s.len() >= 4 && s[0] == '\\' && s[1] == '\\' && s[2] == '.' && s[3] == '\\'
}

/// Whether the address contains a `:` separator.
pub open spec fn has_colon(s: Seq<char>) -> bool {
    exists|i: int| 0 <= i < s.len() && s[i] == ':'
}

/// The rejection message, naming both accepted forms.
pub open spec fn unrecognized_port_msg() -> Seq<char> {
    "unrecognized port format (use \\\\.\\COM3 or 192.168.x.x:port)"@
}

/// Classifies a target address: serial-device prefix first, then `host:port`,
/// else the unrecognized-port error. No I/O happens here.
pub fn classify_target(target: &str) -> (r: Result<ResolvedTarget, String>)
    ensures
        has_serial_prefix(target@) ==> (r matches Ok(t) && t matches ResolvedTarget::Serial(p)
            && p@ == target@),
        !has_serial_prefix(target@) && has_colon(target@) ==> (r matches Ok(t)
            && t matches ResolvedTarget::Tcp(h) && h@ == target@),
        !has_serial_prefix(target@) && !has_colon(target@) ==> (r matches Err(e) && e@
            == unrecognized_port_msg()),
{
    let len = target.unicode_len();
    if len >= 4 {
        let c0 = target.get_char(0);
        let c1 = target.get_char(1);
        let c2 = target.get_char(2);
        let c3 = target.get_char(3);
        if c0 == '\\' && c1 == '\\' && c2 == '.' && c3 == '\\' {
            return Ok(ResolvedTarget::Serial(target.to_owned()));
        }
    }
    let mut i: usize = 0;
    while i < len
        invariant
            len == target@.len(),
            i <= len,
            !has_serial_prefix(target@),
            forall|j: int| 0 <= j < i ==> target@[j] != ':',
        decreases len - i,
    {
        if target.get_char(i) == ':' {
            return Ok(ResolvedTarget::Tcp(target.to_owned()));
        }
        i += 1;
    }
    Err("unrecognized port format (use \\\\.\\COM3 or 192.168.x.x:port)".to_owned())
}

} // verus!
