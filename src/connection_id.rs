//! The identity of a relayed flow.

use vstd::prelude::*;

use crate::ipv4::{ihl_of, transport_of, well_formed_packet, Transport};

verus! {

/// Length of the ICMP echo header: type, code, checksum, identifier, sequence.
pub const ICMP_ECHO_HEADER_LENGTH: usize = 8;

/// The five-tuple of a flow. Addresses are IPv4 addresses as big-endian
/// integers; for ICMP both ports hold the echo identifier.
#[derive(Debug, Clone, Copy, PartialEq, Eq, Structural, Hash)]
pub struct ConnectionId {
    pub transport: Transport,
    pub source_ip: u32,
    pub source_port: u16,
    pub destination_ip: u32,
    pub destination_port: u16,
}

/// The big-endian 16-bit value at `off`.
pub open spec fn be16(s: Seq<u8>, off: int) -> u16 {
    (s[off] * 256 + s[off + 1]) as u16
}

/// The big-endian 32-bit value at `off`.
pub open spec fn be32(s: Seq<u8>, off: int) -> u32 {
    (s[off] * 16777216 + s[off + 1] * 65536 + s[off + 2] * 256 + s[off + 3]) as u32
}

/// Whether the identity of client packet `p` can be read: `p` is well formed
/// and, for ICMP, holds a whole echo header.
pub open spec fn identifiable(p: Seq<u8>) -> bool {
    &&& well_formed_packet(p)
    &&& transport_of(p) == Some(Transport::Icmp) ==> ihl_of(p) + ICMP_ECHO_HEADER_LENGTH <= p.len()
}

/// The identity of the flow of an identifiable client packet `p`.
pub open spec fn id_of(p: Seq<u8>) -> ConnectionId {
    let h = ihl_of(p) as int;
    let t = transport_of(p).unwrap();
    ConnectionId {
        transport: t,
        source_ip: be32(p, 12),
        source_port: match t {
            Transport::Udp => be16(p, h),
            Transport::Icmp => be16(p, h + 4),
        },
        destination_ip: be32(p, 16),
        destination_port: match t {
            Transport::Udp => be16(p, h + 2),
            Transport::Icmp => be16(p, h + 4),
        },
    }
}

fn read_be16(s: &[u8], off: usize) -> (r: u16)
    requires
        off + 2 <= s@.len(),
    ensures
        r == be16(s@, off as int),
{
    (s[off] as u16) * 256 + (s[off + 1] as u16)
}

fn read_be32(s: &[u8], off: usize) -> (r: u32)
    requires
        off + 4 <= s@.len(),
    ensures
        r == be32(s@, off as int),
{
    (s[off] as u32) * 16777216 + (s[off + 1] as u32) * 65536 + (s[off + 2] as u32) * 256 + (s[off
        + 3] as u32)
}

impl ConnectionId {
    /// The identity of the flow that client packet `p` belongs to; `None`
    /// when `p` is not identifiable.
    pub fn from_packet(p: &[u8]) -> (r: Option<ConnectionId>)
        ensures
            r is Some <==> identifiable(p@),
            r is Some ==> r.unwrap() == id_of(p@),
    {
        let layout = match crate::ipv4::parse_layout(p) {
            Some(l) => l,
            None => return None,
        };
        let h = layout.ip_header_length;
        let (source_port, destination_port) = match layout.transport {
            Transport::Udp => (read_be16(p, h), read_be16(p, h + 2)),
            Transport::Icmp => {
                if h + ICMP_ECHO_HEADER_LENGTH > p.len() {
                    return None;
                }
                let ident = read_be16(p, h + 4);
                (ident, ident)
            },
        };
        Some(
            ConnectionId {
                transport: layout.transport,
                source_ip: read_be32(p, 12),
                source_port,
                destination_ip: read_be32(p, 16),
                destination_port,
            },
        )
    }
}

} // verus!
