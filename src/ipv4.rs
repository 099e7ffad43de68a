//! The parts of IPv4 that the relay reads and writes: header lengths, 16-bit
//! big-endian fields and the Internet checksum.

use vstd::prelude::*;

verus! {

/// The largest IPv4 packet the relay handles, in bytes.
pub const MAX_PACKET_LENGTH: usize = 65536;

/// Length of an IPv4 header without options.
pub const IPV4_MIN_HEADER_LENGTH: usize = 20;

/// Length of a UDP header.
pub const UDP_HEADER_LENGTH: usize = 8;

/// IPv4 protocol number of ICMP.
pub const PROTOCOL_ICMP: u8 = 1;

/// IPv4 protocol number of UDP.
pub const PROTOCOL_UDP: u8 = 17;

/// The transport protocols the relay handles.
#[derive(Debug, Clone, Copy, PartialEq, Eq, Structural, Hash)]
pub enum Transport {
    Udp,
    Icmp,
}

/// Where the headers of a client packet end.
#[derive(Debug, Clone, Copy, PartialEq, Eq, Structural)]
pub struct Layout {
    pub transport: Transport,
    pub ip_header_length: usize,
    pub transport_header_length: usize,
}

/// The IPv4 header length that the first byte of `p` announces.
pub open spec fn ihl_of(p: Seq<u8>) -> nat {
    ((p[0] % 16) * 4) as nat
}

/// The transport header length that the relay strips for `t`: the whole ICMP
/// message is treated as payload.
pub open spec fn transport_header_len(t: Transport) -> nat {
    match t {
        Transport::Udp => UDP_HEADER_LENGTH as nat,
        Transport::Icmp => 0,
    }
}

/// The transport `p` carries, if the relay handles it.
pub open spec fn transport_of(p: Seq<u8>) -> Option<Transport> {
    if p[9] == PROTOCOL_UDP {
        Some(Transport::Udp)
    } else if p[9] == PROTOCOL_ICMP {
        Some(Transport::Icmp)
    } else {
        None
    }
}

/// Whether `p` is an IPv4 packet of a handled transport whose headers it holds whole.
pub open spec fn well_formed_packet(p: Seq<u8>) -> bool {
    &&& p.len() >= IPV4_MIN_HEADER_LENGTH
    &&& p[0] / 16 == 4
    &&& ihl_of(p) >= IPV4_MIN_HEADER_LENGTH
    &&& transport_of(p) is Some
    &&& ihl_of(p) + transport_header_len(transport_of(p).unwrap()) <= p.len()
}

/// The layout of a well-formed packet.
pub open spec fn layout_of(p: Seq<u8>) -> Layout {
    Layout {
        transport: transport_of(p).unwrap(),
        ip_header_length: ihl_of(p) as usize,
        transport_header_length: transport_header_len(transport_of(p).unwrap()) as usize,
    }
}

/// Reads the header layout of a client packet; `None` when the packet is not
/// IPv4, carries a transport other than UDP or ICMP, or is cut short.
pub fn parse_layout(p: &[u8]) -> (r: Option<Layout>)
    ensures
        r is Some <==> well_formed_packet(p@),
        r is Some ==> r.unwrap() == layout_of(p@),
{
    if p.len() < IPV4_MIN_HEADER_LENGTH {
        return None;
    }
    if p[0] / 16 != 4 {
        return None;
    }
    let ihl: usize = ((p[0] % 16) as usize) * 4;
    if ihl < IPV4_MIN_HEADER_LENGTH {
        return None;
    }
    let transport = if p[9] == PROTOCOL_UDP {
        Transport::Udp
    } else if p[9] == PROTOCOL_ICMP {
        Transport::Icmp
    } else {
        return None;
    };
    let thl: usize = match transport {
        Transport::Udp => UDP_HEADER_LENGTH,
        Transport::Icmp => 0,
    };
    if ihl + thl > p.len() {
        return None;
    }
    Some(Layout { transport, ip_header_length: ihl, transport_header_length: thl })
}

/// `s` with the big-endian 16-bit value `v` written at `off`.
pub open spec fn set_u16(s: Seq<u8>, off: int, v: nat) -> Seq<u8> {
    s.update(off, (v / 256) as u8).update(off + 1, (v % 256) as u8)
}

/// Writes the big-endian 16-bit value `v` at `off`.
pub fn write_u16(s: &mut Vec<u8>, off: usize, v: u16)
    requires
        off + 1 < old(s)@.len(),
    ensures
        final(s)@ == set_u16(old(s)@, off as int, v as nat),
{
    let len = s.len();
    assert(off + 1 < len);
    s.set(off, (v / 256) as u8);
    s.set(off + 1, (v % 256) as u8);
}

/// The 16-bit word `i` of `s`, a missing last byte counting as zero.
pub open spec fn word_at(s: Seq<u8>, i: int) -> nat {
    if 2 * i + 1 < s.len() {
        (s[2 * i] * 256 + s[2 * i + 1]) as nat
    } else {
        (s[2 * i] * 256) as nat
    }
}

/// The sum of the first `n` 16-bit words of `s`.
pub open spec fn word_sum(s: Seq<u8>, n: nat) -> nat
    decreases n,
{
    if n == 0 {
        0
    } else {
        word_sum(s, (n - 1) as nat) + word_at(s, n - 1)
    }
}

/// The number of 16-bit words that cover `s`.
pub open spec fn word_count(s: Seq<u8>) -> nat {
    ((s.len() + 1) / 2) as nat
}

/// Folds the carries of a sum below 2^32 back into 16 bits.
pub open spec fn fold16(x: nat) -> nat {
    let f = x % 65536 + x / 65536;
    (f % 65536 + f / 65536) as nat
}

/// The Internet checksum of `s`: the complement of its ones'-complement sum.
pub open spec fn internet_checksum(s: Seq<u8>) -> nat {
    (65535 - fold16(word_sum(s, word_count(s)))) as nat
}

/// Computes the Internet checksum of `s`.
pub fn checksum(s: &[u8]) -> (r: u16)
    requires
        s@.len() <= 2 * MAX_PACKET_LENGTH,
    ensures
        r as nat == internet_checksum(s@),
{
    let n: usize = (s.len() + 1) / 2;
    let mut acc: u64 = 0;
    let mut i: usize = 0;
    while i < n
        invariant
            n == word_count(s@),
            s@.len() <= 2 * MAX_PACKET_LENGTH,
            i <= n,
            acc == word_sum(s@, i as nat),
            acc <= 65535 * i,
        decreases n - i,
    {
        let hi = s[2 * i] as u64;
        let w: u64 = if 2 * i + 1 < s.len() {
            hi * 256 + s[2 * i + 1] as u64
        } else {
            hi * 256
        };
        acc = acc + w;
        i = i + 1;
    }
    let f: u64 = acc % 65536 + acc / 65536;
    let g: u64 = f % 65536 + f / 65536;
    assert(g <= 65535) by (nonlinear_arith)
        requires
            acc <= 65535 * 65536,
            f == acc % 65536 + acc / 65536,
            g == f % 65536 + f / 65536,
    ;
    (65535 - g) as u16
}

/// Length of the IPv4 header that a raw ICMP socket puts before each
/// message it reads.
pub const RAW_HEADER_LENGTH: usize = 20;

/// Size of the buffer a raw ICMP socket reads into.
pub const ICMP_READ_BUFFER_LENGTH: usize = 512;

/// The ICMP message in what a raw socket read: the bytes after the IPv4
/// header the kernel put first; `None` when fewer bytes than that header came.
pub fn strip_raw_header(raw: &[u8]) -> (r: Option<Vec<u8>>)
    ensures
        r is Some <==> raw@.len() >= RAW_HEADER_LENGTH,
        r matches Some(m) ==> m@ == raw@.subrange(RAW_HEADER_LENGTH as int, raw@.len() as int),
{
    if raw.len() < RAW_HEADER_LENGTH {
        return None;
    }
    let mut m: Vec<u8> = Vec::new();
    crate::bytes::append_range(&mut m, raw, RAW_HEADER_LENGTH, raw.len());
    assert(m@ =~= raw@.subrange(RAW_HEADER_LENGTH as int, raw@.len() as int));
    Some(m)
}

} // verus!
