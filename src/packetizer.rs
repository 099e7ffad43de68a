//! Synthesis of the IPv4 packets that carry network responses back to the
//! client, from header templates taken from the client's first packet.

use vstd::prelude::*;

use crate::bytes::{append_bytes, append_range, copy_bytes};
use crate::ipv4::{
    checksum, ihl_of, internet_checksum, set_u16, transport_header_len, transport_of,
    well_formed_packet, write_u16, Transport, PROTOCOL_UDP, UDP_HEADER_LENGTH,
};

verus! {

/// `h` with its source address (bytes 12..16) and destination address
/// (bytes 16..20) exchanged.
pub open spec fn swap_addresses(h: Seq<u8>) -> Seq<u8> {
    h.subrange(0, 12) + h.subrange(16, 20) + h.subrange(12, 16) + h.subrange(20, h.len() as int)
}

/// `t` with its source port (bytes 0..2) and destination port (bytes 2..4)
/// exchanged.
pub open spec fn swap_ports(t: Seq<u8>) -> Seq<u8> {
    t.subrange(2, 4) + t.subrange(0, 2) + t.subrange(4, t.len() as int)
}

/// The IPv4 header template for responses to the flow of client packet `p`.
pub open spec fn ip_template_of(p: Seq<u8>) -> Seq<u8> {
    swap_addresses(p.subrange(0, ihl_of(p) as int))
}

/// The transport header template for responses to the flow of client packet `p`.
pub open spec fn transport_template_of(p: Seq<u8>) -> Seq<u8> {
    match transport_of(p).unwrap() {
        Transport::Udp => swap_ports(p.subrange(ihl_of(p) as int, ihl_of(p) + 8int)),
        Transport::Icmp => Seq::empty(),
    }
}

/// `ip` with its total length set to `total` and its header checksum recomputed.
pub open spec fn finish_ip_header(ip: Seq<u8>, total: nat) -> Seq<u8> {
    let h = set_u16(set_u16(ip, 2, total), 10, 0);
    set_u16(h, 10, internet_checksum(h))
}

/// The UDP pseudo-header for addresses taken from `ip` and a UDP length `len`.
pub open spec fn pseudo_header(ip: Seq<u8>, len: nat) -> Seq<u8> {
    ip.subrange(12, 20) + seq![0u8, PROTOCOL_UDP, (len / 256) as u8, (len % 256) as u8]
}

/// The UDP segment built from header template `tr` and `payload`, with its
/// length set and its checksum computed over the pseudo-header of `ip`.
pub open spec fn udp_segment(ip: Seq<u8>, tr: Seq<u8>, payload: Seq<u8>) -> Seq<u8> {
    let len = tr.len() + payload.len();
    let seg = set_u16(set_u16(tr, 4, len), 6, 0) + payload;
    let c = internet_checksum(pseudo_header(ip, len) + seg);
    set_u16(seg, 6, if c == 0 { 65535 } else { c })
}

/// The response packet carrying `payload` under templates `ip` and `tr`.
pub open spec fn response_packet(t: Transport, ip: Seq<u8>, tr: Seq<u8>, payload: Seq<u8>) -> Seq<u8> {
    let total = ip.len() + tr.len() + payload.len();
    match t {
        Transport::Udp => finish_ip_header(ip, total) + udp_segment(ip, tr, payload),
        Transport::Icmp => finish_ip_header(ip, total) + payload,
    }
}

/// A response built from the templates of client packet `client` travels the
/// flow backwards: its source address is the client's destination and the
/// reverse; for UDP its ports are exchanged the same way; and after its
/// headers comes exactly the reply payload. So a reply to an echo reaches the
/// client from the endpoint the client addressed.
pub proof fn lemma_response_reverses_flow(client: Seq<u8>, reply: Seq<u8>)
    requires
        well_formed_packet(client),
    ensures
        ({
            let t = transport_of(client).unwrap();
            let r = response_packet(t, ip_template_of(client), transport_template_of(client), reply);
            let h = ihl_of(client) as int;
            let hl = h + transport_header_len(t);
            &&& r.len() == hl + reply.len()
            &&& r.subrange(12, 16) == client.subrange(16, 20)
            &&& r.subrange(16, 20) == client.subrange(12, 16)
            &&& r[9] == client[9]
            &&& r.subrange(hl, r.len() as int) == reply
            &&& t == Transport::Udp ==> {
                &&& r.subrange(h, h + 2) == client.subrange(h + 2, h + 4)
                &&& r.subrange(h + 2, h + 4) == client.subrange(h, h + 2)
            }
        }),
{
    let t = transport_of(client).unwrap();
    let ipt = ip_template_of(client);
    let trt = transport_template_of(client);
    let r = response_packet(t, ipt, trt, reply);
    let h = ihl_of(client) as int;
    let total = ipt.len() + trt.len() + reply.len();
    let iph = finish_ip_header(ipt, total);
    assert(ipt.len() == h);
    assert(iph.len() == h);
    assert(iph.subrange(12, 16) =~= client.subrange(16, 20));
    assert(iph.subrange(16, 20) =~= client.subrange(12, 16));
    assert(iph[9] == client[9]);
    match t {
        Transport::Udp => {
            let seg = udp_segment(ipt, trt, reply);
            assert(r == iph + seg);
            assert(seg.len() == 8 + reply.len());
            assert(r.subrange(12, 16) =~= iph.subrange(12, 16));
            assert(r.subrange(16, 20) =~= iph.subrange(16, 20));
            assert(r.subrange(h + 8, r.len() as int) =~= reply);
            assert(r.subrange(h, h + 2) =~= client.subrange(h + 2, h + 4));
            assert(r.subrange(h + 2, h + 4) =~= client.subrange(h, h + 2));
        },
        Transport::Icmp => {
            assert(r == iph + reply);
            assert(r.subrange(12, 16) =~= iph.subrange(12, 16));
            assert(r.subrange(16, 20) =~= iph.subrange(16, 20));
            assert(r.subrange(h, r.len() as int) =~= reply);
        },
    }
}

/// Builds response packets for one flow.
pub struct Packetizer {
    transport: Transport,
    ip_header: Vec<u8>,
    transport_header: Vec<u8>,
}

impl Packetizer {
    /// The transport of the flow.
    pub closed spec fn transport_spec(&self) -> Transport {
        self.transport
    }

    /// The IPv4 header template, addresses already exchanged.
    pub closed spec fn ip_template(&self) -> Seq<u8> {
        self.ip_header@
    }

    /// The transport header template, ports already exchanged.
    pub closed spec fn transport_template(&self) -> Seq<u8> {
        self.transport_header@
    }

    /// The templates have the lengths the packet layout needs.
    pub open spec fn wf(&self) -> bool {
        &&& 20 <= self.ip_template().len() <= 60
        &&& self.transport_template().len() == match self.transport_spec() {
            Transport::Udp => 8nat,
            Transport::Icmp => 0nat,
        }
    }

    /// The templates for the flow of client packet `p`, or `None` when `p`
    /// is not a well-formed packet of a handled transport.
    pub fn new(p: &[u8]) -> (r: Option<Packetizer>)
        ensures
            r is Some <==> well_formed_packet(p@),
            r matches Some(k) ==> {
                &&& k.wf()
                &&& k.transport_spec() == transport_of(p@).unwrap()
                &&& k.ip_template() == ip_template_of(p@)
                &&& k.transport_template() == transport_template_of(p@)
            },
    {
        let layout = match crate::ipv4::parse_layout(p) {
            Some(l) => l,
            None => return None,
        };
        let ihl = layout.ip_header_length;
        let mut ip_header: Vec<u8> = Vec::new();
        append_range(&mut ip_header, p, 0, 12);
        append_range(&mut ip_header, p, 16, 20);
        append_range(&mut ip_header, p, 12, 16);
        append_range(&mut ip_header, p, 20, ihl);
        assert(ip_header@ =~= ip_template_of(p@));
        let mut transport_header: Vec<u8> = Vec::new();
        match layout.transport {
            Transport::Udp => {
                append_range(&mut transport_header, p, ihl + 2, ihl + 4);
                append_range(&mut transport_header, p, ihl, ihl + 2);
                append_range(&mut transport_header, p, ihl + 4, ihl + UDP_HEADER_LENGTH);
                assert(transport_header@ =~= transport_template_of(p@));
            },
            Transport::Icmp => {
                assert(transport_header@ =~= transport_template_of(p@));
            },
        }
        Some(Packetizer { transport: layout.transport, ip_header, transport_header })
    }

    /// The transport of the flow.
    pub fn transport(&self) -> (r: Transport)
        ensures
            r == self.transport_spec(),
    {
        self.transport
    }

    /// The response packet carrying `payload`, or `None` when it would
    /// exceed the IPv4 total length limit of 65535 bytes.
    pub fn packetize(&self, payload: &[u8]) -> (r: Option<Vec<u8>>)
        requires
            self.wf(),
        ensures
            r is Some <==> self.ip_template().len() + self.transport_template().len() + payload@.len() <= 65535,
            r matches Some(v) ==> v@ == response_packet(
                self.transport_spec(),
                self.ip_template(),
                self.transport_template(),
                payload@,
            ),
    {
        let hl = self.ip_header.len() + self.transport_header.len();
        if payload.len() > 65535 - hl {
            return None;
        }
        let total: usize = hl + payload.len();
        let mut ip = copy_bytes(self.ip_header.as_slice());
        write_u16(&mut ip, 2, total as u16);
        write_u16(&mut ip, 10, 0);
        let c = checksum(ip.as_slice());
        write_u16(&mut ip, 10, c);
        match self.transport {
            Transport::Udp => {
                let ulen: usize = self.transport_header.len() + payload.len();
                let mut seg = copy_bytes(self.transport_header.as_slice());
                write_u16(&mut seg, 4, ulen as u16);
                write_u16(&mut seg, 6, 0);
                append_bytes(&mut seg, payload);
                let mut ps: Vec<u8> = Vec::new();
                append_range(&mut ps, self.ip_header.as_slice(), 12, 20);
                ps.push(0u8);
                ps.push(PROTOCOL_UDP);
                ps.push(((ulen as u16) / 256) as u8);
                ps.push(((ulen as u16) % 256) as u8);
                assert(ps@ =~= pseudo_header(self.ip_header@, ulen as nat));
                append_bytes(&mut ps, seg.as_slice());
                let uc = checksum(ps.as_slice());
                write_u16(&mut seg, 6, if uc == 0 { 65535 } else { uc });
                append_bytes(&mut ip, seg.as_slice());
            },
            Transport::Icmp => {
                append_bytes(&mut ip, payload);
            },
        }
        Some(ip)
    }
}

} // verus!
