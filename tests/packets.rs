use relay_conn::connection_id::ConnectionId;
use relay_conn::icmp_header::{IcmpHeader, IcmpHeaderData};
use relay_conn::ipv4::{checksum, parse_layout, strip_raw_header, Layout, Transport};
use relay_conn::packetizer::Packetizer;

fn header(proto: u8, ihl_words: u8, len: usize) -> Vec<u8> {
    let mut p = vec![0u8; len];
    p[0] = 0x40 | ihl_words;
    p[9] = proto;
    p
}

#[test]
fn checksum_of_known_words() {
    assert_eq!(checksum(&[0x00, 0x01, 0xf2, 0x03, 0xf4, 0xf5, 0xf6, 0xf7]), 0x220d);
    assert_eq!(checksum(&[]), 0xffff);
    assert_eq!(checksum(&[0xff]), 0x00ff);
    assert_eq!(checksum(&[0xff, 0xff, 0xff, 0xff]), 0x0000);
}

#[test]
fn ipv4_header_checksum_example() {
    let h = [
        0x45, 0x00, 0x00, 0x73, 0x00, 0x00, 0x40, 0x00, 0x40, 0x11, 0x00, 0x00, 0xc0, 0xa8, 0x00,
        0x01, 0xc0, 0xa8, 0x00, 0xc7,
    ];
    assert_eq!(checksum(&h), 0xb861);
}

#[test]
fn layout_of_udp_and_icmp() {
    assert_eq!(
        parse_layout(&header(17, 5, 28)),
        Some(Layout { transport: Transport::Udp, ip_header_length: 20, transport_header_length: 8 })
    );
    assert_eq!(
        parse_layout(&header(1, 6, 24)),
        Some(Layout { transport: Transport::Icmp, ip_header_length: 24, transport_header_length: 0 })
    );
}

#[test]
fn layout_refuses_malformed() {
    assert_eq!(parse_layout(&header(17, 5, 19)), None);
    assert_eq!(parse_layout(&header(17, 5, 27)), None);
    assert_eq!(parse_layout(&header(6, 5, 40)), None);
    assert_eq!(parse_layout(&header(17, 4, 28)), None);
    let mut v6 = header(17, 5, 28);
    v6[0] = 0x65;
    assert_eq!(parse_layout(&v6), None);
}

#[test]
fn packetizer_swaps_endpoints_with_options() {
    let mut p = header(17, 6, 32);
    p[12..16].copy_from_slice(&[1, 2, 3, 4]);
    p[16..20].copy_from_slice(&[5, 6, 7, 8]);
    p[20..24].copy_from_slice(&[9, 9, 9, 9]);
    p[24..28].copy_from_slice(&[0x11, 0x22, 0x33, 0x44]);
    let k = Packetizer::new(&p).unwrap();
    assert_eq!(k.transport(), Transport::Udp);
    let r = k.packetize(&[0xAA]).unwrap();
    assert_eq!(r.len(), 33);
    assert_eq!(&r[2..4], &[0, 33]);
    assert_eq!(&r[12..16], &[5, 6, 7, 8]);
    assert_eq!(&r[16..20], &[1, 2, 3, 4]);
    assert_eq!(&r[20..24], &[9, 9, 9, 9]);
    assert_eq!(&r[24..28], &[0x33, 0x44, 0x11, 0x22]);
    assert_eq!(&r[28..30], &[0, 9]);
    assert_eq!(r[32], 0xAA);
    assert_eq!(checksum(&r[0..24]), 0);
}

#[test]
fn packetizer_refuses_oversized_payload() {
    let k = Packetizer::new(&header(1, 5, 20)).unwrap();
    assert!(k.packetize(&vec![0u8; 65516]).is_none());
    assert_eq!(k.packetize(&vec![0u8; 65515]).unwrap().len(), 65535);
}

#[test]
fn raw_header_stripped() {
    let raw: Vec<u8> = (0..30).collect();
    assert_eq!(strip_raw_header(&raw), Some((20..30).collect::<Vec<u8>>()));
    assert_eq!(strip_raw_header(&raw[..20]), Some(Vec::new()));
    assert_eq!(strip_raw_header(&raw[..19]), None);
}

#[test]
fn icmp_header_views_cover_bytes() {
    let raw = [8u8, 0, 0, 0, 0, 7, 0, 1];
    let data = IcmpHeaderData::parse(&raw);
    let view: IcmpHeader = data.bind(&raw);
    assert_eq!(view.raw(), &raw);
    let mut bytes = raw;
    let mut data2 = IcmpHeaderData::parse(&bytes);
    {
        let mut m = data2.bind_mut(&mut bytes);
        m.raw_mut()[0] = 0;
        assert_eq!(m.raw()[0], 0);
        let _ = m.data_mut();
        let _ = m.data();
    }
    assert_eq!(bytes[0], 0);
}

#[test]
fn connection_id_of_udp_packet() {
    let mut p = header(17, 5, 28);
    p[12..16].copy_from_slice(&[10, 0, 0, 2]);
    p[16..20].copy_from_slice(&[8, 8, 8, 8]);
    p[20..24].copy_from_slice(&[0xd4, 0x31, 0, 53]);
    let id = ConnectionId::from_packet(&p).unwrap();
    assert_eq!(
        id,
        ConnectionId {
            transport: Transport::Udp,
            source_ip: 0x0a00_0002,
            source_port: 54321,
            destination_ip: 0x0808_0808,
            destination_port: 53,
        }
    );
}

#[test]
fn connection_id_of_icmp_echo_uses_identifier() {
    let mut p = header(1, 5, 30);
    p[12..16].copy_from_slice(&[10, 0, 0, 2]);
    p[16..20].copy_from_slice(&[1, 1, 1, 1]);
    p[20..28].copy_from_slice(&[8, 0, 0, 0, 0, 7, 0, 1]);
    let id = ConnectionId::from_packet(&p).unwrap();
    assert_eq!(id.transport, Transport::Icmp);
    assert_eq!(id.source_port, 7);
    assert_eq!(id.destination_port, 7);
    assert_eq!(id.destination_ip, 0x0101_0101);
    assert_eq!(ConnectionId::from_packet(&p[..27]), None);
    assert_eq!(ConnectionId::from_packet(&header(6, 5, 40)), None);
}
