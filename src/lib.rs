//! Per-connection engine of a datagram relay: bounded outbound buffers,
//! readiness-interest bookkeeping, the process-tick state machine and the
//! synthesis of IPv4 response packets.

pub mod bytes;
pub mod connection;
pub mod connection_id;
pub mod icmp_header;
pub mod ipv4;
pub mod packetizer;
pub mod stream_buffer;
pub mod datagram_buffer;
