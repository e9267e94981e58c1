//! A minimal ICMP echo ("ping") client library.
//!
//! The library holds the verified core of the client: wire-format
//! construction of ICMP Echo-Request probes for IPv4 and IPv6 with
//! their checksums, parsing of inbound reply headers, the per-probe
//! state machine that correlates replies by sequence number and keeps
//! the cumulative counters, and the rendering of round-trip times.
//! Raw-socket transport and command-line handling are left to the
//! surrounding program, which feeds plain values in and out.

pub mod checksum;
pub mod packet;
pub mod session;
pub mod render;
