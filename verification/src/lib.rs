//! In-line packet classification with an audit trail.
//!
//! The library covers the computational core of a packet wiretap: a
//! bounds-checked decoder for Ethernet/IPv4/IPv6/TCP/UDP headers on raw
//! frame bytes, a destination-address blocklist and the policy decision
//! derived from it, the packed wire record that carries each decision
//! from the packet path to the collector, the per-record decoding done
//! by the collector, count-or-time bounded batching, and the tabular
//! serialization of closed batches. Attaching the classifier to an
//! interface, draining the per-CPU channels and uploading batches are
//! left to the surrounding program.

pub mod addr;
pub mod batch;
pub mod blocklist;
pub mod bpfwall;
pub mod collector;
pub mod firewall;
pub mod packet_log;
pub mod protocol;
pub mod storage;
pub mod utils;
