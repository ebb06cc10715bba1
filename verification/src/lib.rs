//! Verified core of a live match radar: the snapshot data model, the rules a
//! polling producer applies between memory reads, the byte patch toggled at a
//! scanned code site, and the per-client broadcast protocol.
//!
//! Everything here works on plain values. Reading the target process, the
//! clock, the shared lock and the network are the caller's business: the
//! caller performs them and hands the results in.

pub mod text;
pub mod structs;
pub mod enums;
pub mod comms;
pub mod dma;
pub mod pattern;
pub mod money_reveal;
pub mod websocket;
