//! Discovery of power-inverter devices on an IPv4 subnet, and the rendering of
//! their telemetry as label-tagged metric text.
//!
//! The crate holds the decisions of the pipeline as verified functions on
//! plain values. It opens no socket and keeps no time: the caller sends the
//! requests, waits, and hands back what came of it.
//!
//! Discovery, from a range to the set of devices:
//! - [`network`] reads a range in CIDR notation and enumerates its usable host
//!   addresses, lowest first;
//! - [`probe`] says how a candidate address is asked, and which answers make
//!   it a device;
//! - [`discovery`] collects the devices of a sweep, holds the latest set of
//!   them, and drives the cycle of sweep, publication and rest.
//!
//! Aggregation, from the set of devices to the text of a response:
//! - [`telemetry`] names the three sub-queries for a device, joins their
//!   outcomes, and merges the payloads into the device's record;
//! - [`json`] and [`decode`] look up the sections of a payload and read their
//!   fields; [`models`] holds the records;
//! - [`aggregate`] plans a pass, picks at most one primary and one secondary
//!   record, and renders them;
//! - [`format`] writes a record as metric lines.
//!
//! [`address`] and [`text`] hold what the others write: addresses, URLs,
//! decimal numbers and quoted label values.

pub mod address;
pub mod aggregate;
pub mod decode;
pub mod discovery;
pub mod format;
pub mod json;
pub mod models;
pub mod network;
pub mod probe;
pub mod telemetry;
pub mod text;
