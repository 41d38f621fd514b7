//! Decoder for the binary telemetry files of remote weather-station
//! dataloggers, and the statements that store the decoded records.
//!
//! * `scalar`: the compact two-byte decimal encoding of a measurement.
//! * `data_parser`: the station's timestamps and the two record layouts
//!   that a file can hold.
//! * `database`: the lookup, update and insert statements for a record, and
//!   the choice between them.
//! * `station`: the stations, told apart by the names of their files.

pub mod scalar;
pub mod data_parser;
pub mod database;
pub mod station;
