//! A minimal HTTP capture library: every inbound request is turned into a
//! single-line text record and appended to an in-memory log whose text mirror
//! is meant to be kept, byte for byte, in an append-only file.
//!
//! The library holds the logic of such a service: deciding which paths are
//! reserved for the reading endpoints, formatting a record, appending it to
//! the log, and rendering the log as plain text or as an HTML page. The
//! surrounding HTTP server, the file itself and the console echo live outside.

mod clock;
pub mod log;
pub mod record;
pub mod text;
pub mod ui;
