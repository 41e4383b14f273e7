//! A single-route media-fetching reverse proxy, verified where it decides.
//!
//! The proxy receives a base64-encoded target URL, validates it (base64,
//! UTF-8, URL shape, host presence, scheme allow-list), fetches the target,
//! gates on the upstream status and content type, and relays the body.
//! Everything that decides — validation and the upstream gate — lives here
//! with contracts; the surrounding HTTP server and the outbound fetch are
//! plain I/O left to the binary around the library.

pub mod codec;
pub mod errors;
pub mod handler;
