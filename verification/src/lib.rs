//! The core of a status feed for a physical space: a mostly static description
//! of the space merged with live sensor readings, and the handling of requests
//! that read the feed or update one reading.
//!
//! The library performs no input or output. Whoever embeds it fetches the
//! sensors' values from the key-value store and hands them over as plain
//! values, and carries out the writes that the library asks for.

pub mod api;
pub mod modifiers;
pub mod sensors;
pub mod templates;
pub mod server;
