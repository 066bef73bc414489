//! Host side of the alleycat protocol: the messages exchanged with paired
//! clients, the pairing payload, and the decisions a host takes on each
//! connection and stream.

pub mod host;
pub mod listener;
pub mod outside;
pub mod protocol;
pub mod session;
pub mod stream;
pub mod stream_laws;
pub mod stream_runs;
pub mod text;
