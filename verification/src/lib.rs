//! Core of a job-dispatch fabric: a server coordinates encrypted work items
//! ("jobs") with remote agents over an untrusted datagram transport, and an
//! operator console issues queries against the server.
//!
//! The verified core has three parts:
//! - a length-framed wire codec that reassembles frames from arbitrarily
//!   fragmented reads while bounding memory use (`api`, `codec`, `packet`);
//! - a cryptographic envelope giving each job end-to-end confidentiality and
//!   authenticity (`crypto`);
//! - the job/agent lifecycle state machine and registry the server uses to
//!   track what has been dispatched, delivered and completed (`server`).
//!
//! Socket I/O, persistence and the interactive console live outside this
//! library; they drive it through plain values.

pub mod api;
pub mod client;
pub mod codec;
pub mod crypto;
pub mod error;
pub mod jobs;
pub mod packet;
pub mod server;
