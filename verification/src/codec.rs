//! Wire codecs: framing and reassembly for the two dialects.
//!
//! - `op` frames operator <-> server messages;
//! - `c2` frames server <-> agent packets.
//!
//! Both share one discipline: a decoder consumes nothing until a whole frame
//! is buffered, rejects a declared length above the dialect's ceiling without
//! waiting for more bytes, and otherwise advances the buffer past exactly the
//! bytes of the frame it returns.


pub mod c2;
pub mod op;
