//! The core of a live-video gateway, verified with Verus.
//!
//! Cameras are pulled from, their access units are rewritten into a
//! start-code stream, and the frames are fanned out to viewers that
//! negotiate their connections over HTTP. This crate holds what is decided
//! and computed on that way, with contracts that Verus proves:
//!
//! - `bytes`, `annexb`, `params`, `frame`: the bitstream, from a
//!   length-prefixed access unit and a codec's configuration record to the
//!   payload of a frame;
//! - `source`: the steps of one stream's ingestion;
//! - `bus`, `sink`: the bounded, lossy bus of a stream and the one
//!   subscriber that feeds its outbound track;
//! - `config`, `streamdef`, `appcontext`, `registry`, `viewer`, `reply`:
//!   the configured streams, the live sessions, a viewer's negotiation and
//!   the answers of the signalling layer;
//! - `loglevel`, `text`: names of log verbosities, and comparing texts;
//! - `trusted`: the calls into other crates, whose contracts are believed
//!   and not proved.

pub mod error;
pub mod bytes;
pub mod annexb;
pub mod params;
pub mod frame;
pub mod registry;
pub mod config;
pub mod streamdef;
pub mod text;
pub mod source;
pub mod sink;
pub mod viewer;
pub mod reply;
pub mod loglevel;
pub mod trusted;
pub mod bus;
pub mod appcontext;
