//! Command construction and handshake sequencing for an IRC client.
//!
//! The crate turns caller intents ("join this channel", "identify", "send
//! this multi-line message") into protocol commands whose wire form is fixed
//! character by character, and hands them to a transport in the order the
//! protocol requires.
//!
//! - `command` holds the commands and their wire form, `mode` the grammar of
//!   mode changes, `text` the character-level pieces: parameters, the cut at
//!   line breaks, decimal numbers.
//! - `builder` has one function per intent, from arguments to commands.
//! - `server` has the transport's contract and the operations on it: each
//!   builds its commands and sends them in order, stopping at the first
//!   refusal. `outbox` and `link` are two transports, `config` and `clock`
//!   what identifying and pinging read.
//! - `lemmas` states what holds of the builders for all arguments.
//!
//! The layer keeps no state and starts no task. Every operation borrows the
//! transport exclusively for its whole sequence, so two sequences on one
//! connection cannot interleave. The CTCP operations are always present;
//! no switch turns them off.

pub mod text;
pub mod mode;
pub mod command;
pub mod config;
pub mod clock;
pub mod builder;
pub mod server;
pub mod outbox;
pub mod lemmas;
pub mod link;
