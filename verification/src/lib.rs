//! An authenticated, encrypted remote-operation protocol between two peers
//! that share a secret: the host, or controller, which sends operations, and
//! its one client, or agent, which carries them out and answers.
//!
//! - [`wire`]: how single values are written as bytes.
//! - [`operation`]: the operations and responses, and their encoding.
//! - [`cipher`]: encryption under the shared secret.
//! - [`stream`]: the secure channel, which frames and encrypts.
//! - [`handshake`]: how a client is recognised before anything else is sent.
//! - [`session`]: the two state machines and the alternation of operation
//!   and response.
//! - [`console`], [`config`], [`keygen`], [`install`]: what the programs
//!   around the protocol decide: the operator's commands, the configuration,
//!   new keys, and where the client is installed.
//!
//! The library performs no input or output. It says which bytes to send and
//! what the bytes that came mean; the programs move them.

pub mod cipher;
pub mod config;
pub mod console;
pub mod handshake;
pub mod install;
pub mod keygen;
pub mod operation;
pub mod session;
pub mod stream;
pub mod wire;
