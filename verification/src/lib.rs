//! A client library for the NSQ messaging protocol: frame encoding and
//! decoding, the command set, the connection's state and the handshake
//! decisions, the settings, and the producer's steps.

pub mod buffer;
pub mod client;
pub mod codec;
pub mod commands;
pub mod config;
pub mod conn;
pub mod error;
pub mod msgs;
pub mod producer;
pub mod state;
pub mod text;
pub mod wire;

pub use config::{Config, VerifyServerCert};
pub use conn::Conn;
pub use msgs::{Cls, Dpub, Fin, Mpub, Msg, NsqCmd, Pub, Requeue, Touch};
pub use producer::Producer;
