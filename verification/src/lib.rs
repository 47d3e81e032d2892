//! Client side of the File Transfer Protocol, kept apart from the sockets.
//!
//! The session decides what is written to the control connection, how each
//! reply is read, and when a data connection is opened, filled or drained.
//! The caller owns the connections: it carries out each [`Action`] the session
//! hands out and reports what came of it as an [`Event`].
//!
//! ```text
//! let mut action = client.cd("/pub");
//! let outcome = loop {
//!     let event = match action {
//!         Action::Finish(outcome) => break outcome,
//!         Action::Exchange(line) => write_then_read(&line),
//!         other => carry_out(other),
//!     };
//!     action = client.advance(event);
//! };
//! ```

pub mod bytes;
pub mod client;
pub mod command;
pub mod error;
pub mod exchange;
pub mod laws;
pub mod listing;
pub mod number;
pub mod pasv;
pub mod reply;
pub mod session;
pub mod text;

pub use client::Client;
pub use error::Error;
pub use error::ErrorKind;
pub use exchange::Action;
pub use exchange::Event;
pub use exchange::Output;
pub use pasv::PassiveEndpoint;
