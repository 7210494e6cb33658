//! Session protocol for FTDI USB serial chips, kept free of I/O.
//!
//! The chip driver is a native library that answers every call with a signed
//! status. This crate holds everything that is decided around those calls:
//! which numeric selectors are handed to the driver, how each operation's
//! status is turned into a result, how modem status bits are decoded, how an
//! exact read is assembled from short reads, and when the driver context is
//! released. The caller performs the driver calls and passes their answers in
//! as plain values.

pub mod context;
pub mod error;
pub mod modem;
pub mod modes;
pub mod operation;
pub mod request;
pub mod transfer;

pub use context::Context;
pub use error::FtdiError;
pub use modem::{ModemFlag, ModemStatus};
pub use modes::{BitMode, FlowControl, Interface};
pub use operation::{interpret, outcome, DriverReply, Operation};
pub use request::Request;
pub use transfer::{admits, pending, ReadReply};
