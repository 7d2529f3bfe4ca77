//! Framed request/response transport for Nebula Graph over the Thrift binary protocol.
//!
//! A Thrift message carries no length, so the end of a response has to be found by
//! trying to read one: after every read the accumulated bytes are shown to a
//! [`response_handler::ResponseHandler`], until it finds a complete message at their
//! start or a limit of the [`configuration`] is passed. [`call`] holds that exchange as
//! a state machine without I/O, [`exchange`] says what whole exchanges come to, and
//! [`transport`] runs them on a stream.
//!
//! The handlers of the services are in [`v1`], [`v2`] and [`graph_client`]; they read
//! messages with fbthrift, through [`thrift`]. [`session`] and [`pool`] decide when a
//! connection is of no more use, [`scan`] prepares a scan of the storage service, and
//! [`de`] and [`value`] hold the rows that come back and what they are turned into.

pub mod call;
pub mod configuration;
pub mod de;
pub mod error;
pub mod exchange;
pub mod graph_client;
pub mod io_error;
pub mod pool;
pub mod response_handler;
pub mod scan;
pub mod session;
pub mod text;
pub mod thrift;
pub mod transport;
pub mod v1;
pub mod v2;
pub mod value;
pub mod version;
