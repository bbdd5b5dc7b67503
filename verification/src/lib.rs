//! An echo service over TCP, as a verified core.
//!
//! The crate holds the three parts that decide what the service does, each as
//! plain data in and plain data out:
//!
//! * [`message`]: the one-field message and its Protocol Buffers wire form,
//! * [`connection`]: what to do with each chunk read from one connection,
//! * [`server`]: when to poll for the next connection, when to wait, when to
//!   leave.
//!
//! Sockets, threads, clocks and logging stay with the caller, which performs
//! the actions these state machines hand out and reports back what happened.
//!
//! Two more modules carry the message's wire form: [`wire`] says in
//! specifications what the bytes of a field mean, and [`fields`] holds the
//! calls into `prost` that read and write them, whose contracts are trusted.

pub mod connection;
pub mod fields;
pub mod message;
pub mod server;
pub mod wire;
