//! Runs a script on a microcontroller that hosts an embedded scripting
//! runtime, through the runtime's raw execution mode and its flow-controlled
//! bulk-paste transfer.
//!
//! The protocol is a set of state machines that decide and never block:
//! `session::Session` asks for an `protocol::Action` (write, read, wait, ask
//! what is pending) and takes back the `protocol::Event` that the transport
//! saw. Whoever holds the serial port runs that loop.
use vstd::prelude::*;

pub mod discovery;
pub mod idle;
pub mod pattern;
pub mod protocol;
pub mod session;
pub mod transfer;

verus! {

} // verus!
