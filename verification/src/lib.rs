//! A host-side control plane for one hardware-virtualized microVM process,
//! optionally inside a chroot jail. The library holds the verified logic:
//! the wire codec that frames requests and responses, the chroot strategies
//! that map host paths into the jail, the rollback stack that orders
//! compensating cleanup, the connect and receive rules of the socket agent,
//! the launch-option builders, and the instance lifecycle bookkeeping.
//! Process, socket and filesystem work is left to the caller, who carries
//! out exactly what these functions decide.

use vstd::prelude::*;

pub mod agent;
pub mod digits;
pub mod events;
pub mod firecracker;
pub mod fstack;
pub mod instance;
pub mod jailer;
pub mod models;
pub mod paths;

verus! {

/// The error taxonomy of the SDK: connection, protocol, configuration and
/// instance-state failures, each carrying a human-readable message.
#[derive(Debug)]
pub enum Error {
    IO(String),
    Agent(String),
    Configuration(String),
    Event(String),
    Instance(String),
}

impl Error {
    /// The message carried by this error.
    pub fn message(&self) -> (r: &String)
        ensures
            r@ == self.spec_message(),
    {
        match self {
            Error::IO(m) => m,
            Error::Agent(m) => m,
            Error::Configuration(m) => m,
            Error::Event(m) => m,
            Error::Instance(m) => m,
        }
    }

    pub open spec fn spec_message(&self) -> Seq<char> {
        match self {
            Error::IO(m) => m@,
            Error::Agent(m) => m@,
            Error::Configuration(m) => m@,
            Error::Event(m) => m@,
            Error::Instance(m) => m@,
        }
    }
}

} // verus!
