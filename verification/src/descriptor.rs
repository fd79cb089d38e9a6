//! The descriptors, tickets and flight information that the protocol passes
//! between client and server, as plain values.
use vstd::prelude::*;

verus! {

/// How a descriptor names what it describes.
#[derive(Clone, Copy, Debug, PartialEq, Eq, Structural)]
pub enum DescriptorType {
    Unknown,
    /// By a path: a list of names, outermost first.
    Path,
    /// By an opaque command.
    Cmd,
}

/// What a request is about: a dataset, by its path, or a command.
#[derive(Clone, Debug)]
pub struct FlightDescriptor {
    pub kind: DescriptorType,
    pub cmd: Vec<u8>,
    pub path: Vec<String>,
}

/// Opaque bytes that a client hands back to obtain a result.
#[derive(Clone, Debug)]
pub struct Ticket {
    pub ticket: Vec<u8>,
}

/// Where a result can be fetched, and with which ticket.
#[derive(Clone, Debug)]
pub struct FlightEndpoint {
    pub ticket: Option<Ticket>,
    pub location: Vec<String>,
}

/// The answer to a request for information about a result.
#[derive(Clone, Debug)]
pub struct FlightInfo {
    pub schema: Vec<u8>,
    pub flight_descriptor: Option<FlightDescriptor>,
    pub endpoint: Vec<FlightEndpoint>,
    pub total_records: i64,
    pub total_bytes: i64,
    pub ordered: bool,
}

impl FlightDescriptor {
    /// A descriptor that names a dataset by its path.
    pub fn new_path(path: Vec<String>) -> (r: FlightDescriptor)
        ensures
            r.kind == DescriptorType::Path,
            r.cmd@ == Seq::<u8>::empty(),
            r.path == path,
    {
        FlightDescriptor { kind: DescriptorType::Path, cmd: Vec::new(), path }
    }

    /// A descriptor that carries a command.
    pub fn new_cmd(cmd: Vec<u8>) -> (r: FlightDescriptor)
        ensures
            r.kind == DescriptorType::Cmd,
            r.cmd == cmd,
            r.path@ == Seq::<String>::empty(),
    {
        FlightDescriptor { kind: DescriptorType::Cmd, cmd, path: Vec::new() }
    }
}

} // verus!
