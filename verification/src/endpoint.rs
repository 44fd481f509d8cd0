//! Where a session connects to, and how that was found.

use vstd::prelude::*;
use crate::discipline::SocketDiscipline;
use crate::options::OptionsModel;

verus! {

/// The port that the debug source binds.
pub const DEBUG_PORT: u32 = 10300;

/// The time between two messages of the debug source, in milliseconds.
pub const DEBUG_INTERVAL_MS: u64 = 100;

/// The address of the debug source.
pub open spec fn loopback_address() -> Seq<char> {
    "tcp://127.0.0.1:10300"@
}

/// Returns the address of the debug source.
pub fn debug_address() -> (address: String)
    ensures
        address@ == loopback_address(),
{
    "tcp://127.0.0.1:10300".to_owned()
}

/// The three ways in which an endpoint is found.
#[derive(Clone, Copy, Debug, PartialEq, Eq, Structural)]
pub enum Provenance {
    /// The address was given.
    Literal,
    /// The dispatcher named the address for the channels asked for.
    Dispatcher,
    /// The address is that of the debug source.
    DebugLoopback,
}

/// What an endpoint is resolved from: one provenance, with the data it needs.
#[derive(Debug, PartialEq, Eq)]
pub enum EndpointSource {
    /// Use this address as it stands.
    Literal { address: String },
    /// Ask the dispatcher for a stream of these channels.
    Dispatcher { channels: Vec<String> },
    /// Use the address of the debug source.
    DebugLoopback,
}

/// The mathematical value of [`EndpointSource`].
pub enum SourceModel {
    Literal { address: Seq<char> },
    Dispatcher { channels: Seq<Seq<char>> },
    DebugLoopback,
}

impl View for EndpointSource {
    type V = SourceModel;

    open spec fn view(&self) -> SourceModel {
        match self {
            EndpointSource::Literal { address } => SourceModel::Literal { address: address@ },
            EndpointSource::Dispatcher { channels } => SourceModel::Dispatcher {
                channels: channels.deep_view(),
            },
            EndpointSource::DebugLoopback => SourceModel::DebugLoopback,
        }
    }
}

impl SourceModel {
    /// The provenance of every endpoint resolved from this source.
    pub open spec fn provenance(self) -> Provenance {
        match self {
            SourceModel::Literal { .. } => Provenance::Literal,
            SourceModel::Dispatcher { .. } => Provenance::Dispatcher,
            SourceModel::DebugLoopback => Provenance::DebugLoopback,
        }
    }

    /// The source that the options select. A given address wins; without one
    /// the debug source is used in debug mode, and the dispatcher otherwise.
    pub open spec fn of(options: OptionsModel) -> SourceModel {
        match options.url {
            Some(address) => SourceModel::Literal { address },
            None => if options.debug {
                SourceModel::DebugLoopback
            } else {
                SourceModel::Dispatcher { channels: options.channels }
            },
        }
    }
}

impl Clone for EndpointSource {
    fn clone(&self) -> (copy: EndpointSource)
        ensures
            copy@ == self@,
    {
        match self {
            EndpointSource::Literal { address } => EndpointSource::Literal {
                address: address.clone(),
            },
            EndpointSource::Dispatcher { channels } => EndpointSource::Dispatcher {
                channels: duplicate_names(channels),
            },
            EndpointSource::DebugLoopback => EndpointSource::DebugLoopback,
        }
    }
}

impl EndpointSource {
    /// Returns the provenance of every endpoint resolved from this source.
    pub fn provenance(&self) -> (provenance: Provenance)
        ensures
            provenance == self@.provenance(),
    {
        match self {
            EndpointSource::Literal { .. } => Provenance::Literal,
            EndpointSource::Dispatcher { .. } => Provenance::Dispatcher,
            EndpointSource::DebugLoopback => Provenance::DebugLoopback,
        }
    }
}

/// A resolved endpoint.
#[derive(Debug, PartialEq, Eq)]
pub struct Endpoint {
    /// The connection string.
    pub address: String,
    /// The discipline of the socket that connects to it.
    pub discipline: SocketDiscipline,
    /// How the address was found.
    pub provenance: Provenance,
}

/// The mathematical value of [`Endpoint`].
pub struct EndpointModel {
    pub address: Seq<char>,
    pub discipline: SocketDiscipline,
    pub provenance: Provenance,
}

impl View for Endpoint {
    type V = EndpointModel;

    open spec fn view(&self) -> EndpointModel {
        EndpointModel {
            address: self.address@,
            discipline: self.discipline,
            provenance: self.provenance,
        }
    }
}

impl Clone for Endpoint {
    fn clone(&self) -> (copy: Endpoint)
        ensures
            copy@ == self@,
    {
        Endpoint {
            address: self.address.clone(),
            discipline: self.discipline,
            provenance: self.provenance,
        }
    }
}

/// Returns a copy of a list of names.
pub fn duplicate_names(names: &Vec<String>) -> (copy: Vec<String>)
    ensures
        copy.deep_view() == names.deep_view(),
{
    let mut copy: Vec<String> = Vec::new();
    let mut i: usize = 0;
    while i < names.len()
        invariant
            i <= names.len(),
            copy.len() == i,
            forall|j: int| 0 <= j < i ==> copy@[j]@ == names@[j]@,
        decreases names.len() - i,
    {
        copy.push(names[i].clone());
        i = i + 1;
    }
    assert(copy.deep_view() =~= names.deep_view());
    copy
}

} // verus!
