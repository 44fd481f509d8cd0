//! Socket disciplines of the message transport.

use vstd::prelude::*;

verus! {

/// How a socket of the message transport takes part in a stream.
#[derive(Clone, Copy, Debug, PartialEq, Eq, Structural)]
pub enum SocketDiscipline {
    /// Receives what a publisher broadcasts.
    Subscribe,
    /// Broadcasts to every subscriber.
    Publish,
    /// Takes messages that a pusher hands out.
    Pull,
    /// Hands messages out to pullers.
    Push,
}

impl SocketDiscipline {
    /// The discipline a producer needs so that a consumer of discipline `self`
    /// can read from it: a puller is fed by a pusher, every other consumer by a
    /// publisher.
    pub open spec fn complement_spec(self) -> SocketDiscipline {
        if self == SocketDiscipline::Pull {
            SocketDiscipline::Push
        } else {
            SocketDiscipline::Publish
        }
    }

    /// Returns the producing discipline that matches this consuming one.
    #[verifier::when_used_as_spec(complement_spec)]
    pub fn complement(self) -> (producer: SocketDiscipline)
        ensures
            producer == self.complement_spec(),
    {
        match self {
            SocketDiscipline::Pull => SocketDiscipline::Push,
            _ => SocketDiscipline::Publish,
        }
    }
}

} // verus!
