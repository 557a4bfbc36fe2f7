//! The handshake as a chain of states, each a type of its own.

use vstd::prelude::*;

verus! {

/// A state of the handshake.
pub trait State {}

/// A state that ends the handshake.
pub trait EndState {}

/// A move from one state to the next.
pub trait Transition<S: State>: State {
    fn to(self) -> S;
}

/// Ending the handshake.
pub trait Terminate: EndState {
    fn end(self);
}

/// The state in which the magic version is sent.
pub struct Magic;

impl Magic {
    pub fn new() -> (r: Self) {
        Magic {  }
    }
}

impl State for Magic {}

impl Transition<Identify> for Magic {
    fn to(self) -> (r: Identify)
        ensures
            !r.tls(),
            !r.auth(),
    {
        Identify::new(false, false)
    }
}

/// The state in which the client identifies itself: whether TLS and
/// authentication follow.
pub struct Identify {
    tls: bool,
    auth: bool,
}

impl Identify {
    /// A new identify state. Both flags start false, whatever is passed.
    pub fn new(tls: bool, auth: bool) -> (r: Self)
        ensures
            !r.tls(),
            !r.auth(),
    {
        Identify { tls: false, auth: false }
    }

    pub closed spec fn spec_tls(&self) -> bool {
        self.tls
    }

    pub closed spec fn spec_auth(&self) -> bool {
        self.auth
    }

    #[verifier::when_used_as_spec(spec_tls)]
    pub fn tls(&self) -> (r: bool)
        ensures
            r == self.spec_tls(),
    {
        self.tls
    }

    #[verifier::when_used_as_spec(spec_auth)]
    pub fn auth(&self) -> (r: bool)
        ensures
            r == self.spec_auth(),
    {
        self.auth
    }
}

impl State for Identify {}

} // verus!
