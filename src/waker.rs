use vstd::prelude::*;

use crate::error::Error;
use crate::registry::{Registry, Selector, WakeSignal};
use crate::token::Token;

verus! {

/// Wakes a blocked wait of one registry from any thread: after [`Waker::wake`]
/// the wait returns a readable event under the waker's token.
///
/// Events are only delivered while the waker is alive, and several wakes
/// before the wait sees them may come as one event. Only one waker per
/// registry is supported; share it (for example through an `Arc`) where
/// several threads need it.
pub struct Waker<W> {
    inner: W,
    token: Token,
    registry_id: usize,
}

impl<W: WakeSignal> Waker<W> {
    /// The token of the events this waker causes.
    pub closed spec fn spec_token(&self) -> Token {
        self.token
    }

    /// The identity of the registry whose wait this waker interrupts.
    pub closed spec fn spec_registry_id(&self) -> usize {
        self.registry_id
    }

    /// A waker for `registry` whose events carry `token`; fails where the
    /// selector cannot allocate the signal, with the selector's error.
    pub fn new<S: Selector<Signal = W>>(registry: &Registry<S>, token: Token) -> (r: Result<
        Waker<W>,
        Error,
    >)
        ensures
            r matches Ok(w) ==> w.spec_token() == token && w.spec_registry_id()
                == registry.spec_id(),
    {
        match registry.selector().new_signal(token) {
            Ok(inner) => Ok(Waker { inner, token, registry_id: registry.id() }),
            Err(e) => Err(e),
        }
    }

    /// Makes the registry's current or next wait return; fails only where the
    /// signal cannot be written.
    pub fn wake(&self) -> (r: Result<(), Error>) {
        self.inner.wake()
    }

    pub fn token(&self) -> (t: Token)
        ensures
            t == self.spec_token(),
    {
        self.token
    }

    pub fn registry_id(&self) -> (id: usize)
        ensures
            id == self.spec_registry_id(),
    {
        self.registry_id
    }
}

} // verus!
