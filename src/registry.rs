use vstd::prelude::*;

use crate::error::{Error, ErrorKind};
use crate::interest::Interest;
use crate::token::Token;

verus! {

/// A raw operating-system handle: a file descriptor or a socket.
pub type RawHandle = i64;

/// A value that owns a raw operating-system handle.
pub trait RawSource {
    /// The raw handle, for handing to a selector.
    fn raw_handle(&self) -> RawHandle;
}

/// A signal that makes a blocked wait of one selector return a readable
/// event under the token the signal was made with.
pub trait WakeSignal {
    /// Triggers the signal; fails only where writing to it fails.
    fn wake(&self) -> Result<(), Error>;
}

/// The platform's readiness selector (epoll, kqueue, completion ports).
pub trait Selector {
    /// The wake signal this selector allocates.
    type Signal: WakeSignal;

    /// The selector's identity; valid identities start at 1.
    fn id(&self) -> usize;

    fn register(&self, handle: RawHandle, token: Token, interests: Interest) -> Result<(), Error>;

    fn reregister(&self, handle: RawHandle, token: Token, interests: Interest) -> Result<(), Error>;

    fn deregister(&self, handle: RawHandle) -> Result<(), Error>;

    /// Allocates a wake signal bound to this selector and `token`.
    fn new_signal(&self, token: Token) -> Result<Self::Signal, Error>;
}

/// The identity that no selector has; it marks an unassociated handle.
pub const UNASSOCIATED: usize = 0;

/// A shared handle to a selector, with the selector's identity read once at
/// construction so that it stays the same for the registry's whole life.
pub struct Registry<S> {
    selector: S,
    id: usize,
}

impl<S> Registry<S> {
    #[verifier::type_invariant]
    spec fn inv(&self) -> bool {
        self.id != UNASSOCIATED
    }
}

impl<S: Selector> Registry<S> {
    /// The identity used for association bookkeeping.
    pub closed spec fn spec_id(&self) -> usize {
        self.id
    }

    pub closed spec fn spec_selector(&self) -> S {
        self.selector
    }

    /// A registry over `selector` with identity `id`; an identity of zero is
    /// rejected, since it marks a handle that is associated with no registry.
    pub fn with_id(selector: S, id: usize) -> (r: Result<Registry<S>, Error>)
        ensures
            id != UNASSOCIATED <==> r is Ok,
            r matches Ok(reg) ==> reg.spec_id() == id && reg.spec_selector() == selector,
            r matches Err(e) ==> e == Error::new(ErrorKind::InvalidInput),
    {
        if id == UNASSOCIATED {
            Err(Error::new(ErrorKind::InvalidInput))
        } else {
            Ok(Registry { selector, id })
        }
    }

    /// A registry over `selector`, under the identity the selector reports.
    pub fn new(selector: S) -> (r: Result<Registry<S>, Error>)
        ensures
            r matches Ok(reg) ==> reg.spec_id() != UNASSOCIATED && reg.spec_selector() == selector,
            r matches Err(e) ==> e == Error::new(ErrorKind::InvalidInput),
    {
        let id = selector.id();
        Registry::with_id(selector, id)
    }

    pub fn id(&self) -> (id: usize)
        ensures
            id == self.spec_id(),
            id != UNASSOCIATED,
    {
        proof { use_type_invariant(self); }
        self.id
    }

    pub fn selector(&self) -> (s: &S)
        ensures
            *s == self.spec_selector(),
    {
        &self.selector
    }
}

} // verus!
