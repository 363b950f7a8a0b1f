use vstd::prelude::*;

use crate::error::{Error, ErrorKind};
use crate::interest::Interest;
use crate::registry::{RawSource, Registry, Selector, UNASSOCIATED};
use crate::token::Token;

verus! {

/// Registering with `registry` from association `state`: allowed only from
/// no association, and then leads to an association with `registry`.
pub open spec fn associate_step(state: usize, registry: usize) -> Result<usize, ErrorKind> {
    if state == UNASSOCIATED {
        Ok(registry)
    } else {
        Err(ErrorKind::AlreadyExists)
    }
}

/// Reregistering with `registry` from association `state`: allowed only when
/// associated with that very registry, and leaves the association as it is.
pub open spec fn check_step(state: usize, registry: usize) -> Result<usize, ErrorKind> {
    if state == registry {
        Ok(state)
    } else if state == UNASSOCIATED {
        Err(ErrorKind::NotFound)
    } else {
        Err(ErrorKind::AlreadyExists)
    }
}

/// Deregistering from `registry` from association `state`: allowed only when
/// associated with that very registry, and then leads to no association.
pub open spec fn remove_step(state: usize, registry: usize) -> Result<usize, ErrorKind> {
    if state == registry {
        Ok(UNASSOCIATED)
    } else {
        Err(ErrorKind::NotFound)
    }
}

/// The association after `n` rounds of registering with and then
/// deregistering from `registry`, starting from `state`, or the first error.
pub open spec fn register_deregister_rounds(state: usize, registry: usize, n: nat) -> Result<
    usize,
    ErrorKind,
>
    decreases n,
{
    if n == 0 {
        Ok(state)
    } else {
        match register_deregister_rounds(state, registry, (n - 1) as nat) {
            Err(k) => Err(k),
            Ok(s) => match associate_step(s, registry) {
                Err(k) => Err(k),
                Ok(t) => remove_step(t, registry),
            },
        }
    }
}

/// Any number of rounds of register then deregister with one registry, from
/// no association, succeeds and ends with no association; registering once
/// more then succeeds too.
pub proof fn lemma_register_deregister_rounds(registry: usize, n: nat)
    requires
        registry != UNASSOCIATED,
    ensures
        register_deregister_rounds(UNASSOCIATED, registry, n) == Ok::<usize, ErrorKind>(
            UNASSOCIATED,
        ),
        associate_step(UNASSOCIATED, registry) == Ok::<usize, ErrorKind>(registry),
    decreases n,
{
    if n > 0 {
        lemma_register_deregister_rounds(registry, (n - 1) as nat);
    }
}

/// A source associated with one registry cannot be registered with another:
/// the attempt fails with `AlreadyExists` and, by the contract of
/// `IoSource::register`, leaves the association as it was.
pub proof fn lemma_register_with_second_registry(first: usize, second: usize)
    requires
        first != UNASSOCIATED,
        second != UNASSOCIATED,
        first != second,
    ensures
        associate_step(first, second) == Err::<usize, ErrorKind>(ErrorKind::AlreadyExists),
{
}

/// Deregistering a source that was never registered, or from a registry it is
/// not associated with, fails with `NotFound` and, by the contract of
/// `IoSource::deregister`, changes nothing.
pub proof fn lemma_deregister_unmatched(state: usize, registry: usize)
    requires
        registry != UNASSOCIATED,
        state != registry,
    ensures
        remove_step(state, registry) == Err::<usize, ErrorKind>(ErrorKind::NotFound),
{
}

/// Reregistering a source that is associated with no registry fails with
/// `NotFound`.
pub proof fn lemma_reregister_unassociated(registry: usize)
    requires
        registry != UNASSOCIATED,
    ensures
        check_step(UNASSOCIATED, registry) == Err::<usize, ErrorKind>(ErrorKind::NotFound),
{
}

/// Settles an association change that a selector was asked to carry out:
/// the selector's `outcome` is returned unchanged, and the association is
/// `next` where the selector accepted and stays `before` where it failed.
pub fn settle_registration(before: usize, next: usize, outcome: Result<(), Error>) -> (res: (
    usize,
    Result<(), Error>,
))
    ensures
        res.1 == outcome,
        res.0 == (if outcome is Ok {
            next
        } else {
            before
        }),
{
    if outcome.is_ok() {
        (next, outcome)
    } else {
        (before, outcome)
    }
}

/// Which selector an I/O source is associated with, if any.
struct SelectorId {
    id: usize,
}

impl SelectorId {
    fn new() -> (s: SelectorId)
        ensures
            s.id == UNASSOCIATED,
    {
        SelectorId { id: UNASSOCIATED }
    }

    /// Associates with `registry`, or fails where already associated.
    fn associate<S: Selector>(&mut self, registry: &Registry<S>) -> (r: Result<(), Error>)
        ensures
            registry.spec_id() != UNASSOCIATED,
            match associate_step(old(self).id, registry.spec_id()) {
                Ok(next) => r is Ok && final(self).id == next,
                Err(k) => r == Err::<(), Error>(Error::new(k)) && final(self).id == old(self).id,
            },
    {
        let registry_id = registry.id();
        if self.id == UNASSOCIATED {
            self.id = registry_id;
            Ok(())
        } else {
            Err(Error::new(ErrorKind::AlreadyExists))
        }
    }

    /// Checks that the association is with `registry`.
    fn check_association<S: Selector>(&self, registry: &Registry<S>) -> (r: Result<(), Error>)
        ensures
            registry.spec_id() != UNASSOCIATED,
            match check_step(self.id, registry.spec_id()) {
                Ok(_) => r is Ok,
                Err(k) => r == Err::<(), Error>(Error::new(k)),
            },
    {
        let registry_id = registry.id();
        if self.id == registry_id {
            Ok(())
        } else if self.id == UNASSOCIATED {
            Err(Error::new(ErrorKind::NotFound))
        } else {
            Err(Error::new(ErrorKind::AlreadyExists))
        }
    }

    /// Ends the association with `registry`, or fails where there is none.
    fn remove_association<S: Selector>(&mut self, registry: &Registry<S>) -> (r: Result<(), Error>)
        ensures
            registry.spec_id() != UNASSOCIATED,
            match remove_step(old(self).id, registry.spec_id()) {
                Ok(next) => r is Ok && final(self).id == next,
                Err(k) => r == Err::<(), Error>(Error::new(k)) && final(self).id == old(self).id,
            },
    {
        let registry_id = registry.id();
        if self.id == registry_id {
            self.id = UNASSOCIATED;
            Ok(())
        } else {
            Err(Error::new(ErrorKind::NotFound))
        }
    }
}

/// Adapter that owns an I/O value with a raw handle, registers that handle
/// with a selector, and keeps track of which registry it is associated with.
///
/// Every operation on the value that can report "would block" goes through
/// [`IoSource::do_io`].
pub struct IoSource<T> {
    inner: T,
    selector_id: SelectorId,
}

impl<T> IoSource<T> {
    /// The wrapped I/O value.
    pub closed spec fn io(&self) -> T {
        self.inner
    }

    /// The identity of the registry the source is associated with, or
    /// `UNASSOCIATED`.
    pub closed spec fn association(&self) -> usize {
        self.selector_id.id
    }

    /// Wraps `io`, associated with no registry.
    pub fn new(io: T) -> (s: IoSource<T>)
        ensures
            s.io() == io,
            s.association() == UNASSOCIATED,
    {
        IoSource { inner: io, selector_id: SelectorId::new() }
    }

    /// Runs the I/O operation `f` on the wrapped value and returns its result
    /// unchanged, a "would block" error included.
    ///
    /// Rearming after a "would block" result is left to the selector, which
    /// reports readiness again on the handle's next change of state.
    pub fn do_io<F, R>(&self, f: F) -> (r: Result<R, Error>)
        where
            F: FnOnce(&T) -> Result<R, Error>,
        requires
            f.requires((&self.io(),)),
        ensures
            f.ensures((&self.io(),), r),
    {
        f(&self.inner)
    }

    /// Gives back the wrapped value and drops the bookkeeping; deregister
    /// first so that no more events come for it.
    pub fn into_inner(self) -> (io: T)
        ensures
            io == self.io(),
    {
        self.inner
    }

    /// The identity of the registry the source is associated with, or
    /// `UNASSOCIATED`.
    pub fn associated_registry(&self) -> (id: usize)
        ensures
            id == self.association(),
    {
        self.selector_id.id
    }
}

/// Read access to the wrapped value. Operations that may block go through
/// [`IoSource::do_io`] instead.
impl<T> core::ops::Deref for IoSource<T> {
    type Target = T;

    fn deref(&self) -> (r: &T)
        ensures
            *r == self.io(),
    {
        &self.inner
    }
}

/// Write access to the wrapped value. Operations that may block go through
/// [`IoSource::do_io`] instead.
impl<T> core::ops::DerefMut for IoSource<T> {
    fn deref_mut(&mut self) -> (r: &mut T)
        ensures
            *r == old(self).io(),
            final(self).io() == *final(r),
            final(self).association() == old(self).association(),
    {
        &mut self.inner
    }
}

impl<T: RawSource> IoSource<T> {
    /// Registers the wrapped handle with `registry` under `token` for
    /// `interests`.
    ///
    /// Fails with `AlreadyExists`, changing nothing, where the source is
    /// associated with a registry already. Otherwise hands the handle to the
    /// selector: the source is then associated with `registry` exactly when the
    /// selector accepted it.
    pub fn register<S: Selector>(
        &mut self,
        registry: &Registry<S>,
        token: Token,
        interests: Interest,
    ) -> (r: Result<(), Error>)
        ensures
            registry.spec_id() != UNASSOCIATED,
            final(self).io() == old(self).io(),
            match associate_step(old(self).association(), registry.spec_id()) {
                Err(k) => r == Err::<(), Error>(Error::new(k))
                    && final(self).association() == old(self).association(),
                Ok(next) => final(self).association() == (if r is Ok {
                    next
                } else {
                    old(self).association()
                }),
            },
    {
        let before = self.selector_id.id;
        match self.selector_id.associate(registry) {
            Err(e) => Err(e),
            Ok(()) => {
                let handle = self.inner.raw_handle();
                let next = self.selector_id.id;
                let outcome = registry.selector().register(handle, token, interests);
                let (state, r) = settle_registration(before, next, outcome);
                self.selector_id.id = state;
                r
            },
        }
    }

    /// Changes the token and interests of the wrapped handle's registration
    /// with `registry`.
    ///
    /// Fails with `NotFound` where the source is associated with no registry,
    /// and with `AlreadyExists` where it is associated with another one;
    /// otherwise hands the handle to the selector. The association never
    /// changes.
    pub fn reregister<S: Selector>(
        &mut self,
        registry: &Registry<S>,
        token: Token,
        interests: Interest,
    ) -> (r: Result<(), Error>)
        ensures
            registry.spec_id() != UNASSOCIATED,
            final(self).io() == old(self).io(),
            final(self).association() == old(self).association(),
            check_step(old(self).association(), registry.spec_id()) matches Err(k)
                ==> r == Err::<(), Error>(Error::new(k)),
    {
        match self.selector_id.check_association(registry) {
            Err(e) => Err(e),
            Ok(()) => {
                let handle = self.inner.raw_handle();
                registry.selector().reregister(handle, token, interests)
            },
        }
    }

    /// Removes the wrapped handle's registration with `registry`.
    ///
    /// Fails with `NotFound`, changing nothing, where the source is not
    /// associated with `registry`. Otherwise hands the handle to the selector:
    /// the source is then associated with no registry exactly when the
    /// selector accepted it.
    pub fn deregister<S: Selector>(&mut self, registry: &Registry<S>) -> (r: Result<(), Error>)
        ensures
            registry.spec_id() != UNASSOCIATED,
            final(self).io() == old(self).io(),
            match remove_step(old(self).association(), registry.spec_id()) {
                Err(k) => r == Err::<(), Error>(Error::new(k))
                    && final(self).association() == old(self).association(),
                Ok(next) => final(self).association() == (if r is Ok {
                    next
                } else {
                    old(self).association()
                }),
            },
    {
        let before = self.selector_id.id;
        match self.selector_id.remove_association(registry) {
            Err(e) => Err(e),
            Ok(()) => {
                let handle = self.inner.raw_handle();
                let next = self.selector_id.id;
                let outcome = registry.selector().deregister(handle);
                let (state, r) = settle_registration(before, next, outcome);
                self.selector_id.id = state;
                r
            },
        }
    }
}

} // verus!
