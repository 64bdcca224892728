//! The persistence capability: the `Persisting` trait a domain type
//! implements to gain load/store/dirty-tracking behaviour, the
//! `Persistence` record it carries when backed by storage, the
//! `PersistenceProvider` backend abstraction, and the uniform
//! `PersistenceError` envelope.

use std::io::Write;

use vstd::pervasive::unreached;
use vstd::prelude::*;

verus! {

/// Uniform error envelope for backend failures: carries a human-readable
/// description of the underlying cause. It is built only through
/// [`PersistenceError::with`], never from raw parts.
#[derive(Debug, Clone)]
pub struct PersistenceError {
    detail: String,
}

impl View for PersistenceError {
    type V = Seq<char>;

    closed spec fn view(&self) -> Seq<char> {
        self.detail@
    }
}

impl PersistenceError {
    /// Wraps a backend failure described by `detail`.
    pub fn with(detail: String) -> (r: Self)
        ensures
            r@ == detail@,
    {
        PersistenceError { detail }
    }

    /// The human-readable description of the wrapped failure.
    pub fn detail(&self) -> (r: &String)
        ensures
            r@ == self@,
    {
        &self.detail
    }
}

/// Backend capability a storage medium implements to load and store a value
/// of type `T`. Backends are opaque to the abstraction: nothing is assumed
/// of either call beyond its type, so an implementation is free to fail any
/// load or store. Implementations must be safely usable from several
/// threads at once.
pub trait PersistenceProvider<T>: Send + Sync {
    /// Produces a fully constructed value of `T` from whatever durable
    /// representation the backend manages. Any backend failure (not found,
    /// unreadable, undecodable) is a reported error, never a panic.
    fn load(&self) -> Result<T, PersistenceError>;

    /// Durably persists the current state of `object`. Safe to call
    /// repeatedly.
    fn store(&self, object: &T) -> Result<(), PersistenceError>;
}

/// The persistence state an object carries while it is backed by storage:
/// the dirty flag, the autosave policy, and the exclusively owned backend of
/// type `P`. A record is created only by [`Persistence::load`],
/// [`Persistence::attach`] or [`Persisting::make_persistent`], lives inside
/// the single object it backs, and is discarded with that object or replaced
/// when the object is rebound to another backend.
pub struct Persistence<P> {
    /// True if the in-memory state may differ from the last stored state.
    pub dirty: bool,
    /// True if every dirtying mutation should trigger an immediate store
    /// attempt.
    pub autosave: bool,
    /// The backend this record is bound to.
    pub provider: P,
}

/// Whether a slot value marks its object as needing a flush: a backed object
/// by its dirty flag; a transient object always (there is nothing stored to
/// compare against, so it is dirty by convention).
pub open spec fn dirty_of<P>(slot: Option<Persistence<P>>) -> bool {
    match slot {
        Some(p) => p.dirty,
        None => true,
    }
}

/// Whether a slot value carries an enabled autosave policy: false for a
/// transient object.
pub open spec fn autosave_of<P>(slot: Option<Persistence<P>>) -> bool {
    match slot {
        Some(p) => p.autosave,
        None => false,
    }
}

/// The slot after a dirtying mark: a backed slot with its dirty flag set, a
/// transient slot unchanged.
pub open spec fn marked_slot<P>(slot: Option<Persistence<P>>) -> Option<Persistence<P>> {
    match slot {
        Some(p) => Some(Persistence { dirty: true, autosave: p.autosave, provider: p.provider }),
        None => None,
    }
}

/// The slot after a store attempt whose outcome was `ok`: a success makes a
/// backed slot clean, a failure leaves the slot exactly as it was, so a
/// later explicit flush can retry.
pub open spec fn stored_slot<P>(slot: Option<Persistence<P>>, ok: bool) -> Option<Persistence<P>> {
    match slot {
        Some(p) => Some(
            Persistence { dirty: p.dirty && !ok, autosave: p.autosave, provider: p.provider },
        ),
        None => None,
    }
}

/// A transient object is observed as neither persisted nor autosaving, and
/// as needing a flush: with no backend attached there is nothing stored to
/// compare its state against.
pub proof fn lemma_transient_observation<T: Persisting>(object: &T)
    requires
        object.slot() is None,
    ensures
        !(object.slot() is Some),
        !autosave_of(object.slot()),
        dirty_of(object.slot()),
{
}

/// Marking a backed object dirty and then succeeding at the store attempt
/// leaves the binding clean again, with the autosave policy and the provider
/// it had: a successful autosave round-trips a backed object to clean.
pub proof fn lemma_mark_then_successful_store_is_clean<P>(slot: Option<Persistence<P>>)
    requires
        slot is Some,
    ensures
        (slot matches Some(p) ==> stored_slot(marked_slot(slot), true) == Some(
            (Persistence { dirty: false, autosave: p.autosave, provider: p.provider }),
        )),
        !dirty_of(stored_slot(marked_slot(slot), true)),
{
}

/// Marking a backed object dirty and then failing at the store attempt
/// leaves the binding dirty, with the autosave policy and the provider it
/// had, so a later explicit store can retry the flush.
pub proof fn lemma_mark_then_failed_store_stays_dirty<P>(slot: Option<Persistence<P>>)
    requires
        slot is Some,
    ensures
        (slot matches Some(p) ==> stored_slot(marked_slot(slot), false) == Some(
            (Persistence { dirty: true, autosave: p.autosave, provider: p.provider }),
        )),
        dirty_of(stored_slot(marked_slot(slot), false)),
{
}

/// Relies on `std::io::Stderr`'s `std::io::Write::write_fmt` (through
/// `writeln!`): best-effort emission of one human-readable diagnostic line
/// on the standard error stream; the write's own outcome is deliberately
/// ignored.
#[verifier::external_body]
fn report_to_stderr(operation: &str, detail: &String) {
    let _ = writeln!(
        std::io::stderr(),
        "Unable to autosave a dirty object on Persisting::{} call. Details: {}",
        operation,
        detail,
    );
}

/// The capability a domain type implements to opt into durable storage. The
/// type supplies the slot primitives (`persistence`, `take_persistence`,
/// `put_persistence`) together with the ghost view of its slot; every other
/// behaviour — load, store, dirty marking, autosave, rebinding — is provided
/// on top of them and verified here once for all implementors.
///
/// Observable states of an object, through its slot: transient (slot is
/// `None`) and backed (slot is `Some`); a backed object is clean or dirty by
/// the record's dirty flag, and the autosave policy is an independent flag.
pub trait Persisting: Sized {
    /// The backend type this domain type is stored through. Backends of this
    /// type are interchangeable at runtime: each binding owns the provider
    /// value the caller of `load` or `make_persistent` chose.
    type Provider: PersistenceProvider<Self>;

    /// The persistence slot as a mathematical value: `None` while the object
    /// is transient, `Some` while it is backed.
    spec fn slot(&self) -> Option<Persistence<Self::Provider>>;

    /// The object with its persistence slot disregarded: its domain state.
    /// Two objects with equal `detached` views carry the same domain state.
    spec fn detached(&self) -> Self;

    /// Read access to the slot's contents when backed.
    fn persistence(&self) -> (r: Option<&Persistence<Self::Provider>>)
        ensures
            (match r {
                Some(p) => self.slot() == Some(*p),
                None => self.slot() is None,
            }),
    ;

    /// Removes and returns the slot's contents, leaving the object transient
    /// and its domain state untouched.
    fn take_persistence(&mut self) -> (r: Option<Persistence<Self::Provider>>)
        ensures
            r == old(self).slot(),
            final(self).slot() is None,
            final(self).detached() == old(self).detached(),
    ;

    /// Replaces the slot's contents, leaving the domain state untouched.
    fn put_persistence(&mut self, persistence: Option<Persistence<Self::Provider>>)
        ensures
            final(self).slot() == persistence,
            final(self).detached() == old(self).detached(),
    ;

    /// Where swallowed store failures are reported: `operation` names the
    /// call that attempted the flush, `error` the backend failure. The
    /// default writes one line to the standard error stream; an implementor
    /// may route diagnostics to a sink of its own instead.
    fn report_store_failure(&self, operation: &str, error: &PersistenceError) {
        report_to_stderr(operation, error.detail());
    }

    /// Obtains the object from `provider` and binds it to that backend,
    /// clean, with the given autosave policy; a backend failure is
    /// propagated and no object is returned. A freshly loaded object is
    /// clean by construction: its in-memory state equals what was just read
    /// from storage.
    fn load(provider: Self::Provider, autosave: bool) -> (r: Result<Self, PersistenceError>)
        ensures
            (r matches Ok(obj) ==> obj.slot() == Some(
                (Persistence { dirty: false, autosave, provider }),
            )),
    {
        match provider.load() {
            Ok(obj) => {
                let mut obj = obj;
                let _replaced = obj.take_persistence();
                obj.put_persistence(Some(Persistence { dirty: false, autosave, provider }));
                Ok(obj)
            },
            Err(e) => Err(e),
        }
    }

    /// True exactly while the object is backed by storage.
    fn is_persisted(&self) -> (r: bool)
        ensures
            r == (self.slot() is Some),
    {
        match self.persistence() {
            Some(_) => true,
            None => false,
        }
    }

    /// The flush gate: true while the in-memory state may differ from the
    /// last stored state, which is what [`Persisting::store`] tests before
    /// it talks to the backend. A transient object is dirty by convention.
    fn is_dirty(&self) -> (r: bool)
        ensures
            r == dirty_of(self.slot()),
    {
        match self.persistence() {
            Some(p) => p.dirty,
            None => true,
        }
    }

    /// True exactly while the object is backed and its binding autosaves.
    fn is_autosave(&self) -> (r: bool)
        ensures
            r == autosave_of(self.slot()),
    {
        match self.persistence() {
            Some(p) => p.autosave,
            None => false,
        }
    }

    /// Records the outcome of a store attempt in the slot: a success makes a
    /// backed object clean, a failure leaves the slot untouched. Both flush
    /// paths funnel through this, so what each outcome the backend can
    /// return does to the state is pinned here.
    fn note_store_outcome(&mut self, ok: bool)
        ensures
            final(self).detached() == old(self).detached(),
            final(self).slot() == stored_slot(old(self).slot(), ok),
    {
        match self.take_persistence() {
            Some(p) => {
                let mut p = p;
                if ok {
                    p.dirty = false;
                }
                self.put_persistence(Some(p));
            },
            None => {},
        }
    }

    /// Declares the in-memory state changed. On a backed object this sets
    /// the dirty flag and, if autosave is enabled, immediately attempts a
    /// store; a failure of that store is reported through
    /// [`Persisting::report_store_failure`] and swallowed, so this call
    /// never fails and the object stays dirty for a later explicit flush.
    /// On a transient object this is a no-op: transient objects are dirty
    /// by convention.
    fn mark_dirty(&mut self)
        ensures
            final(self).detached() == old(self).detached(),
            old(self).slot() is None ==> final(self).slot() is None,
            (old(self).slot() matches Some(p) && !p.autosave) ==> final(self).slot()
                == marked_slot(old(self).slot()),
            (old(self).slot() matches Some(p) && p.autosave) ==> (exists|ok: bool|
                final(self).slot() == stored_slot(marked_slot(old(self).slot()), ok)),
    {
        match self.take_persistence() {
            None => {},
            Some(p) => {
                let mut p = p;
                p.dirty = true;
                let autosave = p.autosave;
                self.put_persistence(Some(p));
                if autosave {
                    let outcome = match self.persistence() {
                        Some(q) => q.provider.store(self),
                        None => unreached(),
                    };
                    match outcome {
                        Ok(()) => {
                            self.note_store_outcome(true);
                            proof {
                                assert(self.slot() == stored_slot(
                                    marked_slot(old(self).slot()),
                                    true,
                                ));
                            }
                        },
                        Err(e) => {
                            self.report_store_failure("mark_dirty", &e);
                            proof {
                                assert(self.slot() == stored_slot(
                                    marked_slot(old(self).slot()),
                                    false,
                                ));
                            }
                        },
                    }
                }
            },
        }
    }

    /// Flushes the object if the dirty gate says it needs it: on a dirty,
    /// backed object the provider's store is attempted, and only a success
    /// clears the dirty flag; a failure is propagated to the caller with the
    /// flag still set, so the flush can be retried. On a clean object the
    /// backend is not consulted at all, and on a transient object there is
    /// no backend to flush to: both return success unchanged.
    fn store(&mut self) -> (r: Result<(), PersistenceError>)
        ensures
            final(self).detached() == old(self).detached(),
            old(self).slot() is None ==> r is Ok && final(self).slot() is None,
            (old(self).slot() matches Some(p) && !p.dirty) ==> r is Ok && final(self).slot()
                == old(self).slot(),
            (old(self).slot() matches Some(p) && p.dirty) ==> final(self).slot() == stored_slot(
                old(self).slot(),
                r is Ok,
            ),
    {
        if self.is_dirty() {
            let outcome = match self.persistence() {
                Some(p) => Some(p.provider.store(self)),
                None => None,
            };
            match outcome {
                None => Ok(()),
                Some(Ok(())) => {
                    self.note_store_outcome(true);
                    Ok(())
                },
                Some(Err(e)) => Err(e),
            }
        } else {
            Ok(())
        }
    }

    /// Triggers an explicit [`Persisting::store`] attempt; a failure is
    /// reported through [`Persisting::report_store_failure`] and swallowed,
    /// never propagated.
    fn set_autosave(&mut self)
        ensures
            final(self).detached() == old(self).detached(),
            old(self).slot() is None ==> final(self).slot() is None,
            (old(self).slot() matches Some(p) && !p.dirty) ==> final(self).slot()
                == old(self).slot(),
            (old(self).slot() matches Some(p) && p.dirty) ==> (exists|ok: bool|
                final(self).slot() == stored_slot(old(self).slot(), ok)),
    {
        match self.store() {
            Ok(()) => {},
            Err(e) => {
                self.report_store_failure("set_autosave", &e);
            },
        }
    }

    /// Binds `provider` to the object, discarding any previous binding
    /// without flushing to the old backend, and returns whether the object
    /// was already backed before the call — `false` for a first-time
    /// binding, `true` for a rebinding, whatever the autosave setting. The
    /// fresh binding starts dirty and is immediately flushed, so on success
    /// the object ends backed and clean, while a backend failure is
    /// propagated and leaves the object backed and dirty for a later retry.
    fn make_persistent(&mut self, provider: Self::Provider, autosave: bool) -> (r: Result<
        bool,
        PersistenceError,
    >)
        ensures
            final(self).detached() == old(self).detached(),
            (match r {
                Ok(was_persisted) => was_persisted == (old(self).slot() is Some)
                    && final(self).slot() == Some(
                    (Persistence { dirty: false, autosave, provider }),
                ),
                Err(_) => final(self).slot() == Some(
                    (Persistence { dirty: true, autosave, provider }),
                ),
            }),
    {
        let was_persisted = self.is_persisted();
        let _replaced = self.take_persistence();
        self.put_persistence(Some(Persistence { dirty: true, autosave, provider }));
        match self.store() {
            Ok(()) => Ok(was_persisted),
            Err(e) => Err(e),
        }
    }
}

impl<P> Persistence<P> {
    /// Asks `provider` to materialise the object, then attaches a fresh,
    /// clean persistence record bound to that provider; equivalent to
    /// [`Persisting::load`]. A backend failure is propagated unchanged and
    /// no partial object is returned.
    pub fn load<T: Persisting<Provider = P>>(provider: P, autosave: bool) -> (r: Result<
        T,
        PersistenceError,
    >)
        ensures
            (r matches Ok(obj) ==> obj.slot() == Some(
                (Persistence { dirty: false, autosave, provider }),
            )),
    {
        T::load(provider, autosave)
    }

    /// Installs a fresh, clean persistence record bound to `provider` into
    /// `object`, replacing whatever binding it had, and leaves the domain
    /// state untouched. This is where a value a backend materialised
    /// becomes a backed object.
    pub fn attach<T: Persisting<Provider = P>>(object: T, provider: P, autosave: bool) -> (r: T)
        ensures
            r.slot() == Some((Persistence { dirty: false, autosave, provider })),
            r.detached() == object.detached(),
    {
        let mut object = object;
        let _replaced = object.take_persistence();
        object.put_persistence(Some(Persistence { dirty: false, autosave, provider }));
        object
    }
}

/// A narrow capability for producing a duplicate of an object that
/// deliberately drops its persistence binding, so the duplicate is not
/// auto-wired to the original's backend.
pub trait CloneNoPersistence: Persisting {
    /// Produces a duplicate carrying the same domain state whose persistence
    /// slot is transient, whatever the source's binding; the source itself
    /// is left untouched.
    fn clone_no_persistence(&self) -> (r: Self)
        ensures
            r.slot() is None,
            r.detached() == self.detached(),
    ;
}

} // verus!
