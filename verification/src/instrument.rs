//! A single named, concurrently mutable, observable value cell.

use vstd::prelude::*;
use crate::UpdateError;
use crate::listener::Listener;
use crate::sync::SharedCell;

verus! {

/// A thread-safe, named value cell with update notification.
///
/// The value lives behind a reader/writer lock shared by every clone of the
/// instrument. `name` and `listener` are assigned once, when the instrument is
/// wired onto a board, and never change afterwards.
#[verifier::reject_recursive_types(T)]
pub struct Instrument<T, L: Listener> {
    /// The shared value. What it currently holds depends on every thread with
    /// a handle, so contracts cannot name it; `read` returns a snapshot.
    pub data: SharedCell<T>,
    /// The instrument's registered name, set once at wiring time.
    pub name: Option<String>,
    /// The wired notification capability, set once at wiring time.
    pub listener: Option<L>,
}

impl<T, L: Listener> Instrument<T, L> {
    /// The wired name, as a sequence of characters.
    pub open spec fn spec_name(&self) -> Option<Seq<char>> {
        match self.name {
            Some(n) => Some(n@),
            None => None,
        }
    }

    /// Not yet wired onto a board: no name, no listener.
    pub open spec fn unwired(&self) -> bool {
        self.name is None && self.listener is None
    }

    /// Wired onto a board: name and listener both assigned.
    pub open spec fn wired(&self) -> bool {
        self.name is Some && self.listener is Some
    }

    /// Creates a new, unwired instrument holding `data`.
    pub fn new(data: T) -> (r: Self)
        ensures
            r.unwired(),
    {
        Instrument { data: SharedCell::new(data), name: None, listener: None }
    }

    /// Sets the name of the instrument. For board wiring only: a name is
    /// assigned once and reassignment is a programming error, which the
    /// precondition rules out.
    pub fn set_name(&mut self, name: &str)
        requires
            old(self).name is None,
        ensures
            final(self).spec_name() == Some(name@),
            final(self).listener == old(self).listener,
            final(self).data == old(self).data,
    {
        self.name = Some(name.to_owned());
    }

    /// Sets the name and the listener of the instrument. For board wiring
    /// only: both are assigned once, and the precondition rules out
    /// reassignment. As a side effect the listener is notified with `name`
    /// once, synchronously, before this returns, so the first observer sees at
    /// least one notification even if the value never changes.
    pub fn set_name_and_listener(&mut self, name: &str, listener: L)
        requires
            old(self).unwired(),
        ensures
            final(self).wired(),
            final(self).spec_name() == Some(name@),
            final(self).listener == Some(listener),
            final(self).data == old(self).data,
    {
        listener.instrument_updated(name);
        self.name = Some(name.to_owned());
        self.listener = Some(listener);
    }

    /// A snapshot of the current value, or `PoisonedData` when the lock is in
    /// a poisoned state because a prior holder terminated abnormally. Which
    /// value comes back depends on the other threads sharing the cell, so the
    /// contract cannot pin it down.
    pub fn read(&self) -> (r: Result<T, UpdateError>) where T: Clone
        ensures
            r matches Err(e) ==> e == UpdateError::PoisonedData,
    {
        match self.data.snapshot() {
            Ok(value) => Ok(value),
            Err(()) => Err(UpdateError::PoisonedData),
        }
    }

    /// Replaces the value with `f` applied to it, under exclusive access, then
    /// — if a listener is wired — notifies it with the instrument's name.
    /// Fails with `PoisonedData` exactly when the lock cannot be acquired
    /// cleanly; when acquisition succeeds the mutation is never dropped. The
    /// mutator must accept every value: other threads may have changed the
    /// cell by the time the lock is acquired.
    pub fn update<F: Fn(&T) -> T>(&self, f: F) -> (r: Result<(), UpdateError>)
        requires
            forall|v: T| f.requires((&v,)),
        ensures
            r matches Err(e) ==> e == UpdateError::PoisonedData,
    {
        match self.data.modify(f) {
            Ok(()) => {
                match (&self.listener, &self.name) {
                    (Some(l), Some(n)) => l.instrument_updated(n.as_str()),
                    _ => (),
                }
                Ok(())
            },
            Err(()) => Err(UpdateError::PoisonedData),
        }
    }
}

impl<T, L: Listener> Clone for Instrument<T, L> {
    /// A second handle to the same cell: the clone shares the value and keeps
    /// the wiring state.
    fn clone(&self) -> (r: Self)
        ensures
            r.data == self.data,
            r.spec_name() == self.spec_name(),
            (r.listener is Some) == (self.listener is Some),
    {
        let name = match &self.name {
            Some(n) => Some(n.clone()),
            None => None,
        };
        let listener = match &self.listener {
            Some(l) => Some(l.clone()),
            None => None,
        };
        Instrument { data: self.data.share(), name: name, listener: listener }
    }
}

impl<T: Default, L: Listener> Default for Instrument<T, L> {
    /// A new, unwired instrument holding `T`'s default value.
    fn default() -> (r: Self)
        ensures
            r.unwired(),
    {
        Instrument::new(T::default())
    }
}

} // verus!
