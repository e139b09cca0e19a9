//! The instrument board: a fixed registry of instruments under unique string
//! keys, established once at construction.

use vstd::prelude::*;
use crate::instrument::Instrument;
use crate::listener::Listener;
use crate::ser::{Encoder, frame_value, null_value, spec_frame, spec_null};

verus! {

/// An error that might occur when serializing an instrument's reading.
#[derive(Debug)]
pub enum ReadError<E> {
    /// The instrument was found but its value failed to encode.
    SerializationError(E),
    /// No instrument is registered under the requested key.
    NotFound,
}

/// An instrument board: a named aggregate of instruments exposing
/// lookup-by-name serialization, key enumeration, and bulk listener wiring.
/// The spec functions name the registered keys and the wiring state that the
/// operations' contracts are stated over. [`Board`] is the built-in
/// implementation.
pub trait Instruments<T: Clone, L: Listener> {
    /// The registered keys, in registration order.
    spec fn keys(&self) -> Seq<Seq<char>>;

    /// The registry invariant: one instrument per key, and no key twice.
    spec fn ready(&self) -> bool;

    /// No listener has been wired yet.
    spec fn unwired(&self) -> bool;

    /// Every instrument carries its key as its name and has a listener.
    spec fn wired(&self) -> bool;

    /// Serializes the current reading of the instrument registered under
    /// `key` if it is present, and fails with `NotFound` exactly when it is
    /// not. An encoder failure is wrapped as `SerializationError`, so a
    /// caller can tell "unknown key" from "known key, encode failed".
    fn serialize_reading<E: Encoder<T>>(&self, key: &str, encoder: &E) -> (r: Result<
        Vec<u8>,
        ReadError<E::Error>,
    >)
        requires
            self.ready(),
        ensures
            r matches Err(ReadError::NotFound) <==> !self.keys().contains(key@),
            r matches Ok(b) ==> b@ == spec_frame(spec_null()) || (exists|v: T|
                encoder.encodes(v) && b@ == spec_frame(encoder.model(v))),
            r matches Err(ReadError::SerializationError(_)) ==> (exists|v: T|
                !encoder.encodes(v)),
    ;

    /// The list of registered keys, in registration order; stable across
    /// calls.
    fn instrument_names(&self) -> (r: Vec<String>)
        ensures
            r@.len() == self.keys().len(),
            forall|k: int| 0 <= k < r@.len() ==> r@[k]@ == self.keys()[k],
    ;

    /// Wires `listener` onto every instrument, in registration order, giving
    /// each its registration key as its name. Each wiring notifies the
    /// listener with that instrument's name once, so wiring a board produces
    /// one initial notification per instrument, in registration order. If
    /// never used, no update notifications are delivered. Wiring happens at
    /// most once per board, which the precondition reflects.
    fn wire_listener(&mut self, listener: L)
        requires
            old(self).ready(),
            old(self).unwired(),
        ensures
            final(self).ready(),
            final(self).wired(),
            final(self).keys() == old(self).keys(),
    ;
}

/// A fixed mapping from string key to instrument. Keys are unique,
/// case-sensitive, compared by exact equality, and enumerate in registration
/// order. After construction no instrument is added or removed.
#[verifier::reject_recursive_types(T)]
pub struct Board<T, L: Listener> {
    pub names: Vec<String>,
    pub instruments: Vec<Instrument<T, L>>,
}

impl<T, L: Listener> Board<T, L> {
    /// The registered keys, in registration order.
    pub open spec fn spec_names(&self) -> Seq<Seq<char>> {
        self.names@.map_values(|n: String| n@)
    }

    /// One instrument per key, and no key registered twice.
    pub open spec fn wf(&self) -> bool {
        &&& self.names@.len() == self.instruments@.len()
        &&& forall|i: int, j: int|
            0 <= i < j < self.spec_names().len() ==> self.spec_names()[i] != self.spec_names()[j]
    }

    /// Whether some instrument is registered under `name`.
    pub open spec fn contains_name(&self, name: Seq<char>) -> bool {
        self.spec_names().contains(name)
    }

    /// No listener has been wired yet.
    pub open spec fn all_unwired(&self) -> bool {
        forall|i: int| 0 <= i < self.instruments@.len() ==> self.instruments@[i].unwired()
    }

    /// Every instrument carries its registration key as its name and has a
    /// listener attached.
    pub open spec fn all_wired(&self) -> bool {
        forall|i: int|
            0 <= i < self.instruments@.len() ==> (#[trigger] self.instruments@[i]).wired()
                && self.instruments@[i].spec_name() == Some(self.spec_names()[i])
    }

    /// An empty board, ready for registration.
    pub fn new() -> (r: Self)
        ensures
            r.wf(),
            r.spec_names() == Seq::<Seq<char>>::empty(),
            r.all_unwired(),
    {
        let r = Board { names: Vec::new(), instruments: Vec::new() };
        proof {
            assert(r.spec_names() =~= Seq::<Seq<char>>::empty());
        }
        r
    }

    /// Registers `instrument` under `name`, at the end of the enumeration
    /// order. Part of board construction: keys are unique and instruments are
    /// wired later, all at once, which the preconditions reflect.
    pub fn register(&mut self, name: &str, instrument: Instrument<T, L>)
        requires
            old(self).wf(),
            old(self).all_unwired(),
            !old(self).contains_name(name@),
            instrument.unwired(),
        ensures
            final(self).wf(),
            final(self).all_unwired(),
            final(self).spec_names() == old(self).spec_names().push(name@),
    {
        self.names.push(name.to_owned());
        self.instruments.push(instrument);
        proof {
            assert(self.spec_names() =~= old(self).spec_names().push(name@));
            assert forall|i: int, j: int|
                0 <= i < j < self.spec_names().len() implies self.spec_names()[i]
                != self.spec_names()[j] by {
                if j < self.spec_names().len() - 1 {
                    assert(old(self).spec_names()[i] != old(self).spec_names()[j]);
                } else {
                    assert(self.spec_names()[j] == name@);
                    if self.spec_names()[i] == name@ {
                        assert(old(self).spec_names()[i] == name@);
                        assert(old(self).spec_names().contains(name@));
                    }
                }
            }
        }
    }

}

impl<T: Clone, L: Listener> Instruments<T, L> for Board<T, L> {
    open spec fn keys(&self) -> Seq<Seq<char>> {
        self.spec_names()
    }

    open spec fn ready(&self) -> bool {
        self.wf()
    }

    open spec fn unwired(&self) -> bool {
        self.all_unwired()
    }

    open spec fn wired(&self) -> bool {
        self.all_wired()
    }

    fn instrument_names(&self) -> (r: Vec<String>) {
        let mut result: Vec<String> = Vec::new();
        let mut i: usize = 0;
        while i < self.names.len()
            invariant
                i <= self.names@.len(),
                result@.len() == i as nat,
                forall|k: int| 0 <= k < i ==> result@[k]@ == self.names@[k]@,
            decreases self.names@.len() - i,
        {
            result.push(self.names[i].clone());
            i += 1;
        }
        proof {
            assert(result@.map_values(|n: String| n@) =~= self.spec_names());
        }
        result
    }

    /// The snapshot is encoded and wrapped in the `{"value":` ... `}`
    /// envelope. A poisoned instrument serializes as `null`, like an
    /// unreadable value.
    fn serialize_reading<E: Encoder<T>>(&self, key: &str, encoder: &E) -> (r: Result<
        Vec<u8>,
        ReadError<E::Error>,
    >) {
        let owned_key = key.to_owned();
        let mut i: usize = 0;
        while i < self.names.len()
            invariant
                self.wf(),
                i <= self.names@.len(),
                owned_key@ == key@,
                forall|k: int| 0 <= k < i ==> self.names@[k]@ != key@,
            decreases self.names@.len() - i,
        {
            if self.names[i] == owned_key {
                proof {
                    assert(self.spec_names()[i as int] == key@);
                    assert(self.contains_name(key@));
                }
                let body = match self.instruments[i].read() {
                    Ok(value) => match encoder.encode(&value) {
                        Ok(encoded) => encoded,
                        Err(e) => {
                            return Err(ReadError::SerializationError(e));
                        },
                    },
                    Err(_) => null_value(),
                };
                return Ok(frame_value(body));
            }
            i += 1;
        }
        proof {
            assert forall|k: int| 0 <= k < self.spec_names().len() implies self.spec_names()[k]
                != key@ by {
                assert(self.spec_names()[k] == self.names@[k]@);
            }
        }
        Err(ReadError::NotFound)
    }

    fn wire_listener(&mut self, listener: L)
        ensures
            final(self).names == old(self).names,
            forall|i: int|
                0 <= i < final(self).instruments@.len() ==> (#[trigger] final(self).instruments@[i]).data
                    == old(self).instruments@[i].data,
    {
        let ghost original = *old(self);
        proof {
            assert(self.instruments@ =~= original.instruments@.skip(0));
        }
        let mut wired: Vec<Instrument<T, L>> = Vec::new();
        let mut i: usize = 0;
        while i < self.names.len()
            invariant
                self.names == original.names,
                self.names@.len() == original.instruments@.len(),
                i <= self.names@.len(),
                self.instruments@ == original.instruments@.skip(i as int),
                forall|k: int| 0 <= k < i ==> original.instruments@[k].unwired(),
                forall|k: int|
                    i <= k < original.instruments@.len() ==> original.instruments@[k].unwired(),
                wired@.len() == i as nat,
                forall|k: int|
                    0 <= k < i ==> (#[trigger] wired@[k]).wired() && wired@[k].spec_name() == Some(
                        original.names@[k]@,
                    ) && wired@[k].data == original.instruments@[k].data,
            decreases self.names@.len() - i,
        {
            let mut instrument = self.instruments.remove(0);
            instrument.set_name_and_listener(self.names[i].as_str(), listener.clone());
            wired.push(instrument);
            proof {
                assert(self.instruments@ =~= original.instruments@.skip(i as int + 1));
            }
            i += 1;
        }
        self.instruments = wired;
        proof {
            assert(self.spec_names() =~= original.spec_names());
        }
    }
}

} // verus!
