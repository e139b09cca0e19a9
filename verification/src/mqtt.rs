//! The publisher: a single-consumer loop that turns "instrument X changed"
//! notifications into deduplicated publish calls against an external sink,
//! with graceful shutdown.
//!
//! The loop deliberately re-reads the instrument's current state instead of
//! carrying a value in the message: updates that arrive faster than the
//! consumer drains are coalesced, so the work is bounded by the number of
//! distinct instruments touched, not by the update count. Deduplication is by
//! equality of the encoded bytes of consecutive snapshots of one instrument.

use vstd::prelude::*;
use crate::board::{Board, Instruments};
use crate::listener::Listener;
use crate::ser::Encoder;
use crate::sync::{channel_pair, channel_recv, channel_send, channel_sender_share};

verus! {

/// Publisher control messages.
pub enum Message {
    /// The instrument with this name has been updated.
    Update(String),
    /// Shutdown was requested.
    Shutdown,
}

/// An error surfaced by the sink's publish operation.
#[derive(Clone, Copy, Debug, PartialEq, Eq, Structural)]
pub struct TransportError;

/// A condition that terminates the publisher's run loop.
#[derive(Clone, Copy, Debug, PartialEq, Eq, Structural)]
pub enum RunError {
    /// The sink's publish call failed; not retried here.
    Transport(TransportError),
    /// The control queue broke without an explicit shutdown: every sending
    /// half was destroyed. Never expected in correct usage.
    ChannelBroken,
}

/// What the run loop does with one message.
#[derive(Clone, Copy, Debug, PartialEq, Eq, Structural)]
pub enum Step {
    /// Keep consuming messages.
    Continue,
    /// Shutdown was received: the loop exits.
    Stop,
}

/// A trait for formatting an instrument name into a full topic name.
pub trait TopicFormatter {
    /// The topic under which snapshots of the instrument named `name` are
    /// published.
    spec fn topic_model(&self, name: Seq<char>) -> Seq<char>;

    fn format_topic(&self, name: &str) -> (r: String)
        ensures
            r@ == self.topic_model(name@),
    ;
}

/// `()` as a [`TopicFormatter`] simply returns the instrument name as the
/// topic.
impl TopicFormatter for () {
    open spec fn topic_model(&self, name: Seq<char>) -> Seq<char> {
        name
    }

    fn format_topic(&self, name: &str) -> (r: String) {
        name.to_owned()
    }
}

/// One publish operation a sink has accepted.
pub struct PublishRecord {
    pub topic: Seq<char>,
    pub payload: Seq<u8>,
    pub retain: bool,
}

/// The external publish destination, e.g. an already-connected broker client.
/// Reconnection and retry policy belong to the implementation, not to the
/// publisher.
pub trait Sink {
    /// The publish operations this sink has accepted so far, in order.
    spec fn published(&self) -> Seq<PublishRecord>;

    /// Publishes `payload` under `topic`; `retain` asks the sink to preserve
    /// the last payload for late subscribers. Accepts exactly the calls that
    /// return `Ok`.
    fn publish(&mut self, topic: &str, payload: &[u8], retain: bool) -> (r: Result<
        (),
        TransportError,
    >)
        ensures
            r is Ok ==> final(self).published() == old(self).published().push(
                PublishRecord { topic: topic@, payload: payload@, retain },
            ),
            r is Err ==> final(self).published() == old(self).published(),
    ;
}

/// An in-memory sink: accepted publish operations are appended to a vector,
/// in order. While `accept` is false every call is rejected with a transport
/// error and nothing is recorded, the way a broken broker connection would
/// behave.
pub struct MemorySink {
    pub records: Vec<(String, Vec<u8>, bool)>,
    pub accept: bool,
}

impl MemorySink {
    /// An empty sink that accepts every publish operation.
    pub fn new() -> (r: Self)
        ensures
            r.published() == Seq::<PublishRecord>::empty(),
            r.accept,
    {
        let r = MemorySink { records: Vec::new(), accept: true };
        proof {
            assert(r.published() =~= Seq::<PublishRecord>::empty());
        }
        r
    }

    /// An empty sink that rejects every publish operation.
    pub fn rejecting() -> (r: Self)
        ensures
            r.published() == Seq::<PublishRecord>::empty(),
            !r.accept,
    {
        let r = MemorySink { records: Vec::new(), accept: false };
        proof {
            assert(r.published() =~= Seq::<PublishRecord>::empty());
        }
        r
    }
}

impl Sink for MemorySink {
    open spec fn published(&self) -> Seq<PublishRecord> {
        self.records@.map_values(
            |r: (String, Vec<u8>, bool)| PublishRecord { topic: r.0@, payload: r.1@, retain: r.2 },
        )
    }

    fn publish(&mut self, topic: &str, payload: &[u8], retain: bool) -> (r: Result<
        (),
        TransportError,
    >)
        ensures
            r is Ok <==> old(self).accept,
            final(self).accept == old(self).accept,
    {
        if self.accept {
            let record = (topic.to_owned(), vstd::slice::slice_to_vec(payload), retain);
            self.records.push(record);
            proof {
                assert(self.published() =~= old(self).published().push(
                    PublishRecord { topic: topic@, payload: payload@, retain },
                ));
            }
            Ok(())
        } else {
            Err(TransportError)
        }
    }
}

/// Whether a fresh snapshot of instrument `name` must be published, given the
/// last published bytes per instrument: yes exactly when nothing was published
/// for `name` yet, or the bytes differ from the last published ones.
pub open spec fn should_publish(
    last: Map<Seq<char>, Seq<u8>>,
    name: Seq<char>,
    payload: Seq<u8>,
) -> bool {
    !(last.contains_key(name) && last[name] == payload)
}

/// The dedup state after a snapshot of `name` has been processed: the stored
/// bytes are unconditionally overwritten.
pub open spec fn recorded(
    last: Map<Seq<char>, Seq<u8>>,
    name: Seq<char>,
    payload: Seq<u8>,
) -> Map<Seq<char>, Seq<u8>> {
    last.insert(name, payload)
}

/// Deduplication: once a snapshot of `name` has been recorded, an identical
/// consecutive snapshot is not published again, while a differing one is.
pub proof fn lemma_dedup(
    last: Map<Seq<char>, Seq<u8>>,
    name: Seq<char>,
    first: Seq<u8>,
    second: Seq<u8>,
)
    ensures
        !should_publish(recorded(last, name, first), name, first),
        second != first ==> should_publish(recorded(last, name, first), name, second),
{
}

/// The messages the run loop acts on as updates: exactly those delivered
/// strictly before the first `Shutdown`.
pub open spec fn processed_prefix(messages: Seq<Message>) -> Seq<Message>
    decreases messages.len(),
{
    if messages.len() == 0 {
        Seq::empty()
    } else if messages[0] is Shutdown {
        Seq::empty()
    } else {
        seq![messages[0]] + processed_prefix(messages.skip(1))
    }
}

/// Shutdown semantics over a delivered message sequence: the loop handles the
/// delivered messages in order up to, and not including, the first `Shutdown`,
/// and it stops there — a message delivered after the first `Shutdown` is
/// never acted upon.
pub proof fn lemma_processed_prefix(messages: Seq<Message>)
    ensures
        processed_prefix(messages).len() <= messages.len(),
        forall|j: int|
            0 <= j < processed_prefix(messages).len() ==> processed_prefix(messages)[j]
                == messages[j] && !(messages[j] is Shutdown),
        processed_prefix(messages).len() < messages.len() ==> messages[processed_prefix(
            messages,
        ).len() as int] is Shutdown,
    decreases messages.len(),
{
    if messages.len() == 0 {
    } else if messages[0] is Shutdown {
    } else {
        lemma_processed_prefix(messages.skip(1));
        assert forall|j: int|
            0 <= j < processed_prefix(messages).len() implies processed_prefix(messages)[j]
            == messages[j] && !(messages[j] is Shutdown) by {
            if j > 0 {
                assert(processed_prefix(messages)[j] == processed_prefix(messages.skip(1))[j - 1]);
                assert(messages.skip(1)[j - 1] == messages[j]);
            }
        }
    }
}

/// A `Shutdown` at position `i` bounds what the loop handles: no message at or
/// beyond `i` is acted upon.
pub proof fn lemma_shutdown_boundary(messages: Seq<Message>, i: int)
    requires
        0 <= i < messages.len(),
        messages[i] is Shutdown,
    ensures
        processed_prefix(messages).len() <= i,
{
    lemma_processed_prefix(messages);
    if processed_prefix(messages).len() > i {
        assert(!(messages[i] is Shutdown));
    }
}

/// The names registered under a board's keys together with the last published
/// payload for each: the publisher's dedup state. Populated lazily and never
/// cleared, bounded by the fixed instrument count.
pub struct LastMessages {
    names: Vec<String>,
    payloads: Vec<Vec<u8>>,
}

impl View for LastMessages {
    type V = Map<Seq<char>, Seq<u8>>;

    closed spec fn view(&self) -> Map<Seq<char>, Seq<u8>> {
        entries_map(self.names@, self.payloads@)
    }
}

/// The mapping an association list denotes; later entries win.
spec fn entries_map(names: Seq<String>, payloads: Seq<Vec<u8>>) -> Map<Seq<char>, Seq<u8>>
    decreases names.len(),
{
    if names.len() == 0 {
        Map::empty()
    } else {
        entries_map(names.drop_last(), payloads.drop_last()).insert(
            names.last()@,
            payloads.last()@,
        )
    }
}

/// No key occurs twice.
spec fn unique_names(names: Seq<String>) -> bool {
    forall|i: int, j: int| 0 <= i < j < names.len() ==> names[i]@ != names[j]@
}

proof fn lemma_entries_found(names: Seq<String>, payloads: Seq<Vec<u8>>, i: int)
    requires
        names.len() == payloads.len(),
        unique_names(names),
        0 <= i < names.len(),
    ensures
        entries_map(names, payloads).contains_key(names[i]@),
        entries_map(names, payloads)[names[i]@] == payloads[i]@,
    decreases names.len(),
{
    if i < names.len() - 1 {
        lemma_entries_found(names.drop_last(), payloads.drop_last(), i);
        assert(names[i]@ != names.last()@);
    }
}

proof fn lemma_entries_absent(names: Seq<String>, payloads: Seq<Vec<u8>>, key: Seq<char>)
    requires
        names.len() == payloads.len(),
        forall|i: int| 0 <= i < names.len() ==> names[i]@ != key,
    ensures
        !entries_map(names, payloads).contains_key(key),
    decreases names.len(),
{
    if names.len() > 0 {
        lemma_entries_absent(names.drop_last(), payloads.drop_last(), key);
    }
}

proof fn lemma_entries_update(names: Seq<String>, payloads: Seq<Vec<u8>>, j: int, p: Vec<u8>)
    requires
        names.len() == payloads.len(),
        unique_names(names),
        0 <= j < names.len(),
    ensures
        entries_map(names, payloads.update(j, p)) == entries_map(names, payloads).insert(
            names[j]@,
            p@,
        ),
    decreases names.len(),
{
    let updated = payloads.update(j, p);
    if j == names.len() - 1 {
        assert(updated.drop_last() =~= payloads.drop_last());
        assert(entries_map(names, updated) =~= entries_map(names, payloads).insert(names[j]@, p@));
    } else {
        assert(updated.drop_last() =~= payloads.drop_last().update(j, p));
        lemma_entries_update(names.drop_last(), payloads.drop_last(), j, p);
        assert(names[j]@ != names.last()@);
        assert(entries_map(names, updated) =~= entries_map(names, payloads).insert(names[j]@, p@));
    }
}

proof fn lemma_entries_push(names: Seq<String>, payloads: Seq<Vec<u8>>, n: String, p: Vec<u8>)
    requires
        names.len() == payloads.len(),
    ensures
        entries_map(names.push(n), payloads.push(p)) == entries_map(names, payloads).insert(n@, p@),
{
    assert(names.push(n).drop_last() =~= names);
    assert(payloads.push(p).drop_last() =~= payloads);
}

/// Compares two byte vectors for equality.
fn bytes_eq(a: &Vec<u8>, b: &Vec<u8>) -> (r: bool)
    ensures
        r == (a@ == b@),
{
    if a.len() != b.len() {
        return false;
    }
    let mut i: usize = 0;
    while i < a.len()
        invariant
            a@.len() == b@.len(),
            i <= a@.len(),
            forall|k: int| 0 <= k < i ==> a@[k] == b@[k],
        decreases a@.len() - i,
    {
        if a[i] != b[i] {
            return false;
        }
        i += 1;
    }
    proof {
        assert(a@ =~= b@);
    }
    true
}

/// Copies a byte vector.
fn copy_bytes(v: &Vec<u8>) -> (r: Vec<u8>)
    ensures
        r@ == v@,
{
    vstd::slice::slice_to_vec(v.as_slice())
}

impl LastMessages {
    /// One payload per name, and no name stored twice.
    pub closed spec fn wf(&self) -> bool {
        &&& self.names@.len() == self.payloads@.len()
        &&& unique_names(self.names@)
    }

    /// An empty dedup state: nothing published yet.
    pub fn new() -> (r: Self)
        ensures
            r.wf(),
            r@ == Map::<Seq<char>, Seq<u8>>::empty(),
    {
        LastMessages { names: Vec::new(), payloads: Vec::new() }
    }

    /// Records that `payload` is now the last processed snapshot for `name`,
    /// unconditionally overwriting the stored bytes, and reports whether the
    /// snapshot had to be published: yes exactly when `name` was absent or its
    /// stored bytes differed.
    pub fn record(&mut self, name: &str, payload: &Vec<u8>) -> (changed: bool)
        requires
            old(self).wf(),
        ensures
            final(self).wf(),
            changed == should_publish(old(self)@, name@, payload@),
            final(self)@ == recorded(old(self)@, name@, payload@),
    {
        let key = name.to_owned();
        let mut i: usize = 0;
        while i < self.names.len()
            invariant
                self.wf(),
                *self == *old(self),
                i <= self.names@.len(),
                key@ == name@,
                forall|k: int| 0 <= k < i ==> self.names@[k]@ != name@,
            decreases self.names@.len() - i,
        {
            if self.names[i] == key {
                proof {
                    lemma_entries_found(self.names@, self.payloads@, i as int);
                }
                if bytes_eq(&self.payloads[i], payload) {
                    proof {
                        assert(old(self)@ =~= recorded(old(self)@, name@, payload@));
                    }
                    return false;
                } else {
                    let fresh = copy_bytes(payload);
                    self.payloads[i] = fresh;
                    proof {
                        lemma_entries_update(
                            self.names@,
                            old(self).payloads@,
                            i as int,
                            self.payloads@[i as int],
                        );
                    }
                    return true;
                }
            }
            i += 1;
        }
        proof {
            lemma_entries_absent(self.names@, self.payloads@, name@);
        }
        let ghost names_before = self.names@;
        let ghost payloads_before = self.payloads@;
        let fresh = copy_bytes(payload);
        self.names.push(key);
        self.payloads.push(fresh);
        proof {
            lemma_entries_push(
                names_before,
                payloads_before,
                self.names@.last(),
                self.payloads@.last(),
            );
            assert forall|a: int, b: int|
                0 <= a < b < self.names@.len() implies self.names@[a]@ != self.names@[b]@ by {
                if b < self.names@.len() - 1 {
                    assert(names_before[a]@ != names_before[b]@);
                } else {
                    assert(names_before[a]@ != name@);
                }
            }
        }
        true
    }
}

/// Running publisher handle: a cloneable sending half of the control queue.
/// It doubles as the listener wired onto the board and as the shutdown
/// trigger.
pub struct Handle {
    sender: std::sync::mpsc::Sender<Message>,
}

impl Handle {
    /// The sending half this handle puts messages on: two handles with equal
    /// senders feed the same control queue.
    pub closed spec fn spec_sender(&self) -> std::sync::mpsc::Sender<Message> {
        self.sender
    }
}

impl Clone for Handle {
    /// A second sending half of the same control queue.
    fn clone(&self) -> (r: Self)
        ensures
            r == *self,
    {
        Handle { sender: channel_sender_share(&self.sender) }
    }
}

impl Handle {
    /// Asks the publisher to shut down. Callable from any thread, any number
    /// of times; only the first delivered request has an observable effect. A
    /// send can fail only once the publisher is already gone — then there is
    /// nothing left to shut down, so the request is absorbed rather than
    /// treated as a fault.
    pub fn shutdown(&self) {
        let _ = channel_send(&self.sender, Message::Shutdown);
    }
}

impl Listener for Handle {
    /// Forwards the update notification into the control queue. Delivery is
    /// fire-and-forget. A send can fail only once the receiving half — the
    /// publisher, the sole observer — has been destroyed, a programming error
    /// in this design; a verified function must not panic, so the lost
    /// notification is absorbed: there is no one left to notify.
    fn instrument_updated(&self, name: &str) {
        let _ = channel_send(&self.sender, Message::Update(name.to_owned()));
    }
}

impl<T> Board<T, Handle> {
    /// Wires a publisher handle onto every instrument, in registration order,
    /// giving each its registration key as its name; each wiring notifies the
    /// handle with that instrument's name once, so one initial notification
    /// per instrument is enqueued, in registration order. Unlike the generic
    /// [`Instruments::wire_listener`], whose contract cannot speak about what
    /// cloning an arbitrary listener yields, this wiring pins the listeners
    /// down: every instrument ends up holding exactly `handle`, so all
    /// notifications feed the same control queue.
    pub fn wire_handle(&mut self, handle: Handle)
        requires
            old(self).wf(),
            old(self).all_unwired(),
        ensures
            final(self).wf(),
            final(self).all_wired(),
            final(self).spec_names() == old(self).spec_names(),
            final(self).names == old(self).names,
            forall|i: int|
                0 <= i < final(self).instruments@.len() ==> (#[trigger] final(self).instruments@[i]).data
                    == old(self).instruments@[i].data,
            forall|i: int|
                0 <= i < final(self).instruments@.len() ==> (#[trigger] final(self).instruments@[i]).listener
                    == Some(handle),
    {
        let ghost original = *old(self);
        proof {
            assert(self.instruments@ =~= original.instruments@.skip(0));
        }
        let mut wired: Vec<crate::instrument::Instrument<T, Handle>> = Vec::new();
        let mut i: usize = 0;
        while i < self.names.len()
            invariant
                self.names == original.names,
                self.names@.len() == original.instruments@.len(),
                i <= self.names@.len(),
                self.instruments@ == original.instruments@.skip(i as int),
                forall|k: int| 0 <= k < i ==> original.instruments@[k].unwired(),
                forall|k: int|
                    i <= k < original.instruments@.len() ==> original.instruments@[k].unwired(),
                wired@.len() == i as nat,
                forall|k: int|
                    0 <= k < i ==> (#[trigger] wired@[k]).wired() && wired@[k].spec_name() == Some(
                        original.names@[k]@,
                    ) && wired@[k].data == original.instruments@[k].data && wired@[k].listener
                        == Some(handle),
            decreases self.names@.len() - i,
        {
            let mut instrument = self.instruments.remove(0);
            instrument.set_name_and_listener(self.names[i].as_str(), handle.clone());
            wired.push(instrument);
            proof {
                assert(self.instruments@ =~= original.instruments@.skip(i as int + 1));
            }
            i += 1;
        }
        self.instruments = wired;
        proof {
            assert(self.spec_names() =~= original.spec_names());
        }
    }
}

/// The publisher: owns a sink client and a wired board, and consumes the
/// control queue. It will not publish every intermediate value of a busy
/// instrument: it reacts to every update event but re-reads the instrument's
/// latest value, and it filters out a snapshot that repeats the previous
/// bytes for the same instrument.
#[verifier::reject_recursive_types(T)]
pub struct Publisher<T, TF: TopicFormatter, S: Sink> {
    pub topic_formatter: TF,
    pub client: S,
    pub instruments: Board<T, Handle>,
    pub retain: bool,
    pub sender: std::sync::mpsc::Sender<Message>,
    pub receiver: std::sync::mpsc::Receiver<Message>,
}

impl<T, TF: TopicFormatter, S: Sink> Publisher<T, TF, S> {
    /// Creates a new publisher over a topic formatter, an already-connected
    /// client, an instrument board, and the retain flag. Wires a handle to
    /// its own control queue onto every instrument of the board, which
    /// produces one initial notification per instrument, in registration
    /// order: every wired listener is a handle whose sender is the returned
    /// publisher's own, so update notifications feed the queue the run loop
    /// consumes.
    pub fn new(topic_formatter: TF, client: S, instruments: Board<T, Handle>, retain: bool) -> (r:
        Self) where T: Clone
        requires
            instruments.wf(),
            instruments.all_unwired(),
        ensures
            r.instruments.wf(),
            r.instruments.all_wired(),
            r.instruments.spec_names() == instruments.spec_names(),
            r.instruments.instruments@.len() == instruments.instruments@.len(),
            forall|i: int|
                0 <= i < r.instruments.instruments@.len() ==> (#[trigger] r.instruments.instruments@[i]).data
                    == instruments.instruments@[i].data,
            forall|i: int|
                0 <= i < r.instruments.instruments@.len() ==> ((
                #[trigger] r.instruments.instruments@[i]).listener matches Some(h)
                    && h.spec_sender() == r.sender),
            r.topic_formatter == topic_formatter,
            r.client == client,
            r.retain == retain,
    {
        let (sender, receiver) = channel_pair();
        let handle = Handle { sender: channel_sender_share(&sender) };
        let mut instruments = instruments;
        instruments.wire_handle(handle);
        Publisher {
            topic_formatter: topic_formatter,
            client: client,
            instruments: instruments,
            retain: retain,
            sender: sender,
            receiver: receiver,
        }
    }

    /// Read access to the wired board, so application code can still reach
    /// individual instruments after the board has been consumed.
    pub fn instruments(&self) -> (r: &Board<T, Handle>)
        ensures
            r == &self.instruments,
    {
        &self.instruments
    }

    /// A handle onto this publisher's own control queue, mainly used to shut
    /// it down gracefully: what is sent through it reaches this publisher's
    /// receiving half.
    pub fn handle(&self) -> (r: Handle)
        ensures
            r.spec_sender() == self.sender,
    {
        Handle { sender: channel_sender_share(&self.sender) }
    }

    /// Consumes the publisher and returns the underlying client.
    pub fn into_inner(self) -> (r: S)
        ensures
            r == self.client,
    {
        self.client
    }

    /// What handling one control message does, relating the publisher and the
    /// dedup state before (`pre`, `pre_last`) and after (`post`, `post_last`)
    /// the step: `Shutdown` stops the loop and changes nothing; `Update(name)`
    /// either skips the cycle — which is only permitted when `name` is not
    /// registered or the encoder can fail at all — or records some framed
    /// snapshot `p` of the instrument and publishes it under the formatted
    /// topic exactly when it differs from the last recorded bytes for `name`;
    /// a failed publish call ends the run with a transport error.
    pub open spec fn step_behavior<E: Encoder<T>>(
        pre: Self,
        post: Self,
        pre_last: Map<Seq<char>, Seq<u8>>,
        post_last: Map<Seq<char>, Seq<u8>>,
        encoder: E,
        message: Message,
        r: Result<Step, RunError>,
    ) -> bool {
        &&& post.instruments == pre.instruments
        &&& post.topic_formatter == pre.topic_formatter
        &&& post.retain == pre.retain
        &&& (message is Shutdown ==> r == Ok::<Step, RunError>(Step::Stop) && post == pre
            && post_last == pre_last)
        &&& (message matches Message::Update(name) ==> (post_last == pre_last
            && post.client.published() == pre.client.published() && r == Ok::<Step, RunError>(
            Step::Continue,
        ) && (!pre.instruments.contains_name(name@) || (exists|v: T| !encoder.encodes(v)))) || (
        exists|p: Seq<u8>|
            {
                &&& post_last == recorded(pre_last, name@, p)
                &&& pre.instruments.contains_name(name@)
                &&& p == crate::ser::spec_frame(crate::ser::spec_null()) || (exists|v: T|
                    encoder.encodes(v) && p == crate::ser::spec_frame(encoder.model(v)))
                &&& if should_publish(pre_last, name@, p) {
                    (r == Ok::<Step, RunError>(Step::Continue) && post.client.published()
                        == pre.client.published().push(
                        PublishRecord {
                            topic: pre.topic_formatter.topic_model(name@),
                            payload: p,
                            retain: pre.retain,
                        },
                    )) || (r == Err::<Step, RunError>(RunError::Transport(TransportError))
                        && post.client.published() == pre.client.published())
                } else {
                    r == Ok::<Step, RunError>(Step::Continue) && post.client.published()
                        == pre.client.published()
                }
            }))
    }

    /// Handles one control message, as [`Publisher::step_behavior`] states:
    /// `Shutdown` stops the loop and changes nothing; `Update(name)` re-reads
    /// the instrument's current snapshot, records it in the dedup state, and
    /// publishes it exactly when it differs from the last recorded bytes for
    /// `name`. A message whose name is unknown or whose snapshot fails to
    /// encode skips that cycle's publish attempt and keeps the loop alive.
    pub fn handle_message<E: Encoder<T>>(
        &mut self,
        last: &mut LastMessages,
        encoder: &E,
        message: Message,
    ) -> (r: Result<Step, RunError>) where T: Clone
        requires
            old(self).instruments.wf(),
            old(last).wf(),
        ensures
            final(last).wf(),
            Self::step_behavior(
                *old(self),
                *final(self),
                old(last)@,
                final(last)@,
                *encoder,
                message,
                r,
            ),
    {
        match message {
            Message::Shutdown => Ok(Step::Stop),
            Message::Update(name) => {
                match self.instruments.serialize_reading(name.as_str(), encoder) {
                    Err(_) => Ok(Step::Continue),
                    Ok(payload) => {
                        let changed = last.record(name.as_str(), &payload);
                        if changed {
                            let topic = self.topic_formatter.format_topic(name.as_str());
                            match self.client.publish(
                                topic.as_str(),
                                payload.as_slice(),
                                self.retain,
                            ) {
                                Ok(()) => Ok(Step::Continue),
                                Err(e) => Err(RunError::Transport(e)),
                            }
                        } else {
                            Ok(Step::Continue)
                        }
                    },
                }
            },
        }
    }

    /// One turn of the consumer loop: blocks until the next control message
    /// is delivered and handles it, as [`Publisher::step_behavior`] states.
    /// The loop that drives this until `Stop` or an error is the embedding
    /// code's: each turn waits on the queue, and the run as a whole need not
    /// terminate, so no verified function can be that loop. A broken queue
    /// (every sending half destroyed without an explicit shutdown) ends the
    /// run with `ChannelBroken` and changes nothing.
    pub fn run_step<E: Encoder<T>>(&mut self, last: &mut LastMessages, encoder: &E) -> (r: Result<
        Step,
        RunError,
    >) where T: Clone
        requires
            old(self).instruments.wf(),
            old(last).wf(),
        ensures
            final(last).wf(),
            final(self).instruments == old(self).instruments,
            r == Err::<Step, RunError>(RunError::ChannelBroken) ==> *final(self) == *old(self)
                && final(last)@ == old(last)@,
            r != Err::<Step, RunError>(RunError::ChannelBroken) ==> exists|message: Message|
                Self::step_behavior(
                    *old(self),
                    *final(self),
                    old(last)@,
                    final(last)@,
                    *encoder,
                    message,
                    r,
                ),
    {
        match channel_recv(&self.receiver) {
            Ok(message) => self.handle_message(last, encoder, message),
            Err(()) => Err(RunError::ChannelBroken),
        }
    }
}

} // verus!
