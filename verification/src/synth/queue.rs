use vstd::prelude::*;

use crate::synth::client::Event;

verus! {

/// `ringbuf::Producer`, the sending end of a ring buffer shared with the
/// audio thread; Verus sees nothing inside it.
#[verifier::external_type_specification]
#[verifier::external_body]
#[verifier::reject_recursive_types(T)]
pub struct ExProducer<T>(ringbuf::Producer<T>);

/// The sending end of the queue of events to the synth engine, with the
/// record of the events handed to its `push`, in order. Only `push` adds to
/// that record.
#[verifier::reject_recursive_types(F)]
pub struct EventQueue<F> {
    producer: ringbuf::Producer<Event<F>>,
    handed: Ghost<Seq<Event<F>>>,
}

impl<F> EventQueue<F> {
    /// The producer end of the ring buffer.
    pub closed spec fn producer(&self) -> ringbuf::Producer<Event<F>> {
        self.producer
    }

    /// The events handed to `push` so far, in order. Each was queued unless
    /// the ring buffer was full at the time; which of them were queued depends
    /// on the consumer on the audio thread and is not recorded.
    pub closed spec fn handed(&self) -> Seq<Event<F>> {
        self.handed@
    }

    /// The queue that writes to `producer`, with nothing handed to it yet.
    pub fn new(producer: ringbuf::Producer<Event<F>>) -> (queue: EventQueue<F>)
        ensures
            queue.producer() == producer,
            queue.handed() == Seq::<Event<F>>::empty(),
    {
        EventQueue { producer, handed: Ghost(Seq::empty()) }
    }

    /// `ringbuf::Producer::push`: hands `event` to the ring buffer, which
    /// appends it, or, when it is full, gives it back in `Err`. The record of
    /// handed events grows by `event` either way. Whether the buffer was full
    /// depends on the consumer on the audio thread, so which of the two
    /// happened is left unsaid.
    #[verifier::external_body]
    pub(crate) fn push(&mut self, event: Event<F>) -> (pushed: Result<(), Event<F>>)
        ensures
            final(self).handed() == old(self).handed().push(event),
            pushed matches Err(returned) ==> returned == event,
    {
        self.producer.push(event)
    }
}

} // verus!
