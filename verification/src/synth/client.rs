use vstd::prelude::*;

use crate::refs::{ParamRef, SourceRef};
use crate::synth::queue::EventQueue;

verus! {

/// A message to the synth engine. `F` is the engine's number type.
#[derive(Debug, Clone, Copy, PartialEq, Eq, Structural)]
pub enum Message<F> {
    NoteOn { key: u8, velocity: F },
    NoteOff { key: u8, velocity: F },
    ParamValue { param_ref: ParamRef, value: F },
    ParamChange { param_ref: ParamRef, change: F },
    ModulationAmount { source_ref: SourceRef, param_ref: ParamRef, amount: F },
}

/// A message to the synth engine, due at `timestamp`.
#[derive(Debug, Clone, Copy, PartialEq, Eq, Structural)]
pub struct Event<F> {
    pub timestamp: u64,
    pub message: Message<F>,
}

impl<F: Copy> Event<F> {
    pub fn new(timestamp: u64, message: Message<F>) -> (event: Event<F>)
        ensures
            event == (Event { timestamp, message }),
    {
        Event { timestamp, message }
    }
}

/// The sending end of the queue of events to the synth engine.
#[verifier::reject_recursive_types(F)]
pub struct SynthClient<F> {
    events: EventQueue<F>,
}

impl<F: Copy> SynthClient<F> {
    /// The producer end of the queue that the client writes to.
    pub closed spec fn producer(&self) -> ringbuf::Producer<Event<F>> {
        self.events.producer()
    }

    /// The events that the client has handed to the queue, in order. Each
    /// was queued unless the queue was full at the time; which of them were
    /// queued depends on the consumer on the audio thread and is not recorded.
    pub closed spec fn offered(&self) -> Seq<Event<F>> {
        self.events.handed()
    }

    /// The client that queues its events on `events`, having handed none yet.
    pub fn new(events: ringbuf::Producer<Event<F>>) -> (client: SynthClient<F>)
        ensures
            client.producer() == events,
            client.offered() == Seq::<Event<F>>::empty(),
    {
        SynthClient { events: EventQueue::new(events) }
    }

    /// Hands `event` to the queue for the synth; when the queue is full the
    /// event is dropped.
    pub fn send_event(&mut self, event: Event<F>)
        ensures
            final(self).offered() == old(self).offered().push(event),
    {
        let _ = self.events.push(event);
    }

    /// The event that starts note `key` at `velocity`, due at once.
    pub fn note_on_event(key: u8, velocity: F) -> (event: Event<F>)
        ensures
            event == (Event { timestamp: 0, message: Message::NoteOn { key, velocity } }),
    {
        Event::new(0u64, Message::NoteOn { key, velocity })
    }

    /// The event that stops note `key` at `velocity`, due at once.
    pub fn note_off_event(key: u8, velocity: F) -> (event: Event<F>)
        ensures
            event == (Event { timestamp: 0, message: Message::NoteOff { key, velocity } }),
    {
        Event::new(0u64, Message::NoteOff { key, velocity })
    }

    /// The event that sets parameter `param_ref` to `value`, due at once.
    pub fn param_value_event(param_ref: ParamRef, value: F) -> (event: Event<F>)
        ensures
            event == (Event { timestamp: 0, message: Message::ParamValue { param_ref, value } }),
    {
        Event::new(0u64, Message::ParamValue { param_ref, value })
    }

    /// The event that changes parameter `param_ref` by `change`, due at once.
    pub fn param_change_event(param_ref: ParamRef, change: F) -> (event: Event<F>)
        ensures
            event == (Event { timestamp: 0, message: Message::ParamChange { param_ref, change } }),
    {
        Event::new(0u64, Message::ParamChange { param_ref, change })
    }

    /// The event that sets the amount by which `source_ref` modulates
    /// `param_ref`, due at once.
    pub fn modulation_amount_event(source_ref: SourceRef, param_ref: ParamRef, amount: F) -> (event: Event<F>)
        ensures
            event == (Event { timestamp: 0, message: Message::ModulationAmount { source_ref, param_ref, amount } }),
    {
        Event::new(0u64, Message::ModulationAmount { source_ref, param_ref, amount })
    }

    /// Queues the start of note `key` at `velocity`.
    pub fn send_note_on(&mut self, key: u8, velocity: F)
        ensures
            final(self).offered() == old(self).offered().push((Event { timestamp: 0, message: Message::NoteOn { key, velocity } })),
    {
        let event = Self::note_on_event(key, velocity);
        self.send_event(event);
    }

    /// Queues the end of note `key` at `velocity`.
    pub fn send_note_off(&mut self, key: u8, velocity: F)
        ensures
            final(self).offered() == old(self).offered().push((Event { timestamp: 0, message: Message::NoteOff { key, velocity } })),
    {
        let event = Self::note_off_event(key, velocity);
        self.send_event(event);
    }

    /// Queues setting parameter `param_ref` to `value`.
    pub fn send_param_value(&mut self, param_ref: ParamRef, value: F)
        ensures
            final(self).offered() == old(self).offered().push((Event { timestamp: 0, message: Message::ParamValue { param_ref, value } })),
    {
        let event = Self::param_value_event(param_ref, value);
        self.send_event(event);
    }

    /// Queues changing parameter `param_ref` by `change`.
    pub fn send_param_change(&mut self, param_ref: ParamRef, change: F)
        ensures
            final(self).offered() == old(self).offered().push((Event { timestamp: 0, message: Message::ParamChange { param_ref, change } })),
    {
        let event = Self::param_change_event(param_ref, change);
        self.send_event(event);
    }

    /// Queues setting the amount by which `source_ref` modulates `param_ref`.
    pub fn send_modulation_amount(&mut self, source_ref: SourceRef, param_ref: ParamRef, amount: F)
        ensures
            final(self).offered() == old(self).offered().push((Event { timestamp: 0, message: Message::ModulationAmount { source_ref, param_ref, amount } })),
    {
        let event = Self::modulation_amount_event(source_ref, param_ref, amount);
        self.send_event(event);
    }
}

} // verus!
