//! Facts about what changed, and the capability to announce them.

use vstd::prelude::*;

verus! {

/// A fact about a change that has happened. Each variant carries enough for
/// an observer to know what changed without asking again.
#[derive(Debug, PartialEq, Eq)]
pub enum DomainEvent {
    /// The setting `key` now has the value `value`.
    ConfigChanged { key: String, value: String },
}

impl Clone for DomainEvent {
    fn clone(&self) -> (copy: Self)
        ensures
            copy@ == self@,
    {
        match self {
            DomainEvent::ConfigChanged { key, value } => DomainEvent::ConfigChanged {
                key: key.clone(),
                value: value.clone(),
            },
        }
    }
}

/// What a `DomainEvent` is, as plain values.
pub enum DomainEventView {
    ConfigChanged { key: Seq<char>, value: Seq<char> },
}

impl View for DomainEvent {
    type V = DomainEventView;

    open spec fn view(&self) -> DomainEventView {
        match self {
            DomainEvent::ConfigChanged { key, value } => DomainEventView::ConfigChanged {
                key: key@,
                value: value@,
            },
        }
    }
}

/// The topic under which observers subscribe to a kind of event.
pub open spec fn topic_of(event: DomainEventView) -> Seq<char> {
    match event {
        DomainEventView::ConfigChanged { .. } => "config:changed"@,
    }
}

impl DomainEvent {
    /// The topic under which this event is announced. Every variant has one.
    pub fn name(&self) -> (topic: &'static str)
        ensures
            topic@ == topic_of(self@),
    {
        match self {
            DomainEvent::ConfigChanged { .. } => "config:changed",
        }
    }
}

/// The events handed to a publisher, oldest first.
pub type EventLog = Seq<DomainEventView>;

/// The capability to announce events to whoever is listening.
///
/// Announcing never fails towards the caller: what goes wrong on the way to
/// an observer stays with the publisher.
pub trait IEventPublisher: Send + Sync {
    /// The events handed to this publisher so far, oldest first.
    ///
    /// A verified publisher says here what it has been handed. The default
    /// is for publishers outside verified code, which have nothing to say.
    open spec fn published(&self) -> EventLog {
        Seq::empty()
    }

    /// Announces `event`.
    fn publish(&mut self, event: DomainEvent)
        ensures
            final(self).published() == old(self).published().push(event@),
    ;
}

} // verus!
