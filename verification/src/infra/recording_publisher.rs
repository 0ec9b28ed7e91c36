//! A publisher that keeps what it is handed.

use vstd::prelude::*;
use crate::domain::events::{DomainEvent, EventLog, IEventPublisher};

verus! {

/// The events of a list, as plain values.
pub open spec fn event_views(events: Seq<DomainEvent>) -> EventLog {
    events.map_values(|e: DomainEvent| e@)
}

/// A publisher with no observers of its own: it records each event it is
/// handed, oldest first, for whoever holds it to read.
pub struct RecordingPublisher {
    pub events: Vec<DomainEvent>,
}

impl RecordingPublisher {
    /// A publisher that has recorded nothing yet.
    pub fn new() -> (publisher: Self)
        ensures
            publisher.events@ == Seq::<DomainEvent>::empty(),
            publisher.published() == EventLog::empty(),
    {
        let publisher = RecordingPublisher { events: Vec::new() };
        assert(publisher.published() =~= EventLog::empty());
        publisher
    }
}

impl IEventPublisher for RecordingPublisher {
    open spec fn published(&self) -> EventLog {
        event_views(self.events@)
    }

    fn publish(&mut self, event: DomainEvent)
        ensures
            final(self).events@ == old(self).events@.push(event),
    {
        self.events.push(event);
        assert(event_views(self.events@) =~= event_views(old(self).events@).push(event@));
    }
}

} // verus!
