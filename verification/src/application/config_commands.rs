//! Writing configuration settings.

use vstd::prelude::*;
use crate::domain::config::{config_after_set, config_lookup, IConfigRepository, SetConfigCmd};
use crate::domain::cqrs::CommandHandler;
use crate::domain::events::{DomainEvent, DomainEventView, IEventPublisher};
use crate::error::AppError;

verus! {

/// The event that tells observers of a stored setting.
pub open spec fn change_event(key: Seq<char>, value: Seq<char>) -> DomainEventView {
    DomainEventView::ConfigChanged { key, value }
}

/// Carries out the commands that write configuration settings, and
/// announces each write that succeeded.
pub struct ConfigCommandHandler<R: IConfigRepository, P: IEventPublisher> {
    pub repo: R,
    pub publisher: P,
}

impl<R: IConfigRepository, P: IEventPublisher> ConfigCommandHandler<R, P> {
    /// A handler that writes to `repo` and announces through `publisher`.
    pub fn new(repo: R, publisher: P) -> (handler: Self)
        ensures
            handler.repo == repo,
            handler.publisher == publisher,
    {
        Self { repo, publisher }
    }

    /// What follows from the store's answer to the write that `cmd` asked
    /// for: the answer is handed on as it is, and a change event is due
    /// exactly when the write succeeded.
    pub fn conclude(written: Result<(), AppError>, cmd: SetConfigCmd) -> (out: (
        Result<(), AppError>,
        Option<DomainEvent>,
    ))
        ensures
            out.0 == written,
            written is Ok ==> (out.1 matches Some(event) && event@ == change_event(
                cmd.key@,
                cmd.value@,
            )),
            written is Err ==> out.1 is None,
    {
        let due = if written.is_ok() {
            Some(DomainEvent::ConfigChanged { key: cmd.key, value: cmd.value })
        } else {
            None
        };
        (written, due)
    }

    /// Announces a change that the store already shows.
    fn announce(&mut self, event: DomainEvent)
        requires
            event@ matches DomainEventView::ConfigChanged { key, value } && config_lookup(
                old(self).repo.settings(),
                key,
            ) == Some(value),
        ensures
            final(self).repo == old(self).repo,
            final(self).publisher.published() == old(self).publisher.published().push(event@),
            exists|publisher: &mut P|
                mut_ref_current(publisher) == old(self).publisher
                    && mut_ref_future(publisher) == final(self).publisher
                    && #[trigger] call_ensures(P::publish, (publisher, event), ()),
    {
        self.publisher.publish(event);
    }
}

impl<R: IConfigRepository, P: IEventPublisher> CommandHandler<SetConfigCmd, ()>
    for ConfigCommandHandler<R, P> {
    /// Stores the value under the key, then announces the change. The event
    /// goes out only once the store shows the new value, and never when the
    /// write failed. The answer is the store's own answer to the write, a
    /// failure included; what the publisher does with the event has no part
    /// in it.
    fn handle(&mut self, cmd: SetConfigCmd) -> (r: Result<(), AppError>)
        ensures
            r is Ok ==> {
                &&& final(self).repo.settings() == config_after_set(
                    old(self).repo.settings(),
                    cmd.key@,
                    cmd.value@,
                )
                &&& final(self).publisher.published() == old(self).publisher.published().push(
                    change_event(cmd.key@, cmd.value@),
                )
            },
            r is Err ==> {
                &&& final(self).repo.settings() == old(self).repo.settings()
                &&& final(self).publisher == old(self).publisher
            },
            final(self).publisher.published() != old(self).publisher.published()
                ==> config_lookup(final(self).repo.settings(), cmd.key@) == Some(cmd.value@),
            final(self).repo.fault_free() == old(self).repo.fault_free(),
            old(self).repo.fault_free() ==> r is Ok,
            exists|store: &mut R, key: &str, value: &str|
                key@ == cmd.key@ && value@ == cmd.value@
                    && mut_ref_current(store) == old(self).repo
                    && mut_ref_future(store) == final(self).repo
                    && #[trigger] call_ensures(R::set, (store, key, value), r),
            r is Ok ==> exists|publisher: &mut P, event: DomainEvent|
                event@ == change_event(cmd.key@, cmd.value@)
                    && mut_ref_current(publisher) == old(self).publisher
                    && mut_ref_future(publisher) == final(self).publisher
                    && #[trigger] call_ensures(P::publish, (publisher, event), ()),
    {
        let written = self.repo.set(cmd.key.as_str(), cmd.value.as_str());
        let (answer, due) = Self::conclude(written, cmd);
        match due {
            Some(event) => self.announce(event),
            None => {},
        }
        answer
    }
}

} // verus!
