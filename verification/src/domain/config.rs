//! Configuration settings: a mapping from keys to values.

use vstd::prelude::*;
use crate::domain::cqrs::{Command, Query};
use crate::error::AppError;
use crate::text::optional_text;

verus! {

/// One setting: a key and the value stored under it.
#[derive(Debug, PartialEq, Eq)]
pub struct SystemSetting {
    pub key: String,
    pub value: String,
}

impl Clone for SystemSetting {
    fn clone(&self) -> (copy: Self)
        ensures
            copy@ == self@,
    {
        SystemSetting { key: self.key.clone(), value: self.value.clone() }
    }
}

/// What a `SystemSetting` is, as plain values.
pub struct SystemSettingView {
    pub key: Seq<char>,
    pub value: Seq<char>,
}

impl View for SystemSetting {
    type V = SystemSettingView;

    open spec fn view(&self) -> SystemSettingView {
        SystemSettingView { key: self.key@, value: self.value@ }
    }
}

/// Stores `value` under `key`, replacing what was there. Keys are taken as
/// they are: no key is refused for its form, the empty key included.
#[derive(Debug, PartialEq, Eq)]
pub struct SetConfigCmd {
    pub key: String,
    pub value: String,
}

impl Command for SetConfigCmd {}

/// Asks for the value stored under `key`.
#[derive(Debug, PartialEq, Eq)]
pub struct GetConfigQuery {
    pub key: String,
}

impl Query for GetConfigQuery {}

/// Asks for every setting.
#[derive(Clone, Copy, Debug, PartialEq, Eq)]
pub struct GetAllConfigQuery;

impl Query for GetAllConfigQuery {}

/// The settings of a store: each key that is set, with its value.
pub type Settings = Map<Seq<char>, Seq<char>>;

/// The value stored under `key`, if the key is set.
pub open spec fn config_lookup(settings: Settings, key: Seq<char>) -> Option<Seq<char>> {
    if settings.contains_key(key) {
        Some(settings[key])
    } else {
        None
    }
}

/// The settings after `value` was stored under `key`: the key is added if it
/// was not set, and its value replaced if it was.
pub open spec fn config_after_set(settings: Settings, key: Seq<char>, value: Seq<char>) -> Settings {
    settings.insert(key, value)
}

/// The entries of a list of settings, as plain values.
pub open spec fn setting_views(entries: Seq<SystemSetting>) -> Seq<SystemSettingView> {
    entries.map_values(|s: SystemSetting| s@)
}

/// No key occurs twice in `entries`.
pub open spec fn distinct_keys(entries: Seq<SystemSettingView>) -> bool {
    forall|i: int, j: int|
        0 <= i < j < entries.len() ==> (#[trigger] entries[i]).key != (#[trigger] entries[j]).key
}

/// `entries` lists `settings`: every entry is a setting, every setting has
/// an entry, and no key is listed twice. The order of the entries is free.
pub open spec fn lists_exactly(entries: Seq<SystemSettingView>, settings: Settings) -> bool {
    &&& distinct_keys(entries)
    &&& forall|i: int|
        0 <= i < entries.len() ==> config_lookup(settings, (#[trigger] entries[i]).key) == Some(
            entries[i].value,
        )
    &&& forall|key: Seq<char>| #[trigger]
        settings.contains_key(key) ==> exists|i: int|
            0 <= i < entries.len() && (#[trigger] entries[i]).key == key
}

/// A key that is set has exactly one entry in any list of the settings.
pub proof fn lemma_one_entry_per_key(
    entries: Seq<SystemSettingView>,
    settings: Settings,
    key: Seq<char>,
) -> (at: int)
    requires
        lists_exactly(entries, settings),
        settings.contains_key(key),
    ensures
        0 <= at < entries.len(),
        entries[at].key == key,
        entries[at].value == settings[key],
        forall|j: int| 0 <= j < entries.len() && (#[trigger] entries[j]).key == key ==> j == at,
{
    let at = choose|i: int| 0 <= i < entries.len() && (#[trigger] entries[i]).key == key;
    assert(config_lookup(settings, entries[at].key) == Some(entries[at].value));
    assert forall|j: int| 0 <= j < entries.len() && (#[trigger] entries[j]).key == key implies j
        == at by {
        if j < at {
            assert(entries[j].key != entries[at].key);
        } else if at < j {
            assert(entries[at].key != entries[j].key);
        }
    }
    at
}

/// Storing the same value under a key twice is the same as storing it once:
/// the settings are those after the first write, the key reads as that
/// value, and a list of the settings holds the key once, at `at`.
pub proof fn lemma_set_twice_is_set_once(
    settings: Settings,
    key: Seq<char>,
    value: Seq<char>,
    entries: Seq<SystemSettingView>,
) -> (at: int)
    requires
        lists_exactly(
            entries,
            config_after_set(config_after_set(settings, key, value), key, value),
        ),
    ensures
        config_after_set(config_after_set(settings, key, value), key, value) == config_after_set(
            settings,
            key,
            value,
        ),
        config_lookup(config_after_set(config_after_set(settings, key, value), key, value), key)
            == Some(value),
        0 <= at < entries.len(),
        entries[at] == (SystemSettingView { key, value }),
        forall|j: int| 0 <= j < entries.len() && (#[trigger] entries[j]).key == key ==> j == at,
{
    let twice = config_after_set(config_after_set(settings, key, value), key, value);
    assert(twice =~= config_after_set(settings, key, value));
    lemma_one_entry_per_key(entries, twice, key)
}

/// Of two writes to one key the later wins: the key reads as the second
/// value.
pub proof fn lemma_last_write_wins(
    settings: Settings,
    key: Seq<char>,
    first: Seq<char>,
    second: Seq<char>,
)
    ensures
        config_lookup(config_after_set(config_after_set(settings, key, first), key, second), key)
            == Some(second),
        config_after_set(config_after_set(settings, key, first), key, second) == config_after_set(
            settings,
            key,
            second,
        ),
{
    assert(settings.insert(key, first).insert(key, second) =~= settings.insert(key, second));
}

/// A write to one key leaves every other key as it was.
pub proof fn lemma_set_leaves_other_keys(
    settings: Settings,
    key: Seq<char>,
    value: Seq<char>,
    other: Seq<char>,
)
    requires
        other != key,
    ensures
        config_lookup(config_after_set(settings, key, value), other) == config_lookup(
            settings,
            other,
        ),
{
}

/// A key that is not set reads as nothing.
pub proof fn lemma_unset_key_reads_nothing(settings: Settings, key: Seq<char>)
    requires
        !settings.contains_key(key),
    ensures
        config_lookup(settings, key) is None,
{
}

/// Where nothing is set, a list of the settings is empty.
pub proof fn lemma_nothing_set_lists_nothing(entries: Seq<SystemSettingView>)
    requires
        lists_exactly(entries, Settings::empty()),
    ensures
        entries.len() == 0,
{
    if entries.len() > 0 {
        assert(config_lookup(Settings::empty(), entries[0].key) == Some(entries[0].value));
    }
}

/// The capability to keep settings.
///
/// A store that is `fault_free` answers every request, whatever the key;
/// any other store may fail a request, for want of a connection or because
/// it refuses the key, and then leaves its settings as they were.
pub trait IConfigRepository: Send + Sync {
    /// The settings that the store holds.
    ///
    /// A verified store says here what it holds. The default is for stores
    /// outside verified code, which have nothing to say.
    open spec fn settings(&self) -> Settings {
        Map::empty()
    }

    /// Whether the store can be relied on to answer. Unless a store says
    /// so, it cannot.
    open spec fn fault_free(&self) -> bool {
        false
    }

    /// Reads the value stored under `key`; `None` when the key is not set.
    fn get(&self, key: &str) -> (r: Result<Option<String>, AppError>)
        ensures
            r matches Ok(found) ==> optional_text(found) == config_lookup(self.settings(), key@),
            self.fault_free() ==> r is Ok,
    ;

    /// Stores `value` under `key` in one step: the key is added if it was
    /// not set, and its value replaced if it was.
    fn set(&mut self, key: &str, value: &str) -> (r: Result<(), AppError>)
        ensures
            r is Ok ==> final(self).settings() == config_after_set(
                old(self).settings(),
                key@,
                value@,
            ),
            r is Err ==> final(self).settings() == old(self).settings(),
            final(self).fault_free() == old(self).fault_free(),
            old(self).fault_free() ==> r is Ok,
    ;

    /// Reads every setting, in no particular order.
    fn get_all(&self) -> (r: Result<Vec<SystemSetting>, AppError>)
        ensures
            r matches Ok(entries) ==> lists_exactly(setting_views(entries@), self.settings()),
            self.fault_free() ==> r is Ok,
    ;
}

} // verus!
