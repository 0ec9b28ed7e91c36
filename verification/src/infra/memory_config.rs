//! A configuration store that lives in memory.

use vstd::prelude::*;
use crate::domain::config::{
    config_after_set, config_lookup, distinct_keys, lists_exactly, setting_views,
    IConfigRepository, Settings, SystemSetting, SystemSettingView,
};
use crate::error::{AppError, AppErrorView, ErrorKind};

verus! {

/// Some entry of `entries` has the key `key`.
spec fn has_key(entries: Seq<SystemSettingView>, key: Seq<char>) -> bool {
    exists|i: int| 0 <= i < entries.len() && (#[trigger] entries[i]).key == key
}

/// The position of an entry with the key `key`, where there is one.
spec fn position_of(entries: Seq<SystemSettingView>, key: Seq<char>) -> int {
    choose|i: int| 0 <= i < entries.len() && (#[trigger] entries[i]).key == key
}

/// The settings that a list of entries stands for.
spec fn entries_as_settings(entries: Seq<SystemSettingView>) -> Settings {
    Map::new(
        |key: Seq<char>| has_key(entries, key),
        |key: Seq<char>| entries[position_of(entries, key)].value,
    )
}

/// With distinct keys, each entry is found under its own key.
proof fn lemma_entry_is_setting(entries: Seq<SystemSettingView>, i: int)
    requires
        distinct_keys(entries),
        0 <= i < entries.len(),
    ensures
        config_lookup(entries_as_settings(entries), entries[i].key) == Some(entries[i].value),
{
    let key = entries[i].key;
    assert(has_key(entries, key));
    let at = position_of(entries, key);
    assert(at == i) by {
        if at < i {
            assert(entries[at].key != entries[i].key);
        } else if i < at {
            assert(entries[i].key != entries[at].key);
        }
    }
}

/// A list with distinct keys lists exactly the settings it stands for.
proof fn lemma_entries_list_their_settings(entries: Seq<SystemSettingView>)
    requires
        distinct_keys(entries),
    ensures
        lists_exactly(entries, entries_as_settings(entries)),
{
    assert forall|i: int| 0 <= i < entries.len() implies config_lookup(
        entries_as_settings(entries),
        (#[trigger] entries[i]).key,
    ) == Some(entries[i].value) by {
        lemma_entry_is_setting(entries, i);
    }
}

/// Replacing the value of the entry at `i` stores the value under its key.
proof fn lemma_update_is_set(entries: Seq<SystemSettingView>, i: int, value: Seq<char>)
    requires
        distinct_keys(entries),
        0 <= i < entries.len(),
    ensures
        distinct_keys(entries.update(i, SystemSettingView { key: entries[i].key, value })),
        entries_as_settings(entries.update(i, SystemSettingView { key: entries[i].key, value }))
            == config_after_set(entries_as_settings(entries), entries[i].key, value),
{
    let key = entries[i].key;
    let updated = entries.update(i, SystemSettingView { key, value });
    assert forall|a: int, b: int| 0 <= a < b < updated.len() implies (#[trigger] updated[a]).key
        != (#[trigger] updated[b]).key by {
        assert(updated[a].key == entries[a].key);
        assert(updated[b].key == entries[b].key);
    }
    let before = entries_as_settings(entries);
    let after = entries_as_settings(updated);
    assert forall|k: Seq<char>| #[trigger] after.contains_key(k) <==> before.insert(
        key,
        value,
    ).contains_key(k) by {
        if has_key(updated, k) {
            let at = position_of(updated, k);
            assert(entries[at].key == k);
        }
        if has_key(entries, k) {
            let at = position_of(entries, k);
            assert(updated[at].key == k);
        }
        if k == key {
            assert(updated[i].key == k);
        }
    }
    assert forall|k: Seq<char>| #[trigger] after.contains_key(k) implies after[k] == before.insert(
        key,
        value,
    )[k] by {
        let at = position_of(updated, k);
        lemma_entry_is_setting(updated, at);
        if k != key {
            assert(at != i);
            assert(entries[at] == updated[at]);
            lemma_entry_is_setting(entries, at);
        } else {
            lemma_entry_is_setting(updated, i);
        }
    }
    assert(after =~= before.insert(key, value));
}

/// Appending an entry under a key that is not listed stores its value
/// under that key.
proof fn lemma_push_is_set(entries: Seq<SystemSettingView>, entry: SystemSettingView)
    requires
        distinct_keys(entries),
        !has_key(entries, entry.key),
    ensures
        distinct_keys(entries.push(entry)),
        entries_as_settings(entries.push(entry)) == config_after_set(
            entries_as_settings(entries),
            entry.key,
            entry.value,
        ),
{
    let pushed = entries.push(entry);
    assert forall|a: int, b: int| 0 <= a < b < pushed.len() implies (#[trigger] pushed[a]).key
        != (#[trigger] pushed[b]).key by {
        assert(pushed[a] == entries[a]);
        if b < entries.len() {
            assert(pushed[b] == entries[b]);
        } else {
            assert(pushed[b] == entry);
            assert(entries[a].key != entry.key);
        }
    }
    let before = entries_as_settings(entries);
    let after = entries_as_settings(pushed);
    assert forall|k: Seq<char>| #[trigger] after.contains_key(k) <==> before.insert(
        entry.key,
        entry.value,
    ).contains_key(k) by {
        if has_key(pushed, k) {
            let at = position_of(pushed, k);
            if at < entries.len() {
                assert(entries[at].key == k);
            }
        }
        if has_key(entries, k) {
            let at = position_of(entries, k);
            assert(pushed[at].key == k);
        }
        if k == entry.key {
            assert(pushed[entries.len() as int].key == k);
        }
    }
    assert forall|k: Seq<char>| #[trigger] after.contains_key(k) implies after[k] == before.insert(
        entry.key,
        entry.value,
    )[k] by {
        let at = position_of(pushed, k);
        lemma_entry_is_setting(pushed, at);
        if k != entry.key {
            assert(at < entries.len());
            assert(entries[at] == pushed[at]);
            lemma_entry_is_setting(entries, at);
        } else {
            lemma_entry_is_setting(pushed, entries.len() as int);
        }
    }
    assert(after =~= before.insert(entry.key, entry.value));
}

/// The detail of the failure that a failing store reports.
pub open spec fn unavailable_detail() -> Seq<char> {
    "the in-memory configuration store is unavailable"@
}

/// A configuration store in memory: a list of settings in which no key
/// occurs twice. It can be told to fail, to stand for a store that is out
/// of reach.
pub struct InMemoryConfigRepository {
    entries: Vec<SystemSetting>,
    failing: bool,
}

impl InMemoryConfigRepository {
    #[verifier::type_invariant]
    spec fn keys_are_distinct(self) -> bool {
        distinct_keys(setting_views(self.entries@))
    }

    /// An empty store that answers every request.
    pub fn new() -> (store: Self)
        ensures
            store.settings() == Settings::empty(),
            store.fault_free(),
    {
        let store = InMemoryConfigRepository { entries: Vec::new(), failing: false };
        assert(store.settings() =~= Settings::empty());
        store
    }

    /// From now on the store fails every request if `failing`, and answers
    /// every request if not. Its settings stay as they are.
    pub fn set_failing(&mut self, failing: bool)
        ensures
            final(self).settings() == old(self).settings(),
            final(self).fault_free() == !failing,
    {
        proof {
            use_type_invariant(&*self);
        }
        self.failing = failing;
    }

    /// The failure that a failing store reports: a `Database` failure that
    /// says that the store is unavailable.
    fn unavailable() -> (e: AppError)
        ensures
            e@ == (AppErrorView { kind: ErrorKind::Database, detail: unavailable_detail() }),
    {
        AppError::Database("the in-memory configuration store is unavailable".to_owned())
    }

    /// The position of the entry with the key `key`, if there is one.
    fn position(&self, key: &String) -> (at: Option<usize>)
        ensures
            match at {
                Some(i) => i < self.entries.len() && self.entries[i as int].key@ == key@,
                None => !has_key(setting_views(self.entries@), key@),
            },
    {
        let mut i: usize = 0;
        while i < self.entries.len()
            invariant
                i <= self.entries.len(),
                forall|j: int| 0 <= j < i ==> self.entries[j].key@ != key@,
            decreases self.entries.len() - i,
        {
            if self.entries[i].key == *key {
                return Some(i);
            }
            i += 1;
        }
        None
    }
}

impl IConfigRepository for InMemoryConfigRepository {
    closed spec fn settings(&self) -> Settings {
        entries_as_settings(setting_views(self.entries@))
    }

    closed spec fn fault_free(&self) -> bool {
        !self.failing
    }

    fn get(&self, key: &str) -> (r: Result<Option<String>, AppError>) {
        proof {
            use_type_invariant(self);
        }
        if self.failing {
            return Err(Self::unavailable());
        }
        let key = key.to_owned();
        match self.position(&key) {
            Some(i) => {
                proof {
                    lemma_entry_is_setting(setting_views(self.entries@), i as int);
                }
                Ok(Some(self.entries[i].value.clone()))
            },
            None => Ok(None),
        }
    }

    fn set(&mut self, key: &str, value: &str) -> (r: Result<(), AppError>) {
        proof {
            use_type_invariant(&*self);
        }
        if self.failing {
            return Err(Self::unavailable());
        }
        let key = key.to_owned();
        let at = self.position(&key);
        let ghost before = setting_views(self.entries@);
        let mut entries: Vec<SystemSetting> = Vec::new();
        core::mem::swap(&mut self.entries, &mut entries);
        match at {
            Some(i) => {
                entries.set(i, SystemSetting { key, value: value.to_owned() });
                proof {
                    lemma_update_is_set(before, i as int, value@);
                    assert(setting_views(entries@) =~= before.update(
                        i as int,
                        SystemSettingView { key: before[i as int].key, value: value@ },
                    ));
                }
            },
            None => {
                entries.push(SystemSetting { key, value: value.to_owned() });
                proof {
                    let entry = SystemSettingView { key: key@, value: value@ };
                    lemma_push_is_set(before, entry);
                    assert(setting_views(entries@) =~= before.push(entry));
                }
            },
        }
        core::mem::swap(&mut self.entries, &mut entries);
        Ok(())
    }

    fn get_all(&self) -> (r: Result<Vec<SystemSetting>, AppError>) {
        proof {
            use_type_invariant(self);
        }
        if self.failing {
            return Err(Self::unavailable());
        }
        let mut listed: Vec<SystemSetting> = Vec::new();
        let mut i: usize = 0;
        while i < self.entries.len()
            invariant
                i <= self.entries.len(),
                listed.len() == i,
                forall|j: int| 0 <= j < i ==> listed[j]@ == self.entries[j]@,
            decreases self.entries.len() - i,
        {
            listed.push(self.entries[i].clone());
            i += 1;
        }
        proof {
            assert(setting_views(listed@) =~= setting_views(self.entries@));
            lemma_entries_list_their_settings(setting_views(self.entries@));
        }
        Ok(listed)
    }
}

} // verus!
