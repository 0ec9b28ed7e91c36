use std::collections::HashMap;
use std::sync::{Arc, Mutex};

use desktop_core::application::config_commands::ConfigCommandHandler;
use desktop_core::application::config_queries::ConfigQueryHandler;
use desktop_core::domain::config::{
    GetAllConfigQuery, GetConfigQuery, IConfigRepository, SetConfigCmd, SystemSetting,
};
use desktop_core::domain::cqrs::{CommandHandler, QueryHandler};
use desktop_core::domain::events::{DomainEvent, IEventPublisher};
use desktop_core::error::{AppError, ErrorKind};
use desktop_core::infra::memory_config::InMemoryConfigRepository;
use desktop_core::infra::recording_publisher::RecordingPublisher;

fn set(key: &str, value: &str) -> SetConfigCmd {
    SetConfigCmd { key: key.to_string(), value: value.to_string() }
}

fn get(key: &str) -> GetConfigQuery {
    GetConfigQuery { key: key.to_string() }
}

fn changed(key: &str, value: &str) -> DomainEvent {
    DomainEvent::ConfigChanged { key: key.to_string(), value: value.to_string() }
}

fn setting(key: &str, value: &str) -> SystemSetting {
    SystemSetting { key: key.to_string(), value: value.to_string() }
}

fn fresh_commands() -> ConfigCommandHandler<InMemoryConfigRepository, RecordingPublisher> {
    ConfigCommandHandler::new(InMemoryConfigRepository::new(), RecordingPublisher::new())
}

#[test]
fn set_then_get_reads_the_value() {
    let mut commands = fresh_commands();
    assert_eq!(commands.handle(set("theme", "dark")), Ok(()));
    let queries = ConfigQueryHandler::new(commands.repo);
    assert_eq!(queries.handle(get("theme")), Ok(Some("dark".to_string())));
}

#[test]
fn setting_the_same_value_twice_keeps_one_entry() {
    let mut commands = fresh_commands();
    assert_eq!(commands.handle(set("k", "v")), Ok(()));
    assert_eq!(commands.handle(set("k", "v")), Ok(()));
    let queries = ConfigQueryHandler::new(commands.repo);
    assert_eq!(queries.handle(get("k")), Ok(Some("v".to_string())));
    let all = queries.handle(GetAllConfigQuery).unwrap();
    assert_eq!(all, vec![setting("k", "v")]);
    assert_eq!(all.iter().filter(|entry| entry.key == "k").count(), 1);
}

#[test]
fn a_second_write_overwrites_the_first() {
    let mut commands = fresh_commands();
    assert_eq!(commands.handle(set("a", "1")), Ok(()));
    assert_eq!(commands.handle(set("a", "2")), Ok(()));
    let queries = ConfigQueryHandler::new(commands.repo);
    assert_eq!(queries.handle(get("a")), Ok(Some("2".to_string())));
    assert_eq!(queries.handle(GetAllConfigQuery), Ok(vec![setting("a", "2")]));
}

#[test]
fn a_write_leaves_other_keys_alone() {
    let mut commands = fresh_commands();
    assert_eq!(commands.handle(set("a", "1")), Ok(()));
    assert_eq!(commands.handle(set("b", "2")), Ok(()));
    assert_eq!(commands.handle(set("a", "3")), Ok(()));
    let queries = ConfigQueryHandler::new(commands.repo);
    assert_eq!(queries.handle(get("a")), Ok(Some("3".to_string())));
    assert_eq!(queries.handle(get("b")), Ok(Some("2".to_string())));
    let mut all = queries.handle(GetAllConfigQuery).unwrap();
    all.sort_by(|x, y| x.key.cmp(&y.key));
    assert_eq!(all, vec![setting("a", "3"), setting("b", "2")]);
}

#[test]
fn a_missing_key_is_absent_and_no_error() {
    let mut commands = fresh_commands();
    assert_eq!(commands.handle(set("present", "yes")), Ok(()));
    let queries = ConfigQueryHandler::new(commands.repo);
    assert_eq!(queries.handle(get("nonexistent")), Ok(None));
}

#[test]
fn a_fresh_store_has_no_settings() {
    let queries = ConfigQueryHandler::new(InMemoryConfigRepository::new());
    assert_eq!(queries.handle(GetAllConfigQuery), Ok(vec![]));
    assert_eq!(queries.handle(get("anything")), Ok(None));
}

#[test]
fn keys_and_values_are_taken_as_they_are() {
    let mut commands = fresh_commands();
    assert_eq!(commands.handle(set("", "empty key")), Ok(()));
    assert_eq!(commands.handle(set("Key", "upper")), Ok(()));
    assert_eq!(commands.handle(set("key", "")), Ok(()));
    let queries = ConfigQueryHandler::new(commands.repo);
    assert_eq!(queries.handle(get("")), Ok(Some("empty key".to_string())));
    assert_eq!(queries.handle(get("Key")), Ok(Some("upper".to_string())));
    assert_eq!(queries.handle(get("key")), Ok(Some("".to_string())));
    assert_eq!(queries.handle(GetAllConfigQuery).unwrap().len(), 3);
}

#[test]
fn each_successful_write_is_announced_once_in_order() {
    let mut commands = fresh_commands();
    assert_eq!(commands.handle(set("a", "1")), Ok(()));
    assert_eq!(commands.handle(set("b", "2")), Ok(()));
    assert_eq!(commands.handle(set("a", "1")), Ok(()));
    assert_eq!(
        commands.publisher.events,
        vec![changed("a", "1"), changed("b", "2"), changed("a", "1")]
    );
}

#[test]
fn a_failed_write_is_reported_and_not_announced() {
    let mut repo = InMemoryConfigRepository::new();
    assert_eq!(repo.set("a", "1"), Ok(()));
    repo.set_failing(true);
    let mut commands = ConfigCommandHandler::new(repo, RecordingPublisher::new());
    let answer = commands.handle(set("a", "2"));
    assert_eq!(
        answer,
        Err(AppError::Database("the in-memory configuration store is unavailable".to_string()))
    );
    assert!(commands.publisher.events.is_empty());
    commands.repo.set_failing(false);
    assert_eq!(commands.repo.get("a"), Ok(Some("1".to_string())));
}

#[test]
fn a_failing_store_fails_every_read() {
    let mut repo = InMemoryConfigRepository::new();
    repo.set_failing(true);
    let queries = ConfigQueryHandler::new(repo);
    let one = queries.handle(get("a")).unwrap_err();
    assert_eq!(one.kind(), ErrorKind::Database);
    let all = queries.handle(GetAllConfigQuery).unwrap_err();
    assert_eq!(all.kind(), ErrorKind::Database);
}

#[test]
fn conclude_hands_on_the_answer_and_decides_the_event() {
    type Handler = ConfigCommandHandler<InMemoryConfigRepository, RecordingPublisher>;
    let (answer, due) = Handler::conclude(Ok(()), set("k", "v"));
    assert_eq!(answer, Ok(()));
    assert_eq!(due, Some(changed("k", "v")));
    let failure = AppError::Io("disk full".to_string());
    let (answer, due) = Handler::conclude(Err(failure.clone()), set("k", "v"));
    assert_eq!(answer, Err(failure));
    assert_eq!(due, None);
}

/// A store that several holders share, as a database would be.
struct SharedStore {
    rows: Arc<Mutex<HashMap<String, String>>>,
}

impl IConfigRepository for SharedStore {
    fn get(&self, key: &str) -> Result<Option<String>, AppError> {
        Ok(self.rows.lock().unwrap().get(key).cloned())
    }

    fn set(&mut self, key: &str, value: &str) -> Result<(), AppError> {
        self.rows.lock().unwrap().insert(key.to_string(), value.to_string());
        Ok(())
    }

    fn get_all(&self) -> Result<Vec<SystemSetting>, AppError> {
        let rows = self.rows.lock().unwrap();
        Ok(rows.iter().map(|(k, v)| setting(k, v)).collect())
    }
}

/// An observer that, on each event, reads the store it is told about.
struct ReadingObserver {
    rows: Arc<Mutex<HashMap<String, String>>>,
    seen: Vec<(DomainEvent, Option<String>)>,
}

impl IEventPublisher for ReadingObserver {
    fn publish(&mut self, event: DomainEvent) {
        let DomainEvent::ConfigChanged { key, .. } = &event;
        let readable = self.rows.lock().unwrap().get(key).cloned();
        self.seen.push((event, readable));
    }
}

#[test]
fn an_observer_never_sees_an_event_before_its_write() {
    let rows = Arc::new(Mutex::new(HashMap::new()));
    let store = SharedStore { rows: rows.clone() };
    let observer = ReadingObserver { rows: rows.clone(), seen: vec![] };
    let mut commands = ConfigCommandHandler::new(store, observer);
    assert_eq!(commands.handle(set("a", "1")), Ok(()));
    assert_eq!(commands.handle(set("a", "2")), Ok(()));
    assert_eq!(
        commands.publisher.seen,
        vec![
            (changed("a", "1"), Some("1".to_string())),
            (changed("a", "2"), Some("2".to_string())),
        ]
    );
}

/// A store that refuses every write.
struct ReadOnlyStore;

impl IConfigRepository for ReadOnlyStore {
    fn get(&self, _key: &str) -> Result<Option<String>, AppError> {
        Ok(None)
    }

    fn set(&mut self, _key: &str, _value: &str) -> Result<(), AppError> {
        Err(AppError::Domain("the store is read-only".to_string()))
    }

    fn get_all(&self) -> Result<Vec<SystemSetting>, AppError> {
        Ok(vec![])
    }
}

#[test]
fn the_stores_error_reaches_the_caller_unchanged() {
    let mut commands = ConfigCommandHandler::new(ReadOnlyStore, RecordingPublisher::new());
    assert_eq!(
        commands.handle(set("a", "1")),
        Err(AppError::Domain("the store is read-only".to_string()))
    );
    assert!(commands.publisher.events.is_empty());
}

#[test]
fn the_in_memory_store_meets_the_repository_contract() {
    let mut repo = InMemoryConfigRepository::new();
    assert_eq!(repo.get("a"), Ok(None));
    assert_eq!(repo.get_all(), Ok(vec![]));
    assert_eq!(repo.set("a", "1"), Ok(()));
    assert_eq!(repo.set("b", "2"), Ok(()));
    assert_eq!(repo.set("a", "3"), Ok(()));
    assert_eq!(repo.get("a"), Ok(Some("3".to_string())));
    assert_eq!(repo.get("b"), Ok(Some("2".to_string())));
    assert_eq!(repo.get_all(), Ok(vec![setting("a", "3"), setting("b", "2")]));
}
