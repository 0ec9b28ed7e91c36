use desktop_core::application::user_commands::UserCommandHandler;
use desktop_core::application::user_queries::UserQueryHandler;
use desktop_core::domain::cqrs::{CommandHandler, QueryHandler};
use desktop_core::domain::users::{
    CreateUserCmd, DeleteUserCmd, GetUserByIdQuery, IUserRepository, ListUsersQuery, User,
};
use desktop_core::error::{AppError, ErrorKind};
use desktop_core::infra::memory_users::InMemoryUserRepository;

fn create(username: &str, email: Option<&str>, role: &str) -> CreateUserCmd {
    CreateUserCmd {
        username: username.to_string(),
        email: email.map(|e| e.to_string()),
        role: role.to_string(),
    }
}

fn delete(id: &str) -> DeleteUserCmd {
    DeleteUserCmd { id: id.to_string() }
}

fn by_id(id: &str) -> GetUserByIdQuery {
    GetUserByIdQuery { id: id.to_string() }
}

fn fresh_commands() -> UserCommandHandler<InMemoryUserRepository> {
    UserCommandHandler::new(InMemoryUserRepository::new())
}

fn is_lower_hex(c: char) -> bool {
    c.is_ascii_digit() || ('a'..='f').contains(&c)
}

#[test]
fn a_created_user_can_be_listed_and_found() {
    let mut commands = fresh_commands();
    let created = commands.handle(create("alice", None, "user")).unwrap();
    assert!(!created.id.is_empty());
    assert_eq!(created.username, "alice");
    assert_eq!(created.email, None);
    assert_eq!(created.role, "user");
    let queries = UserQueryHandler::new(commands.repo);
    assert_eq!(queries.handle(ListUsersQuery), Ok(vec![created.clone()]));
    assert_eq!(queries.handle(by_id(&created.id)), Ok(Some(created)));
}

#[test]
fn users_are_listed_newest_first() {
    let mut commands = fresh_commands();
    let a = commands.handle(create("A", None, "user")).unwrap();
    let b = commands.handle(create("B", Some("b@example.org"), "admin")).unwrap();
    let c = commands.handle(create("C", None, "user")).unwrap();
    let queries = UserQueryHandler::new(commands.repo);
    assert_eq!(queries.handle(ListUsersQuery), Ok(vec![c, b, a]));
}

#[test]
fn a_fresh_store_has_no_users() {
    let queries = UserQueryHandler::new(InMemoryUserRepository::new());
    assert_eq!(queries.handle(ListUsersQuery), Ok(vec![]));
}

#[test]
fn an_unknown_user_is_absent_and_no_error() {
    let mut commands = fresh_commands();
    commands.handle(create("alice", None, "user")).unwrap();
    let queries = UserQueryHandler::new(commands.repo);
    assert_eq!(queries.handle(by_id("nonexistent")), Ok(None));
}

#[test]
fn deleting_an_unknown_user_is_not_found() {
    let mut commands = fresh_commands();
    assert_eq!(
        commands.handle(delete("nonexistent-id")),
        Err(AppError::NotFound("User nonexistent-id not found".to_string()))
    );
    let created = commands.handle(create("alice", None, "user")).unwrap();
    let answer = commands.handle(delete("nonexistent-id")).unwrap_err();
    assert_eq!(answer.kind(), ErrorKind::NotFound);
    assert_eq!(answer.message(), "Not found: User nonexistent-id not found");
    assert_eq!(commands.repo.list(), Ok(vec![created]));
}

#[test]
fn deleting_a_user_removes_that_user_only() {
    let mut commands = fresh_commands();
    let a = commands.handle(create("A", None, "user")).unwrap();
    let b = commands.handle(create("B", None, "user")).unwrap();
    let c = commands.handle(create("C", None, "user")).unwrap();
    assert_eq!(commands.handle(delete(&b.id)), Ok(()));
    assert_eq!(commands.repo.find_by_id(&b.id), Ok(None));
    assert_eq!(commands.repo.list(), Ok(vec![c, a]));
}

#[test]
fn deleting_twice_fails_the_second_time() {
    let mut commands = fresh_commands();
    let a = commands.handle(create("A", None, "user")).unwrap();
    assert_eq!(commands.handle(delete(&a.id)), Ok(()));
    let again = commands.handle(delete(&a.id)).unwrap_err();
    assert_eq!(again, AppError::NotFound(format!("User {} not found", a.id)));
}

#[test]
fn a_fresh_identifier_is_a_random_uuid() {
    let mut commands = fresh_commands();
    let created = commands.handle(create("alice", None, "user")).unwrap();
    let id: Vec<char> = created.id.chars().collect();
    assert_eq!(id.len(), 36);
    for (i, c) in id.iter().enumerate() {
        if i == 8 || i == 13 || i == 18 || i == 23 {
            assert_eq!(*c, '-');
        } else {
            assert!(is_lower_hex(*c));
        }
    }
    assert_eq!(id[14], '4');
    assert!(matches!(id[19], '8' | '9' | 'a' | 'b'));
}

#[test]
fn fresh_identifiers_differ() {
    let mut commands = fresh_commands();
    let a = commands.handle(create("same", None, "user")).unwrap();
    let b = commands.handle(create("same", None, "user")).unwrap();
    assert_ne!(a.id, b.id);
    assert_eq!(commands.repo.list().unwrap().len(), 2);
}

#[test]
fn the_store_stamps_the_timestamps() {
    let mut commands = fresh_commands();
    let a = commands.handle(create("A", None, "user")).unwrap();
    let b = commands.handle(create("B", None, "user")).unwrap();
    assert_eq!(a.created_at, "0");
    assert_eq!(a.updated_at, "0");
    assert_eq!(b.created_at, "1");
    assert_eq!(b.updated_at, "1");
}

#[test]
fn the_role_is_not_checked() {
    let mut commands = fresh_commands();
    let created = commands.handle(create("root", Some("root@example.org"), "superuser")).unwrap();
    assert_eq!(created.role, "superuser");
    assert_eq!(created.email, Some("root@example.org".to_string()));
}

#[test]
fn into_user_leaves_the_timestamps_to_the_store() {
    let user = create("alice", Some("a@example.org"), "admin").into_user("id-1".to_string());
    assert_eq!(
        user,
        User {
            id: "id-1".to_string(),
            username: "alice".to_string(),
            email: Some("a@example.org".to_string()),
            role: "admin".to_string(),
            created_at: String::new(),
            updated_at: String::new(),
        }
    );
}

#[test]
fn an_identifier_that_is_taken_is_refused() {
    let mut commands = fresh_commands();
    let first = commands.create_with_id(create("alice", None, "user"), "id-1".to_string()).unwrap();
    assert_eq!(first.id, "id-1");
    let second = commands.create_with_id(create("bob", None, "user"), "id-1".to_string());
    assert_eq!(second, Err(AppError::Database("User id-1 already exists".to_string())));
    assert_eq!(commands.repo.list(), Ok(vec![first]));
}

#[test]
fn a_failing_store_fails_every_request_and_keeps_its_users() {
    let mut commands = fresh_commands();
    let a = commands.handle(create("A", None, "user")).unwrap();
    commands.repo.set_failing(true);
    let unavailable = AppError::Database("the in-memory user store is unavailable".to_string());
    assert_eq!(commands.handle(create("B", None, "user")), Err(unavailable.clone()));
    assert_eq!(commands.handle(delete(&a.id)), Err(unavailable.clone()));
    assert_eq!(commands.handle(delete("nonexistent-id")), Err(unavailable.clone()));
    assert_eq!(commands.repo.list(), Err(unavailable.clone()));
    assert_eq!(commands.repo.find_by_id(&a.id), Err(unavailable));
    commands.repo.set_failing(false);
    assert_eq!(commands.repo.list(), Ok(vec![a]));
}

/// A store that keeps nothing and reports every write as done.
struct ForgetfulStore;

impl IUserRepository for ForgetfulStore {
    fn create(&mut self, user: User) -> Result<User, AppError> {
        Ok(User {
            created_at: "2024-01-01 00:00:00".to_string(),
            updated_at: "2024-01-01 00:00:00".to_string(),
            ..user
        })
    }

    fn list(&self) -> Result<Vec<User>, AppError> {
        Ok(vec![])
    }

    fn find_by_id(&self, _id: &str) -> Result<Option<User>, AppError> {
        Err(AppError::Io("connection reset".to_string()))
    }

    fn delete(&mut self, _id: &str) -> Result<(), AppError> {
        Err(AppError::Unknown("not supported".to_string()))
    }
}

#[test]
fn handlers_work_with_any_store_and_hand_on_its_answers() {
    let mut commands = UserCommandHandler::new(ForgetfulStore);
    let echoed = commands.handle(create("alice", None, "user")).unwrap();
    assert_eq!(echoed.username, "alice");
    assert_eq!(echoed.created_at, "2024-01-01 00:00:00");
    assert_eq!(commands.handle(delete(&echoed.id)), Err(AppError::Unknown("not supported".to_string())));
    let queries = UserQueryHandler::new(commands.repo);
    assert_eq!(queries.handle(ListUsersQuery), Ok(vec![]));
    assert_eq!(queries.handle(by_id("x")), Err(AppError::Io("connection reset".to_string())));
}
