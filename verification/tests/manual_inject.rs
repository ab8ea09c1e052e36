//! Composite types written by hand against the capability interface:
//! each field of a self-describing constructor is resolved from the
//! container in declaration order, and the first failure short-circuits
//! with a field-qualified message.

use std::rc::Rc;

use kamikaze_di::{Container, ContainerBuilder, DiResult, Error, Inject, TypeKey};

const KEY_CONFIG: TypeKey = 1;
const KEY_DB_CONNECTION: TypeKey = 2;
const KEY_USER_REPOSITORY: TypeKey = 3;
const KEY_USIZE: TypeKey = 4;
const KEY_X: TypeKey = 5;
const KEY_Y: TypeKey = 6;
const KEY_Z: TypeKey = 7;

#[derive(Clone)]
struct Config {
    pub db: String,
}

// does not get copied around: every holder shares the one connection
#[derive(Clone)]
struct DatabaseConnection {
    config: Config,
}

#[derive(Clone)]
struct UserRepository {
    db_connection: Rc<DatabaseConnection>,
}

#[derive(Clone)]
struct X {
    u: usize,
}

#[derive(Clone)]
struct Y {
    _x: X,
}

struct Z {
    _x: X,
}

#[derive(Clone)]
enum Val {
    Config(Config),
    DbConnection(Rc<DatabaseConnection>),
    UserRepository(UserRepository),
    Usize(usize),
    X(X),
    Y(Y),
    Z(Rc<Z>),
}

struct Catalog;

impl Catalog {
    fn field<T>(
        &mut self,
        container: &mut Container<Val>,
        key: TypeKey,
        owner_and_field: &str,
        pick: fn(Val) -> Option<T>,
    ) -> DiResult<T> {
        match container.resolve(self, key) {
            Ok(value) => match pick(value) {
                Some(field) => Ok(field),
                None => Err(Error::with_message(&format!(
                    "could not resolve {}: wrong kind",
                    owner_and_field
                ))),
            },
            Err(e) => Err(Error::with_message(&format!(
                "could not resolve {}: {}",
                owner_and_field,
                e.message()
            ))),
        }
    }
}

impl Inject<Val> for Catalog {
    fn run_factory(&mut self, _container: &mut Container<Val>, _key: TypeKey) -> DiResult<Val> {
        Err(Error::with_message("no factory constructor"))
    }

    fn run_builder(&mut self, _container: &mut Container<Val>, _key: TypeKey) -> DiResult<Val> {
        Err(Error::with_message("no builder constructor"))
    }

    fn resolve(&mut self, container: &mut Container<Val>, key: TypeKey) -> Option<DiResult<Val>> {
        match key {
            KEY_DB_CONNECTION => Some(
                self.field(container, KEY_CONFIG, "DatabaseConnection::config", |v| match v {
                    Val::Config(config) => Some(config),
                    _ => None,
                })
                .map(|config| Val::DbConnection(Rc::new(DatabaseConnection { config }))),
            ),
            KEY_USER_REPOSITORY => Some(
                self.field(
                    container,
                    KEY_DB_CONNECTION,
                    "UserRepository::db_connection",
                    |v| match v {
                        Val::DbConnection(db_connection) => Some(db_connection),
                        _ => None,
                    },
                )
                .map(|db_connection| Val::UserRepository(UserRepository { db_connection })),
            ),
            KEY_X => Some(
                self.field(container, KEY_USIZE, "X::u", |v| match v {
                    Val::Usize(u) => Some(u),
                    _ => None,
                })
                .map(|u| Val::X(X { u })),
            ),
            KEY_Y => Some(
                self.field(container, KEY_X, "Y::_x", |v| match v {
                    Val::X(x) => Some(x),
                    _ => None,
                })
                .map(|x| Val::Y(Y { _x: x })),
            ),
            KEY_Z => Some(
                self.field(container, KEY_X, "Z::_x", |v| match v {
                    Val::X(x) => Some(x),
                    _ => None,
                })
                .map(|x| Val::Z(Rc::new(Z { _x: x }))),
            ),
            _ => None,
        }
    }
}

#[test]
fn another_example_test_derive() {
    let mut builder = ContainerBuilder::new();
    builder
        .register(
            KEY_CONFIG,
            Val::Config(Config {
                db: "localhost".to_string(),
            }),
        )
        .unwrap();

    let mut container = builder.build();
    let mut catalog = Catalog;

    let user_repo_result = container.resolve(&mut catalog, KEY_USER_REPOSITORY);

    assert!(user_repo_result.is_ok());

    let user_repo = match user_repo_result.unwrap() {
        Val::UserRepository(repo) => repo,
        _ => panic!("expected a user repository"),
    };
    assert_eq!("localhost", user_repo.db_connection.config.db);
}

#[test]
fn tests_test_derive() {
    let mut builder = ContainerBuilder::new();
    builder.register(KEY_USIZE, Val::Usize(42)).unwrap();

    let mut container = builder.build();
    let mut catalog = Catalog;

    let y = container.resolve(&mut catalog, KEY_Y);

    assert!(y.is_ok());
}

#[test]
fn test_derive_to_rc() {
    let mut builder = ContainerBuilder::new();
    builder.register(KEY_USIZE, Val::Usize(42)).unwrap();

    let mut container = builder.build();
    let mut catalog = Catalog;

    let z = container.resolve(&mut catalog, KEY_Z);

    assert!(z.is_ok());

    // every later resolution shares the one instance behind the handle
    let z1 = match z.unwrap() {
        Val::Z(z) => z,
        _ => panic!("expected a value for Z"),
    };
    let z2 = match container.resolve(&mut catalog, KEY_Z).unwrap() {
        Val::Z(z) => z,
        _ => panic!("expected a value for Z"),
    };
    assert!(Rc::ptr_eq(&z1, &z2));
    assert_eq!(42, z1._x.u);
}
