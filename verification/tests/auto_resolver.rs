//! Auto-resolution through self-describing constructors: an unregistered
//! key is built by the catalog and cached, so later resolutions copy the
//! cache instead of constructing again.

use std::rc::Rc;

use kamikaze_di::{Container, ContainerBuilder, DiResult, Error, Inject, TypeKey};

const KEY_X: TypeKey = 1;
const KEY_Y: TypeKey = 2;
const KEY_A: TypeKey = 3;
const KEY_RC_USIZE: TypeKey = 4;

#[derive(Clone)]
struct X {
    inner: i32,
}

#[derive(Clone)]
struct Y {
    x: X,
}

#[derive(Clone)]
struct A {
    inner: Rc<usize>,
}

#[derive(Clone)]
enum Val {
    X(X),
    Y(Y),
    A(A),
    RcUsize(Rc<usize>),
}

/// The self-describing constructors: each field asks the container for its
/// own resolution.
struct Catalog;

impl Inject<Val> for Catalog {
    fn run_factory(&mut self, _container: &mut Container<Val>, _key: TypeKey) -> DiResult<Val> {
        Err(Error::with_message("no factory constructor"))
    }

    fn run_builder(&mut self, _container: &mut Container<Val>, _key: TypeKey) -> DiResult<Val> {
        Err(Error::with_message("no builder constructor"))
    }

    fn resolve(&mut self, container: &mut Container<Val>, key: TypeKey) -> Option<DiResult<Val>> {
        match key {
            KEY_X => Some(Ok(Val::X(X { inner: 42 }))),
            KEY_Y => Some(match container.resolve(self, KEY_X) {
                Ok(Val::X(x)) => Ok(Val::Y(Y { x })),
                Ok(_) => Err(Error::with_message("could not resolve Y::x: wrong kind")),
                Err(e) => Err(Error::with_message(&format!(
                    "could not resolve Y::x: {}",
                    e.message()
                ))),
            }),
            KEY_A => Some(match container.resolve(self, KEY_RC_USIZE) {
                Ok(Val::RcUsize(inner)) => Ok(Val::A(A { inner })),
                Ok(_) => Err(Error::with_message("could not resolve A::inner: wrong kind")),
                Err(e) => Err(Error::with_message(&format!(
                    "could not resolve A::inner: {}",
                    e.message()
                ))),
            }),
            _ => None,
        }
    }
}

#[test]
fn auto_resolver_container_can_resolve_resolvables_automatically() {
    let mut container = ContainerBuilder::new().build();
    let mut catalog = Catalog;

    let x = match container.resolve(&mut catalog, KEY_X).expect("expected a value for X") {
        Val::X(x) => x,
        _ => panic!("expected a value for X"),
    };

    assert_eq!(42, x.inner);
}

#[test]
fn auto_resolver_auto_resolvables_can_get_chained() {
    let mut container = ContainerBuilder::new().build();
    let mut catalog = Catalog;

    let y = match container.resolve(&mut catalog, KEY_Y).expect("expected a value for Y") {
        Val::Y(y) => y,
        _ => panic!("expected a value for Y"),
    };

    assert_eq!(42, y.x.inner);
}

#[test]
fn auto_resolver_resolvables_get_stored() {
    let mut builder = ContainerBuilder::new();
    builder.register(KEY_RC_USIZE, Val::RcUsize(Rc::new(42))).unwrap();

    let mut container = builder.build();
    let mut catalog = Catalog;

    let a1 = match container.resolve(&mut catalog, KEY_A).unwrap() {
        Val::A(a) => a,
        _ => panic!("expected a value for A"),
    };
    let _a2 = container.resolve(&mut catalog, KEY_A).unwrap();

    // the inner rc was cloned:
    // - once when A's constructor resolved it => strong count of inner is 2
    // - once more when copying the cached A on the first resolution => 3
    // - a third time when resolving A again => 4
    let a1_was_cloned = Rc::strong_count(&a1.inner) == 4;
    assert!(a1_was_cloned);
}

#[test]
fn auto_resolver_test_resolvable_interaction_with_auto_factory() {
    let mut builder = ContainerBuilder::new();
    builder.register(KEY_RC_USIZE, Val::RcUsize(Rc::new(42))).unwrap();
    builder.register_automatic_factory(KEY_A).unwrap();

    let mut container = builder.build();
    let mut catalog = Catalog;

    let a1 = match container.resolve(&mut catalog, KEY_A).unwrap() {
        Val::A(a) => a,
        _ => panic!("expected a value for A"),
    };
    let _a2 = container.resolve(&mut catalog, KEY_A).unwrap();

    // the inner rc was cloned:
    // - once when A's constructor resolved it => strong count of inner is 2
    // - once more when the second resolution ran the constructor again => 3
    let a1_was_not_cloned = Rc::strong_count(&a1.inner) == 3;
    assert!(a1_was_not_cloned);
}
