use laizy::Lazy;
use laizy::protocol::{self, Action, INIT, INITIALIZING, UNINIT};
use std::cell::Cell;
use std::rc::Rc;
use std::sync::Mutex;

#[test]
fn simple() {
    let mut sync = Lazy::new(|| Mutex::new(Vec::<u8>::with_capacity(10)));
    let vec = sync.get().lock().unwrap();
    println!("{}", vec.capacity());
}

#[test]
fn pre_init_reports_ready() {
    let cell = Lazy::<u32, fn() -> u32>::init(7);
    assert!(cell.has_init());
    assert!(!cell.is_uninit());
    assert!(!cell.is_init());
    assert_eq!(cell.try_get(), Some(&7));
}

#[test]
fn from_builds_initialized() {
    let cell = Lazy::<&str, fn() -> &'static str>::from("ready");
    assert!(cell.has_init());
    assert_eq!(cell.into_inner(), "ready");
}

#[test]
fn try_get_before_init_is_none() {
    let cell = Lazy::new(|| 5u32);
    assert!(cell.try_get().is_none());
    assert!(cell.try_get().is_none());
    assert!(cell.is_uninit());
}

#[test]
fn get_is_idempotent() {
    let mut cell = Lazy::new(|| String::from("computed"));
    assert_eq!(cell.get().as_str(), "computed");
    assert_eq!(cell.get().as_str(), "computed");
    assert_eq!(cell.try_get().map(String::as_str), Some("computed"));
    assert!(cell.has_init());
}

#[test]
fn counter_runs_once() {
    let counter = Rc::new(Cell::new(0u32));
    let seen = counter.clone();
    let mut cell = Lazy::new(move || {
        seen.set(seen.get() + 1);
        42u32
    });
    let mut results = Vec::new();
    for _ in 0..8 {
        results.push(*cell.get());
    }
    assert_eq!(counter.get(), 1);
    assert_eq!(results, vec![42; 8]);
}

#[test]
fn get_mut_allows_writes() {
    let mut cell = Lazy::new(|| 1u32);
    *cell.get_mut() += 9;
    assert_eq!(cell.try_get(), Some(&10));
    match cell.try_get_mut() {
        Some(v) => *v += 1,
        None => unreachable!(),
    }
    assert_eq!(cell.try_get(), Some(&11));
}

#[test]
fn try_get_mut_before_init_is_none() {
    let mut cell = Lazy::new(|| 1u32);
    assert!(cell.try_get_mut().is_none());
    assert!(cell.is_uninit());
}

#[test]
fn into_inner_runs_pending_initializer_once() {
    let counter = Rc::new(Cell::new(0u32));
    let seen = counter.clone();
    let cell = Lazy::new(move || {
        seen.set(seen.get() + 1);
        9u32
    });
    assert_eq!(cell.into_inner(), 9);
    assert_eq!(counter.get(), 1);
}

#[test]
fn into_inner_keeps_stored_value() {
    let counter = Rc::new(Cell::new(0u32));
    let seen = counter.clone();
    let mut cell = Lazy::new(move || {
        seen.set(seen.get() + 1);
        9u32
    });
    cell.get();
    assert_eq!(cell.into_inner(), 9);
    assert_eq!(counter.get(), 1);
}

#[test]
fn try_into_inner_returns_unrun_initializer() {
    let counter = Rc::new(Cell::new(0u32));
    let seen = counter.clone();
    let cell = Lazy::new(move || {
        seen.set(seen.get() + 1);
        3u32
    });
    match cell.try_into_inner() {
        Err(f) => {
            assert_eq!(counter.get(), 0);
            assert_eq!(f(), 3);
            assert_eq!(counter.get(), 1);
        }
        Ok(_) => unreachable!(),
    }
}

#[test]
fn try_into_inner_returns_value_when_ready() {
    let mut cell = Lazy::new(|| 3u32);
    cell.get();
    match cell.try_into_inner() {
        Ok(v) => assert_eq!(v, 3),
        Err(_) => unreachable!(),
    }
}

#[test]
fn protocol_actions() {
    assert!(matches!(protocol::next_action(UNINIT), Action::RunInitializer));
    assert!(matches!(protocol::next_action(INITIALIZING), Action::Wait));
    assert!(matches!(protocol::next_action(INIT), Action::ReadValue));
}

#[test]
fn protocol_reached() {
    assert!(!protocol::reached(UNINIT, INIT));
    assert!(!protocol::reached(INITIALIZING, INIT));
    assert!(protocol::reached(INIT, INIT));
}
