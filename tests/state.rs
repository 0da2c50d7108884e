use std::sync::Arc;

use warden::config::Config;
use warden::state::State;

#[test]
fn clones_share_one_value() {
    let state = State::new(Config::default());
    let clones: Vec<State<Config>> = (0..5).map(|_| state.clone()).collect();
    for c in &clones {
        assert!(std::ptr::eq(c.get_ref(), state.get_ref()));
    }
    let last = clones.into_iter().next().unwrap();
    drop(state);
    assert_eq!(last.get_ref(), &Config::default());
    let arc = last.into_inner();
    assert_eq!(Arc::strong_count(&arc), 1);
    assert_eq!(*arc, Config::default());
}

#[test]
fn count_follows_clones_and_drops() {
    let state = State::new(7u32);
    let a = state.clone();
    let b = a.clone();
    assert_eq!(Arc::strong_count(&state), 3);
    drop(a);
    assert_eq!(Arc::strong_count(&b), 2);
    drop(b);
    assert_eq!(*state.get_ref(), 7);
    assert_eq!(Arc::strong_count(&state.into_inner()), 1);
}

#[test]
fn from_an_existing_arc() {
    let arc = Arc::new(String::from("x"));
    let state = State::from(arc.clone());
    assert!(Arc::ptr_eq(&arc, &state));
    assert_eq!(state.get_ref(), "x");
}
