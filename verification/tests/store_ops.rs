//! The store on its own: type-keyed upsert and delete, local-then-global
//! resolution, local override, and isolation between local scopes.

use suitest::fixture::FixtureValue;
use suitest::store::{State, GLOBAL_SCOPE};

const TAG_NUM: u64 = 10;
const TAG_TEXT: u64 = 11;

#[test]
fn insert_returns_displaced_value() {
    let mut state = State::new();
    state.create_local_state(1);
    assert_eq!(state.insert(GLOBAL_SCOPE, TAG_NUM, FixtureValue::Number(1)), None);
    assert_eq!(
        state.insert(GLOBAL_SCOPE, TAG_NUM, FixtureValue::Number(2)),
        Some(FixtureValue::Number(1))
    );
    assert_eq!(state.get(GLOBAL_SCOPE, TAG_NUM), Some(FixtureValue::Number(2)));
}

#[test]
fn remove_takes_the_value_out() {
    let mut state = State::new();
    state.create_local_state(1);
    state.insert(0, TAG_TEXT, FixtureValue::Text(String::from("gone")));
    assert_eq!(state.remove(0, TAG_TEXT), Some(FixtureValue::Text(String::from("gone"))));
    assert_eq!(state.remove(0, TAG_TEXT), None);
    assert_eq!(state.get(0, TAG_TEXT), None);
}

#[test]
fn local_miss_falls_back_to_global() {
    let mut state = State::new();
    state.create_local_state(2);
    state.insert(GLOBAL_SCOPE, TAG_NUM, FixtureValue::Number(42));
    assert_eq!(state.get(0, TAG_NUM), Some(FixtureValue::Number(42)));
    assert_eq!(state.get(1, TAG_NUM), Some(FixtureValue::Number(42)));
}

#[test]
fn local_value_overrides_global() {
    let mut state = State::new();
    state.create_local_state(2);
    state.insert(GLOBAL_SCOPE, TAG_NUM, FixtureValue::Number(42));
    state.insert(0, TAG_NUM, FixtureValue::Number(7));
    assert_eq!(state.get(0, TAG_NUM), Some(FixtureValue::Number(7)));
    assert_eq!(state.get(1, TAG_NUM), Some(FixtureValue::Number(42)));
    assert_eq!(state.get(GLOBAL_SCOPE, TAG_NUM), Some(FixtureValue::Number(42)));
}

#[test]
fn local_scopes_are_isolated() {
    let mut state = State::new();
    state.create_local_state(3);
    state.insert(1, TAG_TEXT, FixtureValue::Text(String::from("only mine")));
    assert_eq!(state.get(0, TAG_TEXT), None);
    assert_eq!(state.get(2, TAG_TEXT), None);
    assert_eq!(state.get(GLOBAL_SCOPE, TAG_TEXT), None);
    assert_eq!(state.get(1, TAG_TEXT), Some(FixtureValue::Text(String::from("only mine"))));
}

#[test]
fn miss_in_both_scopes_is_a_miss() {
    let mut state = State::new();
    state.create_local_state(1);
    assert_eq!(state.get(0, TAG_NUM), None);
    assert_eq!(state.get(GLOBAL_SCOPE, TAG_NUM), None);
}

#[test]
fn retrieval_yields_an_independent_copy() {
    let mut state = State::new();
    state.create_local_state(1);
    state.insert(0, TAG_TEXT, FixtureValue::Text(String::from("shared")));
    let copy = state.get(0, TAG_TEXT).unwrap();
    drop(copy);
    assert_eq!(state.get(0, TAG_TEXT), Some(FixtureValue::Text(String::from("shared"))));
}
