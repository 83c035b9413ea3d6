//! The end-to-end suite runs: a suite whose `before_all` publishes a number
//! and a record globally, whose `before_each` publishes a byte and a string
//! pair locally, and whose single test reads all four back.

use suitest::fixture::FixtureValue;
use suitest::hook::{Expectation, ObserverHook, OutputValue, ProducerHook};
use suitest::store::{State, GLOBAL_SCOPE};
use suitest::suite::{run_suite, SuiteConfig, SuiteDef, SuiteOutcome, TaskDef};

const TAG_CHOSEN: u64 = 1;
const TAG_MY_STUFF: u64 = 2;
const TAG_MAGIC: u64 = 3;
const TAG_WORKS: u64 = 4;

fn pair_works_tuple() -> FixtureValue {
    FixtureValue::Pair(String::from("works"), String::from("tuple"))
}

fn setup_hook() -> ProducerHook {
    ProducerHook {
        inputs: vec![],
        checks: vec![],
        declared: vec![TAG_CHOSEN, TAG_MY_STUFF],
        computed: vec![
            OutputValue { tag: TAG_CHOSEN, value: FixtureValue::Number(420) },
            OutputValue { tag: TAG_MY_STUFF, value: FixtureValue::Record { id: 69 } },
        ],
    }
}

fn beach_hook() -> ProducerHook {
    ProducerHook {
        inputs: vec![],
        checks: vec![],
        declared: vec![TAG_MAGIC, TAG_WORKS],
        computed: vec![
            OutputValue { tag: TAG_MAGIC, value: FixtureValue::Byte(69) },
            OutputValue { tag: TAG_WORKS, value: pair_works_tuple() },
        ],
    }
}

fn aeach_hook() -> ObserverHook {
    ObserverHook {
        inputs: vec![TAG_WORKS],
        checks: vec![Expectation { tag: TAG_WORKS, expected: pair_works_tuple() }],
    }
}

fn teardown_hook() -> ObserverHook {
    ObserverHook {
        inputs: vec![TAG_CHOSEN, TAG_MY_STUFF],
        checks: vec![
            Expectation { tag: TAG_CHOSEN, expected: FixtureValue::Number(420) },
            Expectation { tag: TAG_MY_STUFF, expected: FixtureValue::Record { id: 69 } },
        ],
    }
}

fn works_task() -> TaskDef {
    TaskDef {
        name: String::from("works"),
        inputs: vec![TAG_WORKS, TAG_MAGIC, TAG_CHOSEN, TAG_MY_STUFF],
        checks: vec![
            Expectation { tag: TAG_WORKS, expected: pair_works_tuple() },
            Expectation { tag: TAG_MAGIC, expected: FixtureValue::Byte(69) },
            Expectation { tag: TAG_CHOSEN, expected: FixtureValue::Number(420) },
            Expectation { tag: TAG_MY_STUFF, expected: FixtureValue::Record { id: 69 } },
        ],
    }
}

fn works_suite(sequential: bool, with_cleanup: bool) -> SuiteDef {
    SuiteDef {
        config: SuiteConfig { verbose: false, sequential },
        before_all: Some(setup_hook()),
        before_each: Some(beach_hook()),
        after_each: Some(aeach_hook()),
        after_all: Some(teardown_hook()),
        cleanup: if with_cleanup {
            Some(ObserverHook { inputs: vec![], checks: vec![] })
        } else {
            None
        },
        tasks: vec![works_task()],
    }
}

/// Populates a store the way the suite's hooks do and reads every fixture
/// back the way the test body does.
fn assert_fixtures_resolve() {
    let mut state = State::new();
    state.create_local_state(1);
    state.insert(GLOBAL_SCOPE, TAG_CHOSEN, FixtureValue::Number(420));
    state.insert(GLOBAL_SCOPE, TAG_MY_STUFF, FixtureValue::Record { id: 69 });
    state.insert(0, TAG_MAGIC, FixtureValue::Byte(69));
    state.insert(0, TAG_WORKS, pair_works_tuple());

    match state.get(0, TAG_WORKS) {
        Some(FixtureValue::Pair(first, second)) => {
            assert_eq!(first, "works");
            assert_eq!(second, "tuple");
        },
        other => panic!("expected the string pair, found {:?}", other),
    }
    assert_eq!(state.get(0, TAG_MAGIC), Some(FixtureValue::Byte(69)));
    assert_eq!(state.get(0, TAG_CHOSEN), Some(FixtureValue::Number(420)));
    match state.get(0, TAG_MY_STUFF) {
        Some(FixtureValue::Record { id }) => assert_eq!(id, 69),
        other => panic!("expected the record, found {:?}", other),
    }
}

#[test]
fn works() {
    let suite = works_suite(false, false);
    let report = run_suite(&suite);
    assert_eq!(report.outcome, SuiteOutcome::Passed);
    assert_eq!(report.reports.len(), 1);
    assert_eq!(report.reports[0].name, "works");
    assert_eq!(report.reports[0].fault, None);
    assert!(report.failures.is_empty());
    assert_fixtures_resolve();
}

#[test]
fn lib_works() {
    let suite = works_suite(true, true);
    let report = run_suite(&suite);
    assert_eq!(report.outcome, SuiteOutcome::Passed);
    assert_eq!(report.reports.len(), 1);
    assert_eq!(report.reports[0].name, "works");
    assert_eq!(report.reports[0].fault, None);
    assert!(!report.reports[0].cleanup_ran);
    assert!(report.failures.is_empty());
    assert_fixtures_resolve();
}
