//! The scheduler and the failure aggregation: every task always runs, a
//! failing task triggers its cleanup before the failure is recorded, and the
//! suite verdict is passed exactly when no task failed.

use suitest::fixture::FixtureValue;
use suitest::hook::{Expectation, Fault, ObserverHook, OutputValue, ProducerHook};
use suitest::suite::{
    choose_mode, run_suite, ExecMode, HookKind, SuiteConfig, SuiteDef, SuiteFault, SuiteOutcome,
    TaskDef,
};

const TAG_SEED: u64 = 20;
const TAG_MARKER: u64 = 21;

fn passing_task(name: &str) -> TaskDef {
    TaskDef {
        name: String::from(name),
        inputs: vec![TAG_SEED],
        checks: vec![Expectation { tag: TAG_SEED, expected: FixtureValue::Number(5) }],
    }
}

fn failing_task(name: &str) -> TaskDef {
    TaskDef {
        name: String::from(name),
        inputs: vec![TAG_SEED],
        checks: vec![Expectation { tag: TAG_SEED, expected: FixtureValue::Number(6) }],
    }
}

fn seed_hook() -> ProducerHook {
    ProducerHook {
        inputs: vec![],
        checks: vec![],
        declared: vec![TAG_SEED],
        computed: vec![OutputValue { tag: TAG_SEED, value: FixtureValue::Number(5) }],
    }
}

fn bare_suite(tasks: Vec<TaskDef>) -> SuiteDef {
    SuiteDef {
        config: SuiteConfig { verbose: false, sequential: true },
        before_all: Some(seed_hook()),
        before_each: None,
        after_each: None,
        after_all: None,
        cleanup: None,
        tasks,
    }
}

#[test]
fn all_tasks_run_after_a_failure() {
    let suite = bare_suite(vec![
        passing_task("first"),
        failing_task("second"),
        passing_task("third"),
        passing_task("fourth"),
    ]);
    let report = run_suite(&suite);
    assert_eq!(report.reports.len(), 4);
    assert_eq!(report.reports[0].fault, None);
    assert_eq!(
        report.reports[1].fault,
        Some(Fault::AssertionFailed { scope: 1, tag: TAG_SEED })
    );
    assert_eq!(report.reports[2].fault, None);
    assert_eq!(report.reports[3].fault, None);
    assert_eq!(report.outcome, SuiteOutcome::Failed);
    assert_eq!(report.failures.len(), 1);
    assert_eq!(report.failures[0].task, "second");
}

#[test]
fn cleanup_runs_exactly_for_failing_tasks() {
    let mut suite = bare_suite(vec![failing_task("broken"), passing_task("fine")]);
    suite.cleanup = Some(ObserverHook {
        inputs: vec![TAG_SEED],
        checks: vec![Expectation { tag: TAG_SEED, expected: FixtureValue::Number(5) }],
    });
    let report = run_suite(&suite);
    assert!(report.reports[0].cleanup_ran);
    assert_eq!(report.reports[0].cleanup_fault, None);
    assert!(!report.reports[1].cleanup_ran);
    assert_eq!(report.failures.len(), 1);
    assert_eq!(report.failures[0].task, "broken");
}

#[test]
fn cleanup_resolves_against_the_failing_task_state() {
    // before_each publishes a marker locally; the body fails; cleanup must
    // still see the marker that was published for this very task.
    let suite = SuiteDef {
        config: SuiteConfig { verbose: false, sequential: true },
        before_all: None,
        before_each: Some(ProducerHook {
            inputs: vec![],
            checks: vec![],
            declared: vec![TAG_MARKER],
            computed: vec![OutputValue { tag: TAG_MARKER, value: FixtureValue::Byte(9) }],
        }),
        after_each: None,
        after_all: None,
        cleanup: Some(ObserverHook {
            inputs: vec![TAG_MARKER],
            checks: vec![Expectation { tag: TAG_MARKER, expected: FixtureValue::Byte(9) }],
        }),
        tasks: vec![TaskDef {
            name: String::from("needs_cleanup"),
            inputs: vec![TAG_SEED],
            checks: vec![],
        }],
    };
    let report = run_suite(&suite);
    assert_eq!(
        report.reports[0].fault,
        Some(Fault::FixtureMissing { scope: 0, tag: TAG_SEED })
    );
    assert!(report.reports[0].cleanup_ran);
    assert_eq!(report.reports[0].cleanup_fault, None);
}

#[test]
fn outcome_is_passed_iff_no_failures() {
    let passing = bare_suite(vec![passing_task("a"), passing_task("b")]);
    let report = run_suite(&passing);
    assert_eq!(report.outcome, SuiteOutcome::Passed);
    assert!(report.failures.is_empty());
    assert!(report.last_fault().is_none());

    let failing = bare_suite(vec![passing_task("a"), failing_task("b"), failing_task("c")]);
    let report = run_suite(&failing);
    assert_eq!(report.outcome, SuiteOutcome::Failed);
    assert_eq!(report.failures.len(), 2);
    let last = report.last_fault().expect("a failed suite surfaces a fault");
    assert_eq!(last.task, "c");
    assert_eq!(last.fault, Fault::AssertionFailed { scope: 2, tag: TAG_SEED });
}

#[test]
fn missing_fixture_fails_only_that_task() {
    let suite = bare_suite(vec![
        TaskDef {
            name: String::from("wants_more"),
            inputs: vec![TAG_SEED, TAG_MARKER],
            checks: vec![],
        },
        passing_task("content"),
    ]);
    let report = run_suite(&suite);
    assert_eq!(
        report.reports[0].fault,
        Some(Fault::FixtureMissing { scope: 0, tag: TAG_MARKER })
    );
    assert_eq!(report.reports[1].fault, None);
    assert_eq!(report.outcome, SuiteOutcome::Failed);
}

#[test]
fn output_type_mismatch_aborts_before_any_task() {
    let mut suite = bare_suite(vec![passing_task("never_runs")]);
    suite.before_all = Some(ProducerHook {
        inputs: vec![],
        checks: vec![],
        declared: vec![TAG_SEED],
        computed: vec![OutputValue { tag: TAG_MARKER, value: FixtureValue::Number(5) }],
    });
    let report = run_suite(&suite);
    assert_eq!(report.reports.len(), 0);
    assert_eq!(report.outcome, SuiteOutcome::Failed);
    assert_eq!(
        report.suite_fault,
        Some(SuiteFault::OutputMismatch {
            hook: HookKind::BeforeAll,
            declared: TAG_SEED,
            actual: TAG_MARKER,
        })
    );
}

#[test]
fn output_arity_mismatch_aborts_before_any_task() {
    let mut suite = bare_suite(vec![passing_task("never_runs")]);
    suite.before_each = Some(ProducerHook {
        inputs: vec![],
        checks: vec![],
        declared: vec![TAG_SEED, TAG_MARKER],
        computed: vec![OutputValue { tag: TAG_SEED, value: FixtureValue::Number(5) }],
    });
    let report = run_suite(&suite);
    assert_eq!(report.reports.len(), 0);
    assert_eq!(
        report.suite_fault,
        Some(SuiteFault::OutputArity { hook: HookKind::BeforeEach })
    );
}

#[test]
fn faulting_setup_aborts_the_suite() {
    let mut suite = bare_suite(vec![passing_task("never_runs")]);
    // before_all declares an input, but nothing has populated the store yet.
    suite.before_all = Some(ProducerHook {
        inputs: vec![TAG_MARKER],
        checks: vec![],
        declared: vec![],
        computed: vec![],
    });
    let report = run_suite(&suite);
    assert_eq!(report.reports.len(), 0);
    assert_eq!(report.outcome, SuiteOutcome::Failed);
    assert_eq!(
        report.suite_fault,
        Some(SuiteFault::SetupFault {
            fault: Fault::FixtureMissing { scope: usize::MAX, tag: TAG_MARKER },
        })
    );
}

#[test]
fn faulting_teardown_fails_a_passing_suite() {
    let mut suite = bare_suite(vec![passing_task("fine")]);
    suite.after_all = Some(ObserverHook {
        inputs: vec![TAG_SEED],
        checks: vec![Expectation { tag: TAG_SEED, expected: FixtureValue::Number(99) }],
    });
    let report = run_suite(&suite);
    assert!(report.failures.is_empty());
    assert_eq!(report.outcome, SuiteOutcome::Failed);
    assert_eq!(
        report.suite_fault,
        Some(SuiteFault::TeardownFault {
            fault: Fault::AssertionFailed { scope: usize::MAX, tag: TAG_SEED },
        })
    );
}

#[test]
fn teardown_is_skipped_when_a_task_failed() {
    let mut suite = bare_suite(vec![failing_task("broken")]);
    // This after_all would itself fault, but it never runs: a task failed.
    suite.after_all = Some(ObserverHook {
        inputs: vec![TAG_MARKER],
        checks: vec![],
    });
    let report = run_suite(&suite);
    assert_eq!(report.outcome, SuiteOutcome::Failed);
    assert_eq!(report.suite_fault, None);
    assert_eq!(report.failures.len(), 1);
}

#[test]
fn mode_selection_is_orthogonal() {
    let sequential = SuiteConfig { verbose: false, sequential: true };
    let parallel = SuiteConfig { verbose: false, sequential: false };
    assert_eq!(choose_mode(&sequential, false), ExecMode::SequentialBlocking);
    assert_eq!(choose_mode(&sequential, true), ExecMode::SequentialCooperative);
    assert_eq!(choose_mode(&parallel, false), ExecMode::ParallelBlocking);
    assert_eq!(choose_mode(&parallel, true), ExecMode::ParallelCooperative);
}

#[test]
fn empty_suite_passes() {
    let suite = SuiteDef {
        config: SuiteConfig { verbose: false, sequential: true },
        before_all: None,
        before_each: None,
        after_each: None,
        after_all: None,
        cleanup: None,
        tasks: vec![],
    };
    let report = run_suite(&suite);
    assert_eq!(report.outcome, SuiteOutcome::Passed);
    assert!(report.reports.is_empty());
    assert!(report.failures.is_empty());
    assert_eq!(report.suite_fault, None);
}

#[test]
fn publishing_the_same_type_twice_keeps_the_later_value() {
    let mut suite = bare_suite(vec![TaskDef {
        name: String::from("sees_latest"),
        inputs: vec![TAG_SEED],
        checks: vec![Expectation { tag: TAG_SEED, expected: FixtureValue::Number(11) }],
    }]);
    suite.before_all = Some(ProducerHook {
        inputs: vec![],
        checks: vec![],
        declared: vec![TAG_SEED, TAG_SEED],
        computed: vec![
            OutputValue { tag: TAG_SEED, value: FixtureValue::Number(10) },
            OutputValue { tag: TAG_SEED, value: FixtureValue::Number(11) },
        ],
    });
    let report = run_suite(&suite);
    assert_eq!(report.outcome, SuiteOutcome::Passed);
}

#[test]
fn faulting_before_each_publishes_nothing_and_triggers_cleanup() {
    // before_each needs a fixture nobody published: the task fails before its
    // body, its local bucket stays empty, and cleanup still resolves the
    // global seed through the fallback.
    let mut suite = bare_suite(vec![passing_task("never_reaches_body")]);
    suite.before_each = Some(ProducerHook {
        inputs: vec![TAG_MARKER],
        checks: vec![],
        declared: vec![TAG_MARKER],
        computed: vec![OutputValue { tag: TAG_MARKER, value: FixtureValue::Byte(1) }],
    });
    suite.cleanup = Some(ObserverHook {
        inputs: vec![TAG_SEED],
        checks: vec![Expectation { tag: TAG_SEED, expected: FixtureValue::Number(5) }],
    });
    let report = run_suite(&suite);
    assert_eq!(
        report.reports[0].fault,
        Some(Fault::FixtureMissing { scope: 0, tag: TAG_MARKER })
    );
    assert!(report.reports[0].cleanup_ran);
    assert_eq!(report.reports[0].cleanup_fault, None);
    assert_eq!(report.outcome, SuiteOutcome::Failed);
}
