//! The suite: task descriptors, the per-task pipeline, the sequential
//! scheduler, and failure aggregation.
//!
//! A suite is a fixed, flat batch of test tasks wrapped by optional hooks.
//! `before_all` runs once and populates the global bucket before any task
//! starts; each task then runs `before_each` (publishing into its own local
//! bucket), its body, and `after_each` — or `cleanup` in place of
//! `after_each` when the body or an earlier phase faults. A task's fault is
//! caught at the task boundary and turned into a failure record; it never
//! stops the remaining tasks. `after_all` runs once at the end, and only
//! when no task failed: a failed suite skips its suite-level teardown.

use crate::fixture::{FixtureAbs, TypeTag};
use crate::hook::{
    find_output_conflict, first_output_conflict, observer_fault, phase_fault, producer_fault,
    publish, run_before_all, run_before_each, run_observer, run_phase, Expectation, Fault,
    ObserverHook, ProducerHook,
};

use crate::store::{Bucket, State, GLOBAL_SCOPE};
use vstd::prelude::*;

verus! {

/// The two suite-level configuration flags, consumed as already-resolved
/// values: whether tasks run one by one, and whether diagnostic lines are
/// wanted (purely observational, never semantic).
pub struct SuiteConfig {
    pub verbose: bool,
    pub sequential: bool,
}

impl Default for SuiteConfig {
    fn default() -> (r: SuiteConfig)
        ensures
            !r.verbose,
            !r.sequential,
    {
        SuiteConfig { verbose: false, sequential: false }
    }
}

/// One test task: a display name, the typed inputs its body declares, and
/// the assertions the body makes about them. The task's scope id is its
/// index in the suite's task list.
pub struct TaskDef {
    pub name: String,
    pub inputs: Vec<TypeTag>,
    pub checks: Vec<Expectation>,
}

/// A whole suite: configuration, the optional hooks, and the ordered tasks.
pub struct SuiteDef {
    pub config: SuiteConfig,
    pub before_all: Option<ProducerHook>,
    pub before_each: Option<ProducerHook>,
    pub after_each: Option<ObserverHook>,
    pub after_all: Option<ObserverHook>,
    pub cleanup: Option<ObserverHook>,
    pub tasks: Vec<TaskDef>,
}

/// Which producer hook a configuration error concerns.
#[derive(Clone, Copy, PartialEq, Eq, Structural, Debug)]
pub enum HookKind {
    BeforeAll,
    BeforeEach,
}

/// A fault of the suite itself, as opposed to a fault of one task: a
/// configuration error caught before scheduling, or a setup/teardown hook
/// fault. Any of these aborts the remaining pipeline.
#[derive(Clone, Copy, PartialEq, Eq, Structural, Debug)]
pub enum SuiteFault {
    /// A producer hook computed a different number of outputs than it
    /// declared.
    OutputArity { hook: HookKind },
    /// A producer hook's computed value disagreed with its declared output
    /// type.
    OutputMismatch { hook: HookKind, declared: TypeTag, actual: TypeTag },
    /// The `before_all` hook faulted; no task ran.
    SetupFault { fault: Fault },
    /// The `after_all` hook faulted after all tasks had passed.
    TeardownFault { fault: Fault },
}

/// The single aggregated verdict of a suite run.
#[derive(Clone, Copy, PartialEq, Eq, Structural, Debug)]
pub enum SuiteOutcome {
    Passed,
    Failed,
}

/// What happened to one task: its display name, its fault if it failed, and
/// whether (and how) its cleanup hook ran.
pub struct TaskReport {
    pub name: String,
    pub fault: Option<Fault>,
    pub cleanup_ran: bool,
    pub cleanup_fault: Option<Fault>,
}

/// One recorded failure: the failing task's display name and the original
/// fault payload.
pub struct FailureRecord {
    pub task: String,
    pub fault: Fault,
}

/// The outcome of a whole suite run: one report per executed task, the
/// ordered failure records, any suite-level fault, and the verdict.
pub struct SuiteReport {
    pub outcome: SuiteOutcome,
    pub reports: Vec<TaskReport>,
    pub failures: Vec<FailureRecord>,
    pub suite_fault: Option<SuiteFault>,
}

/// The configuration error of one producer hook, if any: an output arity
/// mismatch, or the first declared/computed type disagreement.
pub open spec fn producer_config_fault(hook: ProducerHook, kind: HookKind) -> Option<SuiteFault> {
    if hook.declared@.len() != hook.computed@.len() {
        Some(SuiteFault::OutputArity { hook: kind })
    } else {
        match first_output_conflict(hook.declared@, hook.computed@) {
            Some(pair) => Some(
                SuiteFault::OutputMismatch { hook: kind, declared: pair.0, actual: pair.1 },
            ),
            None => None,
        }
    }
}

/// The suite's configuration error, if any: `before_all` is examined first,
/// then `before_each`.
pub open spec fn config_fault(suite: SuiteDef) -> Option<SuiteFault> {
    let ba = match suite.before_all {
        Some(h) => producer_config_fault(h, HookKind::BeforeAll),
        None => None,
    };
    let be = match suite.before_each {
        Some(h) => producer_config_fault(h, HookKind::BeforeEach),
        None => None,
    };
    if ba is Some {
        ba
    } else {
        be
    }
}

/// The fault of the `before_all` hook, run against an empty store.
pub open spec fn setup_fault(suite: SuiteDef) -> Option<Fault> {
    match suite.before_all {
        Some(h) => producer_fault(h, Map::empty(), Map::empty(), GLOBAL_SCOPE),
        None => None,
    }
}

/// `setup_fault` lifted to a suite-level fault.
pub open spec fn setup_suite_fault(suite: SuiteDef) -> Option<SuiteFault> {
    match setup_fault(suite) {
        Some(f) => Some(SuiteFault::SetupFault { fault: f }),
        None => None,
    }
}

/// The global bucket's contents once `before_all` has published its outputs:
/// the fixtures every task reads (absent a local override).
pub open spec fn global_after_setup(suite: SuiteDef) -> Map<TypeTag, FixtureAbs> {
    match suite.before_all {
        Some(h) => publish(Map::empty(), h.computed@),
        None => Map::empty(),
    }
}

/// The fault of the `before_each` hook for the task owning `scope`, run
/// against that task's (still empty) local bucket and the global contents
/// `g`.
pub open spec fn before_each_fault(suite: SuiteDef, g: Map<TypeTag, FixtureAbs>, scope: usize) -> Option<
    Fault,
> {
    match suite.before_each {
        Some(h) => producer_fault(h, Map::empty(), g, scope),
        None => None,
    }
}

/// The contents of a task's local bucket once its `before_each` has run: the
/// hook's outputs on success, and nothing at all when there is no hook or
/// the hook faulted (a faulting hook publishes nothing).
pub open spec fn task_local(suite: SuiteDef, g: Map<TypeTag, FixtureAbs>, scope: usize) -> Map<
    TypeTag,
    FixtureAbs,
> {
    match suite.before_each {
        Some(h) => if producer_fault(h, Map::empty(), g, scope) is None {
            publish(Map::empty(), h.computed@)
        } else {
            Map::empty()
        },
        None => Map::empty(),
    }
}

/// The fault of one task's full pipeline — `before_each`, then the body,
/// then `after_each` — each phase reading the task's local bucket with
/// fallback to the global contents `g`. The first faulting phase decides.
pub open spec fn task_fault(suite: SuiteDef, g: Map<TypeTag, FixtureAbs>, scope: usize) -> Option<
    Fault,
> {
    let bef = before_each_fault(suite, g, scope);
    if bef is Some {
        bef
    } else {
        let l = task_local(suite, g, scope);
        let body = phase_fault(
            suite.tasks@[scope as int].inputs@,
            suite.tasks@[scope as int].checks@,
            l,
            g,
            scope,
        );
        if body is Some {
            body
        } else {
            match suite.after_each {
                Some(h) => observer_fault(h, l, g, scope),
                None => None,
            }
        }
    }
}

/// The fault of the cleanup hook run against the scope chain `(l, g)`, if a
/// cleanup hook is configured.
pub open spec fn cleanup_fault_in(
    suite: SuiteDef,
    l: Map<TypeTag, FixtureAbs>,
    g: Map<TypeTag, FixtureAbs>,
    scope: usize,
) -> Option<Fault> {
    match suite.cleanup {
        Some(h) => observer_fault(h, l, g, scope),
        None => None,
    }
}

/// The fault of the cleanup hook for a failed task, which reads the same
/// local state the task's last phase saw.
pub open spec fn task_cleanup_fault(suite: SuiteDef, g: Map<TypeTag, FixtureAbs>, scope: usize) -> Option<
    Fault,
> {
    cleanup_fault_in(suite, task_local(suite, g, scope), g, scope)
}

/// The ordered failure records of a batch of task reports: one record per
/// faulting task, in report order, carrying the original fault payload.
pub open spec fn report_failures(reports: Seq<TaskReport>) -> Seq<FailureRecord>
    decreases reports.len(),
{
    if reports.len() == 0 {
        Seq::empty()
    } else {
        match reports[0].fault {
            Some(f) => seq![FailureRecord { task: reports[0].name, fault: f }] + report_failures(
                reports.skip(1),
            ),
            None => report_failures(reports.skip(1)),
        }
    }
}

/// The fault of the `after_all` hook, which reads the global bucket alone.
pub open spec fn teardown_fault(suite: SuiteDef, g: Map<TypeTag, FixtureAbs>) -> Option<Fault> {
    match suite.after_all {
        Some(h) => observer_fault(h, Map::empty(), g, GLOBAL_SCOPE),
        None => None,
    }
}

/// `teardown_fault` lifted to a suite-level fault.
pub open spec fn teardown_suite_fault(suite: SuiteDef, g: Map<TypeTag, FixtureAbs>) -> Option<
    SuiteFault,
> {
    match teardown_fault(suite, g) {
        Some(f) => Some(SuiteFault::TeardownFault { fault: f }),
        None => None,
    }
}

/// The four execution modes, selected orthogonally by the concurrency axis
/// (sequential vs parallel) and the suspension axis (blocking vs
/// cooperative).
#[derive(Clone, Copy, PartialEq, Eq, Structural, Debug)]
pub enum ExecMode {
    SequentialBlocking,
    ParallelBlocking,
    SequentialCooperative,
    ParallelCooperative,
}

/// Which execution mode a suite gets: the cooperative model is required
/// exactly when some hook or body suspends, otherwise the blocking model is
/// used for lower overhead.
pub open spec fn spec_mode(sequential: bool, suspends: bool) -> ExecMode {
    if sequential {
        if suspends {
            ExecMode::SequentialCooperative
        } else {
            ExecMode::SequentialBlocking
        }
    } else {
        if suspends {
            ExecMode::ParallelCooperative
        } else {
            ExecMode::ParallelBlocking
        }
    }
}

/// Picks the execution mode for a suite from its configuration and from
/// whether any hook or test body in the suite suspends.
pub fn choose_mode(config: &SuiteConfig, suspends: bool) -> (r: ExecMode)
    ensures
        r == spec_mode(config.sequential, suspends),
{
    if config.sequential {
        if suspends {
            ExecMode::SequentialCooperative
        } else {
            ExecMode::SequentialBlocking
        }
    } else {
        if suspends {
            ExecMode::ParallelCooperative
        } else {
            ExecMode::ParallelBlocking
        }
    }
}

/// Checks both producer hooks' declared output types against what their
/// bodies compute: the fail-fast configuration check that runs before
/// anything is scheduled.
pub fn validate_suite(suite: &SuiteDef) -> (r: Option<SuiteFault>)
    ensures
        r == config_fault(*suite),
{
    match &suite.before_all {
        Some(h) => {
            if h.declared.len() != h.computed.len() {
                return Some(SuiteFault::OutputArity { hook: HookKind::BeforeAll });
            }
            match find_output_conflict(&h.declared, &h.computed) {
                Some(pair) => {
                    return Some(
                        SuiteFault::OutputMismatch {
                            hook: HookKind::BeforeAll,
                            declared: pair.0,
                            actual: pair.1,
                        },
                    );
                },
                None => {},
            }
        },
        None => {},
    }
    match &suite.before_each {
        Some(h) => {
            if h.declared.len() != h.computed.len() {
                return Some(SuiteFault::OutputArity { hook: HookKind::BeforeEach });
            }
            match find_output_conflict(&h.declared, &h.computed) {
                Some(pair) => {
                    return Some(
                        SuiteFault::OutputMismatch {
                            hook: HookKind::BeforeEach,
                            declared: pair.0,
                            actual: pair.1,
                        },
                    );
                },
                None => {},
            }
        },
        None => {},
    }
    None
}

/// Runs one task's whole pipeline against its own local bucket and the
/// shared global bucket: `before_each`, the body, then `after_each`; when a
/// phase faults, the cleanup hook (if configured) runs in place of
/// `after_each`, before the fault is reported — exactly once.
pub fn run_task(suite: &SuiteDef, global: &Bucket, local: &mut Bucket, scope: usize) -> (r:
    TaskReport)
    requires
        (scope as nat) < suite.tasks@.len(),
        old(local)@ == Map::<TypeTag, FixtureAbs>::empty(),
    ensures
        r.name == suite.tasks@[scope as int].name,
        r.fault == task_fault(*suite, global@, scope),
        final(local)@ == task_local(*suite, global@, scope),
        r.cleanup_ran == (r.fault is Some && suite.cleanup is Some),
        r.cleanup_ran ==> r.cleanup_fault == task_cleanup_fault(*suite, global@, scope),
        !r.cleanup_ran ==> r.cleanup_fault is None,
{
    let name = suite.tasks[scope].name.clone();
    let mut fault: Option<Fault> = None;
    match &suite.before_each {
        Some(h) => {
            fault = run_before_each(h, local, global, scope);
        },
        None => {},
    }
    if fault.is_none() {
        let task = &suite.tasks[scope];
        fault = run_phase(&task.inputs, &task.checks, local, global, scope);
    }
    if fault.is_none() {
        match &suite.after_each {
            Some(h) => {
                fault = run_observer(h, local, global, scope);
            },
            None => {},
        }
    }
    let mut cleanup_ran = false;
    let mut cleanup_fault: Option<Fault> = None;
    if fault.is_some() {
        match &suite.cleanup {
            Some(h) => {
                cleanup_ran = true;
                cleanup_fault = run_observer(h, local, global, scope);
            },
            None => {},
        }
    }
    TaskReport { name, fault, cleanup_ran, cleanup_fault }
}

/// Builds the report for a task the execution substrate could not join
/// cleanly: the fault is an abort, treated like any task fault — the cleanup
/// hook (if configured) runs against whatever local state the substrate
/// still holds, before the failure is recorded.
pub fn record_abort(suite: &SuiteDef, global: &Bucket, local: &Bucket, scope: usize, name: String) -> (r:
    TaskReport)
    ensures
        r.name == name,
        r.fault == Some(Fault::Aborted),
        r.cleanup_ran == (suite.cleanup is Some),
        r.cleanup_ran ==> r.cleanup_fault == cleanup_fault_in(*suite, local@, global@, scope),
        !r.cleanup_ran ==> r.cleanup_fault is None,
{
    let mut cleanup_ran = false;
    let mut cleanup_fault: Option<Fault> = None;
    match &suite.cleanup {
        Some(h) => {
            cleanup_ran = true;
            cleanup_fault = run_observer(h, local, global, scope);
        },
        None => {},
    }
    TaskReport { name, fault: Some(Fault::Aborted), cleanup_ran, cleanup_fault }
}

/// Collects the failure records of a batch of reports, in report order.
fn collect_failures(reports: &Vec<TaskReport>) -> (r: Vec<FailureRecord>)
    ensures
        r@ == report_failures(reports@),
{
    let mut r: Vec<FailureRecord> = Vec::new();
    let mut i: usize = 0;
    proof {
        assert(reports@.skip(0) =~= reports@);
        assert(r@ + report_failures(reports@) =~= report_failures(reports@));
    }
    while i < reports.len()
        invariant
            i <= reports@.len(),
            report_failures(reports@) == r@ + report_failures(reports@.skip(i as int)),
        decreases reports@.len() - i,
    {
        proof {
            assert(reports@.skip(i as int)[0] == reports@[i as int]);
            assert(reports@.skip(i as int).skip(1) =~= reports@.skip(i as int + 1));
        }
        match &reports[i].fault {
            Some(f) => {
                let rec = FailureRecord { task: reports[i].name.clone(), fault: *f };
                proof {
                    assert(r@ + report_failures(reports@.skip(i as int)) =~= r@.push(rec)
                        + report_failures(reports@.skip(i as int + 1)));
                }
                r.push(rec);
            },
            None => {},
        }
        i = i + 1;
    }
    proof {
        assert(reports@.skip(i as int) =~= Seq::<TaskReport>::empty());
        assert(r@ + report_failures(reports@.skip(i as int)) =~= r@);
    }
    r
}

/// Aggregates a batch of task reports into the suite outcome: the failure
/// records are collected in report order; `after_all` (if configured) runs
/// only when there is no failure, reading the global bucket alone; the suite
/// passes exactly when no task failed and no suite-level fault occurred.
pub fn finish_suite(suite: &SuiteDef, global: &Bucket, reports: Vec<TaskReport>) -> (r: SuiteReport)
    ensures
        r.reports == reports,
        r.failures@ == report_failures(reports@),
        r.suite_fault == (if report_failures(reports@).len() == 0 {
            teardown_suite_fault(*suite, global@)
        } else {
            None::<SuiteFault>
        }),
        r.outcome == (if r.failures@.len() == 0 && r.suite_fault is None {
            SuiteOutcome::Passed
        } else {
            SuiteOutcome::Failed
        }),
{
    let failures = collect_failures(&reports);
    let mut suite_fault: Option<SuiteFault> = None;
    if failures.len() == 0 {
        match &suite.after_all {
            Some(h) => {
                let empty = Bucket::new();
                match run_observer(h, &empty, global, GLOBAL_SCOPE) {
                    Some(f) => {
                        suite_fault = Some(SuiteFault::TeardownFault { fault: f });
                    },
                    None => {},
                }
            },
            None => {},
        }
    }
    let outcome = if failures.len() == 0 && suite_fault.is_none() {
        SuiteOutcome::Passed
    } else {
        SuiteOutcome::Failed
    };
    SuiteReport { outcome, reports, failures, suite_fault }
}

/// A batch of `count` fresh, empty buckets: the local scopes, pre-allocated
/// before any task starts.
fn make_buckets(count: usize) -> (r: Vec<Bucket>)
    ensures
        r@.len() == count,
        forall|j: int| 0 <= j < count ==> r@[j]@ == Map::<TypeTag, FixtureAbs>::empty(),
{
    let mut r: Vec<Bucket> = Vec::new();
    let mut i: usize = 0;
    while i < count
        invariant
            i <= count,
            r@.len() == i,
            forall|j: int| 0 <= j < i ==> r@[j]@ == Map::<TypeTag, FixtureAbs>::empty(),
        decreases count - i,
    {
        r.push(Bucket::new());
        i = i + 1;
    }
    r
}

/// Validates the suite, allocates the store — one empty local bucket per
/// task — and runs `before_all` against the empty global bucket. A
/// configuration error or a faulting `before_all` aborts before any task
/// could start.
pub fn prepare_suite(suite: &SuiteDef) -> (r: Result<State, SuiteFault>)
    ensures
        match r {
            Ok(state) => {
                &&& config_fault(*suite) is None
                &&& setup_fault(*suite) is None
                &&& state.global_scope() == global_after_setup(*suite)
                &&& state.local_count() == suite.tasks@.len()
                &&& forall|i: usize|
                    i < suite.tasks@.len() ==> state.local_scope(i) == Map::<
                        TypeTag,
                        FixtureAbs,
                    >::empty()
            },
            Err(f) => if config_fault(*suite) is Some {
                Some(f) == config_fault(*suite)
            } else {
                Some(f) == setup_suite_fault(*suite)
            },
        },
{
    match validate_suite(suite) {
        Some(f) => {
            return Err(f);
        },
        None => {},
    }
    let mut global = Bucket::new();
    match &suite.before_all {
        Some(h) => {
            match run_before_all(h, &mut global, GLOBAL_SCOPE) {
                Some(f) => {
                    return Err(SuiteFault::SetupFault { fault: f });
                },
                None => {},
            }
        },
        None => {},
    }
    let locals = make_buckets(suite.tasks.len());
    Ok(State::from_parts(global, locals))
}

/// Runs the whole suite on the calling thread, tasks in declaration order:
/// the sequential, blocking execution mode. Every task runs exactly once —
/// an earlier task's failure never stops a later task — and the verdict is
/// `Passed` exactly when no task failed and no suite-level fault occurred.
pub fn run_suite(suite: &SuiteDef) -> (r: SuiteReport)
    ensures
        config_fault(*suite) is Some ==> {
            &&& r.suite_fault == config_fault(*suite)
            &&& r.reports@.len() == 0
            &&& r.failures@.len() == 0
            &&& r.outcome == SuiteOutcome::Failed
        },
        config_fault(*suite) is None && setup_fault(*suite) is Some ==> {
            &&& r.suite_fault == setup_suite_fault(*suite)
            &&& r.reports@.len() == 0
            &&& r.failures@.len() == 0
            &&& r.outcome == SuiteOutcome::Failed
        },
        config_fault(*suite) is None && setup_fault(*suite) is None ==> {
            let g = global_after_setup(*suite);
            &&& r.reports@.len() == suite.tasks@.len()
            &&& forall|i: int|
                0 <= i < suite.tasks@.len() ==> #[trigger] r.reports@[i].name
                    == suite.tasks@[i].name
            &&& forall|i: int|
                0 <= i < suite.tasks@.len() ==> #[trigger] r.reports@[i].fault == task_fault(
                    *suite,
                    g,
                    i as usize,
                )
            &&& forall|i: int|
                0 <= i < suite.tasks@.len() ==> #[trigger] r.reports@[i].cleanup_ran == (task_fault(
                    *suite,
                    g,
                    i as usize,
                ) is Some && suite.cleanup is Some)
            &&& forall|i: int|
                0 <= i < suite.tasks@.len() ==> #[trigger] r.reports@[i].cleanup_fault == (
                if task_fault(*suite, g, i as usize) is Some && suite.cleanup is Some {
                    task_cleanup_fault(*suite, g, i as usize)
                } else {
                    None::<Fault>
                })
            &&& r.failures@ == report_failures(r.reports@)
            &&& r.suite_fault == (if report_failures(r.reports@).len() == 0 {
                teardown_suite_fault(*suite, g)
            } else {
                None::<SuiteFault>
            })
            &&& r.outcome == (if r.failures@.len() == 0 && r.suite_fault is None {
                SuiteOutcome::Passed
            } else {
                SuiteOutcome::Failed
            })
        },
{
    let state = match prepare_suite(suite) {
        Ok(state) => state,
        Err(f) => {
            return SuiteReport {
                outcome: SuiteOutcome::Failed,
                reports: Vec::new(),
                failures: Vec::new(),
                suite_fault: Some(f),
            };
        },
    };
    let ghost prepared = state;
    let (global, mut locals) = state.into_parts();
    let n = suite.tasks.len();
    let mut reports: Vec<TaskReport> = Vec::new();
    let mut i: usize = 0;
    proof {
        assert forall|j: usize| j < n implies locals@[j as int]@ == Map::<
            TypeTag,
            FixtureAbs,
        >::empty() by {
            assert(locals@[j as int]@ == prepared.local_scope(j));
            assert(prepared.local_scope(j) == Map::<TypeTag, FixtureAbs>::empty());
        }
    }
    while i < n
        invariant
            i <= n,
            n == suite.tasks@.len(),
            locals@.len() == n,
            global@ == global_after_setup(*suite),
            reports@.len() == i,
            forall|j: usize| i <= j < n ==> locals@[j as int]@ == Map::<TypeTag, FixtureAbs>::empty(),
            forall|j: int|
                0 <= j < i ==> #[trigger] reports@[j].name == suite.tasks@[j].name,
            forall|j: int|
                0 <= j < i ==> #[trigger] reports@[j].fault == task_fault(
                    *suite,
                    global@,
                    j as usize,
                ),
            forall|j: int|
                0 <= j < i ==> #[trigger] reports@[j].cleanup_ran == (task_fault(
                    *suite,
                    global@,
                    j as usize,
                ) is Some && suite.cleanup is Some),
            forall|j: int|
                0 <= j < i ==> #[trigger] reports@[j].cleanup_fault == (if task_fault(
                    *suite,
                    global@,
                    j as usize,
                ) is Some && suite.cleanup is Some {
                    task_cleanup_fault(*suite, global@, j as usize)
                } else {
                    None::<Fault>
                }),
        decreases n - i,
    {
        let local = &mut locals[i];
        let report = run_task(suite, &global, local, i);
        reports.push(report);
        i = i + 1;
    }
    finish_suite(suite, &global, reports)
}

impl SuiteReport {
    /// The failure to re-surface to the caller: the last recorded one, so
    /// that a failed suite always yields a concrete original fault.
    pub fn last_fault(&self) -> (r: Option<&FailureRecord>)
        ensures
            match r {
                Some(rec) => self.failures@.len() > 0 && *rec == self.failures@[self.failures@.len()
                    - 1],
                None => self.failures@.len() == 0,
            },
    {
        if self.failures.len() == 0 {
            None
        } else {
            Some(&self.failures[self.failures.len() - 1])
        }
    }
}

} // verus!
