//! The engine's cross-cutting guarantees, stated and proved over the same
//! spec functions that the executable functions' contracts use.

use crate::fixture::{FixtureAbs, TypeTag};
use crate::hook::{lemma_outputs_match_iff_no_conflict, outputs_match, publish, OutputValue};
use crate::store::{resolve_map, State, GLOBAL_SCOPE};
use crate::suite::{
    config_fault, global_after_setup, report_failures, task_local, FailureRecord, SuiteDef,
    TaskReport,
};
use vstd::prelude::*;

verus! {

/// Fixture flow: a fixture of some type that `before_all` published to the
/// global bucket resolves, in any task whose local scope does not hold a
/// value of that type, to exactly the published value.
pub proof fn lemma_fixture_flow(suite: SuiteDef, scope: usize, tag: TypeTag)
    requires
        global_after_setup(suite).contains_key(tag),
        !task_local(suite, global_after_setup(suite), scope).contains_key(tag),
    ensures
        resolve_map(
            task_local(suite, global_after_setup(suite), scope),
            global_after_setup(suite),
            tag,
        ) == Some(global_after_setup(suite)[tag]),
{
}

/// Local override: when a task's `before_each` published a value of some
/// type into the task's local scope, the task resolves that type to the
/// local value — whatever the global bucket holds for the same type.
pub proof fn lemma_local_override(suite: SuiteDef, g: Map<TypeTag, FixtureAbs>, scope: usize, tag: TypeTag)
    requires
        task_local(suite, g, scope).contains_key(tag),
    ensures
        resolve_map(task_local(suite, g, scope), g, tag) == Some(task_local(suite, g, scope)[tag]),
{
}

/// Scope isolation: what a local scope resolves depends only on that scope's
/// own bucket and on the global bucket. Together with the frame conditions
/// of [`State::insert`] — publishing into scope `i` leaves every other local
/// bucket, and for a local `i` the global bucket, unchanged — a value
/// published to task `i`'s local scope is never visible to task `j`'s
/// resolution of the same type.
pub proof fn lemma_scope_isolation(pre: State, post: State, j: usize, tag: TypeTag)
    requires
        j != GLOBAL_SCOPE,
        post.global_scope() == pre.global_scope(),
        post.local_scope(j) == pre.local_scope(j),
    ensures
        post.spec_resolve(j, tag) == pre.spec_resolve(j, tag),
{
}

/// Every report without a fault contributes no failure record, so a batch of
/// reports aggregates to an empty failure list exactly when no task failed.
/// Through [`crate::suite::run_suite`]'s contract, the suite therefore
/// passes exactly when no task failed, and a failed suite retains the
/// original fault payloads in its failure records.
pub proof fn lemma_aggregation(reports: Seq<TaskReport>)
    ensures
        (report_failures(reports).len() == 0) <==> (forall|i: int|
            0 <= i < reports.len() ==> #[trigger] reports[i].fault is None),
    decreases reports.len(),
{
    if reports.len() == 0 {
    } else {
        lemma_aggregation(reports.skip(1));
        match reports[0].fault {
            Some(f) => {
                assert(reports[0].fault is Some);
            },
            None => {
                assert(report_failures(reports) == report_failures(reports.skip(1)));
                if report_failures(reports).len() == 0 {
                    assert forall|i: int| 0 <= i < reports.len() implies #[trigger] reports[i].fault
                        is None by {
                        if i > 0 {
                            assert(reports.skip(1)[i - 1].fault is None);
                        }
                    }
                } else {
                    assert(!(forall|i: int|
                        0 <= i < reports.skip(1).len() ==> #[trigger] reports.skip(1)[i].fault
                            is None));
                    let w = choose|i: int|
                        0 <= i < reports.skip(1).len() && !(#[trigger] reports.skip(1)[i].fault
                            is None);
                    assert(reports[w + 1].fault is Some);
                }
            },
        }
    }
}

/// Whether some output in `outs` publishes type `tag`.
pub open spec fn outputs_contain_tag(outs: Seq<OutputValue>, tag: TypeTag) -> bool {
    exists|j: int| 0 <= j < outs.len() && outs[j].tag == tag
}

/// Publication cannot touch a type it does not mention: any other type keeps
/// exactly the value (or the absence) it had before.
pub proof fn lemma_publish_frame(m: Map<TypeTag, FixtureAbs>, outs: Seq<OutputValue>, tag: TypeTag)
    requires
        !outputs_contain_tag(outs, tag),
    ensures
        publish(m, outs).contains_key(tag) == m.contains_key(tag),
        m.contains_key(tag) ==> publish(m, outs)[tag] == m[tag],
    decreases outs.len(),
{
    if outs.len() == 0 {
    } else {
        assert(outs[0].tag != tag);
        let m1 = m.insert(outs[0].tag, outs[0].value@);
        assert(!outputs_contain_tag(outs.skip(1), tag)) by {
            if outputs_contain_tag(outs.skip(1), tag) {
                let j = choose|j: int|
                    0 <= j < outs.skip(1).len() && outs.skip(1)[j].tag == tag;
                assert(outs[j + 1].tag == tag);
            }
        }
        lemma_publish_frame(m1, outs.skip(1), tag);
    }
}

/// The last output of a given type decides what a publication stores under
/// that type: what `before_all` finally computed for a type is exactly what
/// the global bucket holds for it once setup is done.
pub proof fn lemma_publish_last_wins(m: Map<TypeTag, FixtureAbs>, outs: Seq<OutputValue>, i: int)
    requires
        0 <= i < outs.len(),
        forall|j: int| i < j < outs.len() ==> outs[j].tag != outs[i].tag,
    ensures
        publish(m, outs).contains_key(outs[i].tag),
        publish(m, outs)[outs[i].tag] == outs[i].value@,
    decreases outs.len(),
{
    let m1 = m.insert(outs[0].tag, outs[0].value@);
    if i == 0 {
        assert(!outputs_contain_tag(outs.skip(1), outs[0].tag)) by {
            if outputs_contain_tag(outs.skip(1), outs[0].tag) {
                let j = choose|j: int|
                    0 <= j < outs.skip(1).len() && outs.skip(1)[j].tag == outs[0].tag;
                assert(outs[j + 1].tag == outs[0].tag);
            }
        }
        lemma_publish_frame(m1, outs.skip(1), outs[0].tag);
    } else {
        assert forall|j: int| i - 1 < j < outs.skip(1).len() implies #[trigger] outs.skip(
            1,
        )[j].tag != outs.skip(1)[i - 1].tag by {
            assert(outs.skip(1)[j] == outs[j + 1]);
            assert(outs.skip(1)[i - 1] == outs[i]);
        }
        lemma_publish_last_wins(m1, outs.skip(1), i - 1);
        assert(outs.skip(1)[i - 1] == outs[i]);
    }
}

/// End to end: the value `before_all` finally published for a type is what a
/// task resolves for that type, whenever the task's own scope does not hold
/// one.
pub proof fn lemma_setup_output_flows(suite: SuiteDef, scope: usize, i: int)
    requires
        suite.before_all is Some,
        0 <= i < suite.before_all->Some_0.computed@.len(),
        forall|j: int|
            i < j < suite.before_all->Some_0.computed@.len()
                ==> suite.before_all->Some_0.computed@[j].tag
                != suite.before_all->Some_0.computed@[i].tag,
        !task_local(suite, global_after_setup(suite), scope).contains_key(
            suite.before_all->Some_0.computed@[i].tag,
        ),
    ensures
        resolve_map(
            task_local(suite, global_after_setup(suite), scope),
            global_after_setup(suite),
            suite.before_all->Some_0.computed@[i].tag,
        ) == Some(suite.before_all->Some_0.computed@[i].value@),
{
    let outs = suite.before_all->Some_0.computed@;
    lemma_publish_last_wins(Map::empty(), outs, i);
    lemma_fixture_flow(suite, scope, outs[i].tag);
}

/// Fail-fast configuration checking is complete: a suite passes validation
/// exactly when every producer hook's computed outputs line up 1:1 with its
/// declared output types, so a type mismatch can never reach a running task.
pub proof fn lemma_validation_exact(suite: SuiteDef)
    ensures
        config_fault(suite) is None <==> {
            &&& match suite.before_all {
                Some(h) => outputs_match(h.declared@, h.computed@),
                None => true,
            }
            &&& match suite.before_each {
                Some(h) => outputs_match(h.declared@, h.computed@),
                None => true,
            }
        },
{
    match suite.before_all {
        Some(h) => {
            if h.declared@.len() == h.computed@.len() {
                lemma_outputs_match_iff_no_conflict(h.declared@, h.computed@);
            }
        },
        None => {},
    }
    match suite.before_each {
        Some(h) => {
            if h.declared@.len() == h.computed@.len() {
                lemma_outputs_match_iff_no_conflict(h.declared@, h.computed@);
            }
        },
        None => {},
    }
}

/// One failure record per failing task: every record in an aggregated batch
/// names some faulting task and carries that task's original fault payload.
/// In particular, the fault a failed suite re-surfaces is one that a task
/// actually raised.
pub proof fn lemma_failure_records_come_from_tasks(reports: Seq<TaskReport>)
    ensures
        forall|k: int|
            0 <= k < report_failures(reports).len() ==> exists|i: int|
                0 <= i < reports.len() && (#[trigger] report_failures(reports)[k]).task
                    == reports[i].name && reports[i].fault == Some(
                    report_failures(reports)[k].fault,
                ),
    decreases reports.len(),
{
    if reports.len() == 0 {
    } else {
        lemma_failure_records_come_from_tasks(reports.skip(1));
        let whole = report_failures(reports);
        let rest = report_failures(reports.skip(1));
        assert forall|k: int| 0 <= k < whole.len() implies exists|i: int|
            0 <= i < reports.len() && (#[trigger] whole[k]).task == reports[i].name
                && reports[i].fault == Some(whole[k].fault) by {
            match reports[0].fault {
                Some(f) => {
                    let head = seq![FailureRecord { task: reports[0].name, fault: f }];
                    assert(whole == head + rest);
                    if k == 0 {
                        assert(whole[0] == head[0]);
                        assert(0 <= 0 < reports.len() && whole[k].task == reports[0].name
                            && reports[0].fault == Some(whole[k].fault));
                    } else {
                        assert(whole[k] == rest[k - 1]);
                        let i0 = choose|i0: int|
                            0 <= i0 < reports.skip(1).len() && (#[trigger] rest[k - 1]).task
                                == reports.skip(1)[i0].name && reports.skip(1)[i0].fault == Some(
                                rest[k - 1].fault,
                            );
                        assert(reports.skip(1)[i0] == reports[i0 + 1]);
                        assert(0 <= i0 + 1 < reports.len() && whole[k].task == reports[i0
                            + 1].name && reports[i0 + 1].fault == Some(whole[k].fault));
                    }
                },
                None => {
                    assert(whole == rest);
                    let i0 = choose|i0: int|
                        0 <= i0 < reports.skip(1).len() && (#[trigger] rest[k]).task
                            == reports.skip(1)[i0].name && reports.skip(1)[i0].fault == Some(
                            rest[k].fault,
                        );
                    assert(reports.skip(1)[i0] == reports[i0 + 1]);
                    assert(0 <= i0 + 1 < reports.len() && whole[k].task == reports[i0 + 1].name
                        && reports[i0 + 1].fault == Some(whole[k].fault));
                },
            }
        }
    }
}

} // verus!
