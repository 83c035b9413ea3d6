//! Hook descriptors and the per-phase execution rules.
//!
//! Every hook phase (setup and teardown hooks as well as a test body itself)
//! is described by the typed inputs it requires from the store and the
//! assertions it makes about them; the two setup hooks additionally carry the
//! typed outputs they publish. Inputs are resolved immediately before the
//! phase runs, local scope first with fallback to the global scope; outputs
//! are published immediately after the phase's body finishes.

use crate::fixture::{FixtureAbs, FixtureValue, TypeTag};
use crate::store::{resolve, resolve_map, Bucket};
use vstd::prelude::*;

verus! {

/// Why a single phase failed. Faults never carry the engine's own state:
/// they are the payload a failure record surfaces to the caller.
#[derive(Clone, Copy, PartialEq, Eq, Structural, Debug)]
pub enum Fault {
    /// A declared input type was not found in the applicable scope chain.
    FixtureMissing { scope: usize, tag: TypeTag },
    /// A body's own check of a resolved value failed.
    AssertionFailed { scope: usize, tag: TypeTag },
    /// The execution substrate could not join the task cleanly.
    Aborted,
}

/// One assertion a body makes: the value resolved for `tag` must equal
/// `expected`.
pub struct Expectation {
    pub tag: TypeTag,
    pub expected: FixtureValue,
}

/// One value a setup hook computed, together with the type identity the
/// computation actually produced (which validation holds against the hook's
/// declared output types).
pub struct OutputValue {
    pub tag: TypeTag,
    pub value: FixtureValue,
}

/// A hook that only observes the store: an `after_all`, `after_each` or
/// `cleanup` hook, or a test body. It declares inputs and checks them; it
/// never publishes new fixtures.
pub struct ObserverHook {
    pub inputs: Vec<TypeTag>,
    pub checks: Vec<Expectation>,
}

/// A hook that may publish fixtures: a `before_all` or `before_each` hook.
/// `declared` are its declared output types; `computed` is what its body's
/// final expression evaluates to, matched 1:1 against `declared`.
pub struct ProducerHook {
    pub inputs: Vec<TypeTag>,
    pub checks: Vec<Expectation>,
    pub declared: Vec<TypeTag>,
    pub computed: Vec<OutputValue>,
}

/// The first fault that resolving `inputs` in order hits: the first tag that
/// misses both the local and the global scope.
pub open spec fn first_input_fault(
    inputs: Seq<TypeTag>,
    local: Map<TypeTag, FixtureAbs>,
    global: Map<TypeTag, FixtureAbs>,
    scope: usize,
) -> Option<Fault>
    decreases inputs.len(),
{
    if inputs.len() == 0 {
        None
    } else if resolve_map(local, global, inputs[0]) is None {
        Some(Fault::FixtureMissing { scope, tag: inputs[0] })
    } else {
        first_input_fault(inputs.skip(1), local, global, scope)
    }
}

/// The first fault that evaluating `checks` in order hits: a missing fixture,
/// or a resolved value unequal to the expected one.
pub open spec fn first_check_fault(
    checks: Seq<Expectation>,
    local: Map<TypeTag, FixtureAbs>,
    global: Map<TypeTag, FixtureAbs>,
    scope: usize,
) -> Option<Fault>
    decreases checks.len(),
{
    if checks.len() == 0 {
        None
    } else {
        match resolve_map(local, global, checks[0].tag) {
            None => Some(Fault::FixtureMissing { scope, tag: checks[0].tag }),
            Some(v) => if v != checks[0].expected@ {
                Some(Fault::AssertionFailed { scope, tag: checks[0].tag })
            } else {
                first_check_fault(checks.skip(1), local, global, scope)
            },
        }
    }
}

/// The outcome of one phase run against the scope chain `(local, global)`:
/// inputs are resolved first, then the checks are evaluated.
pub open spec fn phase_fault(
    inputs: Seq<TypeTag>,
    checks: Seq<Expectation>,
    local: Map<TypeTag, FixtureAbs>,
    global: Map<TypeTag, FixtureAbs>,
    scope: usize,
) -> Option<Fault> {
    match first_input_fault(inputs, local, global, scope) {
        Some(f) => Some(f),
        None => first_check_fault(checks, local, global, scope),
    }
}

/// The outcome of an observer hook.
pub open spec fn observer_fault(
    hook: ObserverHook,
    local: Map<TypeTag, FixtureAbs>,
    global: Map<TypeTag, FixtureAbs>,
    scope: usize,
) -> Option<Fault> {
    phase_fault(hook.inputs@, hook.checks@, local, global, scope)
}

/// The outcome of a producer hook's input resolution and checks (its
/// publication is described by [`publish`]).
pub open spec fn producer_fault(
    hook: ProducerHook,
    local: Map<TypeTag, FixtureAbs>,
    global: Map<TypeTag, FixtureAbs>,
    scope: usize,
) -> Option<Fault> {
    phase_fault(hook.inputs@, hook.checks@, local, global, scope)
}

/// The bucket contents after publishing `outs` in order into a bucket that
/// held `m`: a later output of the same type overwrites an earlier one.
pub open spec fn publish(m: Map<TypeTag, FixtureAbs>, outs: Seq<OutputValue>) -> Map<
    TypeTag,
    FixtureAbs,
>
    decreases outs.len(),
{
    if outs.len() == 0 {
        m
    } else {
        publish(m.insert(outs[0].tag, outs[0].value@), outs.skip(1))
    }
}

/// Whether a producer hook's computed outputs line up 1:1 with its declared
/// output types.
pub open spec fn outputs_match(declared: Seq<TypeTag>, computed: Seq<OutputValue>) -> bool {
    &&& declared.len() == computed.len()
    &&& forall|i: int| 0 <= i < declared.len() ==> declared[i] == #[trigger] computed[i].tag
}

/// The first position where the computed outputs disagree with the declared
/// output types, as the pair (declared type, computed type).
pub open spec fn first_output_conflict(declared: Seq<TypeTag>, computed: Seq<OutputValue>) -> Option<
    (TypeTag, TypeTag),
>
    decreases declared.len(),
{
    if declared.len() == 0 || computed.len() == 0 {
        None
    } else if declared[0] != computed[0].tag {
        Some((declared[0], computed[0].tag))
    } else {
        first_output_conflict(declared.skip(1), computed.skip(1))
    }
}

/// Resolves each input in order; reports the first type that misses both
/// scopes.
fn check_inputs(inputs: &Vec<TypeTag>, local: &Bucket, global: &Bucket, scope: usize) -> (r: Option<
    Fault,
>)
    ensures
        r == first_input_fault(inputs@, local@, global@, scope),
{
    let mut i: usize = 0;
    proof {
        assert(inputs@.skip(0) =~= inputs@);
    }
    while i < inputs.len()
        invariant
            i <= inputs@.len(),
            first_input_fault(inputs@, local@, global@, scope) == first_input_fault(
                inputs@.skip(i as int),
                local@,
                global@,
                scope,
            ),
        decreases inputs@.len() - i,
    {
        let tag = inputs[i];
        proof {
            assert(inputs@.skip(i as int)[0] == inputs@[i as int]);
            assert(inputs@.skip(i as int).skip(1) =~= inputs@.skip(i as int + 1));
        }
        if resolve(local, global, tag).is_none() {
            return Some(Fault::FixtureMissing { scope, tag });
        }
        i = i + 1;
    }
    proof {
        assert(inputs@.skip(i as int) =~= Seq::<TypeTag>::empty());
    }
    None
}

/// Evaluates each check in order; reports the first missing fixture or
/// failing comparison.
fn check_expectations(checks: &Vec<Expectation>, local: &Bucket, global: &Bucket, scope: usize) -> (r:
    Option<Fault>)
    ensures
        r == first_check_fault(checks@, local@, global@, scope),
{
    let mut i: usize = 0;
    proof {
        assert(checks@.skip(0) =~= checks@);
    }
    while i < checks.len()
        invariant
            i <= checks@.len(),
            first_check_fault(checks@, local@, global@, scope) == first_check_fault(
                checks@.skip(i as int),
                local@,
                global@,
                scope,
            ),
        decreases checks@.len() - i,
    {
        let tag = checks[i].tag;
        proof {
            assert(checks@.skip(i as int)[0] == checks@[i as int]);
            assert(checks@.skip(i as int).skip(1) =~= checks@.skip(i as int + 1));
        }
        match resolve(local, global, tag) {
            None => {
                return Some(Fault::FixtureMissing { scope, tag });
            },
            Some(v) => {
                if !v.value_eq(&checks[i].expected) {
                    return Some(Fault::AssertionFailed { scope, tag });
                }
            },
        }
        i = i + 1;
    }
    proof {
        assert(checks@.skip(i as int) =~= Seq::<Expectation>::empty());
    }
    None
}

/// Runs one phase: resolves `inputs`, then evaluates `checks`, against the
/// scope chain `(local, global)`.
pub fn run_phase(
    inputs: &Vec<TypeTag>,
    checks: &Vec<Expectation>,
    local: &Bucket,
    global: &Bucket,
    scope: usize,
) -> (r: Option<Fault>)
    ensures
        r == phase_fault(inputs@, checks@, local@, global@, scope),
{
    match check_inputs(inputs, local, global, scope) {
        Some(f) => Some(f),
        None => check_expectations(checks, local, global, scope),
    }
}

/// Runs an observer hook against the scope chain `(local, global)`.
pub fn run_observer(hook: &ObserverHook, local: &Bucket, global: &Bucket, scope: usize) -> (r:
    Option<Fault>)
    ensures
        r == observer_fault(*hook, local@, global@, scope),
{
    run_phase(&hook.inputs, &hook.checks, local, global, scope)
}

/// Publishes each output in order into `target`.
fn apply_outputs(outs: &Vec<OutputValue>, target: &mut Bucket)
    ensures
        final(target)@ == publish(old(target)@, outs@),
{
    let mut i: usize = 0;
    proof {
        assert(outs@.skip(0) =~= outs@);
    }
    while i < outs.len()
        invariant
            i <= outs@.len(),
            publish(old(target)@, outs@) == publish(target@, outs@.skip(i as int)),
        decreases outs@.len() - i,
    {
        proof {
            assert(outs@.skip(i as int)[0] == outs@[i as int]);
            assert(outs@.skip(i as int).skip(1) =~= outs@.skip(i as int + 1));
        }
        target.insert(outs[i].tag, outs[i].value.duplicate());
        i = i + 1;
    }
    proof {
        assert(outs@.skip(i as int) =~= Seq::<OutputValue>::empty());
    }
}

/// Runs a `before_each` hook for the task owning `local`: resolves its inputs
/// local-then-global, evaluates its checks, and on success publishes its
/// computed outputs into the task's local bucket. A faulting hook publishes
/// nothing.
pub fn run_before_each(hook: &ProducerHook, local: &mut Bucket, global: &Bucket, scope: usize) -> (r:
    Option<Fault>)
    ensures
        r == producer_fault(*hook, old(local)@, global@, scope),
        r is None ==> final(local)@ == publish(old(local)@, hook.computed@),
        r is Some ==> final(local)@ == old(local)@,
{
    let fault = run_phase(&hook.inputs, &hook.checks, local, global, scope);
    match fault {
        Some(f) => Some(f),
        None => {
            apply_outputs(&hook.computed, local);
            None
        },
    }
}

/// Runs a `before_all` hook: resolves its inputs against the global bucket
/// alone, evaluates its checks, and on success publishes its computed outputs
/// into the global bucket. A faulting hook publishes nothing.
pub fn run_before_all(hook: &ProducerHook, global: &mut Bucket, scope: usize) -> (r: Option<Fault>)
    ensures
        r == producer_fault(*hook, Map::empty(), old(global)@, scope),
        r is None ==> final(global)@ == publish(old(global)@, hook.computed@),
        r is Some ==> final(global)@ == old(global)@,
{
    let empty = Bucket::new();
    let fault = run_phase(&hook.inputs, &hook.checks, &empty, global, scope);
    match fault {
        Some(f) => Some(f),
        None => {
            apply_outputs(&hook.computed, global);
            None
        },
    }
}

/// Finds the first position where `computed` disagrees with `declared`.
pub fn find_output_conflict(declared: &Vec<TypeTag>, computed: &Vec<OutputValue>) -> (r: Option<
    (TypeTag, TypeTag),
>)
    ensures
        r == first_output_conflict(declared@, computed@),
{
    let mut i: usize = 0;
    let n = if declared.len() < computed.len() {
        declared.len()
    } else {
        computed.len()
    };
    proof {
        assert(declared@.skip(0) =~= declared@);
        assert(computed@.skip(0) =~= computed@);
    }
    while i < n
        invariant
            i <= n,
            n == vstd::math::min(declared@.len() as int, computed@.len() as int),
            first_output_conflict(declared@, computed@) == first_output_conflict(
                declared@.skip(i as int),
                computed@.skip(i as int),
            ),
        decreases n - i,
    {
        proof {
            assert(declared@.skip(i as int)[0] == declared@[i as int]);
            assert(computed@.skip(i as int)[0] == computed@[i as int]);
            assert(declared@.skip(i as int).skip(1) =~= declared@.skip(i as int + 1));
            assert(computed@.skip(i as int).skip(1) =~= computed@.skip(i as int + 1));
        }
        if declared[i] != computed[i].tag {
            return Some((declared[i], computed[i].tag));
        }
        i = i + 1;
    }
    proof {
        assert(declared@.skip(i as int).len() == 0 || computed@.skip(i as int).len() == 0);
    }
    None
}

/// A producer hook whose outputs line up with its declaration has no output
/// conflict, and conversely: together with equal lengths, a conflict-free
/// hook is exactly a well-declared one.
pub proof fn lemma_outputs_match_iff_no_conflict(declared: Seq<TypeTag>, computed: Seq<OutputValue>)
    requires
        declared.len() == computed.len(),
    ensures
        outputs_match(declared, computed) <==> first_output_conflict(declared, computed) is None,
    decreases declared.len(),
{
    if declared.len() == 0 {
    } else if declared[0] != computed[0].tag {
    } else {
        lemma_outputs_match_iff_no_conflict(declared.skip(1), computed.skip(1));
        assert(outputs_match(declared, computed) ==> outputs_match(
            declared.skip(1),
            computed.skip(1),
        )) by {
            if outputs_match(declared, computed) {
                assert forall|i: int| 0 <= i < declared.skip(1).len() implies declared.skip(1)[i]
                    == #[trigger] computed.skip(1)[i].tag by {
                    assert(declared[i + 1] == computed[i + 1].tag);
                }
            }
        }
        assert(outputs_match(declared.skip(1), computed.skip(1)) ==> outputs_match(
            declared,
            computed,
        )) by {
            if outputs_match(declared.skip(1), computed.skip(1)) {
                assert forall|i: int| 0 <= i < declared.len() implies declared[i]
                    == #[trigger] computed[i].tag by {
                    if i == 0 {
                    } else {
                        assert(declared.skip(1)[i - 1] == computed.skip(1)[i - 1].tag);
                    }
                }
            }
        }
    }
}

} // verus!
