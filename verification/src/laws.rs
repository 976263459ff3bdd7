use vstd::prelude::*;
use crate::classification::{Classification, spec_included};
use crate::context::{BootstrapContext, Phase, StartupError};
use crate::modules::{ModuleEntry, ModuleId, declared_table, included_ids, spec_plan};

verus! {

/// The modules attempted when the modules of `plan` are tried in order, the
/// `i`-th attempt succeeding exactly when `ok[i]`, and trying stops for good
/// at the first failure. The failing module itself counts as attempted.
pub open spec fn spec_attempted(plan: Seq<ModuleId>, ok: Seq<bool>) -> Seq<ModuleId>
    decreases plan.len(),
{
    if plan.len() == 0 || ok.len() == 0 {
        Seq::empty()
    } else if ok.first() {
        seq![plan.first()] + spec_attempted(plan.drop_first(), ok.drop_first())
    } else {
        seq![plan.first()]
    }
}

/// Completeness of the plan: every entry whose inclusion predicate holds
/// under `c` contributes its module to `included_ids`.
pub proof fn lemma_plan_complete(entries: Seq<ModuleEntry>, c: Classification, j: int)
    requires
        0 <= j < entries.len(),
        spec_included(entries[j].inclusion, c),
    ensures
        included_ids(entries, c).contains(entries[j].id),
    decreases entries.len(),
{
    let prefix = entries.drop_last();
    let pids = included_ids(prefix, c);
    if j == entries.len() - 1 {
        assert(included_ids(entries, c) == pids.push(entries[j].id));
        assert(included_ids(entries, c)[pids.len() as int] == entries[j].id);
    } else {
        assert(prefix[j] == entries[j]);
        lemma_plan_complete(prefix, c, j);
        let i = choose|i: int| 0 <= i < pids.len() && pids[i] == entries[j].id;
        assert(included_ids(entries, c)[i] == entries[j].id);
    }
}

/// Soundness of the plan: every module of `included_ids` comes from an entry
/// whose inclusion predicate holds under `c`.
pub proof fn lemma_plan_sound(entries: Seq<ModuleEntry>, c: Classification, id: ModuleId)
    requires
        included_ids(entries, c).contains(id),
    ensures
        exists|j: int|
            0 <= j < entries.len() && (#[trigger] entries[j]).id == id && spec_included(
                entries[j].inclusion,
                c,
            ),
    decreases entries.len(),
{
    let ids = included_ids(entries, c);
    let prefix = entries.drop_last();
    let pids = included_ids(prefix, c);
    let i = choose|i: int| 0 <= i < ids.len() && ids[i] == id;
    if spec_included(entries.last().inclusion, c) && i == pids.len() {
        let j = entries.len() - 1;
        assert(entries[j].id == id && spec_included(entries[j].inclusion, c));
    } else {
        assert(pids[i] == id);
        assert(pids.contains(id));
        lemma_plan_sound(prefix, c, id);
        let j = choose|j: int|
            0 <= j < prefix.len() && (#[trigger] prefix[j]).id == id && spec_included(
                prefix[j].inclusion,
                c,
            );
        assert(entries[j] == prefix[j]);
        assert(entries[j].id == id && spec_included(entries[j].inclusion, c));
    }
}

/// Exactness of the plan: a module is planned under `c` exactly when the
/// statically declared table has an entry for it whose inclusion predicate
/// evaluates true under `c`.
pub proof fn lemma_plan_exact(c: Classification, id: ModuleId)
    ensures
        spec_plan(c).contains(id) <==> exists|j: int|
            0 <= j < declared_table().len() && (#[trigger] declared_table()[j]).id == id
                && spec_included(declared_table()[j].inclusion, c),
{
    if spec_plan(c).contains(id) {
        lemma_plan_sound(declared_table(), c, id);
    }
    if exists|j: int|
        0 <= j < declared_table().len() && (#[trigger] declared_table()[j]).id == id
            && spec_included(declared_table()[j].inclusion, c) {
        let j = choose|j: int|
            0 <= j < declared_table().len() && (#[trigger] declared_table()[j]).id == id
                && spec_included(declared_table()[j].inclusion, c);
        lemma_plan_complete(declared_table(), c, j);
    }
}

/// Prefix-stop: if the first `i` registrations succeed and the `i`-th
/// fails, exactly the modules up to and including the `i`-th are attempted;
/// the ones after it never are.
pub proof fn lemma_prefix_stop(plan: Seq<ModuleId>, ok: Seq<bool>, i: int)
    requires
        0 <= i < plan.len(),
        i < ok.len(),
        forall|j: int| 0 <= j < i ==> ok[j],
        !ok[i],
    ensures
        spec_attempted(plan, ok) == plan.take(i + 1),
    decreases i,
{
    if i == 0 {
        assert(spec_attempted(plan, ok) =~= plan.take(1));
    } else {
        assert(ok[0]);
        assert forall|j: int| 0 <= j < i - 1 implies ok.drop_first()[j] by {
            assert(ok.drop_first()[j] == ok[j + 1]);
        }
        assert(!ok.drop_first()[i - 1]);
        lemma_prefix_stop(plan.drop_first(), ok.drop_first(), i - 1);
        assert(spec_attempted(plan, ok) =~= plan.take(i + 1));
    }
}

/// While no registration has failed, the attempts walk the plan in order:
/// after `ok.len()` successful attempts, exactly the first `ok.len()`
/// planned modules have been attempted.
pub proof fn lemma_ok_prefix_attempts(plan: Seq<ModuleId>, ok: Seq<bool>)
    requires
        ok.len() <= plan.len(),
        forall|j: int| 0 <= j < ok.len() ==> ok[j],
    ensures
        spec_attempted(plan, ok) == plan.take(ok.len() as int),
    decreases plan.len(),
{
    if plan.len() == 0 || ok.len() == 0 {
        assert(spec_attempted(plan, ok) =~= plan.take(ok.len() as int));
    } else {
        assert(ok[0]);
        assert forall|j: int| 0 <= j < ok.drop_first().len() implies ok.drop_first()[j] by {
            assert(ok.drop_first()[j] == ok[j + 1]);
        }
        lemma_ok_prefix_attempts(plan.drop_first(), ok.drop_first());
        assert(spec_attempted(plan, ok) =~= plan.take(ok.len() as int));
    }
}

/// All-or-nothing, pure form: if every planned registration succeeds, every
/// planned module is attempted, and no other.
pub proof fn lemma_all_ok_attempts_plan(plan: Seq<ModuleId>, ok: Seq<bool>)
    requires
        plan.len() <= ok.len(),
        forall|j: int| 0 <= j < plan.len() ==> ok[j],
    ensures
        spec_attempted(plan, ok) == plan,
    decreases plan.len(),
{
    if plan.len() == 0 {
        assert(spec_attempted(plan, ok) =~= plan);
    } else {
        assert(ok[0]);
        assert forall|j: int| 0 <= j < plan.drop_first().len() implies ok.drop_first()[j] by {
            assert(ok.drop_first()[j] == ok[j + 1]);
        }
        lemma_all_ok_attempts_plan(plan.drop_first(), ok.drop_first());
        assert(spec_attempted(plan, ok) =~= plan);
    }
}

/// A reachable context mirrors the abstract fold: the modules it has
/// attempted are exactly `spec_attempted` of its plan and its recorded
/// outcomes, and they always form a prefix of the plan.
pub proof fn lemma_context_matches_fold(ctx: BootstrapContext)
    requires
        ctx.wf(),
    ensures
        ctx.attempted() == spec_attempted(ctx.plan@, ctx.history@),
        ctx.attempted() == ctx.plan@.take(ctx.attempted().len() as int),
{
    let plan = ctx.plan@;
    let ok = ctx.history@;
    let k = ctx.registered@.len() as int;
    match ctx.error {
        Some(StartupError::Registration { module, .. }) => {
            lemma_prefix_stop(plan, ok, k);
            assert(ctx.attempted() =~= plan.take(k + 1));
        }
        _ => {
            lemma_ok_prefix_attempts(plan, ok);
        }
    }
}

/// All-or-nothing, machine form: a context that has been handed to the run
/// loop, or whose run loop has finished, has every module of its plan
/// registered and no failure recorded.
pub proof fn lemma_handoff_all_registered(ctx: BootstrapContext)
    requires
        ctx.wf(),
        ctx.phase == Phase::Running || ctx.phase == Phase::Completed,
    ensures
        ctx.registered@ == spec_plan(ctx.classification),
        ctx.error is None,
{
    assert(ctx.plan@.take(ctx.plan@.len() as int) =~= ctx.plan@);
}

} // verus!
