//! What holds of all transaction mixes.

use crate::args;
use crate::args::{Shape, TransactionTypeArg, TransactionTypeView};
use crate::workflow_creator::WorkflowProgress;
use vstd::prelude::*;

verus! {

/// A type that is orderless differs from the one with a sequence number in the
/// replay protection and in nothing else.
pub proof fn law_orderless_differs_in_protection(
    arg: TransactionTypeArg,
    num_modules: usize,
    use_account_pool: bool,
    progress_type: WorkflowProgress,
)
    ensures
        ({
            let given = args::materialized(arg, num_modules, use_account_pool, progress_type);
            let plain = args::materialized(
                args::ordered(arg),
                num_modules,
                use_account_pool,
                progress_type,
            );
            &&& given.shape == plain.shape
            &&& plain.replay_protection is SequenceNumber
            &&& given.replay_protection is Nonce <==> args::orderless(arg)
        }),
{
}

/// Only workflows depend on how they progress, and they differ in that alone:
/// a workflow progresses as it was told.
pub proof fn law_progress_matters_to_workflows_only(
    arg: TransactionTypeArg,
    num_modules: usize,
    use_account_pool: bool,
    a: WorkflowProgress,
    b: WorkflowProgress,
)
    ensures
        args::materialized(arg, num_modules, use_account_pool, a) == args::materialized(
            arg,
            num_modules,
            use_account_pool,
            b,
        ) <==> !(arg is TokenV2AmbassadorMintAndBurn1M) || a == b,
        arg is TokenV2AmbassadorMintAndBurn1M <==> args::materialized(
            arg,
            num_modules,
            use_account_pool,
            a,
        ).shape is Workflow,
        args::materialized(arg, num_modules, use_account_pool, a).shape matches Shape::Workflow {
            progress_type,
            workflow_kind,
            num_modules: modules,
            use_account_pool: pool,
        } ==> progress_type == a && args::materialized(arg, num_modules, use_account_pool, b) == (
        TransactionTypeView {
            shape: Shape::Workflow {
                progress_type: b,
                workflow_kind,
                num_modules: modules,
                use_account_pool: pool,
            },
            ..args::materialized(arg, num_modules, use_account_pool, a)
        }),
{
}

/// Giving no weights is giving every type the weight one, and giving no phases
/// is putting every type into the first.
pub proof fn law_defaults(num_types: nat)
    ensures
        args::weights_in_use(Seq::empty(), num_types) == args::weights_in_use(
            Seq::new(num_types, |i: int| 1usize),
            num_types,
        ),
        args::phases_in_use(Seq::empty(), num_types) == args::phases_in_use(
            Seq::new(num_types, |i: int| 0usize),
            num_types,
        ),
{
    assert(args::weights_in_use(Seq::empty(), num_types) =~= args::weights_in_use(
        Seq::new(num_types, |i: int| 1usize),
        num_types,
    ));
    assert(args::phases_in_use(Seq::empty(), num_types) =~= args::phases_in_use(
        Seq::new(num_types, |i: int| 0usize),
        num_types,
    ));
}

/// A phase holds exactly the types that were given for it, each with its weight.
pub proof fn law_phase_holds_its_types(
    types: Seq<TransactionTypeView>,
    weights: Seq<usize>,
    phases: Seq<usize>,
    phase: int,
    entry: (TransactionTypeView, usize),
)
    requires
        types.len() == weights.len(),
        types.len() == phases.len(),
    ensures
        args::phase_mix(types, weights, phases, phase).contains(entry) <==> exists|i: int|
            0 <= i < types.len() && #[trigger] phases[i] == phase && entry == (
                types[i],
                weights[i],
            ),
    decreases types.len(),
{
    let all = args::phase_mix(types, weights, phases, phase);
    if types.len() > 0 {
        let n = types.len() - 1;
        let (t, w, p) = (types.drop_last(), weights.drop_last(), phases.drop_last());
        let before = args::phase_mix(t, w, p, phase);
        law_phase_holds_its_types(t, w, p, phase, entry);
        if all.contains(entry) {
            let x = choose|x: int| 0 <= x < all.len() && all[x] == entry;
            if x < before.len() {
                assert(before[x] == entry);
                let i = choose|i: int|
                    0 <= i < t.len() && #[trigger] p[i] == phase && entry == (t[i], w[i]);
                assert(phases[i] == phase);
            } else {
                assert(phases[n] == phase);
            }
        }
        if exists|i: int|
            0 <= i < types.len() && #[trigger] phases[i] == phase && entry == (
                types[i],
                weights[i],
            ) {
            let i = choose|i: int|
                0 <= i < types.len() && #[trigger] phases[i] == phase && entry == (
                    types[i],
                    weights[i],
                );
            if i < n {
                assert(p[i] == phase);
                assert(before.contains(entry));
                let x = choose|x: int| 0 <= x < before.len() && before[x] == entry;
                assert(all[x] == entry);
            } else {
                assert(all[all.len() - 1] == entry);
            }
        }
    }
}

/// How many types the first phases hold.
pub open spec fn total_types(
    types: Seq<TransactionTypeView>,
    weights: Seq<usize>,
    phases: Seq<usize>,
    num_phases: nat,
) -> nat
    decreases num_phases,
{
    if num_phases == 0 {
        0
    } else {
        total_types(types, weights, phases, (num_phases - 1) as nat) + args::phase_mix(
            types,
            weights,
            phases,
            num_phases - 1,
        ).len()
    }
}

proof fn lemma_total_types(
    types: Seq<TransactionTypeView>,
    weights: Seq<usize>,
    phases: Seq<usize>,
    num_phases: nat,
)
    requires
        types.len() == weights.len(),
        types.len() == phases.len(),
        types.len() > 0,
    ensures
        total_types(types, weights, phases, num_phases) == total_types(
            types.drop_last(),
            weights.drop_last(),
            phases.drop_last(),
            num_phases,
        ) + if phases.last() < num_phases {
            1int
        } else {
            0
        },
    decreases num_phases,
{
    if num_phases > 0 {
        lemma_total_types(types, weights, phases, (num_phases - 1) as nat);
    }
}

/// No type is lost and none is doubled: the phases together hold as many types
/// as were given.
pub proof fn law_no_type_is_lost(
    types: Seq<TransactionTypeView>,
    weights: Seq<usize>,
    phases: Seq<usize>,
    num_phases: nat,
)
    requires
        types.len() == weights.len(),
        types.len() == phases.len(),
        args::phase_count(phases) <= num_phases,
    ensures
        total_types(types, weights, phases, num_phases) == types.len(),
    decreases types.len(),
{
    if types.len() > 0 {
        lemma_total_types(types, weights, phases, num_phases);
        law_no_type_is_lost(types.drop_last(), weights.drop_last(), phases.drop_last(), num_phases);
    } else {
        lemma_no_types(types, weights, phases, num_phases);
    }
}

proof fn lemma_no_types(
    types: Seq<TransactionTypeView>,
    weights: Seq<usize>,
    phases: Seq<usize>,
    num_phases: nat,
)
    requires
        types.len() == 0,
    ensures
        total_types(types, weights, phases, num_phases) == 0,
    decreases num_phases,
{
    if num_phases > 0 {
        lemma_no_types(types, weights, phases, (num_phases - 1) as nat);
    }
}

/// No phase is empty.
pub proof fn law_every_phase_has_types(
    types: Seq<TransactionTypeView>,
    weights: Seq<usize>,
    phases: Seq<usize>,
    phase: int,
)
    requires
        types.len() == weights.len(),
        types.len() == phases.len(),
        args::no_phase_skipped(phases),
        0 <= phase < args::phase_count(phases),
    ensures
        args::phase_mix(types, weights, phases, phase).len() > 0,
    decreases types.len(),
{
    let n = types.len() - 1;
    let before = phases.drop_last();
    assert(phases[n] <= args::phase_count(phases.take(n)));
    assert(phases.take(n) =~= before);
    if phase < args::phase_count(before) {
        assert forall|i: int| 0 <= i < before.len() implies before[i] <= args::phase_count(
            #[trigger] before.take(i),
        ) by {
            assert(before.take(i) =~= phases.take(i));
        }
        law_every_phase_has_types(types.drop_last(), weights.drop_last(), before, phase);
    }
}

} // verus!
