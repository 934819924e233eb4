//! What the types of a mix are, and where they stand in it.

use crate::args;
use crate::args::{
    ReplayProtectionType, Shape, TokenWorkflowKind, TransactionType, TransactionTypeArg,
    TransactionTypeView,
};
use crate::args_laws;
use crate::entry_points::{EntryPoints, LoopType};
use crate::workflow_creator::WorkflowProgress;
use vstd::prelude::*;

verus! {

/// Every argument stands for one transaction type of its own, at its own place.
/// Which one that is, the argument says with the settings, whatever other
/// arguments there are, and however many.
pub proof fn law_arguments_stand_for_themselves(
    given: Seq<TransactionTypeArg>,
    num_modules: usize,
    use_account_pool: bool,
    progress_type: WorkflowProgress,
    i: int,
)
    requires
        0 <= i < given.len(),
    ensures
        ({
            let types = args::all_materialized(
                given,
                num_modules,
                use_account_pool,
                progress_type,
            );
            let alone = args::all_materialized(
                seq![given[i]],
                num_modules,
                use_account_pool,
                progress_type,
            );
            &&& types.len() == given.len()
            &&& types[i] == args::materialized(
                given[i],
                num_modules,
                use_account_pool,
                progress_type,
            )
            &&& alone.len() == 1
            &&& types[i] == alone[0]
        }),
{
}

/// The same argument stands for the same type wherever it is given.
pub proof fn law_other_arguments_do_not_matter(
    one: Seq<TransactionTypeArg>,
    other: Seq<TransactionTypeArg>,
    num_modules: usize,
    use_account_pool: bool,
    progress_type: WorkflowProgress,
    i: int,
    j: int,
)
    requires
        0 <= i < one.len(),
        0 <= j < other.len(),
        one[i] == other[j],
    ensures
        args::all_materialized(one, num_modules, use_account_pool, progress_type)[i]
            == args::all_materialized(other, num_modules, use_account_pool, progress_type)[j],
{
}

/// The settings that a type has are those given.
pub open spec fn has_settings(
    shape: Shape,
    modules: usize,
    account_pool: bool,
    progress: WorkflowProgress,
) -> bool {
    match shape {
        Shape::CoinTransfer { sender_use_account_pool, .. } => sender_use_account_pool
            == account_pool,
        Shape::AccountGeneration { .. } => true,
        Shape::PublishPackage { use_account_pool, .. } => use_account_pool == account_pool,
        Shape::CallCustomModules { num_modules, use_account_pool, .. } => num_modules == modules
            && use_account_pool == account_pool,
        Shape::CallCustomModulesMix { num_modules, use_account_pool, .. } => num_modules == modules
            && use_account_pool == account_pool,
        Shape::BatchTransfer { .. } => true,
        Shape::Workflow { num_modules, use_account_pool, progress_type, .. } => num_modules == 1
            && use_account_pool == account_pool && progress_type == progress,
    }
}

/// Every type that calls modules calls as many copies as the working set has, every
/// type that can use the account pool uses it exactly where that is wanted, and
/// every workflow progresses as is wanted, with the one copy that it supports.
pub proof fn law_types_have_the_settings_given(
    arg: TransactionTypeArg,
    num_modules: usize,
    use_account_pool: bool,
    progress_type: WorkflowProgress,
)
    ensures
        has_settings(
            args::materialized(arg, num_modules, use_account_pool, progress_type).shape,
            num_modules,
            use_account_pool,
            progress_type,
        ),
{
}

/// The weight of a type: one where none are given.
pub open spec fn weight_of(weights: Seq<usize>, i: int) -> usize {
    if weights.len() == 0 {
        1
    } else {
        weights[i]
    }
}

/// The phase of a type: the first where none are given.
pub open spec fn phase_of(phases: Seq<usize>, i: int) -> usize {
    if phases.len() == 0 {
        0
    } else {
        phases[i]
    }
}

/// There is a weight and a phase in use to every type.
pub proof fn law_weights_and_phases_in_use(
    weights: Seq<usize>,
    phases: Seq<usize>,
    num_types: nat,
    i: int,
)
    requires
        weights.len() == 0 || weights.len() == num_types,
        phases.len() == 0 || phases.len() == num_types,
        0 <= i < num_types,
    ensures
        args::weights_in_use(weights, num_types).len() == num_types,
        args::weights_in_use(weights, num_types)[i] == weight_of(weights, i),
        args::phases_in_use(phases, num_types).len() == num_types,
        args::phases_in_use(phases, num_types)[i] == phase_of(phases, i),
{
}

/// The mix of every phase of what is given.
pub open spec fn mix_of(
    given: Seq<TransactionTypeArg>,
    weights: Seq<usize>,
    phases: Seq<usize>,
    num_modules: usize,
    use_account_pool: bool,
    progress_type: WorkflowProgress,
) -> Seq<Seq<(TransactionTypeView, usize)>> {
    args::mix_per_phase(
        args::all_materialized(given, num_modules, use_account_pool, progress_type),
        args::weights_in_use(weights, given.len()),
        args::phases_in_use(phases, given.len()),
    )
}

/// Whatever is in the mix of a phase is what some argument stands for, with the
/// weight and in the phase given for it; so it has the settings that were given.
pub proof fn law_mix_holds_what_is_given(
    given: Seq<TransactionTypeArg>,
    weights: Seq<usize>,
    phases: Seq<usize>,
    num_modules: usize,
    use_account_pool: bool,
    progress_type: WorkflowProgress,
    phase: int,
    x: int,
)
    requires
        weights.len() == 0 || weights.len() == given.len(),
        phases.len() == 0 || phases.len() == given.len(),
        0 <= phase < mix_of(
            given,
            weights,
            phases,
            num_modules,
            use_account_pool,
            progress_type,
        ).len(),
        0 <= x < mix_of(
            given,
            weights,
            phases,
            num_modules,
            use_account_pool,
            progress_type,
        )[phase].len(),
    ensures
        ({
            let entry = mix_of(
                given,
                weights,
                phases,
                num_modules,
                use_account_pool,
                progress_type,
            )[phase][x];
            &&& has_settings(entry.0.shape, num_modules, use_account_pool, progress_type)
            &&& exists|i: int|
                #![trigger given[i]]
                0 <= i < given.len() && phase_of(phases, i) == phase && entry.1 == weight_of(
                    weights,
                    i,
                ) && entry.0 == args::materialized(
                    given[i],
                    num_modules,
                    use_account_pool,
                    progress_type,
                )
        }),
{
    let types = args::all_materialized(given, num_modules, use_account_pool, progress_type);
    let w = args::weights_in_use(weights, given.len());
    let p = args::phases_in_use(phases, given.len());
    let mix = args::phase_mix(types, w, p, phase);
    assert(mix.contains(mix[x]));
    args_laws::law_phase_holds_its_types(types, w, p, phase, mix[x]);
    let i = choose|i: int|
        0 <= i < types.len() && #[trigger] p[i] == phase && mix[x] == (types[i], w[i]);
    law_types_have_the_settings_given(given[i], num_modules, use_account_pool, progress_type);
    assert(mix[x].0 == args::materialized(
        given[i],
        num_modules,
        use_account_pool,
        progress_type,
    ));
}

/// Every argument is in the mix, in its phase, with its weight.
pub proof fn law_every_argument_is_in_the_mix(
    given: Seq<TransactionTypeArg>,
    weights: Seq<usize>,
    phases: Seq<usize>,
    num_modules: usize,
    use_account_pool: bool,
    progress_type: WorkflowProgress,
    i: int,
)
    requires
        weights.len() == 0 || weights.len() == given.len(),
        phases.len() == 0 || phases.len() == given.len(),
        0 <= i < given.len(),
    ensures
        ({
            let mix = mix_of(
                given,
                weights,
                phases,
                num_modules,
                use_account_pool,
                progress_type,
            );
            &&& phase_of(phases, i) < mix.len()
            &&& mix[phase_of(phases, i) as int].contains(
                (
                    args::materialized(given[i], num_modules, use_account_pool, progress_type),
                    weight_of(weights, i),
                ),
            )
        }),
{
    let types = args::all_materialized(given, num_modules, use_account_pool, progress_type);
    let w = args::weights_in_use(weights, given.len());
    let p = args::phases_in_use(phases, given.len());
    let phase = phase_of(phases, i) as int;
    law_phase_count_is_exact(p);
    assert(p[i] == phase);
    args_laws::law_phase_holds_its_types(types, w, p, phase, (types[i], w[i]));
}

/// There are as many phases as it takes: every phase given is one of them, and the
/// last one was given.
pub proof fn law_phase_count_is_exact(phases: Seq<usize>)
    ensures
        args::phase_count(phases) >= 0,
        forall|i: int| 0 <= i < phases.len() ==> #[trigger] phases[i] < args::phase_count(phases),
        args::phase_count(phases) == 0 || exists|i: int|
            0 <= i < phases.len() && #[trigger] phases[i] + 1 == args::phase_count(phases),
    decreases phases.len(),
{
    if phases.len() > 0 {
        let before = phases.drop_last();
        let n = phases.len() - 1;
        law_phase_count_is_exact(before);
        assert forall|i: int| 0 <= i < phases.len() implies #[trigger] phases[i]
            < args::phase_count(phases) by {
            if i < n {
                assert(before[i] == phases[i]);
            }
        }
        if phases[n] >= args::phase_count(before) {
            assert(phases[n] + 1 == args::phase_count(phases));
        } else {
            let i = choose|i: int|
                0 <= i < before.len() && #[trigger] before[i] + 1 == args::phase_count(before);
            assert(phases[i] + 1 == args::phase_count(phases));
        }
    }
}

/// No phase is skipped exactly when each one given is the first of all, or no more
/// than one behind a phase given before it.
pub proof fn law_phases_follow_each_other(phases: Seq<usize>)
    ensures
        args::no_phase_skipped(phases) <==> forall|i: int|
            #![trigger phases[i]]
            0 <= i < phases.len() ==> phases[i] == 0 || exists|j: int|
                0 <= j < i && phases[i] <= #[trigger] phases[j] + 1,
{
    if args::no_phase_skipped(phases) {
        assert forall|i: int| #![trigger phases[i]] 0 <= i < phases.len() implies phases[i] == 0
            || exists|j: int| 0 <= j < i && phases[i] <= #[trigger] phases[j] + 1 by {
            let before = phases.take(i);
            law_phase_count_is_exact(before);
            assert(phases[i] <= args::phase_count(before));
            if phases[i] != 0 {
                let j = choose|j: int|
                    0 <= j < before.len() && #[trigger] before[j] + 1 == args::phase_count(before);
                assert(phases[i] <= phases[j] + 1);
            }
        }
    }
    if forall|i: int|
        #![trigger phases[i]]
        0 <= i < phases.len() ==> phases[i] == 0 || exists|j: int|
            0 <= j < i && phases[i] <= #[trigger] phases[j] + 1 {
        assert forall|i: int| 0 <= i < phases.len() implies phases[i] <= args::phase_count(
            #[trigger] phases.take(i),
        ) by {
            let before = phases.take(i);
            law_phase_count_is_exact(before);
            if phases[i] != 0 {
                let j = choose|j: int| 0 <= j < i && phases[i] <= #[trigger] phases[j] + 1;
                assert(before[j] == phases[j]);
            }
        }
    }
}

/// There is a mix to every phase, that of the phase's own types.
pub proof fn law_one_mix_per_phase(
    types: Seq<TransactionTypeView>,
    weights: Seq<usize>,
    phases: Seq<usize>,
    phase: int,
)
    requires
        0 <= phase < args::phase_count(phases),
    ensures
        args::mix_per_phase(types, weights, phases).len() == args::phase_count(phases),
        args::mix_per_phase(types, weights, phases)[phase] == args::phase_mix(
            types,
            weights,
            phases,
            phase,
        ),
{
}

/// The types of a phase stand in the order given: the mix of what is given first
/// comes first. One type alone is all of its phase, and in no other.
pub proof fn law_mix_keeps_the_order(
    types: Seq<TransactionTypeView>,
    weights: Seq<usize>,
    phases: Seq<usize>,
    more_types: Seq<TransactionTypeView>,
    more_weights: Seq<usize>,
    more_phases: Seq<usize>,
    phase: int,
)
    requires
        types.len() == weights.len(),
        types.len() == phases.len(),
        more_types.len() == more_weights.len(),
        more_types.len() == more_phases.len(),
    ensures
        args::phase_mix(types + more_types, weights + more_weights, phases + more_phases, phase)
            == args::phase_mix(types, weights, phases, phase) + args::phase_mix(
            more_types,
            more_weights,
            more_phases,
            phase,
        ),
        types.len() == 1 ==> args::phase_mix(types, weights, phases, phase) == if phases[0]
            == phase {
            seq![(types[0], weights[0])]
        } else {
            Seq::empty()
        },
    decreases more_types.len(),
{
    if types.len() == 1 {
        assert(args::phase_mix(
            types.drop_last(),
            weights.drop_last(),
            phases.drop_last(),
            phase,
        ) =~= Seq::empty());
        assert(args::phase_mix(types, weights, phases, phase) =~= if phases[0] == phase {
            seq![(types[0], weights[0])]
        } else {
            Seq::empty()
        });
    }
    let (t, w, p) = (types + more_types, weights + more_weights, phases + more_phases);
    if more_types.len() == 0 {
        assert(t =~= types && w =~= weights && p =~= phases);
        assert(args::phase_mix(more_types, more_weights, more_phases, phase) =~= Seq::empty());
        assert(args::phase_mix(t, w, p, phase) =~= args::phase_mix(types, weights, phases, phase)
            + args::phase_mix(more_types, more_weights, more_phases, phase));
    } else {
        law_mix_keeps_the_order(
            types,
            weights,
            phases,
            more_types.drop_last(),
            more_weights.drop_last(),
            more_phases.drop_last(),
            phase,
        );
        assert(t.drop_last() =~= types + more_types.drop_last());
        assert(w.drop_last() =~= weights + more_weights.drop_last());
        assert(p.drop_last() =~= phases + more_phases.drop_last());
        assert(args::phase_mix(t, w, p, phase) =~= args::phase_mix(types, weights, phases, phase)
            + args::phase_mix(more_types, more_weights, more_phases, phase));
    }
}

/// With any settings, the type calls the entry point and nothing else, and is
/// protected by its sequence number.
pub open spec fn calls(arg: TransactionTypeArg, entry_point: EntryPoints) -> bool {
    forall|num_modules: usize, use_account_pool: bool, progress_type: WorkflowProgress|
        #[trigger] args::materialized(arg, num_modules, use_account_pool, progress_type) == (
        TransactionTypeView {
            shape: Shape::CallCustomModules { entry_point, num_modules, use_account_pool },
            replay_protection: ReplayProtectionType::SequenceNumber,
        })
}

/// Types that do nothing, or one simple thing, call the entry point for it, with
/// the sizes and numbers that their names give.
pub proof fn law_simple_calls()
    ensures
        calls(TransactionTypeArg::NoOp, EntryPoints::Nop),
        calls(TransactionTypeArg::NoOpFeePayer, EntryPoints::NopFeePayer),
        calls(TransactionTypeArg::NoOp2Signers, EntryPoints::Nop),
        calls(TransactionTypeArg::NoOp5Signers, EntryPoints::Nop),
        calls(
            TransactionTypeArg::AccountResource32B,
            EntryPoints::BytesMakeOrChange { data_length: Some(32) },
        ),
        calls(
            TransactionTypeArg::AccountResource1KB,
            EntryPoints::BytesMakeOrChange { data_length: Some(1024) },
        ),
        calls(
            TransactionTypeArg::AccountResource10KB,
            EntryPoints::BytesMakeOrChange { data_length: Some(10_240) },
        ),
        calls(TransactionTypeArg::ModifyGlobalResource, EntryPoints::IncGlobal),
        calls(
            TransactionTypeArg::ModifyGlobalResourceAggV2,
            EntryPoints::IncGlobalAggV2,
        ),
        calls(
            TransactionTypeArg::ModifyGlobalFlagAggV2,
            EntryPoints::ModifyGlobalBoundedAggV2 { step: 100 },
        ),
        calls(
            TransactionTypeArg::ModifyGlobalBoundedAggV2,
            EntryPoints::ModifyGlobalBoundedAggV2 { step: 10 },
        ),
        calls(
            TransactionTypeArg::ModifyGlobalMilestoneAggV2,
            EntryPoints::IncGlobalMilestoneAggV2 { milestone_every: 1000 },
        ),
        calls(TransactionTypeArg::DeserializeU256, EntryPoints::DeserializeU256),
        calls(TransactionTypeArg::SimpleScript, EntryPoints::SimpleScript),
        calls(
            TransactionTypeArg::APTTransferWithPermissionedSigner,
            EntryPoints::APTTransferWithPermissionedSigner,
        ),
        calls(
            TransactionTypeArg::APTTransferWithMasterSigner,
            EntryPoints::APTTransferWithMasterSigner,
        ),
{
}

/// Loops run as often, and over as many bytes, as their names give.
pub proof fn law_loops()
    ensures
        calls(
            TransactionTypeArg::Loop100k,
            EntryPoints::Loop { loop_count: Some(100_000), loop_type: LoopType::NoOp },
        ),
        calls(
            TransactionTypeArg::Loop10kArithmetic,
            EntryPoints::Loop { loop_count: Some(10_000), loop_type: LoopType::Arithmetic },
        ),
        calls(
            TransactionTypeArg::Loop1kBcs1k,
            EntryPoints::Loop {
                loop_count: Some(1000),
                loop_type: LoopType::BcsToBytes { len: 1024 },
            },
        ),
{
}

/// Objects are created in the numbers, and with the payload, that the names give.
/// Payloads and tags are counted in units of 1024.
pub proof fn law_object_calls()
    ensures
        calls(
            TransactionTypeArg::CreateObjects10,
            EntryPoints::CreateObjects { num_objects: 10, object_payload_size: 0 },
        ),
        calls(
            TransactionTypeArg::CreateObjects10WithPayload10k,
            EntryPoints::CreateObjects { num_objects: 10, object_payload_size: 10_240 },
        ),
        calls(
            TransactionTypeArg::CreateObjectsConflict10WithPayload10k,
            EntryPoints::CreateObjectsConflict { num_objects: 10, object_payload_size: 10_240 },
        ),
        calls(
            TransactionTypeArg::CreateObjects100,
            EntryPoints::CreateObjects { num_objects: 100, object_payload_size: 0 },
        ),
        calls(
            TransactionTypeArg::CreateObjects100WithPayload10k,
            EntryPoints::CreateObjects { num_objects: 100, object_payload_size: 10_240 },
        ),
        calls(
            TransactionTypeArg::CreateObjectsConflict100WithPayload10k,
            EntryPoints::CreateObjectsConflict { num_objects: 100, object_payload_size: 10_240 },
        ),
        calls(
            TransactionTypeArg::VectorTrimAppendLen3000Size1,
            EntryPoints::VectorTrimAppend {
                vec_len: 3000,
                element_len: 1,
                index: 100,
                repeats: 1000,
            },
        ),
        calls(
            TransactionTypeArg::VectorRemoveInsertLen3000Size1,
            EntryPoints::VectorRemoveInsert {
                vec_len: 3000,
                element_len: 1,
                index: 100,
                repeats: 1000,
            },
        ),
        calls(
            TransactionTypeArg::ResourceGroupsGlobalWriteTag1KB,
            EntryPoints::ResourceGroupsGlobalWriteTag { string_length: 1024 },
        ),
        calls(
            TransactionTypeArg::ResourceGroupsGlobalWriteAndReadTag1KB,
            EntryPoints::ResourceGroupsGlobalWriteAndReadTag { string_length: 1024 },
        ),
        calls(
            TransactionTypeArg::ResourceGroupsSenderWriteTag1KB,
            EntryPoints::ResourceGroupsSenderWriteTag { string_length: 1024 },
        ),
        calls(
            TransactionTypeArg::ResourceGroupsSenderMultiChange1KB,
            EntryPoints::ResourceGroupsSenderMultiChange { string_length: 1024 },
        ),
{
}

/// Tokens, coins and assets are minted, stored, transferred and swapped by the entry
/// points of their own kind.
pub proof fn law_token_calls()
    ensures
        calls(
            TransactionTypeArg::TokenV1NFTMintAndStoreSequential,
            EntryPoints::TokenV1MintAndStoreNFTSequential,
        ),
        calls(
            TransactionTypeArg::TokenV1NFTMintAndTransferSequential,
            EntryPoints::TokenV1MintAndTransferNFTSequential,
        ),
        calls(
            TransactionTypeArg::TokenV1NFTMintAndStoreParallel,
            EntryPoints::TokenV1MintAndStoreNFTParallel,
        ),
        calls(
            TransactionTypeArg::TokenV1NFTMintAndTransferParallel,
            EntryPoints::TokenV1MintAndTransferNFTParallel,
        ),
        calls(
            TransactionTypeArg::TokenV1FTMintAndStore,
            EntryPoints::TokenV1MintAndStoreFT,
        ),
        calls(
            TransactionTypeArg::TokenV1FTMintAndTransfer,
            EntryPoints::TokenV1MintAndTransferFT,
        ),
        calls(TransactionTypeArg::CoinInitAndMint, EntryPoints::CoinInitAndMint),
        calls(
            TransactionTypeArg::FungibleAssetMint,
            EntryPoints::FungibleAssetMint,
        ),
        calls(
            TransactionTypeArg::TokenV2AmbassadorMint,
            EntryPoints::TokenV2AmbassadorMint { numbered: true },
        ),
        calls(
            TransactionTypeArg::LiquidityPoolSwap,
            EntryPoints::LiquidityPoolSwap { is_stable: false },
        ),
        calls(
            TransactionTypeArg::LiquidityPoolSwapStable,
            EntryPoints::LiquidityPoolSwap { is_stable: true },
        ),
{
}

/// Pictures have the size, and change in as many points, as their names give.
pub proof fn law_picture_calls()
    ensures
        calls(
            TransactionTypeArg::VectorPictureCreate30k,
            EntryPoints::InitializeVectorPicture { length: 30_720 },
        ),
        calls(
            TransactionTypeArg::VectorPicture30k,
            EntryPoints::VectorPicture { length: 30_720 },
        ),
        calls(
            TransactionTypeArg::VectorPictureRead30k,
            EntryPoints::VectorPictureRead { length: 30_720 },
        ),
        calls(
            TransactionTypeArg::VectorPictureCreate40,
            EntryPoints::InitializeVectorPicture { length: 40 },
        ),
        calls(
            TransactionTypeArg::VectorPicture40,
            EntryPoints::VectorPicture { length: 40 },
        ),
        calls(
            TransactionTypeArg::VectorPictureRead40,
            EntryPoints::VectorPictureRead { length: 40 },
        ),
        calls(
            TransactionTypeArg::SmartTablePicture30KWith200Change,
            EntryPoints::SmartTablePicture { length: 30_720, num_points_per_txn: 200 },
        ),
        calls(
            TransactionTypeArg::SmartTablePicture1MWith256Change,
            EntryPoints::SmartTablePicture { length: 1_048_576, num_points_per_txn: 256 },
        ),
        calls(
            TransactionTypeArg::SmartTablePicture1BWith256Change,
            EntryPoints::SmartTablePicture { length: 1_073_741_824, num_points_per_txn: 256 },
        ),
        calls(
            TransactionTypeArg::SmartTablePicture1MWith1KChangeExceedsLimit,
            EntryPoints::SmartTablePicture { length: 1_048_576, num_points_per_txn: 1024 },
        ),
{
}
/// Exactly the types that are called orderless are protected by a nonce, and they
/// do what the types without that word in their names do.
pub proof fn law_orderless_types(
    arg: TransactionTypeArg,
    num_modules: usize,
    use_account_pool: bool,
    progress_type: WorkflowProgress,
)
    ensures
        args::materialized(
            arg,
            num_modules,
            use_account_pool,
            progress_type,
        ).replay_protection == if arg is CoinTransferOrderless || arg is AptFaTransferOrderless
            || arg is CoinTransferWithInvalidOrderless || arg is NonConflictingCoinTransferOrderless
            || arg is NoOpOrderless {
            ReplayProtectionType::Nonce
        } else {
            ReplayProtectionType::SequenceNumber
        },
        args::ordered(TransactionTypeArg::CoinTransferOrderless)
            == TransactionTypeArg::CoinTransfer,
        args::ordered(TransactionTypeArg::AptFaTransferOrderless)
            == TransactionTypeArg::AptFaTransfer,
        args::ordered(TransactionTypeArg::CoinTransferWithInvalidOrderless)
            == TransactionTypeArg::CoinTransferWithInvalid,
        args::ordered(TransactionTypeArg::NonConflictingCoinTransferOrderless)
            == TransactionTypeArg::NonConflictingCoinTransfer,
        args::ordered(TransactionTypeArg::NoOpOrderless) == TransactionTypeArg::NoOp,
        args::ordered(arg) == arg || args::orderless(arg),
{
}

/// Coins are transferred by exactly the types whose names say so. A tenth of the
/// transfers is invalid where the name says that some are, and none else; whether
/// they conflict, and whether they are of a fungible asset, the name says too.
pub proof fn law_transfers(
    arg: TransactionTypeArg,
    num_modules: usize,
    use_account_pool: bool,
    progress_type: WorkflowProgress,
)
    ensures
        ({
            let shape = args::materialized(
                arg,
                num_modules,
                use_account_pool,
                progress_type,
            ).shape;
            let plain = args::ordered(arg);
            &&& shape is CoinTransfer <==> plain is CoinTransfer || plain is AptFaTransfer
                || plain is CoinTransferWithInvalid || plain is NonConflictingCoinTransfer
            &&& shape is CoinTransfer ==> shape == (Shape::CoinTransfer {
                invalid_transaction_ratio: if plain is CoinTransferWithInvalid {
                    10
                } else {
                    0
                },
                sender_use_account_pool: use_account_pool,
                non_conflicting: plain is NonConflictingCoinTransfer,
                use_fa_transfer: plain is AptFaTransfer,
            })
        }),
{
}

/// Accounts are created by two types, transferred to in batches by one, and a
/// package is published by one and published again, between calls, by another; one
/// is a workflow. All other types but the transfers call one entry point.
pub proof fn law_types_of_their_own(
    arg: TransactionTypeArg,
    num_modules: usize,
    use_account_pool: bool,
    progress_type: WorkflowProgress,
)
    ensures
        ({
            let shape = args::materialized(
                arg,
                num_modules,
                use_account_pool,
                progress_type,
            ).shape;
            match arg {
                TransactionTypeArg::AccountGeneration => shape == (Shape::AccountGeneration {
                    add_created_accounts_to_pool: true,
                    max_account_working_set: 1_000_000,
                    creation_balance: 0,
                }),
                TransactionTypeArg::AccountGenerationLargePool => shape
                    == (Shape::AccountGeneration {
                    add_created_accounts_to_pool: true,
                    max_account_working_set: 50_000_000,
                    creation_balance: 200_000_000,
                }),
                TransactionTypeArg::Batch100Transfer => shape == (Shape::BatchTransfer {
                    batch_size: 100,
                }),
                TransactionTypeArg::PublishPackage => shape == (Shape::PublishPackage {
                    use_account_pool,
                    package_name: "simple"@,
                }),
                TransactionTypeArg::RepublishAndCall => shape == (Shape::CallCustomModulesMix {
                    entry_points: seq![
                        (EntryPoints::Nop, 1usize),
                        (EntryPoints::Republish, 1usize),
                    ],
                    num_modules,
                    use_account_pool,
                }),
                TransactionTypeArg::TokenV2AmbassadorMintAndBurn1M => shape == (Shape::Workflow {
                    workflow_kind: TokenWorkflowKind::CreateMintBurn {
                        count: 10_000,
                        creation_balance: 200_000,
                    },
                    num_modules: 1,
                    use_account_pool,
                    progress_type,
                }),
                _ => shape is CoinTransfer || shape is CallCustomModules,
            }
        }),
{
}

/// A transaction type shows all that it says.
pub proof fn law_types_show_all(
    count: usize,
    flag: bool,
    other_flag: bool,
    third_flag: bool,
    balance: u64,
    package_name: String,
    entry_point: EntryPoints,
    entry_points: Vec<(EntryPoints, usize)>,
    workflow_kind: TokenWorkflowKind,
    progress_type: WorkflowProgress,
    replay_protection: ReplayProtectionType,
)
    ensures
        (TransactionType::CoinTransfer {
            invalid_transaction_ratio: count,
            sender_use_account_pool: flag,
            non_conflicting: other_flag,
            use_fa_transfer: third_flag,
            replay_protection,
        })@ == (TransactionTypeView {
            shape: Shape::CoinTransfer {
                invalid_transaction_ratio: count,
                sender_use_account_pool: flag,
                non_conflicting: other_flag,
                use_fa_transfer: third_flag,
            },
            replay_protection,
        }),
        (TransactionType::AccountGeneration {
            add_created_accounts_to_pool: flag,
            max_account_working_set: count,
            creation_balance: balance,
            replay_protection,
        })@ == (TransactionTypeView {
            shape: Shape::AccountGeneration {
                add_created_accounts_to_pool: flag,
                max_account_working_set: count,
                creation_balance: balance,
            },
            replay_protection,
        }),
        (TransactionType::PublishPackage {
            use_account_pool: flag,
            package_name,
            replay_protection,
        })@ == (TransactionTypeView {
            shape: Shape::PublishPackage { use_account_pool: flag, package_name: package_name@ },
            replay_protection,
        }),
        (TransactionType::CallCustomModules {
            entry_point,
            num_modules: count,
            use_account_pool: flag,
            replay_protection,
        })@ == (TransactionTypeView {
            shape: Shape::CallCustomModules {
                entry_point,
                num_modules: count,
                use_account_pool: flag,
            },
            replay_protection,
        }),
        (TransactionType::CallCustomModulesMix {
            entry_points,
            num_modules: count,
            use_account_pool: flag,
            replay_protection,
        })@ == (TransactionTypeView {
            shape: Shape::CallCustomModulesMix {
                entry_points: entry_points@,
                num_modules: count,
                use_account_pool: flag,
            },
            replay_protection,
        }),
        (TransactionType::BatchTransfer { batch_size: count, replay_protection })@ == (
        TransactionTypeView {
            shape: Shape::BatchTransfer { batch_size: count },
            replay_protection,
        }),
        (TransactionType::Workflow {
            workflow_kind,
            num_modules: count,
            use_account_pool: flag,
            progress_type,
            replay_protection,
        })@ == (TransactionTypeView {
            shape: Shape::Workflow {
                workflow_kind,
                num_modules: count,
                use_account_pool: flag,
                progress_type,
            },
            replay_protection,
        }),
{
}

/// The mixes show all that they hold: every type with its weight, at its place.
pub proof fn law_mixes_show_all(
    mixes: Seq<Vec<(TransactionType, usize)>>,
    phase: int,
    x: int,
)
    requires
        0 <= phase < mixes.len(),
        0 <= x < mixes[phase]@.len(),
    ensures
        args::mixes_view(mixes).len() == mixes.len(),
        args::mixes_view(mixes)[phase].len() == mixes[phase]@.len(),
        args::mixes_view(mixes)[phase][x] == (mixes[phase]@[x].0@, mixes[phase]@[x].1),
{
}

} // verus!
