use aptos_toolkit::args::{
    EmitWorkloadArgs, ReplayProtectionType, TokenWorkflowKind, TransactionType, TransactionTypeArg,
};
use aptos_toolkit::entry_points::{EntryPoints, LoopType};
use aptos_toolkit::workflow_creator::WorkflowProgress;

const BY_PHASES: WorkflowProgress = WorkflowProgress::MoveByPhases;

fn custom(entry_point: EntryPoints, replay_protection: ReplayProtectionType) -> TransactionType {
    TransactionType::CallCustomModules {
        entry_point,
        num_modules: 3,
        use_account_pool: true,
        replay_protection,
    }
}

fn transfer(
    invalid_transaction_ratio: usize,
    non_conflicting: bool,
    use_fa_transfer: bool,
    replay_protection: ReplayProtectionType,
) -> TransactionType {
    TransactionType::CoinTransfer {
        invalid_transaction_ratio,
        sender_use_account_pool: true,
        non_conflicting,
        use_fa_transfer,
        replay_protection,
    }
}

#[test]
fn coin_transfers() {
    let sequence = ReplayProtectionType::SequenceNumber;
    let nonce = ReplayProtectionType::Nonce;
    let cases = vec![
        (TransactionTypeArg::CoinTransfer, transfer(0, false, false, sequence)),
        (TransactionTypeArg::AptFaTransfer, transfer(0, false, true, sequence)),
        (
            TransactionTypeArg::NonConflictingCoinTransfer,
            transfer(0, true, false, sequence),
        ),
        (
            TransactionTypeArg::CoinTransferWithInvalid,
            transfer(10, false, false, sequence),
        ),
        (TransactionTypeArg::CoinTransferOrderless, transfer(0, false, false, nonce)),
        (TransactionTypeArg::AptFaTransferOrderless, transfer(0, false, true, nonce)),
        (
            TransactionTypeArg::NonConflictingCoinTransferOrderless,
            transfer(0, true, false, nonce),
        ),
        (
            TransactionTypeArg::CoinTransferWithInvalidOrderless,
            transfer(10, false, false, nonce),
        ),
    ];
    for (arg, expected) in cases {
        assert_eq!(arg.materialize(3, true, BY_PHASES), expected);
    }
}

#[test]
fn custom_modules() {
    let sequence = ReplayProtectionType::SequenceNumber;
    let cases = vec![
        (TransactionTypeArg::NoOp, EntryPoints::Nop),
        (TransactionTypeArg::NoOp2Signers, EntryPoints::Nop),
        (TransactionTypeArg::NoOp5Signers, EntryPoints::Nop),
        (TransactionTypeArg::NoOpFeePayer, EntryPoints::NopFeePayer),
        (
            TransactionTypeArg::AccountResource10KB,
            EntryPoints::BytesMakeOrChange {
                data_length: Some(10 * 1024),
            },
        ),
        (
            TransactionTypeArg::ModifyGlobalFlagAggV2,
            EntryPoints::ModifyGlobalBoundedAggV2 { step: 100 },
        ),
        (
            TransactionTypeArg::ModifyGlobalMilestoneAggV2,
            EntryPoints::IncGlobalMilestoneAggV2 {
                milestone_every: 1000,
            },
        ),
        (
            TransactionTypeArg::Loop1kBcs1k,
            EntryPoints::Loop {
                loop_count: Some(1000),
                loop_type: LoopType::BcsToBytes { len: 1024 },
            },
        ),
        (
            TransactionTypeArg::CreateObjectsConflict100WithPayload10k,
            EntryPoints::CreateObjectsConflict {
                num_objects: 100,
                object_payload_size: 10 * 1024,
            },
        ),
        (
            TransactionTypeArg::VectorRemoveInsertLen3000Size1,
            EntryPoints::VectorRemoveInsert {
                vec_len: 3000,
                element_len: 1,
                index: 100,
                repeats: 1000,
            },
        ),
        (
            TransactionTypeArg::TokenV2AmbassadorMint,
            EntryPoints::TokenV2AmbassadorMint { numbered: true },
        ),
        (
            TransactionTypeArg::LiquidityPoolSwapStable,
            EntryPoints::LiquidityPoolSwap { is_stable: true },
        ),
        (
            TransactionTypeArg::VectorPictureRead30k,
            EntryPoints::VectorPictureRead { length: 30 * 1024 },
        ),
        (
            TransactionTypeArg::SmartTablePicture1BWith256Change,
            EntryPoints::SmartTablePicture {
                length: 1024 * 1024 * 1024,
                num_points_per_txn: 256,
            },
        ),
        (
            TransactionTypeArg::APTTransferWithMasterSigner,
            EntryPoints::APTTransferWithMasterSigner,
        ),
    ];
    for (arg, entry_point) in cases {
        assert_eq!(
            arg.materialize(3, true, BY_PHASES),
            custom(entry_point, sequence)
        );
    }
    assert_eq!(
        TransactionTypeArg::NoOpOrderless.materialize(3, true, BY_PHASES),
        custom(EntryPoints::Nop, ReplayProtectionType::Nonce)
    );
}

#[test]
fn other_types() {
    let replay_protection = ReplayProtectionType::SequenceNumber;
    assert_eq!(
        TransactionTypeArg::AccountGeneration.materialize(3, true, BY_PHASES),
        TransactionType::AccountGeneration {
            add_created_accounts_to_pool: true,
            max_account_working_set: 1_000_000,
            creation_balance: 0,
            replay_protection,
        }
    );
    assert_eq!(
        TransactionTypeArg::AccountGenerationLargePool.materialize(3, true, BY_PHASES),
        TransactionType::AccountGeneration {
            add_created_accounts_to_pool: true,
            max_account_working_set: 50_000_000,
            creation_balance: 200_000_000,
            replay_protection,
        }
    );
    assert_eq!(
        TransactionTypeArg::PublishPackage.materialize(3, false, BY_PHASES),
        TransactionType::PublishPackage {
            use_account_pool: false,
            package_name: "simple".to_string(),
            replay_protection,
        }
    );
    assert_eq!(
        TransactionTypeArg::Batch100Transfer.materialize(3, true, BY_PHASES),
        TransactionType::BatchTransfer {
            batch_size: 100,
            replay_protection,
        }
    );
    assert_eq!(
        TransactionTypeArg::RepublishAndCall.materialize(3, true, BY_PHASES),
        TransactionType::CallCustomModulesMix {
            entry_points: vec![(EntryPoints::Nop, 1), (EntryPoints::Republish, 1)],
            num_modules: 3,
            use_account_pool: true,
            replay_protection,
        }
    );
    assert_eq!(
        TransactionTypeArg::TokenV2AmbassadorMintAndBurn1M.materialize(3, true, BY_PHASES),
        TransactionType::Workflow {
            workflow_kind: TokenWorkflowKind::CreateMintBurn {
                count: 10000,
                creation_balance: 200000,
            },
            num_modules: 1,
            use_account_pool: true,
            progress_type: BY_PHASES,
            replay_protection,
        }
    );
}

#[test]
fn defaults_of_a_type() {
    assert_eq!(TransactionTypeArg::default(), TransactionTypeArg::CoinTransfer);
    assert_eq!(
        TransactionTypeArg::NoOp.materialize_default(BY_PHASES),
        TransactionType::CallCustomModules {
            entry_point: EntryPoints::Nop,
            num_modules: 1,
            use_account_pool: false,
            replay_protection: ReplayProtectionType::SequenceNumber,
        }
    );
}

fn mix(
    types: &[TransactionTypeArg],
    weights: &[usize],
    phases: &[usize],
) -> Vec<Vec<(TransactionType, usize)>> {
    TransactionTypeArg::args_to_transaction_mix_per_phase(types, weights, phases, 1, false, BY_PHASES)
}

#[test]
fn mix_without_weights_and_phases() {
    let transfer = TransactionTypeArg::CoinTransfer.materialize_default(BY_PHASES);
    let no_op = TransactionTypeArg::NoOp.materialize_default(BY_PHASES);
    assert_eq!(
        mix(&[TransactionTypeArg::CoinTransfer, TransactionTypeArg::NoOp], &[], &[]),
        vec![vec![(transfer, 1), (no_op, 1)]]
    );
    assert!(mix(&[], &[], &[]).is_empty());
}

#[test]
fn mix_with_weights_and_phases() {
    let transfer = || TransactionTypeArg::CoinTransfer.materialize_default(BY_PHASES);
    let no_op = || TransactionTypeArg::NoOp.materialize_default(BY_PHASES);
    let batch = || TransactionTypeArg::Batch100Transfer.materialize_default(BY_PHASES);
    assert_eq!(
        mix(
            &[
                TransactionTypeArg::CoinTransfer,
                TransactionTypeArg::NoOp,
                TransactionTypeArg::Batch100Transfer,
                TransactionTypeArg::NoOp,
            ],
            &[5, 6, 7, 8],
            &[0, 1, 0, 2],
        ),
        vec![
            vec![(transfer(), 5), (batch(), 7)],
            vec![(no_op(), 6)],
            vec![(no_op(), 8)],
        ]
    );
}

#[test]
fn workload_of_an_emitter() {
    let defaults = EmitWorkloadArgs::default();
    assert!(defaults.args_to_transaction_mix_per_phase(BY_PHASES).is_empty());

    let args = EmitWorkloadArgs {
        transaction_type: vec![TransactionTypeArg::NoOp],
        module_working_set_size: Some(20),
        sender_use_account_pool: Some(true),
        transaction_weights: vec![4],
        transaction_phases: vec![],
    };
    assert_eq!(
        args.args_to_transaction_mix_per_phase(BY_PHASES),
        vec![vec![(
            TransactionTypeArg::NoOp.materialize(20, true, BY_PHASES),
            4
        )]]
    );

    let args = EmitWorkloadArgs {
        transaction_type: vec![TransactionTypeArg::NoOp],
        ..EmitWorkloadArgs::default()
    };
    assert_eq!(
        args.args_to_transaction_mix_per_phase(BY_PHASES),
        vec![vec![(
            TransactionTypeArg::NoOp.materialize(1, false, BY_PHASES),
            1
        )]]
    );
}

#[test]
fn no_type_is_lost_over_the_phases() {
    let types = [TransactionTypeArg::NoOp; 7];
    let phases = [0, 0, 1, 0, 2, 1, 2];
    let mixes = mix(&types, &[], &phases);
    let sizes: Vec<usize> = mixes.iter().map(|mix| mix.len()).collect();
    assert_eq!(sizes, vec![3, 2, 2]);
}
