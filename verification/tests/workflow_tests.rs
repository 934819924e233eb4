use aptos_toolkit::entry_points::EntryPoints;
use aptos_toolkit::workflow_creator::{
    Creator, EconiaFlowType, SetupStep, Worker, WorkflowKind, WorkflowProgress,
    WorkflowTxnGeneratorCreator, Workload,
};
use aptos_toolkit::workflow_delegator::{
    whole_seconds, GenerateAction, GenerateEvent, GeneratePhase, Pool, PoolId, PoolSizes, SharedProgress,
    StageSwitchCondition, StageTracking, WorkflowTxnGenerator,
};

fn no_accounts() -> PoolSizes {
    PoolSizes {
        created: 0,
        minted: 0,
        burnt: 0,
        register_market_accounts: 0,
        deposit_coins: 0,
        deposit_coins_with_added_history: 0,
        place_orders: 0,
    }
}

fn progress(stage: usize, stage_start_time: u64, remaining: Vec<usize>) -> SharedProgress {
    SharedProgress {
        stage,
        stage_start_time,
        remaining,
    }
}

fn mint_and_burn(progress_type: WorkflowProgress) -> Workload {
    WorkflowTxnGeneratorCreator::create_workload(
        WorkflowKind::CreateMintBurn {
            count: 3,
            creation_balance: 200,
        },
        1,
        true,
        7,
        progress_type,
    )
}

fn econia(flow_type: EconiaFlowType, reuse: bool, publish: bool) -> Workload {
    WorkflowTxnGeneratorCreator::create_workload(
        WorkflowKind::Econia {
            num_users: 5,
            flow_type,
            num_markets: 2,
            reuse_accounts_for_orders: reuse,
            publish_packages: publish,
        },
        1,
        true,
        0,
        WorkflowProgress::WhenDone {
            delay_between_stages_s: 9,
        },
    )
}

#[test]
fn clock_stands_behind_the_epoch() {
    let first = StageTracking::current_timestamp().unwrap();
    let second = StageTracking::current_timestamp().unwrap();
    assert!(first > 1_600_000_000);
    assert!(second >= first && second - first < 20);
}

#[test]
fn pools_have_their_own_sizes() {
    let sizes = PoolSizes {
        created: 1,
        minted: 2,
        burnt: 3,
        register_market_accounts: 4,
        deposit_coins: 5,
        deposit_coins_with_added_history: 6,
        place_orders: 7,
    };
    assert_eq!(Pool::AccountPool(PoolId::Created).len(&sizes), 1);
    assert_eq!(Pool::AccountPool(PoolId::Minted).len(&sizes), 2);
    assert_eq!(Pool::AccountPool(PoolId::Burnt).len(&sizes), 3);
    assert_eq!(
        Pool::AccountPool(PoolId::RegisterMarketAccounts).len(&sizes),
        4
    );
    assert_eq!(Pool::AccountPool(PoolId::DepositCoins).len(&sizes), 5);
    assert_eq!(
        Pool::AccountWithHistoryPool(PoolId::DepositCoinsWithAddedHistory).len(&sizes),
        6
    );
    assert_eq!(Pool::AccountPool(PoolId::PlaceOrders).len(&sizes), 7);
}

#[test]
fn conditions_see_the_end_of_a_stage() {
    let mut sizes = no_accounts();
    let shared = progress(0, 0, vec![2, 0]);
    let pool = StageSwitchCondition::WhenPoolBecomesEmpty(PoolId::Minted);
    let history =
        StageSwitchCondition::WhenPoolWithHistoryBecomesEmpty(PoolId::DepositCoinsWithAddedHistory);
    assert!(pool.should_switch(&sizes, &shared));
    assert!(history.should_switch(&sizes, &shared));
    sizes.minted = 1;
    sizes.deposit_coins_with_added_history = 12;
    assert!(!pool.should_switch(&sizes, &shared));
    assert!(!history.should_switch(&sizes, &shared));
    assert!(!StageSwitchCondition::MaxTransactions(0).should_switch(&sizes, &shared));
    assert!(StageSwitchCondition::MaxTransactions(1).should_switch(&sizes, &shared));

    assert_eq!(pool.describe(&sizes, &shared), "WhenPoolBecomesEmpty(1)");
    assert_eq!(
        history.describe(&sizes, &shared),
        "WhenPoolWithHistoryBecomesEmpty(12)"
    );
    assert_eq!(
        StageSwitchCondition::MaxTransactions(0).describe(&sizes, &shared),
        "MaxTransactions(2)"
    );
}

#[test]
fn counts_go_down_to_zero() {
    let mut shared = progress(0, 0, vec![10, 5]);
    let limit = StageSwitchCondition::MaxTransactions(0);
    limit.reduce_txn_count(&mut shared, 4);
    assert_eq!(shared.remaining, vec![6, 5]);
    limit.reduce_txn_count(&mut shared, 6);
    assert_eq!(shared.remaining, vec![0, 5]);
    limit.reduce_txn_count(&mut shared, 1);
    assert_eq!(shared.remaining, vec![0, 5]);
    StageSwitchCondition::MaxTransactions(1).reduce_txn_count(&mut shared, 7);
    assert_eq!(shared.remaining, vec![0, 0]);

    let mut shared = progress(0, 0, vec![10]);
    StageSwitchCondition::WhenPoolBecomesEmpty(PoolId::Created).reduce_txn_count(&mut shared, 4);
    assert_eq!(shared.remaining, vec![10]);
}

#[test]
fn mint_and_burn_is_laid_out() {
    let workload = mint_and_burn(WorkflowProgress::MoveByPhases);
    assert_eq!(
        workload.setup,
        vec![
            SetupStep::Package {
                of: EntryPoints::TokenV2AmbassadorMint { numbered: false },
                publisher_balance: 40_00000000,
                publish: true,
            },
            SetupStep::CreateWorker(Worker::EntryPoint(EntryPoints::TokenV2AmbassadorMint {
                numbered: false
            })),
            SetupStep::CreateWorker(Worker::EntryPoint(EntryPoints::TokenV2AmbassadorBurn)),
        ]
    );
    assert_eq!(
        workload.creator.creators,
        vec![
            Creator::AccountGenerator {
                to: PoolId::Created,
                max_accounts: 3,
                creation_balance: 200,
            },
            Creator::AccountsPoolWrapper {
                worker: 0,
                from: PoolId::Created,
                to: Some(PoolId::Minted),
            },
            Creator::AccountsPoolWrapper {
                worker: 1,
                from: PoolId::Minted,
                to: Some(PoolId::Burnt),
            },
        ]
    );
    assert_eq!(
        workload.creator.stage_switch_conditions,
        vec![
            StageSwitchCondition::MaxTransactions(0),
            StageSwitchCondition::WhenPoolBecomesEmpty(PoolId::Created),
            StageSwitchCondition::WhenPoolBecomesEmpty(PoolId::Minted),
        ]
    );
    assert_eq!(workload.creator.stage, StageTracking::ExternallySet);
    assert_eq!(workload.progress.stage, 7);
    assert_eq!(workload.progress.remaining, vec![3]);
    assert!(!workload.uses_initial_accounts);
}

#[test]
fn econia_without_reuse() {
    let workload = econia(EconiaFlowType::Market, false, true);
    assert_eq!(
        workload.setup,
        vec![
            SetupStep::Package {
                of: EntryPoints::EconiaRegisterMarket,
                publisher_balance: 100_000_000_000_000,
                publish: true,
            },
            SetupStep::RegisterEconiaMarkets { num_markets: 2 },
            SetupStep::CreateWorker(Worker::EconiaRegisterMarketUser {
                num_markets: 2,
                synthetic_flow: true,
            }),
            SetupStep::CreateWorker(Worker::EconiaDepositCoins {
                num_markets: 2,
                synthetic_flow: true,
            }),
            SetupStep::CreateWorker(Worker::EconiaMarketOrder {
                num_markets: 2,
                num_prev_transactions: 10,
            }),
        ]
    );
    assert_eq!(workload.creator.creators.len(), 3);
    assert_eq!(
        workload.creator.creators[2],
        Creator::AccountsPoolWrapper {
            worker: 2,
            from: PoolId::DepositCoins,
            to: Some(PoolId::PlaceOrders),
        }
    );
    assert_eq!(
        workload.creator.stage_switch_conditions[2],
        StageSwitchCondition::WhenPoolBecomesEmpty(PoolId::DepositCoins)
    );
    assert!(workload.progress.remaining.is_empty());
    assert_eq!(workload.progress.stage, 0);
    assert_eq!(
        workload.creator.stage,
        StageTracking::WhenDone {
            delay_between_stages: 9
        }
    );
    assert!(workload.uses_initial_accounts);
}

#[test]
fn econia_with_reuse() {
    let workload = econia(EconiaFlowType::Basic, true, false);
    assert_eq!(workload.setup.len(), 4);
    assert_eq!(
        workload.setup[3],
        SetupStep::CreateWorker(Worker::EntryPoint(EntryPoints::EconiaPlaceRandomLimitOrder))
    );
    assert_eq!(
        workload.creator.creators[2],
        Creator::ReuseAccountsPoolWrapper {
            worker: 2,
            from: PoolId::DepositCoins
        }
    );
    assert_eq!(
        workload.creator.stage_switch_conditions[2],
        StageSwitchCondition::MaxTransactions(0)
    );
    assert_eq!(workload.progress.remaining, vec![2_000_000]);
}

#[test]
fn econia_with_real_orders() {
    let workload = econia(EconiaFlowType::Real, true, false);
    assert_eq!(
        workload.setup[1],
        SetupStep::CreateWorker(Worker::EconiaRegisterMarketUser {
            num_markets: 2,
            synthetic_flow: false,
        })
    );
    assert_eq!(
        workload.creator.creators[2..],
        [
            Creator::AddHistoryWrapper {
                from: PoolId::DepositCoins,
                to: PoolId::DepositCoinsWithAddedHistory,
            },
            Creator::MarketMakerPoolWrapper {
                worker: 2,
                from: PoolId::DepositCoinsWithAddedHistory,
            },
        ]
    );
    assert_eq!(
        workload.creator.stage_switch_conditions[2..],
        [
            StageSwitchCondition::WhenPoolBecomesEmpty(PoolId::DepositCoins),
            StageSwitchCondition::MaxTransactions(0),
        ]
    );
    let mixed = econia(EconiaFlowType::Mixed, false, false);
    assert_eq!(
        mixed.setup[3],
        SetupStep::CreateWorker(Worker::EconiaLimitOrder {
            num_markets: 2,
            num_prev_transactions: 10,
        })
    );
}

#[test]
fn generators_share_the_layout() {
    let workload = mint_and_burn(WorkflowProgress::MoveByPhases);
    let generator = workload.creator.create_transaction_generator(0u64).0;
    assert_eq!(generator.num_generators, 3);
    assert_eq!(generator.stage, StageTracking::ExternallySet);
    let counter = 17u64;
    let (_, calls) = workload.creator.create_transaction_generator(&counter);
    assert_eq!(calls.len(), 3);
    for (call, creator) in calls.iter().zip(&workload.creator.creators) {
        assert_eq!(call.creator, *creator);
        assert!(std::ptr::eq(call.txn_counter, &counter));
    }
    assert_eq!(
        generator.stage_switch_conditions,
        workload.creator.stage_switch_conditions
    );
}

// Runs one call to its end: what was generated, and how long it slept.
fn call(
    generator: &WorkflowTxnGenerator,
    pools: &PoolSizes,
    shared: &mut SharedProgress,
    num_to_create: usize,
    now: u64,
) -> (Option<usize>, u64) {
    let (mut phase, mut action) = generator.generate_transactions(pools, shared, num_to_create);
    let mut generated = None;
    let mut slept = 0;
    loop {
        let event = match action {
            GenerateAction::ReadClock => GenerateEvent::Now(now),
            GenerateAction::Sleep { secs } => {
                slept += secs;
                GenerateEvent::Slept
            }
            GenerateAction::Generate {
                stage,
                num_to_create,
            } => {
                generated = Some(stage);
                GenerateEvent::Generated(num_to_create)
            }
            GenerateAction::Finish => return (generated, slept),
        };
        let next = generator.step(pools, shared, num_to_create, phase, event);
        phase = next.0;
        action = next.1;
    }
}

#[test]
fn workflow_goes_through_its_stages() {
    let workload = mint_and_burn(WorkflowProgress::WhenDone {
        delay_between_stages_s: 30,
    });
    let generator = workload.creator.create_transaction_generator(0u64).0;
    let mut shared = workload.progress;
    let mut pools = no_accounts();

    // Three accounts are created, two at a time.
    assert_eq!(call(&generator, &pools, &mut shared, 2, 100), (Some(0), 0));
    pools.created = 2;
    assert_eq!(shared.remaining, vec![1]);
    assert_eq!(call(&generator, &pools, &mut shared, 2, 100), (Some(0), 0));
    pools.created = 4;
    assert_eq!(shared.remaining, vec![0]);

    // The stage is over: nothing is created, and the next one starts later.
    assert_eq!(call(&generator, &pools, &mut shared, 2, 100), (None, 0));
    assert_eq!(shared.stage, 1);
    assert_eq!(shared.stage_start_time, 130);

    // A call that comes too early sleeps first.
    assert_eq!(call(&generator, &pools, &mut shared, 2, 129), (Some(1), 60));
    assert_eq!(call(&generator, &pools, &mut shared, 2, 130), (Some(1), 0));
    pools.created = 0;
    pools.minted = 4;
    assert_eq!(call(&generator, &pools, &mut shared, 2, 140), (None, 0));
    assert_eq!(shared.stage, 2);
    assert_eq!(call(&generator, &pools, &mut shared, 2, 200), (Some(2), 0));
    pools.minted = 0;
    assert_eq!(call(&generator, &pools, &mut shared, 2, 200), (None, 0));
    assert_eq!(shared.stage, 3);

    // Behind the last stage there is nothing left to do.
    assert_eq!(call(&generator, &pools, &mut shared, 2, 300), (None, 0));
    assert_eq!(shared.stage, 3);
}

#[test]
fn stage_set_from_outside_is_awaited() {
    let workload = mint_and_burn(WorkflowProgress::MoveByPhases);
    let generator = workload.creator.create_transaction_generator(0u64).0;
    let mut shared = workload.progress;
    let mut pools = no_accounts();
    pools.created = 5;

    // No such stage.
    assert_eq!(call(&generator, &pools, &mut shared, 1, 0), (None, 0));
    shared.stage = 1;
    assert_eq!(call(&generator, &pools, &mut shared, 1, 0), (Some(1), 0));
    pools.created = 0;
    assert_eq!(call(&generator, &pools, &mut shared, 1, 0), (None, 0));
    assert_eq!(shared.stage, 1);
    // An early signal is followed though the stage before is not over.
    shared.stage = 0;
    assert_eq!(call(&generator, &pools, &mut shared, 1, 0), (Some(0), 0));
}

#[test]
fn two_calls_move_the_stage_once() {
    let generator = WorkflowTxnGenerator::new(
        StageTracking::WhenDone {
            delay_between_stages: 10,
        },
        2,
        vec![
            StageSwitchCondition::MaxTransactions(0),
            StageSwitchCondition::MaxTransactions(0),
        ],
    );
    let mut shared = progress(0, 0, vec![0]);
    let pools = no_accounts();
    let phase = GeneratePhase::Switching { stage: 0 };
    let first = generator.step(&pools, &mut shared, 1, phase, GenerateEvent::Now(5));
    assert_eq!(first, (GeneratePhase::Done, GenerateAction::Finish));
    assert_eq!(shared.stage, 1);
    assert_eq!(shared.stage_start_time, 15);
    generator.step(&pools, &mut shared, 1, phase, GenerateEvent::Now(6));
    assert_eq!(shared.stage, 1);
    assert_eq!(shared.stage_start_time, 16);
}

#[test]
fn stage_without_a_generator_creates_nothing() {
    let generator = WorkflowTxnGenerator::new(
        StageTracking::ExternallySet,
        0,
        vec![StageSwitchCondition::MaxTransactions(0)],
    );
    let mut shared = progress(0, 0, vec![4]);
    assert_eq!(
        call(&generator, &no_accounts(), &mut shared, 3, 0),
        (None, 0)
    );
    assert_eq!(shared.remaining, vec![4]);
}

#[test]
fn whole_seconds_of_a_time() {
    assert_eq!(whole_seconds(Some((7, 999_999_999))), Some(7));
    assert_eq!(whole_seconds(None), None);
}

#[test]
fn every_stage_consumes_what_the_one_before_fills() {
    let workload = econia(EconiaFlowType::Real, false, true);
    let ends: Vec<(PoolId, Option<PoolId>)> = workload
        .creator
        .creators
        .iter()
        .map(|creator| match creator {
            Creator::AccountsPoolWrapper { from, to, .. } => (*from, *to),
            Creator::AddHistoryWrapper { from, to } => (*from, Some(*to)),
            Creator::MarketMakerPoolWrapper { from, .. } => (*from, None),
            _ => unreachable!(),
        })
        .collect();
    for i in 1..ends.len() {
        assert_eq!(Some(ends[i].0), ends[i - 1].1);
    }
    assert_eq!(
        workload.creator.creators.len(),
        workload.creator.stage_switch_conditions.len()
    );
}

#[test]
fn generators_of_a_workflow_share_its_progress() {
    let workload = mint_and_burn(WorkflowProgress::WhenDone {
        delay_between_stages_s: 30,
    });
    let one = workload.creator.create_transaction_generator(0u64).0;
    let other = workload.creator.create_transaction_generator(0u64).0;
    let mut shared = workload.progress;
    let mut pools = no_accounts();
    assert_eq!(call(&one, &pools, &mut shared, 2, 100), (Some(0), 0));
    assert_eq!(call(&other, &pools, &mut shared, 1, 100), (Some(0), 0));
    assert_eq!(shared.remaining, vec![0]);
    pools.created = 3;
    assert_eq!(call(&one, &pools, &mut shared, 2, 100), (None, 0));
    assert_eq!(call(&other, &pools, &mut shared, 2, 130), (Some(1), 0));
}
