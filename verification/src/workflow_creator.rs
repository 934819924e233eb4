//! What it takes to set a workflow up: the packages and workers to prepare, the
//! generator of every stage with the pools between them, and the condition that
//! ends every stage.

use crate::entry_points::EntryPoints;
use crate::workflow_delegator::{
    PoolId, ProgressView, SharedProgress, StageSwitchCondition, StageTracking, WorkflowTxnGenerator,
};
use vstd::prelude::*;

verus! {

/// What the publisher of the token package is funded with.
pub const TOKEN_PUBLISHER_BALANCE: u64 = 4_000_000_000;

/// What the publisher of the Econia package is funded with.
pub const ECONIA_PUBLISHER_BALANCE: u64 = 100_000_000_000_000;

/// How many orders are placed with accounts that are not used up.
pub const MAX_ORDERS: usize = 2_000_000;

/// The orders that an Econia workflow places.
#[derive(Clone, Copy, Debug, PartialEq, Eq, Structural)]
pub enum EconiaFlowType {
    Basic,
    Mixed,
    Market,
    Real,
}

/// The workflows that can be set up.
#[derive(Clone, Copy, Debug, PartialEq, Eq, Structural)]
pub enum WorkflowKind {
    /// Accounts are created, mint a token each, and burn it.
    CreateMintBurn { count: usize, creation_balance: u64 },
    /// Accounts register with a market, deposit coins, and place orders.
    Econia {
        num_users: usize,
        flow_type: EconiaFlowType,
        num_markets: u64,
        reuse_accounts_for_orders: bool,
        publish_packages: bool,
    },
}

/// When a workflow moves to its next stage.
#[derive(Clone, Copy, Debug, PartialEq, Eq, Structural)]
pub enum WorkflowProgress {
    MoveByPhases,
    WhenDone { delay_between_stages_s: u64 },
}

/// A worker that writes the transactions of one stage.
#[derive(Clone, Copy, Debug, PartialEq, Eq)]
pub enum Worker {
    EntryPoint(EntryPoints),
    EconiaRegisterMarketUser { num_markets: u64, synthetic_flow: bool },
    EconiaDepositCoins { num_markets: u64, synthetic_flow: bool },
    EconiaLimitOrder { num_markets: u64, num_prev_transactions: u64 },
    EconiaMarketOrder { num_markets: u64, num_prev_transactions: u64 },
    EconiaRealOrder,
}

/// Work that has to be done, in order, before the workflow can run.
#[derive(Clone, Copy, Debug, PartialEq, Eq)]
pub enum SetupStep {
    /// Take the package of the entry point, or publish it first.
    Package { of: EntryPoints, publisher_balance: u64, publish: bool },
    RegisterEconiaMarkets { num_markets: u64 },
    /// Create a worker; the workers are numbered in this order.
    CreateWorker(Worker),
}

/// Creates the generator of a stage. A worker is given by its number.
#[derive(Clone, Copy, Debug, PartialEq, Eq)]
pub enum Creator {
    AccountGenerator { to: PoolId, max_accounts: usize, creation_balance: u64 },
    AccountsPoolWrapper { worker: usize, from: PoolId, to: Option<PoolId> },
    AddHistoryWrapper { from: PoolId, to: PoolId },
    MarketMakerPoolWrapper { worker: usize, from: PoolId },
    ReuseAccountsPoolWrapper { worker: usize, from: PoolId },
}

/// The creation of one stage's generator: the creator that is called, and the
/// counter of transactions that it is given.
#[derive(Clone, Copy, Debug, PartialEq, Eq)]
pub struct GeneratorCall<C> {
    pub creator: Creator,
    pub txn_counter: C,
}

/// The creation of all generators: every creator is called once, in their order,
/// and all are given the same counter.
pub open spec fn generator_calls<C>(creators: Seq<Creator>, txn_counter: C) -> Seq<
    GeneratorCall<C>,
> {
    creators.map_values(|creator: Creator| GeneratorCall { creator, txn_counter })
}

/// Creates the generators of a workflow.
pub struct WorkflowTxnGeneratorCreator {
    pub stage: StageTracking,
    pub creators: Vec<Creator>,
    pub stage_switch_conditions: Vec<StageSwitchCondition>,
}

/// A workflow to set up: what to do first, the creator of its generators, and
/// the progress that these share.
pub struct Workload {
    pub setup: Vec<SetupStep>,
    pub creator: WorkflowTxnGeneratorCreator,
    pub progress: SharedProgress,
    /// Whether the accounts that exist already are the created ones.
    pub uses_initial_accounts: bool,
}

/// How the stages of a workflow are tracked.
pub open spec fn tracking(progress_type: WorkflowProgress) -> StageTracking {
    match progress_type {
        WorkflowProgress::MoveByPhases => StageTracking::ExternallySet,
        WorkflowProgress::WhenDone { delay_between_stages_s } => StageTracking::WhenDone {
            delay_between_stages: delay_between_stages_s,
        },
    }
}

/// The stage that a workflow starts in.
pub open spec fn first_stage(progress_type: WorkflowProgress, cur_phase: usize) -> usize {
    match progress_type {
        WorkflowProgress::MoveByPhases => cur_phase,
        WorkflowProgress::WhenDone { .. } => 0,
    }
}

/// The worker that places the orders.
pub open spec fn order_worker(
    flow_type: EconiaFlowType,
    num_users: usize,
    num_markets: u64,
) -> Worker {
    match flow_type {
        EconiaFlowType::Basic => Worker::EntryPoint(EntryPoints::EconiaPlaceRandomLimitOrder),
        EconiaFlowType::Mixed => Worker::EconiaLimitOrder {
            num_markets,
            num_prev_transactions: (num_users * 2) as u64,
        },
        EconiaFlowType::Market => Worker::EconiaMarketOrder {
            num_markets,
            num_prev_transactions: (num_users * 2) as u64,
        },
        EconiaFlowType::Real => Worker::EconiaRealOrder,
    }
}

/// Two transactions to every user fit, where the workers are told their number.
pub open spec fn twice_users_fit(kind: WorkflowKind) -> bool {
    match kind {
        WorkflowKind::Econia { num_users, flow_type, .. } => {
            flow_type is Mixed || flow_type is Market ==> num_users * 2 <= u64::MAX
        },
        WorkflowKind::CreateMintBurn { .. } => true,
    }
}

/// The workers of a workflow, by number.
pub open spec fn workers(kind: WorkflowKind) -> Seq<Worker> {
    match kind {
        WorkflowKind::CreateMintBurn { .. } => seq![
            Worker::EntryPoint(EntryPoints::TokenV2AmbassadorMint { numbered: false }),
            Worker::EntryPoint(EntryPoints::TokenV2AmbassadorBurn),
        ],
        WorkflowKind::Econia { num_users, flow_type, num_markets, .. } => {
            let synthetic_flow = !(flow_type is Real);
            seq![
                Worker::EconiaRegisterMarketUser { num_markets, synthetic_flow },
                Worker::EconiaDepositCoins { num_markets, synthetic_flow },
                order_worker(flow_type, num_users, num_markets),
            ]
        },
    }
}

/// The package that the workers call, and the markets registered with it.
pub open spec fn package_steps(kind: WorkflowKind) -> Seq<SetupStep> {
    match kind {
        WorkflowKind::CreateMintBurn { .. } => seq![
            SetupStep::Package {
                of: EntryPoints::TokenV2AmbassadorMint { numbered: false },
                publisher_balance: TOKEN_PUBLISHER_BALANCE,
                publish: true,
            },
        ],
        WorkflowKind::Econia { num_markets, publish_packages, .. } => {
            let package = SetupStep::Package {
                of: EntryPoints::EconiaRegisterMarket,
                publisher_balance: ECONIA_PUBLISHER_BALANCE,
                publish: publish_packages,
            };
            if publish_packages {
                seq![package, SetupStep::RegisterEconiaMarkets { num_markets }]
            } else {
                seq![package]
            }
        },
    }
}

/// What is done before the workflow runs: the package, then the workers.
pub open spec fn setup_steps(kind: WorkflowKind) -> Seq<SetupStep> {
    package_steps(kind) + workers(kind).map_values(|worker: Worker| SetupStep::CreateWorker(worker))
}

/// The generators of the stages.
pub open spec fn stage_creators(kind: WorkflowKind) -> Seq<Creator> {
    match kind {
        WorkflowKind::CreateMintBurn { count, creation_balance } => seq![
            Creator::AccountGenerator {
                to: PoolId::Created,
                max_accounts: count,
                creation_balance,
            },
            Creator::AccountsPoolWrapper {
                worker: 0,
                from: PoolId::Created,
                to: Some(PoolId::Minted),
            },
            Creator::AccountsPoolWrapper {
                worker: 1,
                from: PoolId::Minted,
                to: Some(PoolId::Burnt),
            },
        ],
        WorkflowKind::Econia { flow_type, reuse_accounts_for_orders, .. } => {
            let register = Creator::AccountsPoolWrapper {
                worker: 0,
                from: PoolId::Created,
                to: Some(PoolId::RegisterMarketAccounts),
            };
            let deposit = Creator::AccountsPoolWrapper {
                worker: 1,
                from: PoolId::RegisterMarketAccounts,
                to: Some(PoolId::DepositCoins),
            };
            if flow_type is Real {
                seq![
                    register,
                    deposit,
                    Creator::AddHistoryWrapper {
                        from: PoolId::DepositCoins,
                        to: PoolId::DepositCoinsWithAddedHistory,
                    },
                    Creator::MarketMakerPoolWrapper {
                        worker: 2,
                        from: PoolId::DepositCoinsWithAddedHistory,
                    },
                ]
            } else if reuse_accounts_for_orders {
                seq![
                    register,
                    deposit,
                    Creator::ReuseAccountsPoolWrapper { worker: 2, from: PoolId::DepositCoins },
                ]
            } else {
                seq![
                    register,
                    deposit,
                    Creator::AccountsPoolWrapper {
                        worker: 2,
                        from: PoolId::DepositCoins,
                        to: Some(PoolId::PlaceOrders),
                    },
                ]
            }
        },
    }
}

/// What ends the stages.
pub open spec fn stage_conditions(kind: WorkflowKind) -> Seq<StageSwitchCondition> {
    match kind {
        WorkflowKind::CreateMintBurn { .. } => seq![
            StageSwitchCondition::MaxTransactions(0),
            StageSwitchCondition::WhenPoolBecomesEmpty(PoolId::Created),
            StageSwitchCondition::WhenPoolBecomesEmpty(PoolId::Minted),
        ],
        WorkflowKind::Econia { flow_type, reuse_accounts_for_orders, .. } => {
            let registered = StageSwitchCondition::WhenPoolBecomesEmpty(PoolId::Created);
            let deposited = StageSwitchCondition::WhenPoolBecomesEmpty(
                PoolId::RegisterMarketAccounts,
            );
            let pool_used = StageSwitchCondition::WhenPoolBecomesEmpty(PoolId::DepositCoins);
            let orders_placed = StageSwitchCondition::MaxTransactions(0);
            if flow_type is Real {
                seq![registered, deposited, pool_used, orders_placed]
            } else if reuse_accounts_for_orders {
                seq![registered, deposited, orders_placed]
            } else {
                seq![registered, deposited, pool_used]
            }
        },
    }
}

/// The limits of the stages that have one.
pub open spec fn stage_limits(kind: WorkflowKind) -> Seq<usize> {
    match kind {
        WorkflowKind::CreateMintBurn { count, .. } => seq![count],
        WorkflowKind::Econia { flow_type, reuse_accounts_for_orders, .. } => {
            if flow_type is Real || reuse_accounts_for_orders {
                seq![MAX_ORDERS]
            } else {
                Seq::empty()
            }
        },
    }
}

/// The progress that the generators start from.
pub open spec fn initial_progress(
    kind: WorkflowKind,
    progress_type: WorkflowProgress,
    cur_phase: usize,
) -> ProgressView {
    ProgressView {
        stage: first_stage(progress_type, cur_phase),
        stage_start_time: 0,
        remaining: stage_limits(kind),
    }
}

impl WorkflowTxnGeneratorCreator {
    /// The generator is one of this workflow: it tracks the stages as the
    /// workflow does, has one generator to every creator, in their order, and
    /// ends the stages on the same conditions.
    pub open spec fn creates(self, generator: WorkflowTxnGenerator) -> bool {
        &&& generator.stage == self.stage
        &&& generator.num_generators == self.creators@.len()
        &&& generator.stage_switch_conditions@ == self.stage_switch_conditions@
    }

    /// A creator of a workflow's generators.
    pub fn new(
        stage: StageTracking,
        creators: Vec<Creator>,
        stage_switch_conditions: Vec<StageSwitchCondition>,
    ) -> (creator: Self)
        ensures
            creator.stage == stage,
            creator.creators@ == creators@,
            creator.stage_switch_conditions@ == stage_switch_conditions@,
    {
        Self { stage, creators, stage_switch_conditions }
    }

    /// Lays out a workflow. Only one copy of its package is supported.
    /// `cur_phase` is the stage that is set from outside, and
    /// `has_initial_accounts` says whether there are accounts to start with.
    pub fn create_workload(
        workflow_kind: WorkflowKind,
        num_modules: usize,
        has_initial_accounts: bool,
        cur_phase: usize,
        progress_type: WorkflowProgress,
    ) -> (workload: Workload)
        requires
            num_modules == 1,
            twice_users_fit(workflow_kind),
        ensures
            workload.setup@ == setup_steps(workflow_kind),
            workflow_kind matches WorkflowKind::Econia { num_markets, publish_packages, .. } ==> (
            publish_packages <==> workload.setup@.contains(
                (SetupStep::RegisterEconiaMarkets { num_markets }),
            )),
            workload.creator.stage == tracking(progress_type),
            workload.creator.creators@ == stage_creators(workflow_kind),
            workload.creator.stage_switch_conditions@ == stage_conditions(workflow_kind),
            workload.progress@ == initial_progress(workflow_kind, progress_type, cur_phase),
            workload.uses_initial_accounts == (workflow_kind is Econia && has_initial_accounts),
    {
        let (stage_tracking, stage) = match progress_type {
            WorkflowProgress::MoveByPhases => (StageTracking::ExternallySet, cur_phase),
            WorkflowProgress::WhenDone { delay_between_stages_s } => (
                StageTracking::WhenDone { delay_between_stages: delay_between_stages_s },
                0,
            ),
        };
        match workflow_kind {
            WorkflowKind::CreateMintBurn { count, creation_balance } => {
                let mint_entry_point = EntryPoints::TokenV2AmbassadorMint { numbered: false };
                let burn_entry_point = EntryPoints::TokenV2AmbassadorBurn;
                let setup = vec![
                    SetupStep::Package {
                        of: mint_entry_point,
                        publisher_balance: TOKEN_PUBLISHER_BALANCE,
                        publish: true,
                    },
                    SetupStep::CreateWorker(Worker::EntryPoint(mint_entry_point)),
                    SetupStep::CreateWorker(Worker::EntryPoint(burn_entry_point)),
                ];
                let creators = vec![
                    Creator::AccountGenerator {
                        to: PoolId::Created,
                        max_accounts: count,
                        creation_balance,
                    },
                    Creator::AccountsPoolWrapper {
                        worker: 0,
                        from: PoolId::Created,
                        to: Some(PoolId::Minted),
                    },
                    Creator::AccountsPoolWrapper {
                        worker: 1,
                        from: PoolId::Minted,
                        to: Some(PoolId::Burnt),
                    },
                ];
                let conditions = vec![
                    StageSwitchCondition::MaxTransactions(0),
                    StageSwitchCondition::WhenPoolBecomesEmpty(PoolId::Created),
                    StageSwitchCondition::WhenPoolBecomesEmpty(PoolId::Minted),
                ];
                assert(setup@ =~= setup_steps(workflow_kind));
                Workload {
                    setup,
                    creator: Self::new(stage_tracking, creators, conditions),
                    progress: SharedProgress {
                        stage,
                        stage_start_time: 0,
                        remaining: vec![count],
                    },
                    uses_initial_accounts: false,
                }
            },
            WorkflowKind::Econia {
                num_users,
                flow_type,
                num_markets,
                reuse_accounts_for_orders,
                publish_packages,
            } => {
                let synthetic_flow = match flow_type {
                    EconiaFlowType::Real => false,
                    _ => true,
                };
                let order_worker = match flow_type {
                    EconiaFlowType::Basic => {
                        Worker::EntryPoint(EntryPoints::EconiaPlaceRandomLimitOrder)
                    },
                    EconiaFlowType::Mixed => Worker::EconiaLimitOrder {
                        num_markets,
                        num_prev_transactions: (num_users as u64) * 2,
                    },
                    EconiaFlowType::Market => Worker::EconiaMarketOrder {
                        num_markets,
                        num_prev_transactions: (num_users as u64) * 2,
                    },
                    EconiaFlowType::Real => Worker::EconiaRealOrder,
                };
                let mut setup = vec![
                    SetupStep::Package {
                        of: EntryPoints::EconiaRegisterMarket,
                        publisher_balance: ECONIA_PUBLISHER_BALANCE,
                        publish: publish_packages,
                    },
                ];
                if publish_packages {
                    setup.push(SetupStep::RegisterEconiaMarkets { num_markets });
                }
                setup.push(
                    SetupStep::CreateWorker(
                        Worker::EconiaRegisterMarketUser { num_markets, synthetic_flow },
                    ),
                );
                setup.push(
                    SetupStep::CreateWorker(
                        Worker::EconiaDepositCoins { num_markets, synthetic_flow },
                    ),
                );
                setup.push(SetupStep::CreateWorker(order_worker));

                let mut creators = vec![
                    Creator::AccountsPoolWrapper {
                        worker: 0,
                        from: PoolId::Created,
                        to: Some(PoolId::RegisterMarketAccounts),
                    },
                    Creator::AccountsPoolWrapper {
                        worker: 1,
                        from: PoolId::RegisterMarketAccounts,
                        to: Some(PoolId::DepositCoins),
                    },
                ];
                let mut conditions = vec![
                    StageSwitchCondition::WhenPoolBecomesEmpty(PoolId::Created),
                    StageSwitchCondition::WhenPoolBecomesEmpty(PoolId::RegisterMarketAccounts),
                ];
                let mut remaining: Vec<usize> = Vec::new();
                if !synthetic_flow {
                    creators.push(
                        Creator::AddHistoryWrapper {
                            from: PoolId::DepositCoins,
                            to: PoolId::DepositCoinsWithAddedHistory,
                        },
                    );
                    conditions.push(
                        StageSwitchCondition::WhenPoolBecomesEmpty(PoolId::DepositCoins),
                    );
                    creators.push(
                        Creator::MarketMakerPoolWrapper {
                            worker: 2,
                            from: PoolId::DepositCoinsWithAddedHistory,
                        },
                    );
                    remaining.push(MAX_ORDERS);
                    conditions.push(StageSwitchCondition::MaxTransactions(0));
                } else if reuse_accounts_for_orders {
                    creators.push(
                        Creator::ReuseAccountsPoolWrapper { worker: 2, from: PoolId::DepositCoins },
                    );
                    remaining.push(MAX_ORDERS);
                    conditions.push(StageSwitchCondition::MaxTransactions(0));
                } else {
                    creators.push(
                        Creator::AccountsPoolWrapper {
                            worker: 2,
                            from: PoolId::DepositCoins,
                            to: Some(PoolId::PlaceOrders),
                        },
                    );
                    conditions.push(
                        StageSwitchCondition::WhenPoolBecomesEmpty(PoolId::DepositCoins),
                    );
                }
                assert(setup@ =~= setup_steps(workflow_kind));
                proof {
                    crate::setup_laws::law_markets_are_registered_with_the_package(workflow_kind);
                }
                Workload {
                    setup,
                    creator: Self::new(stage_tracking, creators, conditions),
                    progress: SharedProgress { stage, stage_start_time: 0, remaining },
                    uses_initial_accounts: has_initial_accounts,
                }
            },
        }
    }

    /// A generator of the workflow, which shares the workflow's progress with
    /// all others, and the calls that create the generators of its stages.
    pub fn create_transaction_generator<C: Copy>(&self, txn_counter: C) -> (created: (
        WorkflowTxnGenerator,
        Vec<GeneratorCall<C>>,
    ))
        ensures
            self.creates(created.0),
            created.1@ == generator_calls(self.creators@, txn_counter),
            created.1@.len() == self.creators@.len(),
            forall|stage: int|
                0 <= stage < self.creators@.len() ==> (#[trigger] created.1@[stage]).creator
                    == self.creators@[stage] && created.1@[stage].txn_counter == txn_counter,
    {
        let conditions = self.stage_switch_conditions.clone();
        assert(conditions@ =~= self.stage_switch_conditions@);
        let mut calls: Vec<GeneratorCall<C>> = Vec::new();
        let mut i: usize = 0;
        while i < self.creators.len()
            invariant
                i <= self.creators.len(),
                calls@ == generator_calls(self.creators@.take(i as int), txn_counter),
            decreases self.creators.len() - i,
        {
            calls.push(GeneratorCall { creator: self.creators[i], txn_counter });
            i += 1;
            assert(calls@ =~= generator_calls(self.creators@.take(i as int), txn_counter));
        }
        assert(self.creators@.take(i as int) =~= self.creators@);
        (WorkflowTxnGenerator::new(self.stage, self.creators.len(), conditions), calls)
    }
}

} // verus!
