//! What every workflow sets up before it runs.

use crate::entry_points::EntryPoints;
use crate::workflow_creator;
use crate::workflow_creator::{
    Creator, EconiaFlowType, SetupStep, Worker, WorkflowKind, WorkflowProgress,
    WorkflowTxnGeneratorCreator,
};
use crate::workflow_delegator::{
    PoolId, StageSwitchCondition, StageTracking, WorkflowTxnGenerator,
};
use crate::workflow_laws;
use vstd::prelude::*;

verus! {

/// Markets are registered, as many as the workflow has, exactly where its package
/// is published, and once, right behind the package. It does not matter what the
/// orders are. A workflow without markets registers none.
pub proof fn law_markets_are_registered_with_the_package(kind: WorkflowKind)
    ensures
        ({
            let setup = workflow_creator::setup_steps(kind);
            match kind {
                WorkflowKind::Econia { num_markets, publish_packages, .. } => {
                    &&& publish_packages <==> exists|step: int|
                        0 <= step < setup.len() && #[trigger] setup[step] is RegisterEconiaMarkets
                    &&& publish_packages ==> setup.len() > 1 && setup[1]
                        == (SetupStep::RegisterEconiaMarkets { num_markets })
                    &&& forall|step: int|
                        0 <= step < setup.len() && #[trigger] setup[step] is RegisterEconiaMarkets
                            ==> step == 1 && setup[step] == (SetupStep::RegisterEconiaMarkets {
                            num_markets,
                        })
                },
                WorkflowKind::CreateMintBurn { .. } => forall|step: int|
                    0 <= step < setup.len() ==> !(
                    #[trigger] setup[step] is RegisterEconiaMarkets),
            }
        }),
{
    let setup = workflow_creator::setup_steps(kind);
    if let WorkflowKind::Econia { num_markets, publish_packages, .. } = kind {
        if publish_packages {
            assert(setup[1] == (SetupStep::RegisterEconiaMarkets { num_markets }));
        }
    }
}

/// Setting up starts with the package that the workers call. The token package is
/// always published; whether the Econia package is, the workflow says.
pub proof fn law_package_of_the_workflow(kind: WorkflowKind)
    ensures
        ({
            let setup = workflow_creator::setup_steps(kind);
            &&& setup.len() > 0
            &&& match kind {
                WorkflowKind::CreateMintBurn { .. } => setup[0] == (SetupStep::Package {
                    of: EntryPoints::TokenV2AmbassadorMint { numbered: false },
                    publisher_balance: 4_000_000_000,
                    publish: true,
                }),
                WorkflowKind::Econia { publish_packages, .. } => setup[0] == (SetupStep::Package {
                    of: EntryPoints::EconiaRegisterMarket,
                    publisher_balance: 100_000_000_000_000,
                    publish: publish_packages,
                }),
            }
        }),
{
}

/// Setting up ends with the workers, in the order of their numbers, and nothing
/// but the package and the markets comes before them. Tokens are minted, then
/// burnt. With Econia, accounts register, then deposit, for all markets, in a
/// flow that is synthetic unless it is the real one; last comes the worker that
/// places the orders of the flow, which may be told of two transactions to every
/// user.
pub proof fn law_setup_ends_with_the_workers(kind: WorkflowKind)
    requires
        workflow_creator::twice_users_fit(kind),
    ensures
        ({
            let setup = workflow_creator::setup_steps(kind);
            let end = setup.len() - 1;
            match kind {
                WorkflowKind::CreateMintBurn { .. } => {
                    &&& setup.len() == 3
                    &&& setup[1] == SetupStep::CreateWorker(
                        Worker::EntryPoint(EntryPoints::TokenV2AmbassadorMint { numbered: false }),
                    )
                    &&& setup[2] == SetupStep::CreateWorker(
                        Worker::EntryPoint(EntryPoints::TokenV2AmbassadorBurn),
                    )
                },
                WorkflowKind::Econia {
                    num_users,
                    flow_type,
                    num_markets,
                    publish_packages,
                    ..
                } => {
                    &&& setup.len() == if publish_packages {
                        5int
                    } else {
                        4int
                    }
                    &&& setup[end - 2] == SetupStep::CreateWorker(
                        Worker::EconiaRegisterMarketUser {
                            num_markets,
                            synthetic_flow: flow_type != EconiaFlowType::Real,
                        },
                    )
                    &&& setup[end - 1] == SetupStep::CreateWorker(
                        Worker::EconiaDepositCoins {
                            num_markets,
                            synthetic_flow: flow_type != EconiaFlowType::Real,
                        },
                    )
                    &&& setup[end] is CreateWorker
                    &&& match (flow_type, setup[end]->CreateWorker_0) {
                        (
                            EconiaFlowType::Basic,
                            Worker::EntryPoint(EntryPoints::EconiaPlaceRandomLimitOrder),
                        ) => true,
                        (
                            EconiaFlowType::Mixed,
                            Worker::EconiaLimitOrder {
                                num_markets: markets,
                                num_prev_transactions,
                            },
                        ) => markets == num_markets && num_prev_transactions == num_users
                            + num_users,
                        (
                            EconiaFlowType::Market,
                            Worker::EconiaMarketOrder {
                                num_markets: markets,
                                num_prev_transactions,
                            },
                        ) => markets == num_markets && num_prev_transactions == num_users
                            + num_users,
                        (EconiaFlowType::Real, Worker::EconiaRealOrder) => true,
                        _ => false,
                    }
                },
            }
        }),
{
}

/// Every number of users is allowed where the workers are not told of their
/// transactions, and else every number whose double fits.
pub proof fn law_users_that_fit(kind: WorkflowKind)
    ensures
        workflow_creator::twice_users_fit(kind) <==> match kind {
            WorkflowKind::Econia { num_users, flow_type, .. } => flow_type == EconiaFlowType::Basic
                || flow_type == EconiaFlowType::Real || num_users + num_users <= u64::MAX,
            WorkflowKind::CreateMintBurn { .. } => true,
        },
{
}

/// Where accounts are created, the first stage creates as many as wanted, with
/// the balance wanted. All later stages, and all stages of Econia, take accounts
/// from a pool; the first of these takes the created ones.
pub proof fn law_workflow_starts_with_created_accounts(kind: WorkflowKind)
    ensures
        ({
            let creators = workflow_creator::stage_creators(kind);
            match kind {
                WorkflowKind::CreateMintBurn { count, creation_balance } => {
                    &&& creators.len() == 3
                    &&& creators[0] == (Creator::AccountGenerator {
                        to: PoolId::Created,
                        max_accounts: count,
                        creation_balance,
                    })
                    &&& workflow_laws::fills(creators[1]) == Some(PoolId::Minted)
                    &&& workflow_laws::fills(creators[2]) == Some(PoolId::Burnt)
                    &&& creators[1] is AccountsPoolWrapper && creators[2] is AccountsPoolWrapper
                },
                WorkflowKind::Econia { .. } => {
                    &&& creators.len() >= 3
                    &&& workflow_laws::consumes(creators[0]) == Some(PoolId::Created)
                    &&& workflow_laws::fills(creators[0]) == Some(PoolId::RegisterMarketAccounts)
                    &&& workflow_laws::fills(creators[1]) == Some(PoolId::DepositCoins)
                    &&& creators[0] is AccountsPoolWrapper && creators[1] is AccountsPoolWrapper
                },
            }
        }),
{
}

/// The orders of Econia are placed in the last stage. In the real flow, the
/// accounts get their history in a stage before, and the market makers take them
/// from there; else the accounts are used again, or used up, as is wanted.
pub proof fn law_orders_are_placed_last(kind: WorkflowKind)
    requires
        kind is Econia,
    ensures
        ({
            let creators = workflow_creator::stage_creators(kind);
            let last = creators[creators.len() - 1];
            if kind->flow_type == EconiaFlowType::Real {
                &&& creators.len() == 4
                &&& creators[2] is AddHistoryWrapper
                &&& workflow_laws::fills(creators[2]) == Some(PoolId::DepositCoinsWithAddedHistory)
                &&& last is MarketMakerPoolWrapper
            } else if kind->reuse_accounts_for_orders {
                &&& creators.len() == 3
                &&& last is ReuseAccountsPoolWrapper
            } else {
                &&& creators.len() == 3
                &&& last is AccountsPoolWrapper
                &&& workflow_laws::fills(last) == Some(PoolId::PlaceOrders)
            }
        }),
{
}

/// The workers serve the stages in the order in which they were created.
pub proof fn law_workers_serve_in_their_order(kind: WorkflowKind, a: int, b: int)
    requires
        0 <= a < b < workflow_creator::stage_creators(kind).len(),
    ensures
        match (
            workflow_laws::worker_of(workflow_creator::stage_creators(kind)[a]),
            workflow_laws::worker_of(workflow_creator::stage_creators(kind)[b]),
        ) {
            (Some(one), Some(other)) => one < other,
            _ => true,
        },
{
}

/// A stage that uses accounts up, or gives them their history, ends when its pool
/// is empty. One that creates accounts ends when all of them were created, and one
/// that uses accounts again, or lets market makers place orders, after two million
/// transactions.
pub proof fn law_stage_ends_with_its_work(
    kind: WorkflowKind,
    progress_type: WorkflowProgress,
    cur_phase: usize,
    stage: int,
)
    requires
        0 <= stage < workflow_creator::stage_creators(kind).len(),
    ensures
        ({
            let condition = workflow_creator::stage_conditions(kind)[stage];
            let remaining = workflow_creator::initial_progress(
                kind,
                progress_type,
                cur_phase,
            ).remaining;
            match workflow_creator::stage_creators(kind)[stage] {
                Creator::AccountsPoolWrapper { from, .. } => condition
                    == StageSwitchCondition::WhenPoolBecomesEmpty(from),
                Creator::AddHistoryWrapper { from, .. } => condition
                    == StageSwitchCondition::WhenPoolBecomesEmpty(from),
                Creator::AccountGenerator { max_accounts, .. } => condition is MaxTransactions
                    && condition->MaxTransactions_0 < remaining.len()
                    && remaining[condition->MaxTransactions_0 as int] == max_accounts,
                Creator::MarketMakerPoolWrapper { .. } => condition is MaxTransactions
                    && condition->MaxTransactions_0 < remaining.len()
                    && remaining[condition->MaxTransactions_0 as int] == 2_000_000,
                Creator::ReuseAccountsPoolWrapper { .. } => condition is MaxTransactions
                    && condition->MaxTransactions_0 < remaining.len()
                    && remaining[condition->MaxTransactions_0 as int] == 2_000_000,
            }
        }),
{
}

/// Every limit is that of some stage.
pub proof fn law_every_limit_has_its_stage(
    kind: WorkflowKind,
    progress_type: WorkflowProgress,
    cur_phase: usize,
    limit: usize,
)
    requires
        limit < workflow_creator::initial_progress(kind, progress_type, cur_phase).remaining.len(),
    ensures
        workflow_creator::stage_conditions(kind).contains(
            StageSwitchCondition::MaxTransactions(limit),
        ),
{
    let conditions = workflow_creator::stage_conditions(kind);
    let stage: int = match kind {
        WorkflowKind::CreateMintBurn { .. } => 0,
        WorkflowKind::Econia { .. } => conditions.len() - 1,
    };
    assert(conditions[stage] == StageSwitchCondition::MaxTransactions(limit));
}

/// A workflow that moves by phases starts in the phase that is set, and follows
/// it. One that moves when done starts in its first stage, at once, and waits as
/// long as is wanted between the stages.
pub proof fn law_workflow_starts_as_wanted(
    kind: WorkflowKind,
    delay_between_stages_s: u64,
    cur_phase: usize,
)
    ensures
        ({
            let by_phases = workflow_creator::initial_progress(
                kind,
                WorkflowProgress::MoveByPhases,
                cur_phase,
            );
            &&& workflow_creator::tracking(WorkflowProgress::MoveByPhases)
                == StageTracking::ExternallySet
            &&& by_phases.stage == cur_phase
            &&& by_phases.stage_start_time == 0
        }),
        ({
            let progress_type = WorkflowProgress::WhenDone { delay_between_stages_s };
            let when_done = workflow_creator::initial_progress(kind, progress_type, cur_phase);
            &&& workflow_creator::tracking(progress_type) == (StageTracking::WhenDone {
                delay_between_stages: delay_between_stages_s,
            })
            &&& when_done.stage == 0
            &&& when_done.stage_start_time == 0
        }),
{
}

/// A generator of a workflow tracks the stages as the workflow does, has as many
/// generators as there are stages, and the conditions of these, in their order.
pub proof fn law_generators_are_of_the_workflow(
    creator: WorkflowTxnGeneratorCreator,
    generator: WorkflowTxnGenerator,
    stage: int,
)
    requires
        creator.creates(generator),
        0 <= stage < creator.stage_switch_conditions@.len(),
    ensures
        generator.stage == creator.stage,
        generator.num_generators == creator.creators@.len(),
        generator.stage_switch_conditions@.len() == creator.stage_switch_conditions@.len(),
        generator.stage_switch_conditions@[stage] == creator.stage_switch_conditions@[stage],
{
}

} // verus!
