//! What a call for transactions does in every stage, and what it leaves behind.

use crate::workflow_delegator;
use crate::workflow_delegator::{
    GenerateAction, GenerateEvent, GeneratePhase, Pool, PoolId, PoolSizes, ProgressView,
    SharedProgress, StageSwitchCondition, WorkflowTxnGenerator,
};
use vstd::prelude::*;

verus! {

/// The pool holds no account.
pub open spec fn used_up(pools: PoolSizes, pool: PoolId) -> bool {
    ||| pool is Created && pools.created == 0
    ||| pool is Minted && pools.minted == 0
    ||| pool is Burnt && pools.burnt == 0
    ||| pool is RegisterMarketAccounts && pools.register_market_accounts == 0
    ||| pool is DepositCoins && pools.deposit_coins == 0
    ||| pool is DepositCoinsWithAddedHistory && pools.deposit_coins_with_added_history == 0
    ||| pool is PlaceOrders && pools.place_orders == 0
}

/// Nothing is left to do under the condition: its pool is used up, or its limit.
pub open spec fn exhausted(
    condition: StageSwitchCondition,
    pools: PoolSizes,
    remaining: Seq<usize>,
) -> bool {
    match condition {
        StageSwitchCondition::WhenPoolBecomesEmpty(pool) => used_up(pools, pool),
        StageSwitchCondition::WhenPoolWithHistoryBecomesEmpty(pool) => used_up(pools, pool),
        StageSwitchCondition::MaxTransactions(limit) => remaining[limit as int] == 0,
    }
}

/// The condition counts transactions, with this limit.
pub open spec fn limited_by(condition: StageSwitchCondition, limit: int) -> bool {
    condition matches StageSwitchCondition::MaxTransactions(named) && named == limit
}

/// The current stage has a generator, and its condition, which it needs where the
/// stage is set from outside, has something left to do.
pub open spec fn running(
    generator: WorkflowTxnGenerator,
    pools: PoolSizes,
    progress: ProgressView,
) -> bool {
    let conditions = generator.stage_switch_conditions@;
    &&& progress.stage < generator.num_generators
    &&& generator.stage is ExternallySet ==> progress.stage < conditions.len()
    &&& progress.stage < conditions.len() ==> !exhausted(
        conditions[progress.stage as int],
        pools,
        progress.remaining,
    )
}

/// The size of a pool is the number of its own accounts.
pub proof fn law_pools_have_their_own_size(pools: PoolSizes, id: PoolId)
    ensures
        pools.spec_size(PoolId::Created) == pools.created,
        pools.spec_size(PoolId::Minted) == pools.minted,
        pools.spec_size(PoolId::Burnt) == pools.burnt,
        pools.spec_size(PoolId::RegisterMarketAccounts) == pools.register_market_accounts,
        pools.spec_size(PoolId::DepositCoins) == pools.deposit_coins,
        pools.spec_size(PoolId::DepositCoinsWithAddedHistory)
            == pools.deposit_coins_with_added_history,
        pools.spec_size(PoolId::PlaceOrders) == pools.place_orders,
        Pool::AccountPool(id).id() == id,
        Pool::AccountWithHistoryPool(id).id() == id,
{
}

/// A stage is over exactly when its condition has nothing left to do.
pub proof fn law_stage_is_over_when_nothing_is_left(
    condition: StageSwitchCondition,
    pools: PoolSizes,
    progress: ProgressView,
)
    ensures
        condition.over(pools, progress) <==> exhausted(condition, pools, progress.remaining),
        match condition {
            StageSwitchCondition::WhenPoolBecomesEmpty(pool) => condition.left_over(pools, progress)
                == pools.spec_size(pool),
            StageSwitchCondition::WhenPoolWithHistoryBecomesEmpty(pool) => condition.left_over(
                pools,
                progress,
            ) == pools.spec_size(pool),
            StageSwitchCondition::MaxTransactions(limit) => condition.left_over(pools, progress)
                == progress.remaining[limit as int],
        },
{
}

/// A call that finds the current stage running asks its generator for as many
/// transactions as are wanted, whatever the pools hold. Where stages move when
/// done, it does so once the stage has started, or it has slept.
pub proof fn law_running_stage_creates(
    generator: WorkflowTxnGenerator,
    pools: PoolSizes,
    progress: ProgressView,
    num_to_create: usize,
    now: u64,
)
    requires
        running(generator, pools, progress),
    ensures
        ({
            let creating = (
                GeneratePhase::Generating { stage: progress.stage },
                GenerateAction::Generate { stage: progress.stage, num_to_create },
            );
            let started = generator.started(pools, progress, num_to_create);
            &&& generator.stage is ExternallySet ==> started == creating
            &&& generator.stage is WhenDone && progress.stage_start_time <= now ==> generator.next(
                pools,
                progress,
                num_to_create,
                started.0,
                GenerateEvent::Now(now),
            ) == creating
            &&& generator.next(
                pools,
                progress,
                num_to_create,
                GeneratePhase::Waiting,
                GenerateEvent::Slept,
            ) == creating
        }),
{
}

/// How many accounts a pool holds does not matter, only whether the current stage
/// has something left to do: two calls that agree on that do the same.
pub proof fn law_pools_matter_only_when_used_up(
    generator: WorkflowTxnGenerator,
    some: PoolSizes,
    other: PoolSizes,
    progress: ProgressView,
    num_to_create: usize,
    phase: GeneratePhase,
    event: GenerateEvent,
)
    requires
        ({
            let conditions = generator.stage_switch_conditions@;
            progress.stage < conditions.len() ==> (exhausted(
                conditions[progress.stage as int],
                some,
                progress.remaining,
            ) <==> exhausted(conditions[progress.stage as int], other, progress.remaining))
        }),
    ensures
        generator.started(some, progress, num_to_create) == generator.started(
            other,
            progress,
            num_to_create,
        ),
        generator.next(some, progress, num_to_create, phase, event) == generator.next(
            other,
            progress,
            num_to_create,
            phase,
            event,
        ),
{
    let conditions = generator.stage_switch_conditions@;
    if progress.stage < conditions.len() {
        law_stage_is_over_when_nothing_is_left(conditions[progress.stage as int], some, progress);
        law_stage_is_over_when_nothing_is_left(conditions[progress.stage as int], other, progress);
    }
}

/// A call that finds the current stage not running creates nothing. Where stages
/// move when done and the stage's condition has nothing left to do, it reads the
/// clock to start the next stage; else it is over.
pub proof fn law_idle_stage_creates_nothing(
    generator: WorkflowTxnGenerator,
    pools: PoolSizes,
    progress: ProgressView,
    num_to_create: usize,
    now: u64,
)
    requires
        !running(generator, pools, progress),
    ensures
        ({
            let conditions = generator.stage_switch_conditions@;
            let idle = if generator.stage is WhenDone && progress.stage < conditions.len()
                && exhausted(conditions[progress.stage as int], pools, progress.remaining) {
                (GeneratePhase::Switching { stage: progress.stage }, GenerateAction::ReadClock)
            } else {
                (GeneratePhase::Done, GenerateAction::Finish)
            };
            let started = generator.started(pools, progress, num_to_create);
            &&& generator.stage is ExternallySet ==> started == idle
            &&& generator.stage is WhenDone && progress.stage_start_time <= now ==> generator.next(
                pools,
                progress,
                num_to_create,
                started.0,
                GenerateEvent::Now(now),
            ) == idle
            &&& generator.next(
                pools,
                progress,
                num_to_create,
                GeneratePhase::Waiting,
                GenerateEvent::Slept,
            ) == idle
        }),
{
}

/// Where stages move when done, a call first reads the clock. One that comes
/// before the stage starts sleeps for a minute, and one that comes at the start
/// or later does not.
pub proof fn law_call_waits_for_the_start(
    generator: WorkflowTxnGenerator,
    pools: PoolSizes,
    progress: ProgressView,
    num_to_create: usize,
    now: u64,
)
    requires
        generator.stage is WhenDone,
    ensures
        ({
            let (phase, action) = generator.started(pools, progress, num_to_create);
            let after = generator.next(
                pools,
                progress,
                num_to_create,
                phase,
                GenerateEvent::Now(now),
            );
            &&& action is ReadClock
            &&& phase == (GeneratePhase::CheckingStart { start_time: progress.stage_start_time })
            &&& now < progress.stage_start_time ==> after == (
                GeneratePhase::Waiting,
                GenerateAction::Sleep { secs: 60 },
            )
            &&& progress.stage_start_time <= now ==> after == generator.next(
                pools,
                progress,
                num_to_create,
                GeneratePhase::Waiting,
                GenerateEvent::Slept,
            )
            &&& progress.stage_start_time <= now ==> !(after.1 is Sleep)
        }),
{
}

/// A call is over once it has started the next stage, or its transactions were
/// counted.
pub proof fn law_call_ends(
    generator: WorkflowTxnGenerator,
    pools: PoolSizes,
    progress: ProgressView,
    num_to_create: usize,
    stage: usize,
    event: GenerateEvent,
)
    ensures
        generator.next(
            pools,
            progress,
            num_to_create,
            GeneratePhase::Switching { stage },
            event,
        ) == (GeneratePhase::Done, GenerateAction::Finish),
        generator.next(
            pools,
            progress,
            num_to_create,
            GeneratePhase::Generating { stage },
            event,
        ) == (GeneratePhase::Done, GenerateAction::Finish),
{
}

/// Looking and waiting change no progress.
pub proof fn law_waiting_changes_nothing(
    generator: WorkflowTxnGenerator,
    progress: ProgressView,
    start_time: u64,
    event: GenerateEvent,
)
    ensures
        generator.progressed(progress, GeneratePhase::CheckingStart { start_time }, event)
            == progress,
        generator.progressed(progress, GeneratePhase::Waiting, event) == progress,
        generator.progressed(progress, GeneratePhase::Done, event) == progress,
{
}

/// Starting the next stage sets its start, the delay after now, and moves the
/// stage up by one if it is still the one that was over. All limits stay.
pub proof fn law_next_stage_starts_after_the_delay(
    generator: WorkflowTxnGenerator,
    progress: ProgressView,
    stage: usize,
    now: u64,
)
    requires
        stage < usize::MAX,
        generator.stage is WhenDone,
        now + generator.stage->delay_between_stages <= u64::MAX,
    ensures
        ({
            let moved = generator.progressed(
                progress,
                GeneratePhase::Switching { stage },
                GenerateEvent::Now(now),
            );
            &&& moved.stage_start_time == now + generator.stage->delay_between_stages
            &&& moved.remaining == progress.remaining
            &&& progress.stage == stage ==> moved.stage == stage + 1
            &&& progress.stage != stage ==> moved.stage == progress.stage
        }),
{
}

/// Created transactions are counted with the limit of their stage, and nothing
/// else changes: neither the stage and its start, nor another limit. A stage that
/// has no limit counts nothing.
pub proof fn law_created_transactions_are_counted(
    generator: WorkflowTxnGenerator,
    progress: ProgressView,
    stage: usize,
    count: usize,
)
    requires
        workflow_delegator::known_limits(generator.stage_switch_conditions@, progress),
    ensures
        ({
            let conditions = generator.stage_switch_conditions@;
            let after = generator.progressed(
                progress,
                GeneratePhase::Generating { stage },
                GenerateEvent::Generated(count),
            );
            &&& after.stage == progress.stage
            &&& after.stage_start_time == progress.stage_start_time
            &&& after.remaining.len() == progress.remaining.len()
            &&& forall|i: int|
                0 <= i < progress.remaining.len() ==> #[trigger] after.remaining[i] == if stage
                    < conditions.len() && limited_by(conditions[stage as int], i) {
                    if progress.remaining[i] > count {
                        progress.remaining[i] - count
                    } else {
                        0
                    }
                } else {
                    progress.remaining[i] as int
                }
        }),
{
    if stage < generator.stage_switch_conditions@.len() {
        assert(generator.stage_switch_conditions@[stage as int].known(progress));
    }
}

/// The text of a condition starts with the name of its kind.
pub proof fn law_conditions_are_named(pool: PoolId, limit: usize)
    ensures
        StageSwitchCondition::WhenPoolBecomesEmpty(pool).name() == "WhenPoolBecomesEmpty("@,
        StageSwitchCondition::WhenPoolWithHistoryBecomesEmpty(pool).name()
            == "WhenPoolWithHistoryBecomesEmpty("@,
        StageSwitchCondition::MaxTransactions(limit).name() == "MaxTransactions("@,
{
}

/// All that the conditions need to know is their limits.
pub proof fn law_only_limits_have_to_be_known(
    conditions: Seq<StageSwitchCondition>,
    progress: ProgressView,
)
    ensures
        workflow_delegator::known_limits(conditions, progress) <==> forall|i: int, limit: int|
            0 <= i < conditions.len() && #[trigger] limited_by(conditions[i], limit) ==> limit
                < progress.remaining.len(),
{
    if workflow_delegator::known_limits(conditions, progress) {
        assert forall|i: int, limit: int|
            0 <= i < conditions.len() && #[trigger] limited_by(conditions[i], limit) implies limit
            < progress.remaining.len() by {
            assert(conditions[i].known(progress));
        }
    } else {
        let i = choose|i: int|
            0 <= i < conditions.len() && !(#[trigger] conditions[i]).known(progress);
        let limit = conditions[i]->MaxTransactions_0;
        assert(limited_by(conditions[i], limit as int));
    }
}

/// A call goes on from every phase that it can be in, with every time, every
/// number of transactions, and the end of every pause.
pub proof fn law_calls_go_on(
    generator: WorkflowTxnGenerator,
    start_time: u64,
    stage: usize,
    now: u64,
    count: usize,
)
    ensures
        generator.valid(GeneratePhase::Done),
        generator.stage is WhenDone ==> generator.valid(GeneratePhase::Waiting)
            && generator.valid(GeneratePhase::CheckingStart { start_time }),
        generator.stage is WhenDone && stage < generator.stage_switch_conditions@.len()
            ==> generator.valid(GeneratePhase::Switching { stage }),
        stage < generator.num_generators ==> generator.valid(GeneratePhase::Generating { stage }),
        generator.expects(GeneratePhase::CheckingStart { start_time }, GenerateEvent::Now(now)),
        generator.expects(GeneratePhase::Waiting, GenerateEvent::Slept),
        generator.expects(GeneratePhase::Generating { stage }, GenerateEvent::Generated(count)),
        now + generator.stage->delay_between_stages <= u64::MAX ==> generator.expects(
            GeneratePhase::Switching { stage },
            GenerateEvent::Now(now),
        ),
{
}

/// The shared progress shows its stage, its start and its limits.
pub proof fn law_progress_shows_all(progress: SharedProgress)
    ensures
        progress@.stage == progress.stage,
        progress@.stage_start_time == progress.stage_start_time,
        progress@.remaining == progress.remaining@,
{
}

} // verus!
