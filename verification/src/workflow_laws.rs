//! What holds of all workflows.

use crate::workflow_creator;
use crate::workflow_creator::{
    Creator, WorkflowKind, WorkflowProgress, WorkflowTxnGeneratorCreator,
};
use crate::workflow_delegator;
use crate::workflow_delegator::{
    GenerateAction, GenerateEvent, GeneratePhase, PoolId, PoolSizes, ProgressView,
    StageSwitchCondition, WorkflowTxnGenerator,
};
use vstd::prelude::*;

verus! {

/// The pool that a stage takes its accounts from.
pub open spec fn consumes(creator: Creator) -> Option<PoolId> {
    match creator {
        Creator::AccountGenerator { .. } => None,
        Creator::AccountsPoolWrapper { from, .. } => Some(from),
        Creator::AddHistoryWrapper { from, .. } => Some(from),
        Creator::MarketMakerPoolWrapper { from, .. } => Some(from),
        Creator::ReuseAccountsPoolWrapper { from, .. } => Some(from),
    }
}

/// The pool that a stage hands its accounts to.
pub open spec fn fills(creator: Creator) -> Option<PoolId> {
    match creator {
        Creator::AccountGenerator { to, .. } => Some(to),
        Creator::AccountsPoolWrapper { to, .. } => to,
        Creator::AddHistoryWrapper { to, .. } => Some(to),
        Creator::MarketMakerPoolWrapper { .. } => None,
        Creator::ReuseAccountsPoolWrapper { .. } => None,
    }
}

/// The worker of a stage.
pub open spec fn worker_of(creator: Creator) -> Option<usize> {
    match creator {
        Creator::AccountsPoolWrapper { worker, .. } => Some(worker),
        Creator::MarketMakerPoolWrapper { worker, .. } => Some(worker),
        Creator::ReuseAccountsPoolWrapper { worker, .. } => Some(worker),
        _ => None,
    }
}

/// Every stage of a workflow has a generator and a condition.
pub proof fn law_one_condition_per_stage(kind: WorkflowKind)
    ensures
        workflow_creator::stage_creators(kind).len() == workflow_creator::stage_conditions(
            kind,
        ).len(),
{
}

/// Every stage but the first consumes the pool that the stage before it fills.
pub proof fn law_stages_form_a_pipeline(kind: WorkflowKind, stage: int)
    requires
        0 < stage < workflow_creator::stage_creators(kind).len(),
    ensures
        consumes(workflow_creator::stage_creators(kind)[stage]) is Some,
        consumes(workflow_creator::stage_creators(kind)[stage]) == fills(
            workflow_creator::stage_creators(kind)[stage - 1],
        ),
{
}

/// A stage that is over once a pool is empty consumes that very pool, and one
/// with a limit on its transactions names a limit that the workflow has.
pub proof fn law_condition_fits_its_stage(
    kind: WorkflowKind,
    progress_type: WorkflowProgress,
    cur_phase: usize,
    stage: int,
)
    requires
        0 <= stage < workflow_creator::stage_conditions(kind).len(),
    ensures
        match workflow_creator::stage_conditions(kind)[stage] {
            StageSwitchCondition::WhenPoolBecomesEmpty(pool) => consumes(
                workflow_creator::stage_creators(kind)[stage],
            ) == Some(pool),
            StageSwitchCondition::WhenPoolWithHistoryBecomesEmpty(pool) => consumes(
                workflow_creator::stage_creators(kind)[stage],
            ) == Some(pool),
            StageSwitchCondition::MaxTransactions(_) => true,
        },
        workflow_creator::stage_conditions(kind)[stage].known(
            workflow_creator::initial_progress(kind, progress_type, cur_phase),
        ),
{
}

/// The generators of a new workflow can be called: all limits are known.
pub proof fn law_new_workflow_can_be_called(
    kind: WorkflowKind,
    progress_type: WorkflowProgress,
    cur_phase: usize,
)
    ensures
        workflow_delegator::known_limits(
            workflow_creator::stage_conditions(kind),
            workflow_creator::initial_progress(kind, progress_type, cur_phase),
        ),
{
    assert forall|i: int| 0 <= i < workflow_creator::stage_conditions(kind).len() implies (
    #[trigger] workflow_creator::stage_conditions(kind)[i]).known(
        workflow_creator::initial_progress(kind, progress_type, cur_phase),
    ) by {
        law_condition_fits_its_stage(kind, progress_type, cur_phase, i);
    }
}

/// Every worker that is set up serves exactly one stage, and no stage names a
/// worker that is not set up.
pub proof fn law_every_worker_has_its_stage(kind: WorkflowKind, worker: usize)
    ensures
        worker < workflow_creator::workers(kind).len() <==> exists|stage: int|
            0 <= stage < workflow_creator::stage_creators(kind).len() && worker_of(
                #[trigger] workflow_creator::stage_creators(kind)[stage],
            ) == Some(worker),
        forall|a: int, b: int|
            0 <= a < b < workflow_creator::stage_creators(kind).len() && worker_of(
                #[trigger] workflow_creator::stage_creators(kind)[a],
            ) is Some ==> worker_of(workflow_creator::stage_creators(kind)[a]) != worker_of(
                #[trigger] workflow_creator::stage_creators(kind)[b],
            ),
{
    let creators = workflow_creator::stage_creators(kind);
    let base: int = match kind {
        WorkflowKind::CreateMintBurn { .. } => 1,
        WorkflowKind::Econia { flow_type, .. } => 0,
    };
    if worker < workflow_creator::workers(kind).len() {
        let stage = if kind is Econia && kind->flow_type is Real && worker == 2 {
            3
        } else {
            worker + base
        };
        assert(worker_of(creators[stage]) == Some(worker));
    }
}

/// The package is there before any worker is created, and markets are registered
/// only with a package that was published.
pub proof fn law_setup_starts_with_the_package(kind: WorkflowKind, step: int)
    requires
        0 <= step < workflow_creator::setup_steps(kind).len(),
    ensures
        workflow_creator::setup_steps(kind)[step] is Package <==> step == 0,
        workflow_creator::setup_steps(kind)[step] is RegisterEconiaMarkets ==> step == 1
            && workflow_creator::setup_steps(kind)[0]->publish,
{
}

/// What is left of a limit once so many transactions were counted.
pub open spec fn left_of(remaining: usize, count: int) -> int {
    if count > remaining {
        0
    } else {
        remaining - count
    }
}

/// Counting transactions in two steps is counting them at once.
pub proof fn law_counts_add_up(remaining: usize, a: usize, b: usize)
    ensures
        workflow_delegator::reduced(workflow_delegator::reduced(remaining, a), b) == left_of(
            remaining,
            a + b,
        ),
{
}

/// A stage with a limit is over exactly when that many transactions, or more,
/// were created.
pub proof fn law_limit_is_reached(
    limit: usize,
    pools: PoolSizes,
    progress: ProgressView,
    count: usize,
)
    requires
        limit < progress.remaining.len(),
    ensures
        ({
            let condition = StageSwitchCondition::MaxTransactions(limit);
            condition.over(pools, condition.counted(progress, count)) <==> count
                >= progress.remaining[limit as int]
        }),
{
}

/// A call only moves the stage up, by one, and only where it is tracked that
/// way; a stage that is set from outside stays as it is.
pub proof fn law_stage_only_moves_up(
    generator: WorkflowTxnGenerator,
    progress: ProgressView,
    phase: GeneratePhase,
    event: GenerateEvent,
)
    requires
        generator.valid(phase),
        generator.expects(phase, event),
    ensures
        generator.progressed(progress, phase, event).stage == progress.stage || (
        generator.stage is WhenDone && phase == (GeneratePhase::Switching { stage: progress.stage })
            && generator.progressed(progress, phase, event).stage == progress.stage + 1),
{
    assert(generator.stage_switch_conditions@.len()
        == generator.stage_switch_conditions.len());
}

/// The transactions that may still be created never become more.
pub proof fn law_remaining_never_grows(
    generator: WorkflowTxnGenerator,
    progress: ProgressView,
    phase: GeneratePhase,
    event: GenerateEvent,
    limit: int,
)
    requires
        generator.valid(phase),
        generator.expects(phase, event),
        workflow_delegator::known_limits(generator.stage_switch_conditions@, progress),
        0 <= limit < progress.remaining.len(),
    ensures
        generator.progressed(progress, phase, event).remaining.len() == progress.remaining.len(),
        generator.progressed(progress, phase, event).remaining[limit] <= progress.remaining[limit],
{
}

/// However many calls saw the end of the same stage, the stage moves on once.
pub proof fn law_stage_moves_on_once(
    generator: WorkflowTxnGenerator,
    progress: ProgressView,
    first: u64,
    second: u64,
)
    requires
        generator.valid(GeneratePhase::Switching { stage: progress.stage }),
        generator.expects(
            GeneratePhase::Switching { stage: progress.stage },
            GenerateEvent::Now(first),
        ),
        generator.expects(
            GeneratePhase::Switching { stage: progress.stage },
            GenerateEvent::Now(second),
        ),
    ensures
        ({
            let phase = GeneratePhase::Switching { stage: progress.stage };
            let once = generator.progressed(progress, phase, GenerateEvent::Now(first));
            let twice = generator.progressed(once, phase, GenerateEvent::Now(second));
            once.stage == progress.stage + 1 && twice.stage == progress.stage + 1
        }),
{
    assert(generator.stage_switch_conditions@.len()
        == generator.stage_switch_conditions.len());
}

/// A workflow's generator has as many stages as there are calls that create
/// their generators: the generator of a stage is created by the stage's own
/// creator, and all count their transactions with the one counter.
pub proof fn law_generators_share_the_counter<C>(
    creator: WorkflowTxnGeneratorCreator,
    generator: WorkflowTxnGenerator,
    txn_counter: C,
    stage: int,
)
    requires
        creator.creates(generator),
        0 <= stage < generator.num_generators,
    ensures
        ({
            let calls = workflow_creator::generator_calls(creator.creators@, txn_counter);
            &&& calls.len() == generator.num_generators
            &&& calls[stage].creator == creator.creators@[stage]
            &&& calls[stage].txn_counter == txn_counter
        }),
{
}

/// Two generators of one workflow act alike on the progress that they share: they
/// accept the same events, take the same next steps, and change the progress in
/// the same way.
pub proof fn law_generators_share_progress(
    creator: WorkflowTxnGeneratorCreator,
    one: WorkflowTxnGenerator,
    other: WorkflowTxnGenerator,
    pools: PoolSizes,
    progress: ProgressView,
    num_to_create: usize,
    phase: GeneratePhase,
    event: GenerateEvent,
)
    requires
        creator.creates(one),
        creator.creates(other),
    ensures
        one.started(pools, progress, num_to_create) == other.started(
            pools,
            progress,
            num_to_create,
        ),
        one.valid(phase) == other.valid(phase),
        one.expects(phase, event) == other.expects(phase, event),
        one.next(pools, progress, num_to_create, phase, event) == other.next(
            pools,
            progress,
            num_to_create,
            phase,
            event,
        ),
        one.progressed(progress, phase, event) == other.progressed(progress, phase, event),
{
}

/// What one generator of a workflow does is seen by the others. Once it has
/// counted transactions, they count on from there; once it has started the next
/// stage, they are in that stage, with the start that it has set.
pub proof fn law_progress_is_seen_by_all(
    creator: WorkflowTxnGeneratorCreator,
    one: WorkflowTxnGenerator,
    other: WorkflowTxnGenerator,
    pools: PoolSizes,
    progress: ProgressView,
    num_to_create: usize,
    now: u64,
    limit: usize,
    first: usize,
    second: usize,
)
    requires
        creator.creates(one),
        creator.creates(other),
        limit < progress.remaining.len(),
    ensures
        ({
            let phase = GeneratePhase::Generating { stage: progress.stage };
            let counted = one.progressed(progress, phase, GenerateEvent::Generated(first));
            let both = other.progressed(counted, phase, GenerateEvent::Generated(second));
            progress.stage < creator.creators@.len() && progress.stage
                < creator.stage_switch_conditions@.len()
                && creator.stage_switch_conditions@[progress.stage as int]
                == StageSwitchCondition::MaxTransactions(limit)
                ==> both.remaining[limit as int] == left_of(
                progress.remaining[limit as int],
                first + second,
            )
        }),
        ({
            let phase = GeneratePhase::Switching { stage: progress.stage };
            let moved = one.progressed(progress, phase, GenerateEvent::Now(now));
            one.valid(phase) && one.expects(phase, GenerateEvent::Now(now)) ==> {
                &&& moved.stage == progress.stage + 1
                &&& other.started(pools, moved, num_to_create).0
                    == (GeneratePhase::CheckingStart {
                    start_time: (now + creator.stage->delay_between_stages) as u64,
                })
                &&& other.decision(pools, moved, num_to_create).1 is Generate
                    ==> other.decision(pools, moved, num_to_create).1->stage == progress.stage + 1
            }
        }),
{
    assert(one.stage_switch_conditions@.len() == one.stage_switch_conditions.len());
}

/// Where stages move when done, a call that finds the stage over creates nothing
/// and starts the next stage, after the delay.
pub proof fn law_done_stage_is_left(
    generator: WorkflowTxnGenerator,
    pools: PoolSizes,
    progress: ProgressView,
    num_to_create: usize,
    now: u64,
)
    requires
        generator.stage is WhenDone,
        workflow_delegator::stage_over(generator.stage_switch_conditions@, pools, progress),
        progress.stage_start_time <= now,
        now + generator.stage->delay_between_stages <= u64::MAX,
    ensures
        ({
            let (phase, action) = generator.started(pools, progress, num_to_create);
            let (after, then_do) = generator.next(
                pools,
                progress,
                num_to_create,
                phase,
                GenerateEvent::Now(now),
            );
            let moved = generator.progressed(progress, after, GenerateEvent::Now(now));
            &&& action is ReadClock
            &&& then_do is ReadClock
            &&& generator.next(pools, moved, num_to_create, after, GenerateEvent::Now(now)).1
                is Finish
            &&& moved.stage == progress.stage + 1
            &&& moved.stage_start_time == now + generator.stage->delay_between_stages
        }),
{
    assert(generator.stage_switch_conditions@.len()
        == generator.stage_switch_conditions.len());
}

/// A call that comes before the stage starts sleeps before it does anything.
pub proof fn law_early_call_waits(
    generator: WorkflowTxnGenerator,
    pools: PoolSizes,
    progress: ProgressView,
    num_to_create: usize,
    now: u64,
)
    requires
        generator.stage is WhenDone,
        now < progress.stage_start_time,
    ensures
        ({
            let (phase, _) = generator.started(pools, progress, num_to_create);
            generator.next(pools, progress, num_to_create, phase, GenerateEvent::Now(now)) == (
                GeneratePhase::Waiting,
                GenerateAction::Sleep { secs: workflow_delegator::STAGE_WAIT_IN_SECS },
            )
        }),
{
}

/// Where the stage is set from outside, a stage that is over, or behind the last
/// one, creates nothing until the signal for the next stage comes.
pub proof fn law_external_stage_is_awaited(
    generator: WorkflowTxnGenerator,
    pools: PoolSizes,
    progress: ProgressView,
    num_to_create: usize,
)
    requires
        generator.stage is ExternallySet,
        workflow_delegator::stage_over(generator.stage_switch_conditions@, pools, progress)
            || progress.stage >= generator.stage_switch_conditions@.len(),
    ensures
        generator.started(pools, progress, num_to_create).1 is Finish,
{
}

/// The action only asks for what the current stage is there for: where it asks
/// for transactions, these are as many as wanted, of the current stage's
/// generator, and the stage is not over.
pub open spec fn in_turn(
    generator: WorkflowTxnGenerator,
    pools: PoolSizes,
    progress: ProgressView,
    num_to_create: usize,
    action: GenerateAction,
) -> bool {
    action is Generate ==> {
        &&& action == (GenerateAction::Generate { stage: progress.stage, num_to_create })
        &&& progress.stage < generator.num_generators
        &&& !workflow_delegator::stage_over(generator.stage_switch_conditions@, pools, progress)
    }
}

/// Transactions are only created by the generator of the current stage, while
/// the stage is not over, and as many as were asked for are asked of it.
pub proof fn law_only_the_current_stage_creates(
    generator: WorkflowTxnGenerator,
    pools: PoolSizes,
    progress: ProgressView,
    num_to_create: usize,
    phase: GeneratePhase,
    event: GenerateEvent,
)
    ensures
        in_turn(
            generator,
            pools,
            progress,
            num_to_create,
            generator.started(pools, progress, num_to_create).1,
        ),
        in_turn(
            generator,
            pools,
            progress,
            num_to_create,
            generator.next(pools, progress, num_to_create, phase, event).1,
        ),
{
}

} // verus!
