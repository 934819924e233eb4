//! Workflows of several stages. Stage `i` is served by generator `i`: it takes
//! accounts from the pool before it and hands them to the pool behind it, until
//! the condition of the stage says that it is over.
//!
//! All generators of one workflow share their progress, see [`SharedProgress`].

use crate::text;
use std::time::UNIX_EPOCH;
use vstd::prelude::*;

verus! {

/// How long a generator sleeps that was asked before its stage has started.
pub const STAGE_WAIT_IN_SECS: u64 = 60;

/// Calls `std::time::SystemTime::elapsed` of the Unix epoch: the whole seconds
/// and the nanoseconds of the rest that have passed since, or nothing where the
/// clock stands before the epoch. Which numbers come back depends on the
/// machine's clock; of the nanoseconds it is claimed that they are less than a
/// second.
#[verifier::external_body]
fn elapsed_since_epoch() -> (elapsed: Option<(u64, u32)>)
    ensures
        elapsed matches Some((_, nanos)) ==> nanos < 1_000_000_000,
{
    match UNIX_EPOCH.elapsed() {
        Ok(elapsed) => Some((elapsed.as_secs(), elapsed.subsec_nanos())),
        Err(_) => None,
    }
}

/// The whole seconds of a time that has passed.
pub fn whole_seconds(elapsed: Option<(u64, u32)>) -> (seconds: Option<u64>)
    ensures
        seconds == match elapsed {
            Some((seconds, _)) => Some(seconds),
            None => None,
        },
{
    match elapsed {
        Some((seconds, _)) => Some(seconds),
        None => None,
    }
}

/// How a workflow moves from one stage to the next.
#[derive(Clone, Copy, Debug, PartialEq, Eq, Structural)]
pub enum StageTracking {
    /// The stage is set from outside.
    ExternallySet,
    /// The next stage starts some time after the current one is over.
    WhenDone { delay_between_stages: u64 },
}

impl StageTracking {
    /// The whole seconds since the Unix epoch, `None` where the machine's clock
    /// stands before it. The number is the clock's, so nothing is promised of it.
    pub fn current_timestamp() -> (timestamp: Option<u64>) {
        whole_seconds(elapsed_since_epoch())
    }
}

/// The account pools that a workflow may use.
#[derive(Clone, Copy, Debug, PartialEq, Eq, Structural)]
pub enum PoolId {
    Created,
    Minted,
    Burnt,
    RegisterMarketAccounts,
    DepositCoins,
    DepositCoinsWithAddedHistory,
    PlaceOrders,
}

/// How many accounts every pool holds at some moment.
#[derive(Clone, Copy, Debug, PartialEq, Eq, Structural)]
pub struct PoolSizes {
    pub created: usize,
    pub minted: usize,
    pub burnt: usize,
    pub register_market_accounts: usize,
    pub deposit_coins: usize,
    pub deposit_coins_with_added_history: usize,
    pub place_orders: usize,
}

impl PoolSizes {
    /// The size of one pool.
    pub open spec fn spec_size(self, pool: PoolId) -> usize {
        match pool {
            PoolId::Created => self.created,
            PoolId::Minted => self.minted,
            PoolId::Burnt => self.burnt,
            PoolId::RegisterMarketAccounts => self.register_market_accounts,
            PoolId::DepositCoins => self.deposit_coins,
            PoolId::DepositCoinsWithAddedHistory => self.deposit_coins_with_added_history,
            PoolId::PlaceOrders => self.place_orders,
        }
    }

    /// The size of one pool.
    pub fn size(&self, pool: PoolId) -> (size: usize)
        ensures
            size == self.spec_size(pool),
    {
        match pool {
            PoolId::Created => self.created,
            PoolId::Minted => self.minted,
            PoolId::Burnt => self.burnt,
            PoolId::RegisterMarketAccounts => self.register_market_accounts,
            PoolId::DepositCoins => self.deposit_coins,
            PoolId::DepositCoinsWithAddedHistory => self.deposit_coins_with_added_history,
            PoolId::PlaceOrders => self.place_orders,
        }
    }
}

/// A pool of accounts, or of accounts with the history of what they did.
#[derive(Clone, Copy, Debug, PartialEq, Eq, Structural)]
pub enum Pool {
    AccountPool(PoolId),
    AccountWithHistoryPool(PoolId),
}

impl Pool {
    /// Which pool it is.
    pub open spec fn id(self) -> PoolId {
        match self {
            Pool::AccountPool(id) => id,
            Pool::AccountWithHistoryPool(id) => id,
        }
    }

    /// How many accounts the pool holds.
    pub fn len(&self, sizes: &PoolSizes) -> (len: usize)
        ensures
            len == sizes.spec_size(self.id()),
    {
        match self {
            Pool::AccountPool(id) => sizes.size(*id),
            Pool::AccountWithHistoryPool(id) => sizes.size(*id),
        }
    }
}

/// What the generators of one workflow share: the stage, when it starts, and how
/// many transactions the stages with a limit may still create.
pub struct SharedProgress {
    pub stage: usize,
    pub stage_start_time: u64,
    pub remaining: Vec<usize>,
}

/// What a [`SharedProgress`] says.
#[verifier::ext_equal]
pub struct ProgressView {
    pub stage: usize,
    pub stage_start_time: u64,
    pub remaining: Seq<usize>,
}

impl View for SharedProgress {
    type V = ProgressView;

    open spec fn view(&self) -> ProgressView {
        ProgressView {
            stage: self.stage,
            stage_start_time: self.stage_start_time,
            remaining: self.remaining@,
        }
    }
}

/// When a stage is over.
#[derive(Clone, Copy, Debug, PartialEq, Eq, Structural)]
pub enum StageSwitchCondition {
    WhenPoolBecomesEmpty(PoolId),
    WhenPoolWithHistoryBecomesEmpty(PoolId),
    /// When the limit with this index is used up.
    MaxTransactions(usize),
}

/// `count` transactions less, but never less than none.
pub open spec fn reduced(remaining: usize, count: usize) -> usize {
    if count > remaining {
        0
    } else {
        (remaining - count) as usize
    }
}

impl StageSwitchCondition {
    /// The limit that the condition names is among the shared ones.
    pub open spec fn known(self, progress: ProgressView) -> bool {
        match self {
            StageSwitchCondition::MaxTransactions(limit) => limit < progress.remaining.len(),
            _ => true,
        }
    }

    /// What is left of the stage: accounts in its pool, or transactions.
    pub open spec fn left_over(self, pools: PoolSizes, progress: ProgressView) -> usize {
        match self {
            StageSwitchCondition::WhenPoolBecomesEmpty(pool) => pools.spec_size(pool),
            StageSwitchCondition::WhenPoolWithHistoryBecomesEmpty(pool) => pools.spec_size(pool),
            StageSwitchCondition::MaxTransactions(limit) => progress.remaining[limit as int],
        }
    }

    /// The stage is over.
    pub open spec fn over(self, pools: PoolSizes, progress: ProgressView) -> bool {
        self.left_over(pools, progress) == 0
    }

    /// The progress after `count` transactions were created in the stage.
    pub open spec fn counted(self, progress: ProgressView, count: usize) -> ProgressView {
        match self {
            StageSwitchCondition::MaxTransactions(limit) => ProgressView {
                remaining: progress.remaining.update(
                    limit as int,
                    reduced(progress.remaining[limit as int], count),
                ),
                ..progress
            },
            _ => progress,
        }
    }

    fn left(&self, pools: &PoolSizes, progress: &SharedProgress) -> (left: usize)
        requires
            self.known(progress@),
        ensures
            left == self.left_over(*pools, progress@),
    {
        match self {
            StageSwitchCondition::WhenPoolBecomesEmpty(pool) => Pool::AccountPool(*pool).len(pools),
            StageSwitchCondition::WhenPoolWithHistoryBecomesEmpty(pool) => {
                Pool::AccountWithHistoryPool(*pool).len(pools)
            },
            StageSwitchCondition::MaxTransactions(limit) => progress.remaining[*limit],
        }
    }

    /// Whether the stage is over.
    pub fn should_switch(&self, pools: &PoolSizes, progress: &SharedProgress) -> (over: bool)
        requires
            self.known(progress@),
        ensures
            over == self.over(*pools, progress@),
    {
        self.left(pools, progress) == 0
    }

    /// Counts the transactions that the stage has created.
    pub fn reduce_txn_count(&self, progress: &mut SharedProgress, count: usize)
        requires
            self.known(old(progress)@),
        ensures
            final(progress)@ == self.counted(old(progress)@, count),
    {
        match self {
            StageSwitchCondition::WhenPoolBecomesEmpty(_) => {},
            StageSwitchCondition::WhenPoolWithHistoryBecomesEmpty(_) => {},
            StageSwitchCondition::MaxTransactions(limit) => {
                let current = progress.remaining[*limit];
                if count > current {
                    progress.remaining.set(*limit, 0);
                } else {
                    progress.remaining.set(*limit, current - count);
                }
            },
        }
    }

    /// The name of the condition.
    pub open spec fn name(self) -> Seq<char> {
        match self {
            StageSwitchCondition::WhenPoolBecomesEmpty(_) => "WhenPoolBecomesEmpty("@,
            StageSwitchCondition::WhenPoolWithHistoryBecomesEmpty(_) => {
                "WhenPoolWithHistoryBecomesEmpty("@
            },
            StageSwitchCondition::MaxTransactions(_) => "MaxTransactions("@,
        }
    }

    /// The condition, with what is left of the stage, as text.
    pub fn describe(&self, pools: &PoolSizes, progress: &SharedProgress) -> (text: String)
        requires
            self.known(progress@),
        ensures
            text@ == self.name() + text::decimal(self.left_over(*pools, progress@) as nat) + ")"@,
    {
        let mut text = String::from_str(
            match self {
                StageSwitchCondition::WhenPoolBecomesEmpty(_) => "WhenPoolBecomesEmpty(",
                StageSwitchCondition::WhenPoolWithHistoryBecomesEmpty(_) => {
                    "WhenPoolWithHistoryBecomesEmpty("
                },
                StageSwitchCondition::MaxTransactions(_) => "MaxTransactions(",
            },
        );
        let left = self.left(pools, progress);
        text.append(text::decimal_string(left as u64).as_str());
        text.append(")");
        text
    }
}

/// Generator of a workflow: one generator and one condition to every stage.
pub struct WorkflowTxnGenerator {
    pub stage: StageTracking,
    pub num_generators: usize,
    pub stage_switch_conditions: Vec<StageSwitchCondition>,
}

/// What a call for transactions waits for.
#[derive(Clone, Copy, Debug, PartialEq, Eq, Structural)]
pub enum GeneratePhase {
    /// For the time, to see whether the stage has started.
    CheckingStart { start_time: u64 },
    /// For the end of a pause.
    Waiting,
    /// For the time, to start the stage behind this one.
    Switching { stage: usize },
    /// For the transactions of this stage's generator.
    Generating { stage: usize },
    Done,
}

/// What happened in the outside world.
#[derive(Clone, Copy, Debug, PartialEq, Eq, Structural)]
pub enum GenerateEvent {
    Now(u64),
    Slept,
    Generated(usize),
}

/// What the outside world is to do for a call for transactions.
#[derive(Clone, Copy, Debug, PartialEq, Eq, Structural)]
pub enum GenerateAction {
    ReadClock,
    Sleep { secs: u64 },
    /// Call the generator of the stage; its transactions are the call's result
    /// once their number was counted.
    Generate { stage: usize, num_to_create: usize },
    /// The call is over. Without a generator called before, it has no
    /// transactions.
    Finish,
}

/// The condition of the current stage.
pub open spec fn stage_over(
    conditions: Seq<StageSwitchCondition>,
    pools: PoolSizes,
    progress: ProgressView,
) -> bool {
    progress.stage < conditions.len() && conditions[progress.stage as int].over(pools, progress)
}

/// All limits that the conditions name are among the shared ones.
pub open spec fn known_limits(
    conditions: Seq<StageSwitchCondition>,
    progress: ProgressView,
) -> bool {
    forall|i: int| 0 <= i < conditions.len() ==> (#[trigger] conditions[i]).known(progress)
}

/// What a call does in the current stage: start the next one, nothing, or call
/// the stage's generator, where there is one.
pub open spec fn decided(
    tracking: StageTracking,
    num_generators: usize,
    conditions: Seq<StageSwitchCondition>,
    pools: PoolSizes,
    progress: ProgressView,
    num_to_create: usize,
) -> (GeneratePhase, GenerateAction) {
    let stage = progress.stage;
    if tracking is WhenDone && stage_over(conditions, pools, progress) {
        (GeneratePhase::Switching { stage }, GenerateAction::ReadClock)
    } else if tracking is ExternallySet && (stage >= conditions.len() || stage_over(
        conditions,
        pools,
        progress,
    )) {
        (GeneratePhase::Done, GenerateAction::Finish)
    } else if stage < num_generators {
        (GeneratePhase::Generating { stage }, GenerateAction::Generate { stage, num_to_create })
    } else {
        (GeneratePhase::Done, GenerateAction::Finish)
    }
}

/// The progress once the stage behind `stage` is started: the start is put off
/// by `delay`, and the stage moves on unless another call has moved it already.
pub open spec fn switched(progress: ProgressView, stage: usize, start_time: int) -> ProgressView {
    ProgressView {
        stage: if progress.stage == stage {
            (stage + 1) as usize
        } else {
            progress.stage
        },
        stage_start_time: start_time as u64,
        remaining: progress.remaining,
    }
}

impl WorkflowTxnGenerator {
    /// The phase is one that a call of this generator can be in.
    pub open spec fn valid(self, phase: GeneratePhase) -> bool {
        match phase {
            GeneratePhase::CheckingStart { .. } | GeneratePhase::Waiting => self.stage is WhenDone,
            GeneratePhase::Switching { stage } => {
                self.stage is WhenDone && stage < self.stage_switch_conditions@.len()
            },
            GeneratePhase::Generating { stage } => stage < self.num_generators,
            GeneratePhase::Done => true,
        }
    }

    /// The event is one that the phase waits for. A start time has to fit.
    pub open spec fn expects(self, phase: GeneratePhase, event: GenerateEvent) -> bool {
        match (phase, event) {
            (GeneratePhase::CheckingStart { .. }, GenerateEvent::Now(_)) => true,
            (GeneratePhase::Waiting, GenerateEvent::Slept) => true,
            (GeneratePhase::Switching { .. }, GenerateEvent::Now(now)) => {
                now + self.stage->delay_between_stages <= u64::MAX
            },
            (GeneratePhase::Generating { .. }, GenerateEvent::Generated(_)) => true,
            _ => false,
        }
    }

    /// What the call does in the current stage.
    pub open spec fn decision(
        self,
        pools: PoolSizes,
        progress: ProgressView,
        num_to_create: usize,
    ) -> (GeneratePhase, GenerateAction) {
        decided(
            self.stage,
            self.num_generators,
            self.stage_switch_conditions@,
            pools,
            progress,
            num_to_create,
        )
    }

    /// The first phase and action of a call.
    pub open spec fn started(
        self,
        pools: PoolSizes,
        progress: ProgressView,
        num_to_create: usize,
    ) -> (GeneratePhase, GenerateAction) {
        match self.stage {
            StageTracking::ExternallySet => self.decision(pools, progress, num_to_create),
            StageTracking::WhenDone { .. } => (
                GeneratePhase::CheckingStart { start_time: progress.stage_start_time },
                GenerateAction::ReadClock,
            ),
        }
    }

    /// The phase and action after an event.
    pub open spec fn next(
        self,
        pools: PoolSizes,
        progress: ProgressView,
        num_to_create: usize,
        phase: GeneratePhase,
        event: GenerateEvent,
    ) -> (GeneratePhase, GenerateAction) {
        match (phase, event) {
            (GeneratePhase::CheckingStart { start_time }, GenerateEvent::Now(now)) => {
                if start_time > now {
                    (GeneratePhase::Waiting, GenerateAction::Sleep { secs: STAGE_WAIT_IN_SECS })
                } else {
                    self.decision(pools, progress, num_to_create)
                }
            },
            (GeneratePhase::Waiting, _) => self.decision(pools, progress, num_to_create),
            _ => (GeneratePhase::Done, GenerateAction::Finish),
        }
    }

    /// The progress after an event.
    pub open spec fn progressed(
        self,
        progress: ProgressView,
        phase: GeneratePhase,
        event: GenerateEvent,
    ) -> ProgressView {
        match (phase, event) {
            (GeneratePhase::Switching { stage }, GenerateEvent::Now(now)) => switched(
                progress,
                stage,
                now + self.stage->delay_between_stages,
            ),
            (GeneratePhase::Generating { stage }, GenerateEvent::Generated(count)) => {
                if stage < self.stage_switch_conditions@.len() {
                    self.stage_switch_conditions@[stage as int].counted(progress, count)
                } else {
                    progress
                }
            },
            _ => progress,
        }
    }

    /// A generator of a workflow.
    pub fn new(
        stage: StageTracking,
        num_generators: usize,
        stage_switch_conditions: Vec<StageSwitchCondition>,
    ) -> (generator: Self)
        ensures
            generator.stage == stage,
            generator.num_generators == num_generators,
            generator.stage_switch_conditions@ == stage_switch_conditions@,
    {
        Self { stage, num_generators, stage_switch_conditions }
    }

    fn decide(
        &self,
        pools: &PoolSizes,
        progress: &SharedProgress,
        num_to_create: usize,
    ) -> (next: (GeneratePhase, GenerateAction))
        requires
            known_limits(self.stage_switch_conditions@, progress@),
        ensures
            next == self.decision(*pools, progress@, num_to_create),
            self.valid(next.0),
    {
        let stage = progress.stage;
        let over = stage < self.stage_switch_conditions.len()
            && self.stage_switch_conditions[stage].should_switch(pools, progress);
        match self.stage {
            StageTracking::WhenDone { .. } => {
                if over {
                    return (GeneratePhase::Switching { stage }, GenerateAction::ReadClock);
                }
            },
            StageTracking::ExternallySet => {
                if stage >= self.stage_switch_conditions.len() || over {
                    return (GeneratePhase::Done, GenerateAction::Finish);
                }
            },
        }
        if stage < self.num_generators {
            (GeneratePhase::Generating { stage }, GenerateAction::Generate { stage, num_to_create })
        } else {
            (GeneratePhase::Done, GenerateAction::Finish)
        }
    }

    /// Starts a call for `num_to_create` transactions. The phase and the events
    /// that follow go to [`WorkflowTxnGenerator::step`].
    pub fn generate_transactions(
        &self,
        pools: &PoolSizes,
        progress: &SharedProgress,
        num_to_create: usize,
    ) -> (next: (GeneratePhase, GenerateAction))
        requires
            num_to_create != 0,
            known_limits(self.stage_switch_conditions@, progress@),
        ensures
            next == self.started(*pools, progress@, num_to_create),
            self.valid(next.0),
            self.stage is ExternallySet && crate::stage_laws::running(*self, *pools, progress@)
                ==> next.1 == (GenerateAction::Generate { stage: progress.stage, num_to_create }),
    {
        match self.stage {
            StageTracking::ExternallySet => self.decide(pools, progress, num_to_create),
            StageTracking::WhenDone { .. } => (
                GeneratePhase::CheckingStart { start_time: progress.stage_start_time },
                GenerateAction::ReadClock,
            ),
        }
    }

    /// Goes on with a call once the action asked for is done.
    pub fn step(
        &self,
        pools: &PoolSizes,
        progress: &mut SharedProgress,
        num_to_create: usize,
        phase: GeneratePhase,
        event: GenerateEvent,
    ) -> (next: (GeneratePhase, GenerateAction))
        requires
            self.valid(phase),
            self.expects(phase, event),
            known_limits(self.stage_switch_conditions@, old(progress)@),
        ensures
            next == self.next(*pools, old(progress)@, num_to_create, phase, event),
            final(progress)@ == self.progressed(old(progress)@, phase, event),
            self.valid(next.0),
            known_limits(self.stage_switch_conditions@, final(progress)@),
            crate::stage_laws::running(*self, *pools, old(progress)@) && (phase is Waiting || (
            phase is CheckingStart && event is Now && phase->start_time <= event->Now_0))
                ==> next.1 == (GenerateAction::Generate {
                stage: old(progress).stage,
                num_to_create,
            }),
    {
        match phase {
            GeneratePhase::CheckingStart { start_time } => {
                if let GenerateEvent::Now(now) = event {
                    if start_time > now {
                        return (
                            GeneratePhase::Waiting,
                            GenerateAction::Sleep { secs: STAGE_WAIT_IN_SECS },
                        );
                    }
                }
                self.decide(pools, progress, num_to_create)
            },
            GeneratePhase::Waiting => self.decide(pools, progress, num_to_create),
            GeneratePhase::Switching { stage } => {
                if let (GenerateEvent::Now(now), StageTracking::WhenDone { delay_between_stages }) =
                    (event, self.stage) {
                    progress.stage_start_time = now + delay_between_stages;
                    if progress.stage == stage {
                        assert(stage < self.stage_switch_conditions.len());
                        progress.stage = stage + 1;
                    }
                }
                (GeneratePhase::Done, GenerateAction::Finish)
            },
            GeneratePhase::Generating { stage } => {
                if let GenerateEvent::Generated(count) = event {
                    if stage < self.stage_switch_conditions.len() {
                        self.stage_switch_conditions[stage].reduce_txn_count(progress, count);
                    }
                }
                (GeneratePhase::Done, GenerateAction::Finish)
            },
            GeneratePhase::Done => (GeneratePhase::Done, GenerateAction::Finish),
        }
    }
}

} // verus!
