//! One run of a dispatcher, as a state machine. Every step names the outside
//! work to do next; its outcome is the event of the next step.

use crate::batch;
use crate::batch::{ResponseView, Timestamp, Transaction, TransactionsResponse};
use crate::grpc_response_dispatcher;
use crate::grpc_response_dispatcher::{
    permanent_error, Fetch, GrpcResponseDispatcher, StorageReadError, StorageReadErrorView,
};
use crate::rpc_status;
use crate::rpc_status::{Status, StatusView};
use vstd::prelude::*;

verus! {

/// How often a batch is asked for before the stream gives up.
pub const FETCH_RETRY_COUNT: usize = 100;

/// The pause after a transient failure.
pub const RETRY_BACKOFF_IN_MS: u64 = 500;

/// The pause before storages that do not have the data yet are asked again.
pub const NOT_AVAILABLE_RETRY_BACKOFF_IN_MS: u64 = 10;

/// How long the channel of a bounded stream is kept open for a slow client.
pub const WAIT_TIME_BEFORE_CLOUSING_IN_MS: u64 = 60_000;

/// The pause between two looks at a channel that drains.
pub const DRAIN_POLL_IN_MS: u64 = 1000;

/// How long the channel may take to accept a message.
pub const RESPONSE_CHANNEL_SEND_TIMEOUT_IN_SECS: u64 = 120;

/// The answer of a storage that was asked for transactions. The transactions
/// come in chunks, each small enough for one message.
pub enum StorageReadStatus {
    Found(Vec<Vec<Transaction>>),
    NotAvailableYet,
    NotFound,
}

/// Why a run ended early.
#[derive(Clone, Copy, PartialEq, Eq, Structural)]
pub enum RunError {
    /// The channel did not accept a message.
    SendFailed,
    /// The storages did not deliver.
    FetchFailed,
}

/// What happened in the outside world.
pub enum Event {
    SenderChecked { closed: bool },
    MetadataRead(Result<u64, StorageReadError>),
    TransactionsRead(Result<StorageReadStatus, StorageReadError>),
    Slept,
    Sent { delivered: bool },
    DrainObserved { elapsed_millis: u128, capacity: usize },
}

/// What the outside world is to do.
pub enum Action {
    CheckSender,
    ReadMetadata { storage: usize },
    ReadTransactions { storage: usize, version: u64 },
    Sleep { millis: u64 },
    Send { item: Result<TransactionsResponse, Status>, timeout_secs: u64 },
    ObserveDrain,
    Finish(Result<(), RunError>),
}

/// What a run waits for.
pub enum Phase {
    CheckingSender { attempt: usize },
    ReadingMetadata { attempt: usize, storage: usize },
    ReadingTransactions { attempt: usize, storage: usize, chain_id: u64 },
    NotAvailable { attempt: usize },
    RetryBackoff { attempt: usize },
    Sending { pending: Vec<TransactionsResponse> },
    SendingFailure,
    Draining,
    DrainPause,
    Done,
}

/// A run: the dispatcher and what it waits for.
pub struct DispatchRun {
    pub dispatcher: GrpcResponseDispatcher,
    pub phase: Phase,
}

/// What an [`Event`] says.
pub enum EventView {
    SenderChecked { closed: bool },
    MetadataRead(Result<u64, StorageReadErrorView>),
    BatchRead(Seq<Seq<Transaction>>),
    NotAvailableYet,
    NotFound,
    ReadFailed(StorageReadErrorView),
    Slept,
    Sent { delivered: bool },
    DrainObserved { elapsed_millis: int, capacity: int },
}

/// A message for the client: transactions, or the failure that ends the stream.
pub enum ItemView {
    Response(ResponseView),
    Failure(StatusView),
}

/// What an [`Action`] asks for.
pub enum ActionView {
    CheckSender,
    ReadMetadata { storage: int },
    ReadTransactions { storage: int, version: int },
    Sleep { millis: int },
    Send { item: ItemView, timeout_secs: int },
    ObserveDrain,
    Finish(Result<(), RunError>),
}

/// What a [`Phase`] waits for.
pub enum PhaseView {
    CheckingSender { attempt: int },
    ReadingMetadata { attempt: int, storage: int },
    ReadingTransactions { attempt: int, storage: int, chain_id: u64 },
    NotAvailable { attempt: int },
    RetryBackoff { attempt: int },
    Sending { pending: Seq<ResponseView> },
    SendingFailure,
    Draining,
    DrainPause,
    Done,
}

/// The state of a run.
pub struct RunView {
    pub dispatcher: GrpcResponseDispatcher,
    pub phase: PhaseView,
}

/// The contents of a list of chunks.
pub open spec fn chunks_view(chunks: Seq<Vec<Transaction>>) -> Seq<Seq<Transaction>> {
    Seq::new(chunks.len(), |i: int| chunks[i]@)
}

impl View for Event {
    type V = EventView;

    open spec fn view(&self) -> EventView {
        match self {
            Event::SenderChecked { closed } => EventView::SenderChecked { closed: *closed },
            Event::MetadataRead(Ok(chain_id)) => EventView::MetadataRead(Ok(*chain_id)),
            Event::MetadataRead(Err(e)) => EventView::MetadataRead(Err(e@)),
            Event::TransactionsRead(Ok(StorageReadStatus::Found(chunks))) => EventView::BatchRead(
                chunks_view(chunks@),
            ),
            Event::TransactionsRead(Ok(StorageReadStatus::NotAvailableYet)) => {
                EventView::NotAvailableYet
            },
            Event::TransactionsRead(Ok(StorageReadStatus::NotFound)) => EventView::NotFound,
            Event::TransactionsRead(Err(e)) => EventView::ReadFailed(e@),
            Event::Slept => EventView::Slept,
            Event::Sent { delivered } => EventView::Sent { delivered: *delivered },
            Event::DrainObserved { elapsed_millis, capacity } => EventView::DrainObserved {
                elapsed_millis: *elapsed_millis as int,
                capacity: *capacity as int,
            },
        }
    }
}

/// The view of a message.
pub open spec fn item_view(item: Result<TransactionsResponse, Status>) -> ItemView {
    match item {
        Ok(response) => ItemView::Response(response@),
        Err(status) => ItemView::Failure(status@),
    }
}

impl View for Action {
    type V = ActionView;

    open spec fn view(&self) -> ActionView {
        match self {
            Action::CheckSender => ActionView::CheckSender,
            Action::ReadMetadata { storage } => ActionView::ReadMetadata {
                storage: *storage as int,
            },
            Action::ReadTransactions { storage, version } => ActionView::ReadTransactions {
                storage: *storage as int,
                version: *version as int,
            },
            Action::Sleep { millis } => ActionView::Sleep { millis: *millis as int },
            Action::Send { item, timeout_secs } => ActionView::Send {
                item: item_view(*item),
                timeout_secs: *timeout_secs as int,
            },
            Action::ObserveDrain => ActionView::ObserveDrain,
            Action::Finish(result) => ActionView::Finish(*result),
        }
    }
}

impl View for Phase {
    type V = PhaseView;

    open spec fn view(&self) -> PhaseView {
        match self {
            Phase::CheckingSender { attempt } => PhaseView::CheckingSender {
                attempt: *attempt as int,
            },
            Phase::ReadingMetadata { attempt, storage } => PhaseView::ReadingMetadata {
                attempt: *attempt as int,
                storage: *storage as int,
            },
            Phase::ReadingTransactions { attempt, storage, chain_id } => {
                PhaseView::ReadingTransactions {
                    attempt: *attempt as int,
                    storage: *storage as int,
                    chain_id: *chain_id,
                }
            },
            Phase::NotAvailable { attempt } => PhaseView::NotAvailable { attempt: *attempt as int },
            Phase::RetryBackoff { attempt } => PhaseView::RetryBackoff { attempt: *attempt as int },
            Phase::Sending { pending } => PhaseView::Sending { pending: batch::views(pending@) },
            Phase::SendingFailure => PhaseView::SendingFailure,
            Phase::Draining => PhaseView::Draining,
            Phase::DrainPause => PhaseView::DrainPause,
            Phase::Done => PhaseView::Done,
        }
    }
}

impl View for DispatchRun {
    type V = RunView;

    open spec fn view(&self) -> RunView {
        RunView { dispatcher: self.dispatcher, phase: self.phase@ }
    }
}

// What the run does, over the views.

/// The responses that a storage's chunks become, marked with its chain.
pub open spec fn marked_responses(
    chunks: Seq<Seq<Transaction>>,
    chain_id: u64,
) -> Seq<ResponseView> {
    Seq::new(
        chunks.len(),
        |i: int| ResponseView { transactions: chunks[i], chain_id: Some(chain_id) },
    )
}

/// The stream ends without a failure. A bounded stream first lets the channel drain.
pub open spec fn closing(d: GrpcResponseDispatcher) -> (RunView, ActionView) {
    if d.transaction_count is Some {
        (RunView { dispatcher: d, phase: PhaseView::Draining }, ActionView::ObserveDrain)
    } else {
        (RunView { dispatcher: d, phase: PhaseView::Done }, ActionView::Finish(Ok(())))
    }
}

/// A message is handed to the channel.
pub open spec fn sending(item: ItemView) -> ActionView {
    ActionView::Send { item, timeout_secs: RESPONSE_CHANNEL_SEND_TIMEOUT_IN_SECS as int }
}

/// The client is told that the stream failed.
pub open spec fn failing(d: GrpcResponseDispatcher, message: Seq<char>) -> (RunView, ActionView) {
    (
        RunView { dispatcher: d, phase: PhaseView::SendingFailure },
        sending(ItemView::Failure(rpc_status::internal_status(message))),
    )
}

/// The next batch is asked for; a bounded stream that owes nothing is over.
pub open spec fn fetching(d: GrpcResponseDispatcher, attempt: int) -> (RunView, ActionView) {
    if d.transaction_count == Some(0u64) {
        closing(d)
    } else {
        (
            RunView { dispatcher: d, phase: PhaseView::CheckingSender { attempt } },
            ActionView::CheckSender,
        )
    }
}

/// Storage `storage` is asked. Past the last one the data is in none of them,
/// unless there is no storage at all: then the search starts over.
pub open spec fn asking(d: GrpcResponseDispatcher, attempt: int, storage: int) -> (
    RunView,
    ActionView,
) {
    if storage < d.num_storages {
        (
            RunView { dispatcher: d, phase: PhaseView::ReadingMetadata { attempt, storage } },
            ActionView::ReadMetadata { storage },
        )
    } else if storage > 0 {
        fetched(d, attempt, gap())
    } else {
        (
            RunView { dispatcher: d, phase: PhaseView::CheckingSender { attempt } },
            ActionView::CheckSender,
        )
    }
}

/// The data was evicted from one storage before the next one had it.
pub open spec fn gap() -> Fetch {
    Fetch::Failed(grpc_response_dispatcher::permanent("Gap detected between storages."@))
}

/// The search for a batch ended: the batch is checked and sent, the search is
/// repeated after a pause, or the stream fails.
pub open spec fn fetched(d: GrpcResponseDispatcher, attempt: int, fetch: Fetch) -> (
    RunView,
    ActionView,
) {
    let after = grpc_response_dispatcher::after_batch(d, fetch);
    match grpc_response_dispatcher::checked_batch(d, fetch) {
        Fetch::Batch(responses) => if responses.len() == 0 {
            closing(after)
        } else {
            (
                RunView {
                    dispatcher: after,
                    phase: PhaseView::Sending { pending: responses.skip(1) },
                },
                sending(ItemView::Response(responses[0])),
            )
        },
        Fetch::Failed(StorageReadErrorView::TransientError(_, _)) => (
            RunView { dispatcher: after, phase: PhaseView::RetryBackoff { attempt } },
            ActionView::Sleep { millis: RETRY_BACKOFF_IN_MS as int },
        ),
        Fetch::Failed(StorageReadErrorView::PermenantError(name, _)) => failing(
            after,
            "Failed to fetch transactions from storages, "@ + name,
        ),
    }
}

/// The event answers what the run waits for.
pub open spec fn expects(s: RunView, e: EventView) -> bool {
    match (s.phase, e) {
        (PhaseView::CheckingSender { .. }, EventView::SenderChecked { .. }) => true,
        (PhaseView::ReadingMetadata { .. }, EventView::MetadataRead(_)) => true,
        (
            PhaseView::ReadingTransactions { chain_id, .. },
            EventView::BatchRead(chunks),
        ) => grpc_response_dispatcher::countable(
            s.dispatcher,
            Fetch::Batch(marked_responses(chunks, chain_id)),
        ),
        (PhaseView::ReadingTransactions { .. }, EventView::NotAvailableYet) => true,
        (PhaseView::ReadingTransactions { .. }, EventView::NotFound) => true,
        (PhaseView::ReadingTransactions { .. }, EventView::ReadFailed(_)) => true,
        (PhaseView::NotAvailable { .. }, EventView::Slept) => true,
        (PhaseView::RetryBackoff { .. }, EventView::Slept) => true,
        (PhaseView::Sending { .. }, EventView::Sent { .. }) => true,
        (PhaseView::SendingFailure, EventView::Sent { .. }) => true,
        (PhaseView::Draining, EventView::DrainObserved { .. }) => true,
        (PhaseView::DrainPause, EventView::Slept) => true,
        _ => false,
    }
}

/// The first step of a run.
pub open spec fn started(d: GrpcResponseDispatcher) -> (RunView, ActionView) {
    fetching(d, 0)
}

/// The run is over.
pub open spec fn finished(d: GrpcResponseDispatcher, result: Result<(), RunError>) -> (
    RunView,
    ActionView,
) {
    (RunView { dispatcher: d, phase: PhaseView::Done }, ActionView::Finish(result))
}

/// The step that answers an expected event.
pub open spec fn stepped(s: RunView, e: EventView) -> (RunView, ActionView) {
    let d = s.dispatcher;
    match (s.phase, e) {
        (PhaseView::CheckingSender { attempt }, EventView::SenderChecked { closed }) => if closed {
            fetched(
                d,
                attempt,
                Fetch::Failed(grpc_response_dispatcher::permanent("Sender is closed."@)),
            )
        } else {
            asking(d, attempt, 0)
        },
        (PhaseView::ReadingMetadata { attempt, storage }, EventView::MetadataRead(Ok(chain_id))) => (
            RunView {
                dispatcher: d,
                phase: PhaseView::ReadingTransactions { attempt, storage, chain_id },
            },
            ActionView::ReadTransactions {
                storage,
                version: d.next_version_to_process as int,
            },
        ),
        (PhaseView::ReadingMetadata { attempt, .. }, EventView::MetadataRead(Err(e))) => fetched(
            d,
            attempt,
            Fetch::Failed(e),
        ),
        (
            PhaseView::ReadingTransactions { attempt, chain_id, .. },
            EventView::BatchRead(chunks),
        ) => fetched(d, attempt, Fetch::Batch(marked_responses(chunks, chain_id))),
        (
            PhaseView::ReadingTransactions { attempt, storage, .. },
            EventView::NotAvailableYet,
        ) => if storage > 0 {
            fetched(d, attempt, gap())
        } else {
            (
                RunView { dispatcher: d, phase: PhaseView::NotAvailable { attempt } },
                ActionView::Sleep { millis: NOT_AVAILABLE_RETRY_BACKOFF_IN_MS as int },
            )
        },
        (PhaseView::ReadingTransactions { attempt, storage, .. }, EventView::NotFound) => asking(
            d,
            attempt,
            storage + 1,
        ),
        (PhaseView::ReadingTransactions { attempt, .. }, EventView::ReadFailed(e)) => fetched(
            d,
            attempt,
            Fetch::Failed(e),
        ),
        (PhaseView::NotAvailable { attempt }, _) => (
            RunView { dispatcher: d, phase: PhaseView::CheckingSender { attempt } },
            ActionView::CheckSender,
        ),
        (PhaseView::RetryBackoff { attempt }, _) => if attempt + 1 < FETCH_RETRY_COUNT {
            fetching(d, attempt + 1)
        } else {
            failing(d, "Failed to fetch transactions from storages."@)
        },
        (PhaseView::Sending { pending }, EventView::Sent { delivered }) => if !delivered {
            finished(d, Err(RunError::SendFailed))
        } else if pending.len() > 0 {
            (
                RunView { dispatcher: d, phase: PhaseView::Sending { pending: pending.skip(1) } },
                sending(ItemView::Response(pending[0])),
            )
        } else {
            fetching(d, 0)
        },
        (PhaseView::SendingFailure, EventView::Sent { delivered }) => if delivered {
            finished(d, Err(RunError::FetchFailed))
        } else {
            finished(d, Err(RunError::SendFailed))
        },
        (
            PhaseView::Draining,
            EventView::DrainObserved { elapsed_millis, capacity },
        ) => if elapsed_millis > WAIT_TIME_BEFORE_CLOUSING_IN_MS || capacity == d.sender_capacity {
            finished(d, Ok(()))
        } else {
            (
                RunView { dispatcher: d, phase: PhaseView::DrainPause },
                ActionView::Sleep { millis: DRAIN_POLL_IN_MS as int },
            )
        },
        (PhaseView::DrainPause, _) => (
            RunView { dispatcher: d, phase: PhaseView::Draining },
            ActionView::ObserveDrain,
        ),
        _ => (s, ActionView::Finish(Ok(()))),
    }
}

/// The number of attempts of a search stays within what the code counts to.
pub open spec fn attempt_fits(p: PhaseView) -> bool {
    match p {
        PhaseView::CheckingSender { attempt } => 0 <= attempt < FETCH_RETRY_COUNT,
        PhaseView::ReadingMetadata { attempt, .. } => 0 <= attempt < FETCH_RETRY_COUNT,
        PhaseView::ReadingTransactions { attempt, .. } => 0 <= attempt < FETCH_RETRY_COUNT,
        PhaseView::NotAvailable { attempt } => 0 <= attempt < FETCH_RETRY_COUNT,
        PhaseView::RetryBackoff { attempt } => 0 <= attempt < FETCH_RETRY_COUNT,
        _ => true,
    }
}

/// The storage that is asked exists.
pub open spec fn storage_fits(s: RunView) -> bool {
    match s.phase {
        PhaseView::ReadingMetadata { storage, .. } => 0 <= storage < s.dispatcher.num_storages,
        PhaseView::ReadingTransactions { storage, .. } => 0 <= storage < s.dispatcher.num_storages,
        _ => true,
    }
}

/// A state that a run can be in.
pub open spec fn valid(s: RunView) -> bool {
    attempt_fits(s.phase) && storage_fits(s)
}

// The run itself.

/// Hands a message to the channel, which has to accept it in time.
fn dispatch(item: Result<TransactionsResponse, Status>) -> (action: Action)
    ensures
        action@ == sending(item_view(item)),
{
    Action::Send { item, timeout_secs: RESPONSE_CHANNEL_SEND_TIMEOUT_IN_SECS }
}

fn finish(dispatcher: GrpcResponseDispatcher, result: Result<(), RunError>) -> (step: (
    DispatchRun,
    Action,
))
    ensures
        (step.0@, step.1@) == finished(dispatcher, result),
{
    (DispatchRun { dispatcher, phase: Phase::Done }, Action::Finish(result))
}

fn close(dispatcher: GrpcResponseDispatcher) -> (step: (DispatchRun, Action))
    ensures
        (step.0@, step.1@) == closing(dispatcher),
{
    if dispatcher.transaction_count.is_some() {
        (DispatchRun { dispatcher, phase: Phase::Draining }, Action::ObserveDrain)
    } else {
        finish(dispatcher, Ok(()))
    }
}

fn fail(dispatcher: GrpcResponseDispatcher, message: String) -> (step: (DispatchRun, Action))
    ensures
        (step.0@, step.1@) == failing(dispatcher, message@),
{
    let status = Status::internal(message);
    (DispatchRun { dispatcher, phase: Phase::SendingFailure }, dispatch(Err(status)))
}

/// Hands the first of some responses to the channel.
fn send_first(dispatcher: GrpcResponseDispatcher, responses: Vec<TransactionsResponse>) -> (step: (
    DispatchRun,
    Action,
))
    requires
        responses@.len() > 0,
    ensures
        step.0@ == (RunView {
            dispatcher,
            phase: PhaseView::Sending { pending: batch::views(responses@).skip(1) },
        }),
        step.1@ == sending(ItemView::Response(batch::views(responses@)[0])),
{
    let ghost vs = batch::views(responses@);
    let mut pending = responses;
    let first = pending.remove(0);
    proof {
        assert(batch::views(pending@) =~= vs.skip(1));
    }
    (DispatchRun { dispatcher, phase: Phase::Sending { pending } }, dispatch(Ok(first)))
}

fn mark_responses(chunks: Vec<Vec<Transaction>>, chain_id: u64) -> (responses: Vec<
    TransactionsResponse,
>)
    ensures
        batch::views(responses@) == marked_responses(chunks_view(chunks@), chain_id),
        responses@.len() == chunks@.len(),
        forall|i: int|
            0 <= i < chunks@.len() ==> (#[trigger] responses@[i]).transactions@ == chunks@[i]@
                && responses@[i].chain_id == Some(chain_id),
{
    let ghost before = chunks@;
    let mut responses: Vec<TransactionsResponse> = Vec::new();
    for transactions in it: chunks.into_iter()
        invariant
            it.seq() == before,
            responses@.len() == it.index(),
            forall|i: int|
                0 <= i < it.index() ==> (#[trigger] responses@[i])@ == (ResponseView {
                    transactions: before[i]@,
                    chain_id: Some(chain_id),
                }),
    {
        responses.push(TransactionsResponse { transactions, chain_id: Some(chain_id) });
    }
    proof {
        assert(batch::views(responses@) =~= marked_responses(chunks_view(before), chain_id));
    }
    responses
}

impl GrpcResponseDispatcher {
    /// Starts a run.
    pub fn run(self) -> (step: (DispatchRun, Action))
        ensures
            (step.0@, step.1@) == started(self),
            valid(step.0@),
    {
        self.fetch_from_storages(0)
    }

    /// Starts the search for the next batch.
    fn fetch_from_storages(self, attempt: usize) -> (step: (DispatchRun, Action))
        ensures
            (step.0@, step.1@) == fetching(self, attempt as int),
    {
        let over = match self.transaction_count {
            Some(count) => count == 0,
            None => false,
        };
        if over {
            close(self)
        } else {
            (
                DispatchRun { dispatcher: self, phase: Phase::CheckingSender { attempt } },
                Action::CheckSender,
            )
        }
    }

    /// Goes on to a storage, or reports that none has the data.
    fn ask_storage(self, attempt: usize, storage: usize) -> (step: (DispatchRun, Action))
        ensures
            (step.0@, step.1@) == asking(self, attempt as int, storage as int),
    {
        if storage < self.num_storages {
            (
                DispatchRun {
                    dispatcher: self,
                    phase: Phase::ReadingMetadata { attempt, storage },
                },
                Action::ReadMetadata { storage },
            )
        } else if storage > 0 {
            self.fetch_with_retries(attempt, Err(permanent_error("Gap detected between storages.")))
        } else {
            (
                DispatchRun { dispatcher: self, phase: Phase::CheckingSender { attempt } },
                Action::CheckSender,
            )
        }
    }

    /// Decides what becomes of a search for a batch.
    fn fetch_with_retries(
        self,
        attempt: usize,
        result: Result<Vec<TransactionsResponse>, StorageReadError>,
    ) -> (step: (DispatchRun, Action))
        requires
            grpc_response_dispatcher::countable(self, grpc_response_dispatcher::fetch_view(result)),
        ensures
            (step.0@, step.1@) == fetched(
                self,
                attempt as int,
                grpc_response_dispatcher::fetch_view(result),
            ),
    {
        let mut dispatcher = self;
        match dispatcher.fetch_internal(result) {
            Ok(responses) => {
                if responses.len() == 0 {
                    close(dispatcher)
                } else {
                    send_first(dispatcher, responses)
                }
            },
            Err(StorageReadError::TransientError(_, _)) => (
                DispatchRun { dispatcher, phase: Phase::RetryBackoff { attempt } },
                Action::Sleep { millis: RETRY_BACKOFF_IN_MS },
            ),
            Err(StorageReadError::PermenantError(name, _)) => {
                let mut message = String::from_str("Failed to fetch transactions from storages, ");
                message.append(name.as_str());
                fail(dispatcher, message)
            },
        }
    }
}

impl DispatchRun {
    /// Answers an event: the next state, and what is to be done next.
    pub fn step(self, event: Event) -> (step: (DispatchRun, Action))
        requires
            valid(self@),
            expects(self@, event@),
        ensures
            (step.0@, step.1@) == stepped(self@, event@),
            valid(step.0@),
    {
        let dispatcher = self.dispatcher;
        match (self.phase, event) {
            (Phase::CheckingSender { attempt }, Event::SenderChecked { closed }) => if closed {
                dispatcher.fetch_with_retries(attempt, Err(permanent_error("Sender is closed.")))
            } else {
                dispatcher.ask_storage(attempt, 0)
            },
            (Phase::ReadingMetadata { attempt, storage }, Event::MetadataRead(read)) => match read {
                Ok(chain_id) => (
                    DispatchRun {
                        dispatcher,
                        phase: Phase::ReadingTransactions { attempt, storage, chain_id },
                    },
                    Action::ReadTransactions {
                        storage,
                        version: dispatcher.next_version_to_process,
                    },
                ),
                Err(e) => dispatcher.fetch_with_retries(attempt, Err(e)),
            },
            (
                Phase::ReadingTransactions { attempt, storage, chain_id },
                Event::TransactionsRead(read),
            ) => match read {
                Ok(StorageReadStatus::Found(chunks)) => {
                    let responses = mark_responses(chunks, chain_id);
                    dispatcher.fetch_with_retries(attempt, Ok(responses))
                },
                Ok(StorageReadStatus::NotAvailableYet) => if storage > 0 {
                    dispatcher.fetch_with_retries(
                        attempt,
                        Err(permanent_error("Gap detected between storages.")),
                    )
                } else {
                    (
                        DispatchRun { dispatcher, phase: Phase::NotAvailable { attempt } },
                        Action::Sleep { millis: NOT_AVAILABLE_RETRY_BACKOFF_IN_MS },
                    )
                },
                Ok(StorageReadStatus::NotFound) => dispatcher.ask_storage(attempt, storage + 1),
                Err(e) => dispatcher.fetch_with_retries(attempt, Err(e)),
            },
            (Phase::NotAvailable { attempt }, _) => (
                DispatchRun { dispatcher, phase: Phase::CheckingSender { attempt } },
                Action::CheckSender,
            ),
            (Phase::RetryBackoff { attempt }, _) => if attempt + 1 < FETCH_RETRY_COUNT {
                dispatcher.fetch_from_storages(attempt + 1)
            } else {
                fail(
                    dispatcher,
                    String::from_str("Failed to fetch transactions from storages."),
                )
            },
            (Phase::Sending { pending }, Event::Sent { delivered }) => if !delivered {
                finish(dispatcher, Err(RunError::SendFailed))
            } else if pending.len() > 0 {
                send_first(dispatcher, pending)
            } else {
                dispatcher.fetch_from_storages(0)
            },
            (Phase::SendingFailure, Event::Sent { delivered }) => if delivered {
                finish(dispatcher, Err(RunError::FetchFailed))
            } else {
                finish(dispatcher, Err(RunError::SendFailed))
            },
            (Phase::Draining, Event::DrainObserved { elapsed_millis, capacity }) => {
                if elapsed_millis > WAIT_TIME_BEFORE_CLOUSING_IN_MS as u128 || capacity
                    == dispatcher.sender_capacity {
                    finish(dispatcher, Ok(()))
                } else {
                    (
                        DispatchRun { dispatcher, phase: Phase::DrainPause },
                        Action::Sleep { millis: DRAIN_POLL_IN_MS },
                    )
                }
            },
            (Phase::DrainPause, _) => (
                DispatchRun { dispatcher, phase: Phase::Draining },
                Action::ObserveDrain,
            ),
            (phase, _) => (DispatchRun { dispatcher, phase }, Action::Finish(Ok(()))),
        }
    }
}

impl RunError {
    /// The message of the error.
    pub fn message(&self) -> (message: &'static str)
        ensures
            message@ == match *self {
                RunError::SendFailed => "Failed to send response to downstream."@,
                RunError::FetchFailed => "Failed to fetch transactions from storages."@,
            },
    {
        match self {
            RunError::SendFailed => "Failed to send response to downstream.",
            RunError::FetchFailed => "Failed to fetch transactions from storages.",
        }
    }
}

/// What is reported of a response that was sent.
pub struct DispatchReport {
    pub first_version: u64,
    pub end_version: u64,
    pub num_of_transactions: usize,
    pub first_version_timestamp: Option<Timestamp>,
    pub end_version_timestamp: Option<Timestamp>,
}

/// What is to be reported once `item` was sent; nothing for a failure.
pub fn dispatch_report(item: &Result<TransactionsResponse, Status>) -> (report: Option<
    DispatchReport,
>)
    requires
        item matches Ok(response) ==> response.transactions@.len() > 0,
    ensures
        report == match *item {
            Ok(response) => Some(
                DispatchReport {
                    first_version: response.transactions@.first().version,
                    end_version: response.transactions@.last().version,
                    num_of_transactions: response.transactions.len(),
                    first_version_timestamp: response.transactions@.first().timestamp,
                    end_version_timestamp: response.transactions@.last().timestamp,
                },
            ),
            Err(_) => None,
        },
{
    match item {
        Ok(response) => {
            let first = &response.transactions[0];
            let last = &response.transactions[response.transactions.len() - 1];
            Some(
                DispatchReport {
                    first_version: first.version,
                    end_version: last.version,
                    num_of_transactions: response.transactions.len(),
                    first_version_timestamp: first.timestamp,
                    end_version_timestamp: last.timestamp,
                },
            )
        },
        Err(_) => None,
    }
}

/// What is reported of a batch that was fetched.
#[derive(Clone, Copy, PartialEq, Eq, Structural)]
pub struct FetchReport {
    pub source: FetchSource,
    pub start_version: u64,
    pub end_version: u64,
    pub num_of_transactions: u64,
}

/// What is to be reported once a dispatcher that stood at `start_version` has
/// taken in a batch of `storage`; nothing where it has not moved.
pub fn fetch_report(dispatcher: &GrpcResponseDispatcher, start_version: u64, storage: usize) -> (
    report: Option<FetchReport>)
    requires
        start_version <= dispatcher.next_version_to_process,
    ensures
        report == if start_version == dispatcher.next_version_to_process {
            None
        } else {
            Some(
                FetchReport {
                    source: if storage == 0 {
                        FetchSource::Memory
                    } else {
                        FetchSource::Filestore
                    },
                    start_version,
                    end_version: (dispatcher.next_version_to_process - 1) as u64,
                    num_of_transactions: (dispatcher.next_version_to_process
                        - start_version) as u64,
                },
            )
        },
{
    let next_version = dispatcher.next_version_to_process;
    if start_version == next_version {
        return None;
    }
    Some(
        FetchReport {
            source: fetch_source(storage),
            start_version,
            end_version: next_version - 1,
            num_of_transactions: next_version - start_version,
        },
    )
}

/// The kind of storage that a batch came from.
#[derive(Clone, Copy, PartialEq, Eq, Structural)]
pub enum FetchSource {
    Memory,
    Filestore,
}

/// The first storage is the one in memory; all others are file stores.
pub fn fetch_source(storage: usize) -> (source: FetchSource)
    ensures
        source == (if storage == 0 {
            FetchSource::Memory
        } else {
            FetchSource::Filestore
        }),
{
    match storage {
        0 => FetchSource::Memory,
        _ => FetchSource::Filestore,
    }
}

} // verus!
