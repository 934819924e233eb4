//! What a run does about every answer that it can get: which storage is asked
//! next, when it waits and for how long, when it gives up, and what the client
//! is told then.

use crate::batch;
use crate::batch::{ResponseView, Transaction, TransactionsResponse};
use crate::dispatch_run;
use crate::dispatch_run::{
    Action, ActionView, DispatchRun, Event, EventView, ItemView, Phase, PhaseView, RunError,
    RunView, StorageReadStatus,
};
use crate::grpc_response_dispatcher;
use crate::grpc_response_dispatcher::{
    Fetch, GrpcResponseDispatcher, StorageReadError, StorageReadErrorView,
};
use crate::rpc_status;
use crate::rpc_status::{Status, StatusView};
use vstd::prelude::*;

verus! {

/// The client is told that the stream failed: the message is an internal error,
/// which the channel has two minutes to accept. The dispatcher stays as it is.
pub open spec fn tells_failure(
    step: (RunView, ActionView),
    d: GrpcResponseDispatcher,
    message: Seq<char>,
) -> bool {
    &&& step.0 == (RunView { dispatcher: d, phase: PhaseView::SendingFailure })
    &&& step.1 == (ActionView::Send {
        item: ItemView::Failure(StatusView { code: 13, message }),
        timeout_secs: 120,
    })
}

/// The batch is asked for again after half a second.
pub open spec fn backs_off(
    step: (RunView, ActionView),
    d: GrpcResponseDispatcher,
    attempt: int,
) -> bool {
    &&& step.0 == (RunView { dispatcher: d, phase: PhaseView::RetryBackoff { attempt } })
    &&& step.1 == (ActionView::Sleep { millis: 500 })
}

/// The next search for a batch starts with a look at the sender, unless the
/// stream owes nothing more: then it ends, and a channel that may still hold
/// messages is watched first.
pub open spec fn searches(
    step: (RunView, ActionView),
    d: GrpcResponseDispatcher,
    attempt: int,
) -> bool {
    if d.transaction_count == Some(0u64) {
        &&& step.0 == (RunView { dispatcher: d, phase: PhaseView::Draining })
        &&& step.1 == ActionView::ObserveDrain
    } else {
        &&& step.0 == (RunView { dispatcher: d, phase: PhaseView::CheckingSender { attempt } })
        &&& step.1 == ActionView::CheckSender
    }
}

/// An error of a storage: a transient one is worth another attempt, a permanent
/// one ends the stream, and the client is told whose error it was.
pub open spec fn answers_error(
    step: (RunView, ActionView),
    d: GrpcResponseDispatcher,
    attempt: int,
    error: StorageReadErrorView,
) -> bool {
    match error {
        StorageReadErrorView::TransientError(_, _) => backs_off(step, d, attempt),
        StorageReadErrorView::PermenantError(name, _) => tells_failure(
            step,
            d,
            "Failed to fetch transactions from storages, "@ + name,
        ),
    }
}

/// A run starts with its first search.
pub proof fn law_run_starts_with_a_search(d: GrpcResponseDispatcher)
    ensures
        searches(dispatch_run::started(d), d, 0),
{
}

/// Storages are only asked while the client is there, the first one first. A
/// client that has gone away ends the run. Without storages the run goes on
/// watching the client.
pub proof fn law_client_is_looked_at_before_storages(s: RunView, attempt: int)
    requires
        s.phase == (PhaseView::CheckingSender { attempt }),
    ensures
        tells_failure(
            dispatch_run::stepped(s, EventView::SenderChecked { closed: true }),
            s.dispatcher,
            "Failed to fetch transactions from storages, "@ + "GrpcResponseDispatcher"@,
        ),
        dispatch_run::stepped(
            s,
            EventView::SenderChecked { closed: false },
        ) == if s.dispatcher.num_storages == 0 {
            (s, ActionView::CheckSender)
        } else {
            (
                RunView {
                    dispatcher: s.dispatcher,
                    phase: PhaseView::ReadingMetadata { attempt, storage: 0 },
                },
                ActionView::ReadMetadata { storage: 0 },
            )
        },
{
}

/// A storage that has told its chain is asked for the next version of the
/// stream; one that fails to is an error.
pub proof fn law_storage_is_asked_for_the_next_version(
    s: RunView,
    attempt: int,
    storage: int,
    chain_id: u64,
    error: StorageReadErrorView,
)
    requires
        s.phase == (PhaseView::ReadingMetadata { attempt, storage }),
    ensures
        dispatch_run::stepped(s, EventView::MetadataRead(Ok(chain_id))) == (
            RunView {
                dispatcher: s.dispatcher,
                phase: PhaseView::ReadingTransactions { attempt, storage, chain_id },
            },
            ActionView::ReadTransactions {
                storage,
                version: s.dispatcher.next_version_to_process as int,
            },
        ),
        answers_error(
            dispatch_run::stepped(s, EventView::MetadataRead(Err(error))),
            s.dispatcher,
            attempt,
            error,
        ),
{
}

/// Data that a storage does not know is looked for in the next one. Data that is
/// not there yet is waited for, if it is the first storage that says so. In any
/// other case there is a gap between the storages, and the stream fails. An error
/// of the storage is an error.
pub proof fn law_storages_are_asked_in_turn(
    s: RunView,
    attempt: int,
    storage: int,
    chain_id: u64,
    error: StorageReadErrorView,
)
    requires
        s.phase == (PhaseView::ReadingTransactions { attempt, storage, chain_id }),
        0 <= storage < s.dispatcher.num_storages,
    ensures
        storage + 1 < s.dispatcher.num_storages ==> dispatch_run::stepped(s, EventView::NotFound)
            == (
            RunView {
                dispatcher: s.dispatcher,
                phase: PhaseView::ReadingMetadata { attempt, storage: storage + 1 },
            },
            ActionView::ReadMetadata { storage: storage + 1 },
        ),
        storage + 1 == s.dispatcher.num_storages ==> tells_failure(
            dispatch_run::stepped(s, EventView::NotFound),
            s.dispatcher,
            "Failed to fetch transactions from storages, "@ + "GrpcResponseDispatcher"@,
        ),
        storage == 0 ==> dispatch_run::stepped(s, EventView::NotAvailableYet) == (
            RunView { dispatcher: s.dispatcher, phase: PhaseView::NotAvailable { attempt } },
            ActionView::Sleep { millis: 10 },
        ),
        storage > 0 ==> tells_failure(
            dispatch_run::stepped(s, EventView::NotAvailableYet),
            s.dispatcher,
            "Failed to fetch transactions from storages, "@ + "GrpcResponseDispatcher"@,
        ),
        answers_error(
            dispatch_run::stepped(s, EventView::ReadFailed(error)),
            s.dispatcher,
            attempt,
            error,
        ),
{
}

/// Waiting for data does not use up attempts: the search starts over with the
/// same one.
pub proof fn law_waiting_uses_no_attempt(s: RunView, attempt: int)
    requires
        s.phase == (PhaseView::NotAvailable { attempt }),
    ensures
        dispatch_run::stepped(s, EventView::Slept) == (
            RunView { dispatcher: s.dispatcher, phase: PhaseView::CheckingSender { attempt } },
            ActionView::CheckSender,
        ),
{
}

/// A failed attempt is followed by the next one, a hundred in all; only then the
/// stream fails.
pub proof fn law_hundred_attempts(s: RunView, attempt: int)
    requires
        s.phase == (PhaseView::RetryBackoff { attempt }),
        0 <= attempt < 100,
    ensures
        attempt < 99 ==> searches(
            dispatch_run::stepped(s, EventView::Slept),
            s.dispatcher,
            attempt + 1,
        ),
        attempt == 99 ==> tells_failure(
            dispatch_run::stepped(s, EventView::Slept),
            s.dispatcher,
            "Failed to fetch transactions from storages."@,
        ),
{
}

/// Messages are sent one after the other, in order, each with two minutes to be
/// accepted. Behind the last one the next search starts, with all its attempts.
/// A message that is not accepted ends the run.
pub proof fn law_messages_are_sent_in_order(s: RunView, pending: Seq<ResponseView>)
    requires
        s.phase == (PhaseView::Sending { pending }),
    ensures
        pending.len() > 0 ==> dispatch_run::stepped(s, EventView::Sent { delivered: true }) == (
            RunView {
                dispatcher: s.dispatcher,
                phase: PhaseView::Sending { pending: pending.drop_first() },
            },
            ActionView::Send { item: ItemView::Response(pending.first()), timeout_secs: 120 },
        ),
        pending.len() == 0 ==> searches(
            dispatch_run::stepped(s, EventView::Sent { delivered: true }),
            s.dispatcher,
            0,
        ),
        dispatch_run::stepped(s, EventView::Sent { delivered: false }) == (
            RunView { dispatcher: s.dispatcher, phase: PhaseView::Done },
            ActionView::Finish(Err(RunError::SendFailed)),
        ),
{
    if pending.len() > 0 {
        assert(pending.skip(1) =~= pending.drop_first());
    }
}

/// A run that has told the client of a failure ends with the failure to fetch,
/// or with the failure to tell.
pub proof fn law_failed_run_ends(s: RunView, delivered: bool)
    requires
        s.phase is SendingFailure,
    ensures
        dispatch_run::stepped(s, EventView::Sent { delivered }) == (
            RunView { dispatcher: s.dispatcher, phase: PhaseView::Done },
            ActionView::Finish(
                Err(
                    if delivered {
                        RunError::FetchFailed
                    } else {
                        RunError::SendFailed
                    },
                ),
            ),
        ),
{
}

/// A channel is watched until it is empty again or a minute has passed, with a
/// look every second.
pub proof fn law_channel_is_watched_for_a_minute(s: RunView, elapsed_millis: int, capacity: int)
    requires
        s.phase is Draining,
    ensures
        ({
            let seen = EventView::DrainObserved { elapsed_millis, capacity };
            dispatch_run::stepped(s, seen) == if elapsed_millis > 60_000 || capacity
                == s.dispatcher.sender_capacity {
                (
                    RunView { dispatcher: s.dispatcher, phase: PhaseView::Done },
                    ActionView::Finish(Ok(())),
                )
            } else {
                (
                    RunView { dispatcher: s.dispatcher, phase: PhaseView::DrainPause },
                    ActionView::Sleep { millis: 1000 },
                )
            }
        }),
        dispatch_run::stepped(
            RunView { dispatcher: s.dispatcher, phase: PhaseView::DrainPause },
            EventView::Slept,
        ) == (s, ActionView::ObserveDrain),
{
}

/// What a run waits for is answered by one kind of event: it accepts that and no
/// other, whatever the event holds, but for a batch whose versions cannot be
/// counted.
pub proof fn law_every_answer_is_accepted(s: RunView, e: EventView)
    ensures
        match s.phase {
            PhaseView::CheckingSender { .. } => dispatch_run::expects(s, e) == (e
                is SenderChecked),
            PhaseView::ReadingMetadata { .. } => dispatch_run::expects(s, e) == (e
                is MetadataRead),
            PhaseView::ReadingTransactions { .. } => {
                &&& e is NotAvailableYet || e is NotFound || e is ReadFailed
                    ==> dispatch_run::expects(s, e)
                &&& dispatch_run::expects(s, e) ==> e is NotAvailableYet || e is NotFound || e
                    is ReadFailed || e is BatchRead
            },
            PhaseView::NotAvailable { .. } => dispatch_run::expects(s, e) == (e is Slept),
            PhaseView::RetryBackoff { .. } => dispatch_run::expects(s, e) == (e is Slept),
            PhaseView::Sending { .. } => dispatch_run::expects(s, e) == (e is Sent),
            PhaseView::SendingFailure => dispatch_run::expects(s, e) == (e is Sent),
            PhaseView::Draining => dispatch_run::expects(s, e) == (e is DrainObserved),
            PhaseView::DrainPause => dispatch_run::expects(s, e) == (e is Slept),
            PhaseView::Done => !dispatch_run::expects(s, e),
        },
{
}

/// A status shows its code and its message.
pub proof fn law_status_shows_all(status: Status, message: Seq<char>)
    ensures
        status@.code == status.code,
        status@.message == status.message@,
        rpc_status::internal_status(message).code == 13,
        rpc_status::internal_status(message).message == message,
{
}

/// An error shows whether it is worth another attempt, who reports it, and the
/// message.
pub proof fn law_errors_show_all(name: String, message: String)
    ensures
        StorageReadError::TransientError(name, message)@ == StorageReadErrorView::TransientError(
            name@,
            message@,
        ),
        StorageReadError::PermenantError(name, message)@ == StorageReadErrorView::PermenantError(
            name@,
            message@,
        ),
{
}

/// What was fetched shows its messages, or its error.
pub proof fn law_fetches_show_all(responses: Vec<TransactionsResponse>, error: StorageReadError)
    ensures
        grpc_response_dispatcher::fetch_view(Ok(responses)) == Fetch::Batch(
            batch::views(responses@),
        ),
        grpc_response_dispatcher::fetch_view(Err(error)) == Fetch::Failed(error@),
{
}

/// A message shows its transactions, in order, and its chain.
pub proof fn law_messages_show_all(responses: Seq<TransactionsResponse>, i: int)
    requires
        0 <= i < responses.len(),
    ensures
        batch::views(responses).len() == responses.len(),
        batch::views(responses)[i].transactions == responses[i].transactions@,
        batch::views(responses)[i].chain_id == responses[i].chain_id,
{
}

/// An event shows what happened.
pub proof fn law_events_show_all(
    closed: bool,
    chain_id: u64,
    error: StorageReadError,
    chunks: Vec<Vec<Transaction>>,
    delivered: bool,
    elapsed_millis: u128,
    capacity: usize,
    i: int,
)
    ensures
        (Event::SenderChecked { closed })@ == (EventView::SenderChecked { closed }),
        Event::MetadataRead(Ok(chain_id))@ == EventView::MetadataRead(Ok(chain_id)),
        Event::MetadataRead(Err(error))@ == EventView::MetadataRead(Err(error@)),
        Event::TransactionsRead(Ok(StorageReadStatus::Found(chunks)))@ is BatchRead,
        Event::TransactionsRead(Ok(StorageReadStatus::Found(chunks)))@->BatchRead_0.len()
            == chunks@.len(),
        0 <= i < chunks@.len() ==> Event::TransactionsRead(
            Ok(StorageReadStatus::Found(chunks)),
        )@->BatchRead_0[i] == chunks@[i]@,
        Event::TransactionsRead(Ok(StorageReadStatus::NotAvailableYet))@
            == EventView::NotAvailableYet,
        Event::TransactionsRead(Ok(StorageReadStatus::NotFound))@ == EventView::NotFound,
        Event::TransactionsRead(Err(error))@ == EventView::ReadFailed(error@),
        Event::Slept@ == EventView::Slept,
        (Event::Sent { delivered })@ == (EventView::Sent { delivered }),
        (Event::DrainObserved { elapsed_millis, capacity })@ == (EventView::DrainObserved {
            elapsed_millis: elapsed_millis as int,
            capacity: capacity as int,
        }),
{
}

/// An action shows what it asks for.
pub proof fn law_actions_show_all(
    storage: usize,
    version: u64,
    millis: u64,
    timeout_secs: u64,
    response: TransactionsResponse,
    status: Status,
    result: Result<(), RunError>,
)
    ensures
        Action::CheckSender@ == ActionView::CheckSender,
        (Action::ReadMetadata { storage })@ == (ActionView::ReadMetadata {
            storage: storage as int,
        }),
        (Action::ReadTransactions { storage, version })@ == (ActionView::ReadTransactions {
            storage: storage as int,
            version: version as int,
        }),
        (Action::Sleep { millis })@ == (ActionView::Sleep { millis: millis as int }),
        (Action::Send { item: Ok(response), timeout_secs })@ == (ActionView::Send {
            item: ItemView::Response(
                ResponseView {
                    transactions: response.transactions@,
                    chain_id: response.chain_id,
                },
            ),
            timeout_secs: timeout_secs as int,
        }),
        (Action::Send { item: Err(status), timeout_secs })@ == (ActionView::Send {
            item: ItemView::Failure(
                StatusView { code: status.code as int, message: status.message@ },
            ),
            timeout_secs: timeout_secs as int,
        }),
        Action::ObserveDrain@ == ActionView::ObserveDrain,
        Action::Finish(result)@ == ActionView::Finish(result),
{
}

/// A run shows its dispatcher and what it waits for.
pub proof fn law_runs_show_all(
    run: DispatchRun,
    attempt: usize,
    storage: usize,
    chain_id: u64,
    pending: Vec<TransactionsResponse>,
)
    ensures
        (Phase::CheckingSender { attempt })@ == (PhaseView::CheckingSender {
            attempt: attempt as int,
        }),
        (Phase::ReadingMetadata { attempt, storage })@ == (PhaseView::ReadingMetadata {
            attempt: attempt as int,
            storage: storage as int,
        }),
        (Phase::ReadingTransactions { attempt, storage, chain_id })@
            == (PhaseView::ReadingTransactions {
            attempt: attempt as int,
            storage: storage as int,
            chain_id,
        }),
        (Phase::NotAvailable { attempt })@ == (PhaseView::NotAvailable { attempt: attempt as int }),
        (Phase::RetryBackoff { attempt })@ == (PhaseView::RetryBackoff { attempt: attempt as int }),
        (Phase::Sending { pending })@ == (PhaseView::Sending { pending: batch::views(pending@) }),
        Phase::SendingFailure@ == PhaseView::SendingFailure,
        Phase::Draining@ == PhaseView::Draining,
        Phase::DrainPause@ == PhaseView::DrainPause,
        Phase::Done@ == PhaseView::Done,
        run@.dispatcher == run.dispatcher,
        run@.phase == run.phase@,
{
}

} // verus!
