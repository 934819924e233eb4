//! What holds of a stream from its first step to its last, whatever the storages
//! and the channel answer.

use crate::batch;
use crate::batch::{ResponseView, Transaction};
use crate::dispatch_run;
use crate::dispatch_run::{
    ActionView, EventView, ItemView, PhaseView, RunError, RunView, FETCH_RETRY_COUNT,
};
use crate::grpc_response_dispatcher;
use crate::grpc_response_dispatcher::{Fetch, GrpcResponseDispatcher, StorageReadErrorView};
use crate::rpc_status;
use vstd::prelude::*;

verus! {

/// The state of a run and its last action, after the given events.
pub open spec fn reached(d: GrpcResponseDispatcher, events: Seq<EventView>) -> (RunView, ActionView)
    decreases events.len(),
{
    if events.len() == 0 {
        dispatch_run::started(d)
    } else {
        dispatch_run::stepped(reached(d, events.drop_last()).0, events.last())
    }
}

/// Every event answers what the run waited for when it came.
pub open spec fn admissible(d: GrpcResponseDispatcher, events: Seq<EventView>) -> bool
    decreases events.len(),
{
    events.len() == 0 || {
        &&& admissible(d, events.drop_last())
        &&& dispatch_run::expects(reached(d, events.drop_last()).0, events.last())
    }
}

/// The transactions that an action hands to the channel.
pub open spec fn handed_by(action: ActionView) -> Seq<Transaction> {
    match action {
        ActionView::Send { item: ItemView::Response(response), .. } => response.transactions,
        _ => Seq::empty(),
    }
}

/// All transactions handed to the channel so far, in order.
pub open spec fn handed_over(d: GrpcResponseDispatcher, events: Seq<EventView>) -> Seq<Transaction>
    decreases events.len(),
{
    if events.len() == 0 {
        handed_by(reached(d, events).1)
    } else {
        handed_over(d, events.drop_last()) + handed_by(reached(d, events).1)
    }
}

/// A storage answered that it has the data, and then gave none.
pub open spec fn is_empty_read(e: EventView) -> bool {
    e matches EventView::BatchRead(chunks) && chunks.len() == 0
}

/// Some storage gave an empty batch.
pub open spec fn some_empty_read(events: Seq<EventView>) -> bool {
    exists|i: int| 0 <= i < events.len() && is_empty_read(#[trigger] events[i])
}

spec fn pending_of(phase: PhaseView) -> Seq<ResponseView> {
    match phase {
        PhaseView::Sending { pending } => pending,
        _ => Seq::empty(),
    }
}

/// `handed` are the transactions handed over before a state with this dispatcher
/// and these pending responses, in a stream that started as `d`.
spec fn balanced(
    d: GrpcResponseDispatcher,
    now: GrpcResponseDispatcher,
    handed: Seq<Transaction>,
    pending: Seq<ResponseView>,
) -> bool {
    let moved = handed + batch::transactions_of(pending);
    &&& batch::consecutive_from(moved, d.next_version_to_process as int)
    &&& now.next_version_to_process == d.next_version_to_process + moved.len()
    &&& match d.transaction_count {
        Some(count) => now.transaction_count matches Some(owed) && owed + moved.len() == count,
        None => now.transaction_count is None,
    }
    &&& now.num_storages == d.num_storages
    &&& now.sender_capacity == d.sender_capacity
    &&& !batch::some_response_empty(pending)
}

/// `handed` is a part of the stream that `d` starts, from its beginning on.
spec fn within(d: GrpcResponseDispatcher, handed: Seq<Transaction>) -> bool {
    &&& batch::consecutive_from(handed, d.next_version_to_process as int)
    &&& d.transaction_count matches Some(count) ==> handed.len() <= count
}

/// The channel refused a message: what was pending is lost.
spec fn cut_off(a: ActionView) -> bool {
    a == ActionView::Finish(Err(RunError::SendFailed))
}

/// The stream is over, or about to be, without a failure.
spec fn ending(s: RunView, a: ActionView) -> bool {
    s.phase is Draining || s.phase is DrainPause || a == ActionView::Finish(Ok(()))
}

/// What a step from a balanced state leads to.
spec fn step_keeps(
    d: GrpcResponseDispatcher,
    handed: Seq<Transaction>,
    step: (RunView, ActionView),
    empty_read: bool,
) -> bool {
    &&& within(d, handed + handed_by(step.1))
    &&& cut_off(step.1) || balanced(
        d,
        step.0.dispatcher,
        handed + handed_by(step.1),
        pending_of(step.0.phase),
    )
    &&& dispatch_run::valid(step.0)
    &&& step.0.phase is SendingFailure <==> (step.1 matches ActionView::Send {
        item: ItemView::Failure(_),
        ..
    })
    &&& step.0.phase is Done <==> step.1 is Finish
    &&& step.1 matches ActionView::Send { item: ItemView::Response(r), .. } ==> r.transactions.len()
        > 0
    &&& step.1 matches ActionView::ReadTransactions { version, .. } ==> version
        == step.0.dispatcher.next_version_to_process && step.0.phase is ReadingTransactions
    &&& ending(step.0, step.1) ==> step.0.dispatcher.transaction_count == Some(0u64) || empty_read
}

proof fn lemma_closing(
    d: GrpcResponseDispatcher,
    now: GrpcResponseDispatcher,
    handed: Seq<Transaction>,
    empty_read: bool,
)
    requires
        balanced(d, now, handed, Seq::empty()),
        now.transaction_count == Some(0u64) || empty_read,
    ensures
        step_keeps(d, handed, dispatch_run::closing(now), empty_read),
{
    assert(handed + Seq::<Transaction>::empty() =~= handed);
}

proof fn lemma_fetched(
    d: GrpcResponseDispatcher,
    now: GrpcResponseDispatcher,
    handed: Seq<Transaction>,
    attempt: int,
    fetch: Fetch,
)
    requires
        balanced(d, now, handed, Seq::empty()),
        grpc_response_dispatcher::countable(now, fetch),
        0 <= attempt < FETCH_RETRY_COUNT,
    ensures
        step_keeps(
            d,
            handed,
            dispatch_run::fetched(now, attempt, fetch),
            fetch matches Fetch::Batch(rs) && rs.len() == 0,
        ),
{
    let start = d.next_version_to_process as int;
    let none = Seq::<Transaction>::empty();
    assert(handed + none =~= handed);
    let empty_read = fetch matches Fetch::Batch(rs) && rs.len() == 0;
    match grpc_response_dispatcher::checked_batch(now, fetch) {
        Fetch::Batch(kept) => {
            let responses = fetch->Batch_0;
            let all = batch::transactions_of(responses);
            let sent = batch::transactions_of(kept);
            assert(all.take(all.len() as int) =~= all);
            match now.transaction_count {
                Some(owed) => {
                    batch::lemma_first_transactions(responses, owed as nat);
                    batch::lemma_first_transactions_not_empty(responses, owed as nat);
                },
                None => {
                    assert(all.take(all.len() as int) =~= all);
                },
            }
            assert(sent =~= all.take(sent.len() as int));
            assert forall|i: int| 0 <= i < (handed + sent).len() implies (#[trigger] (handed
                + sent)[i]).version == start + i by {
                if i < handed.len() {
                    assert(handed[i] == (handed + none)[i]);
                } else {
                    assert(sent[i - handed.len()] == all[i - handed.len()]);
                }
            }
            let after = grpc_response_dispatcher::after_batch(now, fetch);
            if kept.len() == 0 {
                assert(sent.len() == 0);
                assert(after == now);
                lemma_closing(d, after, handed, empty_read);
            } else {
                let rest = kept.skip(1);
                assert(sent == kept[0].transactions + batch::transactions_of(rest));
                assert(handed + sent =~= handed + kept[0].transactions + batch::transactions_of(
                    rest,
                ));
                assert(!batch::some_response_empty(kept));
                assert forall|i: int| 0 <= i < rest.len() implies (
                #[trigger] rest[i]).transactions.len() != 0 by {
                    assert(rest[i] == kept[i + 1]);
                }
                assert(kept[0].transactions.len() != 0);
                let now_handed = handed + kept[0].transactions;
                assert forall|i: int| 0 <= i < now_handed.len() implies (
                #[trigger] now_handed[i]).version == start + i by {
                    assert(now_handed[i] == (handed + sent)[i]);
                }
            }
        },
        Fetch::Failed(e) => {
            assert(handed + none + none =~= handed);
        },
    }
}

proof fn lemma_asking(
    d: GrpcResponseDispatcher,
    now: GrpcResponseDispatcher,
    handed: Seq<Transaction>,
    attempt: int,
    storage: int,
)
    requires
        balanced(d, now, handed, Seq::empty()),
        0 <= attempt < FETCH_RETRY_COUNT,
        0 <= storage,
    ensures
        step_keeps(d, handed, dispatch_run::asking(now, attempt, storage), false),
{
    assert(handed + Seq::<Transaction>::empty() =~= handed);
    lemma_fetched(d, now, handed, attempt, dispatch_run::gap());
}

/// What every reachable state keeps.
proof fn lemma_reached(d: GrpcResponseDispatcher, events: Seq<EventView>)
    requires
        admissible(d, events),
    ensures
        ({
            let (s, a) = reached(d, events);
            &&& within(d, handed_over(d, events))
            &&& cut_off(a) || balanced(
                d,
                s.dispatcher,
                handed_over(d, events),
                pending_of(s.phase),
            )
            &&& dispatch_run::valid(s)
            &&& s.phase is SendingFailure <==> (a matches ActionView::Send {
                item: ItemView::Failure(_),
                ..
            })
            &&& s.phase is Done <==> a is Finish
            &&& a matches ActionView::Send { item: ItemView::Response(r), .. }
                ==> r.transactions.len() > 0
            &&& a matches ActionView::ReadTransactions { version, .. } ==> version
                == s.dispatcher.next_version_to_process && s.phase is ReadingTransactions
            &&& ending(s, a) ==> s.dispatcher.transaction_count == Some(0u64) || some_empty_read(
                events,
            )
        }),
    decreases events.len(),
{
    let none = Seq::<Transaction>::empty();
    if events.len() == 0 {
        assert(none + none =~= none);
        assert(batch::transactions_of(Seq::empty()) =~= none);
        assert(balanced(d, d, none, Seq::empty()));
        if d.transaction_count == Some(0u64) {
            lemma_closing(d, d, none, false);
        }
    } else {
        let before = events.drop_last();
        let e = events.last();
        lemma_reached(d, before);
        let (s, a) = reached(d, before);
        let now = s.dispatcher;
        let handed = handed_over(d, before);
        let step = dispatch_run::stepped(s, e);
        assert(batch::transactions_of(Seq::empty()) =~= none);
        if some_empty_read(before) {
            let i = choose|i: int| 0 <= i < before.len() && is_empty_read(#[trigger] before[i]);
            assert(is_empty_read(events[i]));
        }
        if is_empty_read(e) {
            assert(is_empty_read(events[events.len() - 1]));
        }
        assert(handed + none =~= handed);
        let quiet = s.phase is Draining || s.phase is DrainPause;
        let empty_read = is_empty_read(e) || (quiet && some_empty_read(before));
        assert(step_keeps(d, handed, step, empty_read)) by {
            match (s.phase, e) {
                (
                    PhaseView::CheckingSender { attempt },
                    EventView::SenderChecked { closed },
                ) => if closed {
                    lemma_fetched(
                        d,
                        now,
                        handed,
                        attempt,
                        Fetch::Failed(grpc_response_dispatcher::permanent("Sender is closed."@)),
                    );
                } else {
                    lemma_asking(d, now, handed, attempt, 0);
                },
                (
                    PhaseView::ReadingMetadata { attempt, .. },
                    EventView::MetadataRead(Err(err)),
                ) => {
                    lemma_fetched(d, now, handed, attempt, Fetch::Failed(err));
                },
                (
                    PhaseView::ReadingTransactions { attempt, chain_id, .. },
                    EventView::BatchRead(chunks),
                ) => {
                    lemma_fetched(
                        d,
                        now,
                        handed,
                        attempt,
                        Fetch::Batch(dispatch_run::marked_responses(chunks, chain_id)),
                    );
                },
                (
                    PhaseView::ReadingTransactions { attempt, .. },
                    EventView::NotAvailableYet,
                ) => {
                    lemma_fetched(d, now, handed, attempt, dispatch_run::gap());
                },
                (
                    PhaseView::ReadingTransactions { attempt, storage, .. },
                    EventView::NotFound,
                ) => {
                    lemma_asking(d, now, handed, attempt, storage + 1);
                },
                (
                    PhaseView::ReadingTransactions { attempt, .. },
                    EventView::ReadFailed(err),
                ) => {
                    lemma_fetched(d, now, handed, attempt, Fetch::Failed(err));
                },
                (PhaseView::RetryBackoff { .. }, _) => {
                    if now.transaction_count == Some(0u64) {
                        lemma_closing(d, now, handed, empty_read);
                    }
                },
                (PhaseView::Sending { pending }, EventView::Sent { delivered }) => {
                    lemma_sent(d, now, handed, pending, delivered);
                },
                _ => {},
            }
        }
    }
}

proof fn lemma_sent(
    d: GrpcResponseDispatcher,
    now: GrpcResponseDispatcher,
    handed: Seq<Transaction>,
    pending: Seq<ResponseView>,
    delivered: bool,
)
    requires
        balanced(d, now, handed, pending),
    ensures
        step_keeps(
            d,
            handed,
            dispatch_run::stepped(
                RunView { dispatcher: now, phase: PhaseView::Sending { pending } },
                EventView::Sent { delivered },
            ),
            false,
        ),
{
    let none = Seq::<Transaction>::empty();
    let moved = handed + batch::transactions_of(pending);
    assert(handed + none =~= handed);
    assert(batch::consecutive_from(handed, d.next_version_to_process as int)) by {
        assert forall|i: int| 0 <= i < handed.len() implies (#[trigger] handed[i]).version
            == d.next_version_to_process + i by {
            assert(handed[i] == moved[i]);
        }
    }
    if delivered {
        if pending.len() > 0 {
            let rest = pending.skip(1);
            assert(moved =~= handed + pending[0].transactions + batch::transactions_of(rest));
            assert forall|i: int| 0 <= i < rest.len() implies (
            #[trigger] rest[i]).transactions.len() != 0 by {
                assert(rest[i] == pending[i + 1]);
            }
            assert(pending[0].transactions.len() != 0);
            let now_handed = handed + pending[0].transactions;
            assert forall|i: int| 0 <= i < now_handed.len() implies (
            #[trigger] now_handed[i]).version == d.next_version_to_process + i by {
                assert(now_handed[i] == moved[i]);
            }
        } else {
            assert(pending =~= Seq::empty());
            if now.transaction_count == Some(0u64) {
                lemma_closing(d, now, handed, false);
            }
        }
    }
}

/// The client sees every version once and in order: what is handed to the
/// channel counts up from the starting version, without a gap or a repetition.
pub proof fn law_stream_has_no_gap(d: GrpcResponseDispatcher, events: Seq<EventView>)
    requires
        admissible(d, events),
    ensures
        batch::consecutive_from(handed_over(d, events), d.next_version_to_process as int),
{
    lemma_reached(d, events);
}

/// A bounded stream never hands over more transactions than were asked for.
pub proof fn law_stream_is_bounded(d: GrpcResponseDispatcher, events: Seq<EventView>)
    requires
        admissible(d, events),
    ensures
        d.transaction_count matches Some(count) ==> handed_over(d, events).len() <= count,
{
    lemma_reached(d, events);
}

/// A stream that ends without a failure has delivered everything it was asked
/// for, and so had a bound, unless a storage gave an empty batch.
pub proof fn law_success_means_complete(d: GrpcResponseDispatcher, events: Seq<EventView>)
    requires
        admissible(d, events),
        !some_empty_read(events),
        reached(d, events).1 == ActionView::Finish(Ok(())),
    ensures
        d.transaction_count == Some(handed_over(d, events).len() as u64),
        handed_over(d, events).len() <= u64::MAX,
{
    lemma_reached(d, events);
    let s = reached(d, events).0;
    assert(batch::transactions_of(pending_of(s.phase)) =~= Seq::<Transaction>::empty());
    assert(handed_over(d, events) + Seq::<Transaction>::empty() =~= handed_over(d, events));
}

/// The storages are always asked for the version that follows what was handed over.
pub proof fn law_reads_follow_the_stream(d: GrpcResponseDispatcher, events: Seq<EventView>)
    requires
        admissible(d, events),
    ensures
        reached(d, events).1 matches ActionView::ReadTransactions { storage, version } ==> {
            &&& version == d.next_version_to_process + handed_over(d, events).len()
            &&& 0 <= storage < d.num_storages
        },
{
    lemma_reached(d, events);
    let (s, a) = reached(d, events);
    if a is ReadTransactions {
        assert(batch::transactions_of(pending_of(s.phase)) =~= Seq::<Transaction>::empty());
        assert(handed_over(d, events) + Seq::<Transaction>::empty() =~= handed_over(d, events));
        lemma_reached(d, events.drop_last());
    }
}

/// No message without transactions is sent.
pub proof fn law_no_empty_message(d: GrpcResponseDispatcher, events: Seq<EventView>)
    requires
        admissible(d, events),
    ensures
        reached(d, events).1 matches ActionView::Send { item: ItemView::Response(response), .. }
            ==> response.transactions.len() > 0,
{
    lemma_reached(d, events);
}

/// A failure is the last message: whatever comes of it, the run ends with an error.
pub proof fn law_failure_is_last(
    d: GrpcResponseDispatcher,
    events: Seq<EventView>,
    next: EventView,
)
    requires
        admissible(d, events.push(next)),
        reached(d, events).1 matches ActionView::Send { item: ItemView::Failure(_), .. },
    ensures
        reached(d, events.push(next)).1 matches ActionView::Finish(Err(_)),
        handed_over(d, events.push(next)) == handed_over(d, events),
{
    assert(events.push(next).drop_last() =~= events);
    lemma_reached(d, events);
    assert(handed_over(d, events) + Seq::<Transaction>::empty() =~= handed_over(d, events));
}

/// After the end nothing more is waited for.
pub proof fn law_end_is_final(
    d: GrpcResponseDispatcher,
    events: Seq<EventView>,
    next: EventView,
)
    requires
        admissible(d, events),
        reached(d, events).1 is Finish,
    ensures
        !admissible(d, events.push(next)),
{
    assert(events.push(next).drop_last() =~= events);
    lemma_reached(d, events);
}

/// One batch is asked for at most as often as the retry limit says.
pub proof fn law_retries_are_limited(d: GrpcResponseDispatcher, events: Seq<EventView>)
    requires
        admissible(d, events),
    ensures
        dispatch_run::attempt_fits(reached(d, events).0.phase),
{
    lemma_reached(d, events);
}

/// Data that has left one storage before the next one has it is a gap: the
/// client is told so, whether a later storage does not have it yet or the last
/// one does not know it.
pub proof fn law_gap_is_reported(
    d: GrpcResponseDispatcher,
    events: Seq<EventView>,
    next: EventView,
)
    requires
        admissible(d, events.push(next)),
        reached(d, events).0.phase matches PhaseView::ReadingTransactions { storage, .. } && {
            ||| next is NotAvailableYet && storage > 0
            ||| next is NotFound && storage + 1 == d.num_storages
        },
    ensures
        reached(d, events.push(next)).1 == dispatch_run::sending(
            ItemView::Failure(
                rpc_status::internal_status(
                    "Failed to fetch transactions from storages, "@ + "GrpcResponseDispatcher"@,
                ),
            ),
        ),
{
    assert(events.push(next).drop_last() =~= events);
    lemma_reached(d, events);
}

/// The client is told when a batch was asked for as often as the limit allows,
/// without success.
pub proof fn law_exhausted_retries_are_reported(
    d: GrpcResponseDispatcher,
    events: Seq<EventView>,
    next: EventView,
)
    requires
        admissible(d, events.push(next)),
        reached(d, events).0.phase == (PhaseView::RetryBackoff { attempt: FETCH_RETRY_COUNT - 1 }),
    ensures
        reached(d, events.push(next)).1 == dispatch_run::sending(
            ItemView::Failure(
                rpc_status::internal_status("Failed to fetch transactions from storages."@),
            ),
        ),
{
    assert(events.push(next).drop_last() =~= events);
}

/// A run whose client has gone away reads no more: it tries to say so, and ends
/// with an error.
pub proof fn law_closed_channel_ends_the_run(
    d: GrpcResponseDispatcher,
    events: Seq<EventView>,
    delivered: bool,
)
    requires
        admissible(d, events),
        reached(d, events).0.phase is CheckingSender,
    ensures
        ({
            let told = events.push(EventView::SenderChecked { closed: true });
            let ended = told.push(EventView::Sent { delivered });
            &&& admissible(d, ended)
            &&& reached(d, told).1 matches ActionView::Send { item: ItemView::Failure(_), .. }
            &&& reached(d, ended).1 matches ActionView::Finish(Err(_))
            &&& handed_over(d, ended) == handed_over(d, events)
        }),
{
    let told = events.push(EventView::SenderChecked { closed: true });
    let ended = told.push(EventView::Sent { delivered });
    assert(told.drop_last() =~= events);
    assert(ended.drop_last() =~= told);
    lemma_reached(d, events);
    assert(admissible(d, told));
    assert(reached(d, told).0.phase is SendingFailure);
    assert(admissible(d, ended));
    assert(handed_over(d, told) =~= handed_over(d, events));
    assert(handed_over(d, ended) =~= handed_over(d, told));
}

/// A message that the channel does not accept ends the run with an error.
pub proof fn law_refused_message_ends_the_run(d: GrpcResponseDispatcher, events: Seq<EventView>)
    requires
        admissible(d, events),
        reached(d, events).1 is Send,
    ensures
        admissible(d, events.push(EventView::Sent { delivered: false })),
        reached(d, events.push(EventView::Sent { delivered: false })).1 == ActionView::Finish(
            Err(RunError::SendFailed),
        ),
{
    assert(events.push(EventView::Sent { delivered: false }).drop_last() =~= events);
    lemma_reached(d, events);
}

proof fn lemma_kept_chain(responses: Seq<ResponseView>, count: nat, chain_id: Option<u64>)
    requires
        forall|i: int| 0 <= i < responses.len() ==> (#[trigger] responses[i]).chain_id == chain_id,
    ensures
        forall|i: int|
            0 <= i < batch::first_transactions(responses, count).len() ==> (
            #[trigger] batch::first_transactions(responses, count)[i]).chain_id == chain_id,
    decreases responses.len(),
{
    if count > 0 && responses.len() > 0 && responses[0].transactions.len() <= count {
        let rest = (count - responses[0].transactions.len()) as nat;
        assert forall|i: int| 0 <= i < responses.skip(1).len() implies (
        #[trigger] responses.skip(1)[i]).chain_id == chain_id by {
            assert(responses.skip(1)[i] == responses[i + 1]);
        }
        lemma_kept_chain(responses.skip(1), rest, chain_id);
        let kept = batch::first_transactions(responses, count);
        assert forall|i: int| 0 <= i < kept.len() implies (#[trigger] kept[i]).chain_id
            == chain_id by {
            if i > 0 {
                assert(kept[i] == batch::first_transactions(responses.skip(1), rest)[i - 1]);
            }
        }
    }
}

/// Every message that comes of a batch carries the chain of the storage that the
/// batch was read from.
pub proof fn law_messages_carry_their_chain(
    d: GrpcResponseDispatcher,
    chunks: Seq<Seq<Transaction>>,
    chain_id: u64,
)
    ensures
        grpc_response_dispatcher::checked_batch(
            d,
            Fetch::Batch(dispatch_run::marked_responses(chunks, chain_id)),
        ) matches Fetch::Batch(kept) ==> forall|i: int|
            0 <= i < kept.len() ==> (#[trigger] kept[i]).chain_id == Some(chain_id),
{
    let responses = dispatch_run::marked_responses(chunks, chain_id);
    if let Some(count) = d.transaction_count {
        lemma_kept_chain(responses, count as nat, Some(chain_id));
    }
}

// What the messages hold.

/// The smaller of what is owed and what there is; without a bound, all there is.
pub open spec fn owed_of(owed: Option<u64>, there: nat) -> int {
    match owed {
        Some(count) => if count <= there {
            count as int
        } else {
            there as int
        },
        None => there as int,
    }
}

/// Some chunk is empty, or some version does not follow the one before it.
pub open spec fn unusable(chunks: Seq<Seq<Transaction>>, next_version: int) -> bool {
    ||| exists|i: int| 0 <= i < chunks.len() && (#[trigger] chunks[i]).len() == 0
    ||| exists|i: int|
        0 <= i < chunks.flatten().len() && (#[trigger] chunks.flatten()[i]).version != next_version
            + i
}

/// The messages are the chunks of the chain, in order and each with all its
/// transactions as they are, up to the first `count` transactions in all.
pub open spec fn messages_of(
    messages: Seq<ResponseView>,
    chunks: Seq<Seq<Transaction>>,
    chain_id: u64,
    count: int,
) -> bool {
    &&& messages.len() <= chunks.len()
    &&& forall|i: int| 0 <= i < messages.len() ==> (#[trigger] messages[i]).chain_id == Some(
        chain_id,
    )
    &&& forall|i: int|
        0 <= i < messages.len() - 1 ==> (#[trigger] messages[i]).transactions == chunks[i]
    &&& messages.len() > 0 ==> {
        let last = messages.last().transactions;
        &&& 0 < last.len() <= chunks[messages.len() - 1].len()
        &&& last == chunks[messages.len() - 1].take(last.len() as int)
    }
    &&& messages.map_values(|message: ResponseView| message.transactions).flatten()
        == chunks.flatten().take(count)
}

proof fn lemma_marked(chunks: Seq<Seq<Transaction>>, chain_id: u64)
    ensures
        batch::transactions_of(dispatch_run::marked_responses(chunks, chain_id))
            == chunks.flatten(),
        batch::some_response_empty(dispatch_run::marked_responses(chunks, chain_id)) <==> exists|
            i: int,
        | 0 <= i < chunks.len() && (#[trigger] chunks[i]).len() == 0,
    decreases chunks.len(),
{
    let marked = dispatch_run::marked_responses(chunks, chain_id);
    if chunks.len() > 0 {
        lemma_marked(chunks.drop_first(), chain_id);
        assert(marked.skip(1) =~= dispatch_run::marked_responses(chunks.drop_first(), chain_id));
    }
    if batch::some_response_empty(marked) {
        let i = choose|i: int|
            0 <= i < marked.len() && (#[trigger] marked[i]).transactions.len() == 0;
        assert(chunks[i].len() == 0);
    }
    if exists|i: int| 0 <= i < chunks.len() && (#[trigger] chunks[i]).len() == 0 {
        let i = choose|i: int| 0 <= i < chunks.len() && (#[trigger] chunks[i]).len() == 0;
        assert(marked[i].transactions.len() == 0);
    }
}

proof fn lemma_all_transactions(responses: Seq<ResponseView>)
    ensures
        batch::transactions_of(responses) == responses.map_values(
            |message: ResponseView| message.transactions,
        ).flatten(),
    decreases responses.len(),
{
    if responses.len() > 0 {
        lemma_all_transactions(responses.skip(1));
        assert(responses.map_values(|message: ResponseView| message.transactions).drop_first()
            =~= responses.skip(1).map_values(|message: ResponseView| message.transactions));
    }
}

/// Taking the first transactions keeps whole responses, but for the last.
proof fn lemma_first_shape(responses: Seq<ResponseView>, count: nat)
    ensures
        ({
            let kept = batch::first_transactions(responses, count);
            &&& kept.len() <= responses.len()
            &&& forall|i: int| 0 <= i < kept.len() - 1 ==> #[trigger] kept[i] == responses[i]
            &&& kept.len() > 0 ==> {
                let last = kept.last();
                let whole = responses[kept.len() - 1];
                &&& last.chain_id == whole.chain_id
                &&& last.transactions.len() <= whole.transactions.len()
                &&& last.transactions == whole.transactions.take(last.transactions.len() as int)
            }
        }),
    decreases responses.len(),
{
    let kept = batch::first_transactions(responses, count);
    if count > 0 && responses.len() > 0 && responses[0].transactions.len() <= count {
        let rest = (count - responses[0].transactions.len()) as nat;
        lemma_first_shape(responses.skip(1), rest);
        let tail = batch::first_transactions(responses.skip(1), rest);
        assert(kept =~= seq![responses[0]] + tail);
        assert forall|i: int| 0 <= i < kept.len() - 1 implies #[trigger] kept[i]
            == responses[i] by {
            if i > 0 {
                assert(tail[i - 1] == responses.skip(1)[i - 1]);
            }
        }
        if tail.len() == 0 {
            assert(kept.last() == responses[0]);
            assert(responses[0].transactions.take(responses[0].transactions.len() as int)
                =~= responses[0].transactions);
        } else {
            assert(kept.last() == tail.last());
            assert(responses.skip(1)[tail.len() - 1] == responses[kept.len() - 1]);
        }
    }
}

/// Every batch is accepted whose versions can be counted through: one that does
/// not lead past the largest version, or that has an empty part.
pub proof fn law_batches_that_fit_are_accepted(
    s: RunView,
    attempt: int,
    storage: int,
    chain_id: u64,
    chunks: Seq<Seq<Transaction>>,
)
    requires
        s.phase == (PhaseView::ReadingTransactions { attempt, storage, chain_id }),
        s.dispatcher.next_version_to_process + chunks.flatten().len() <= u64::MAX || exists|i: int|
            0 <= i < chunks.len() && (#[trigger] chunks[i]).len() == 0,
    ensures
        dispatch_run::expects(s, EventView::BatchRead(chunks)),
{
    lemma_marked(chunks, chain_id);
}

/// What becomes of a batch that a storage gave. One that cannot be used changes
/// nothing and is asked for again after half a second. Of any other, exactly
/// what the stream still owes is sent, with every transaction as the storage
/// gave it, and the dispatcher moves on by that much.
pub proof fn law_batch_is_sent_as_read(
    s: RunView,
    attempt: int,
    storage: int,
    chain_id: u64,
    chunks: Seq<Seq<Transaction>>,
)
    requires
        s.phase == (PhaseView::ReadingTransactions { attempt, storage, chain_id }),
        dispatch_run::expects(s, EventView::BatchRead(chunks)),
        s.dispatcher.transaction_count != Some(0u64),
    ensures
        ({
            let d = s.dispatcher;
            let (next, action) = dispatch_run::stepped(s, EventView::BatchRead(chunks));
            let count = owed_of(d.transaction_count, chunks.flatten().len());
            if unusable(chunks, d.next_version_to_process as int) {
                &&& next == (RunView { dispatcher: d, phase: PhaseView::RetryBackoff { attempt } })
                &&& action == (ActionView::Sleep { millis: 500 })
            } else if chunks.len() == 0 {
                &&& next.dispatcher == d
                &&& d.transaction_count is Some ==> next.phase is Draining && action is ObserveDrain
                &&& d.transaction_count is None ==> next.phase is Done && action
                    == ActionView::Finish(Ok(()))
            } else {
                &&& action matches ActionView::Send {
                    item: ItemView::Response(first),
                    timeout_secs,
                }
                &&& timeout_secs == 120
                &&& next.phase matches PhaseView::Sending { pending }
                &&& messages_of(seq![first] + pending, chunks, chain_id, count)
                &&& next.dispatcher.next_version_to_process == d.next_version_to_process + count
                &&& match d.transaction_count {
                    Some(owed) => next.dispatcher.transaction_count == Some((owed - count) as u64),
                    None => next.dispatcher.transaction_count is None,
                }
                &&& next.dispatcher.num_storages == d.num_storages
                &&& next.dispatcher.sender_capacity == d.sender_capacity
            }
        }),
{
    let d = s.dispatcher;
    let start = d.next_version_to_process as int;
    let marked = dispatch_run::marked_responses(chunks, chain_id);
    let all = chunks.flatten();
    lemma_marked(chunks, chain_id);
    if batch::consecutive_from(all, start) {
        assert forall|i: int| 0 <= i < all.len() implies (#[trigger] all[i]).version == start
            + i by {}
    }
    if !unusable(chunks, start) {
        assert(batch::consecutive_from(all, start)) by {
            assert forall|i: int| 0 <= i < all.len() implies (#[trigger] all[i]).version == start
                + i by {}
        }
        assert(all.take(all.len() as int) =~= all);
        assert(start + all.len() <= u64::MAX);
        let kept = batch::kept_responses(marked, d.transaction_count);
        match d.transaction_count {
            Some(owed) => {
                batch::lemma_first_transactions(marked, owed as nat);
                batch::lemma_first_transactions_not_empty(marked, owed as nat);
                lemma_first_shape(marked, owed as nat);
                lemma_kept_chain(marked, owed as nat, Some(chain_id));
            },
            None => {
                if chunks.len() > 0 {
                    let last = chunks.last();
                    assert(last.take(last.len() as int) =~= last);
                    assert(chunks[chunks.len() - 1].len() != 0);
                }
            },
        }
        lemma_all_transactions(kept);
        if chunks.len() > 0 {
            assert(kept.len() > 0);
            assert(seq![kept[0]] + kept.skip(1) =~= kept);
            assert(kept[kept.len() - 1].transactions.len() != 0);
        }
    }
}

/// What a dispatcher makes of a batch, whatever chains its responses name: an
/// empty response or a version out of place is a transient error of its own and
/// changes nothing, and so is an error that was read. Of any other batch it keeps
/// the first transactions, as many as it owes, in their responses and with all
/// their fields, and moves on by that much.
pub proof fn law_batch_is_kept_as_it_is(
    d: GrpcResponseDispatcher,
    responses: Seq<ResponseView>,
    error: StorageReadErrorView,
)
    requires
        grpc_response_dispatcher::countable(d, Fetch::Batch(responses)),
    ensures
        grpc_response_dispatcher::checked_batch(d, Fetch::Failed(error)) == Fetch::Failed(error),
        grpc_response_dispatcher::after_batch(d, Fetch::Failed(error)) == d,
        ({
            let chunks = responses.map_values(|r: ResponseView| r.transactions);
            let all = chunks.flatten();
            let start = d.next_version_to_process as int;
            let checked = grpc_response_dispatcher::checked_batch(d, Fetch::Batch(responses));
            let after = grpc_response_dispatcher::after_batch(d, Fetch::Batch(responses));
            let count = owed_of(d.transaction_count, all.len());
            if exists|i: int|
                0 <= i < responses.len() && (#[trigger] responses[i]).transactions.len() == 0 {
                &&& after == d
                &&& checked == Fetch::Failed(
                    StorageReadErrorView::TransientError(
                        "GrpcResponseDispatcher"@,
                        "Empty responses from storages."@,
                    ),
                )
            } else if exists|i: int|
                0 <= i < all.len() && (#[trigger] all[i]).version != start + i {
                &&& after == d
                &&& checked == Fetch::Failed(
                    StorageReadErrorView::TransientError(
                        "GrpcResponseDispatcher"@,
                        "Version mismatch in response."@,
                    ),
                )
            } else {
                &&& checked matches Fetch::Batch(kept)
                &&& kept.len() <= responses.len()
                &&& kept.map_values(|r: ResponseView| r.transactions).flatten() == all.take(count)
                &&& forall|i: int| 0 <= i < kept.len() - 1 ==> #[trigger] kept[i] == responses[i]
                &&& kept.len() > 0 ==> {
                    let last = kept.last();
                    let whole = responses[kept.len() - 1];
                    &&& last.chain_id == whole.chain_id
                    &&& 0 < last.transactions.len() <= whole.transactions.len()
                    &&& last.transactions == whole.transactions.take(last.transactions.len() as int)
                }
                &&& after.next_version_to_process == start + count
                &&& match d.transaction_count {
                    Some(owed) => after.transaction_count == Some((owed - count) as u64),
                    None => after.transaction_count is None,
                }
                &&& after.num_storages == d.num_storages
                &&& after.sender_capacity == d.sender_capacity
            }
        }),
{
    let chunks = responses.map_values(|r: ResponseView| r.transactions);
    let all = chunks.flatten();
    let start = d.next_version_to_process as int;
    lemma_all_transactions(responses);
    if !batch::some_response_empty(responses) {
        if batch::consecutive_from(all, start) {
            assert forall|i: int| 0 <= i < all.len() implies (#[trigger] all[i]).version == start
                + i by {}
            assert(all.take(all.len() as int) =~= all);
            let kept = batch::kept_responses(responses, d.transaction_count);
            match d.transaction_count {
                Some(owed) => {
                    batch::lemma_first_transactions(responses, owed as nat);
                    batch::lemma_first_transactions_not_empty(responses, owed as nat);
                    lemma_first_shape(responses, owed as nat);
                },
                None => {
                    if responses.len() > 0 {
                        let last = responses.last().transactions;
                        assert(last.take(last.len() as int) =~= last);
                    }
                },
            }
            lemma_all_transactions(kept);
            if kept.len() > 0 {
                assert(kept[kept.len() - 1].transactions.len() != 0);
            }
        }
    }
}

// What the client receives.

/// The transactions of all batches that were accepted, as the storages gave them.
pub open spec fn accepted_reads(d: GrpcResponseDispatcher, events: Seq<EventView>) -> Seq<
    Transaction,
>
    decreases events.len(),
{
    if events.len() == 0 {
        Seq::empty()
    } else {
        accepted_reads(d, events.drop_last()) + (match (events.last(), reached(d, events).1) {
            (
                EventView::BatchRead(chunks),
                ActionView::Send { item: ItemView::Response(_), .. },
            ) => chunks.flatten(),
            _ => Seq::empty(),
        })
    }
}

/// The first list is what the second begins with.
pub open spec fn begins(part: Seq<Transaction>, whole: Seq<Transaction>) -> bool {
    part.len() <= whole.len() && part == whole.take(part.len() as int)
}

/// The run looks for the next batch.
pub open spec fn searching(phase: PhaseView) -> bool {
    phase is CheckingSender || phase is ReadingMetadata || phase is ReadingTransactions
        || phase is NotAvailable || phase is RetryBackoff
}

spec fn as_read(d: GrpcResponseDispatcher, events: Seq<EventView>) -> bool {
    let (s, a) = reached(d, events);
    let moved = handed_over(d, events) + batch::transactions_of(pending_of(s.phase));
    let read = accepted_reads(d, events);
    &&& begins(handed_over(d, events), read)
    &&& cut_off(a) || (begins(moved, read) && (moved == read || s.dispatcher.transaction_count
        == Some(0u64)))
    &&& searching(s.phase) ==> s.dispatcher.transaction_count != Some(0u64)
}

proof fn lemma_as_read(d: GrpcResponseDispatcher, events: Seq<EventView>)
    requires
        admissible(d, events),
    ensures
        as_read(d, events),
    decreases events.len(),
{
    let none = Seq::<Transaction>::empty();
    assert(batch::transactions_of(Seq::empty()) =~= none);
    if events.len() == 0 {
        assert(none + none =~= none);
        assert(none.take(0) =~= none);
    } else {
        let before = events.drop_last();
        let e = events.last();
        lemma_as_read(d, before);
        lemma_reached(d, before);
        let (s, a) = reached(d, before);
        let (s2, a2) = reached(d, events);
        let handed = handed_over(d, before);
        let read = accepted_reads(d, before);
        let handed2 = handed_over(d, events);
        let read2 = accepted_reads(d, events);
        assert(handed + none =~= handed);
        assert(read + none =~= read);
        match (s.phase, e) {
            (
                PhaseView::ReadingTransactions { attempt, storage, chain_id },
                EventView::BatchRead(chunks),
            ) => {
                law_batch_is_sent_as_read(s, attempt, storage, chain_id, chunks);
                let all = chunks.flatten();
                assert(handed == read);
                if a2 is Send {
                    let first = a2->item->Response_0;
                    let pending = s2.phase->pending;
                    let messages = seq![first] + pending;
                    let count = owed_of(s.dispatcher.transaction_count, all.len());
                    lemma_all_transactions(messages);
                    assert(messages.skip(1) =~= pending);
                    assert(batch::transactions_of(messages) == first.transactions
                        + batch::transactions_of(pending));
                    assert(handed2 + batch::transactions_of(pending) =~= handed + (
                    first.transactions + batch::transactions_of(pending)));
                    let moved2 = handed + all.take(count);
                    assert(moved2 =~= read2.take(moved2.len() as int));
                    assert(handed2 =~= read2.take(handed2.len() as int));
                    if count == all.len() {
                        assert(all.take(count) =~= all);
                    }
                } else {
                    assert(handed2 =~= handed);
                    assert(read2 =~= read);
                    assert(handed + none =~= handed);
                }
            },
            (PhaseView::Sending { pending }, EventView::Sent { delivered }) => {
                let moved = handed + batch::transactions_of(pending);
                assert(read2 =~= read);
                if delivered && pending.len() > 0 {
                    let rest = batch::transactions_of(pending.skip(1));
                    assert(handed2 + rest =~= moved);
                    assert(handed2 =~= read2.take(handed2.len() as int)) by {
                        assert forall|i: int| 0 <= i < handed2.len() implies handed2[i]
                            == read2[i] by {
                            assert(handed2[i] == moved[i]);
                            assert(moved[i] == read.take(moved.len() as int)[i]);
                        }
                    }
                } else {
                    if pending.len() == 0 {
                        assert(pending =~= Seq::empty());
                        assert(moved =~= handed);
                    }
                    assert(handed2 =~= handed);
                    assert(handed2 + none =~= handed2);
                }
            },
            _ => {
                assert(handed2 =~= handed);
                assert(read2 =~= read);
                assert(handed2 + none =~= handed2);
            },
        }
    }
}

/// The client receives the transactions as the storages have them, in all their
/// fields: what was handed to the channel is what the accepted batches, one
/// behind the other, begin with.
pub proof fn law_client_receives_what_was_read(
    d: GrpcResponseDispatcher,
    events: Seq<EventView>,
)
    requires
        admissible(d, events),
    ensures
        handed_over(d, events).len() <= accepted_reads(d, events).len(),
        forall|i: int|
            0 <= i < handed_over(d, events).len() ==> #[trigger] handed_over(d, events)[i]
                == accepted_reads(d, events)[i],
{
    lemma_as_read(d, events);
    let handed = handed_over(d, events);
    let read = accepted_reads(d, events);
    assert forall|i: int| 0 <= i < handed.len() implies #[trigger] handed[i] == read[i] by {
        assert(handed[i] == read.take(handed.len() as int)[i]);
    }
}

/// Nothing that was read is held back: when the run looks for the next batch, it
/// has handed over everything that it accepted.
pub proof fn law_nothing_read_is_held_back(d: GrpcResponseDispatcher, events: Seq<EventView>)
    requires
        admissible(d, events),
        searching(reached(d, events).0.phase),
    ensures
        handed_over(d, events) == accepted_reads(d, events),
{
    lemma_as_read(d, events);
    lemma_reached(d, events);
    let none = Seq::<Transaction>::empty();
    assert(batch::transactions_of(Seq::empty()) =~= none);
    assert(handed_over(d, events) + none =~= handed_over(d, events));
}

} // verus!
