//! The dispatcher of one transaction stream: it reads batches from a list of
//! storages, checks and trims them, and hands them to the client's channel.

use crate::batch;
use crate::batch::{ResponseView, TransactionsResponse};
use vstd::prelude::*;

verus! {

/// The name under which the dispatcher reports its own errors.
pub const RESPONSE_DISPATCH_NAME: &'static str = "GrpcResponseDispatcher";

/// Why a batch could not be read. A transient error is worth another attempt.
pub enum StorageReadError {
    TransientError(String, String),
    PermenantError(String, String),
}

/// What a [`StorageReadError`] says: who reports it, and the message.
pub enum StorageReadErrorView {
    TransientError(Seq<char>, Seq<char>),
    PermenantError(Seq<char>, Seq<char>),
}

impl View for StorageReadError {
    type V = StorageReadErrorView;

    open spec fn view(&self) -> StorageReadErrorView {
        match self {
            StorageReadError::TransientError(name, message) => {
                StorageReadErrorView::TransientError(name@, message@)
            },
            StorageReadError::PermenantError(name, message) => {
                StorageReadErrorView::PermenantError(name@, message@)
            },
        }
    }
}

/// A transient error of the dispatcher itself.
pub open spec fn transient(message: Seq<char>) -> StorageReadErrorView {
    StorageReadErrorView::TransientError(RESPONSE_DISPATCH_NAME@, message)
}

/// A permanent error of the dispatcher itself.
pub open spec fn permanent(message: Seq<char>) -> StorageReadErrorView {
    StorageReadErrorView::PermenantError(RESPONSE_DISPATCH_NAME@, message)
}

pub(crate) fn transient_error(message: &str) -> (e: StorageReadError)
    ensures
        e@ == transient(message@),
{
    StorageReadError::TransientError(
        String::from_str(RESPONSE_DISPATCH_NAME),
        String::from_str(message),
    )
}

pub(crate) fn permanent_error(message: &str) -> (e: StorageReadError)
    ensures
        e@ == permanent(message@),
{
    StorageReadError::PermenantError(
        String::from_str(RESPONSE_DISPATCH_NAME),
        String::from_str(message),
    )
}

/// A batch as it is read, or why there is none.
pub enum Fetch {
    Batch(Seq<ResponseView>),
    Failed(StorageReadErrorView),
}

/// The view of a fetched batch.
pub open spec fn fetch_view(
    result: Result<Vec<TransactionsResponse>, StorageReadError>,
) -> Fetch {
    match result {
        Ok(responses) => Fetch::Batch(batch::views(responses@)),
        Err(e) => Fetch::Failed(e@),
    }
}

/// Where one stream stands: the next version to deliver, and how many
/// transactions are still owed where the stream is bounded.
#[derive(Clone, Copy, PartialEq, Eq, Structural)]
pub struct GrpcResponseDispatcher {
    pub next_version_to_process: u64,
    pub transaction_count: Option<u64>,
    pub num_storages: usize,
    pub sender_capacity: usize,
}

/// What a dispatcher makes of a batch: what it delivers, or why it rejects it.
pub open spec fn checked_batch(d: GrpcResponseDispatcher, fetched: Fetch) -> Fetch {
    match fetched {
        Fetch::Failed(e) => Fetch::Failed(e),
        Fetch::Batch(responses) => if batch::some_response_empty(responses) {
            Fetch::Failed(transient("Empty responses from storages."@))
        } else if !batch::consecutive_from(
            batch::transactions_of(responses),
            d.next_version_to_process as int,
        ) {
            Fetch::Failed(transient("Version mismatch in response."@))
        } else {
            Fetch::Batch(batch::kept_responses(responses, d.transaction_count))
        },
    }
}

/// The dispatcher after it delivered `count` transactions.
pub open spec fn advanced(d: GrpcResponseDispatcher, count: nat) -> GrpcResponseDispatcher {
    GrpcResponseDispatcher {
        next_version_to_process: (d.next_version_to_process + count) as u64,
        transaction_count: match d.transaction_count {
            Some(owed) => Some((owed - count) as u64),
            None => None,
        },
        ..d
    }
}

/// The dispatcher after it took in a batch; a rejected batch changes nothing.
pub open spec fn after_batch(d: GrpcResponseDispatcher, fetched: Fetch) -> GrpcResponseDispatcher {
    match checked_batch(d, fetched) {
        Fetch::Batch(kept) => advanced(d, batch::transactions_of(kept).len()),
        Fetch::Failed(_) => d,
    }
}

/// The versions of a batch can be counted through, unless it is rejected before.
pub open spec fn countable(d: GrpcResponseDispatcher, fetched: Fetch) -> bool {
    match fetched {
        Fetch::Batch(responses) => batch::some_response_empty(responses) || batch::versions_fit(
            batch::transactions_of(responses),
            d.next_version_to_process as int,
        ),
        Fetch::Failed(_) => true,
    }
}

fn any_response_empty(responses: &Vec<TransactionsResponse>) -> (found: bool)
    ensures
        found == batch::some_response_empty(batch::views(responses@)),
{
    let mut i: usize = 0;
    while i < responses.len()
        invariant
            i <= responses.len(),
            forall|j: int| 0 <= j < i ==> (#[trigger] responses[j]).transactions@.len() != 0,
        decreases responses.len() - i,
    {
        if responses[i].transactions.len() == 0 {
            assert(batch::views(responses@)[i as int].transactions.len() == 0);
            return true;
        }
        i += 1;
    }
    assert forall|j: int| 0 <= j < batch::views(responses@).len() implies (#[trigger] batch::views(
        responses@,
    )[j]).transactions.len() != 0 by {
        assert(responses[j].transactions@.len() != 0);
    }
    false
}

/// Counts through the versions of a batch: the version that comes next, or
/// nothing where a transaction is out of place.
fn count_versions(responses: &Vec<TransactionsResponse>, start: u64) -> (end: Option<u64>)
    requires
        batch::versions_fit(batch::transactions_of(batch::views(responses@)), start as int),
    ensures
        end is Some <==> batch::consecutive_from(
            batch::transactions_of(batch::views(responses@)),
            start as int,
        ),
        end matches Some(v) ==> v == start + batch::transactions_of(batch::views(responses@)).len(),
{
    let ghost vs = batch::views(responses@);
    let ghost all = batch::transactions_of(vs);
    let mut version = start;
    let mut i: usize = 0;
    proof {
        assert(vs.take(0) =~= Seq::empty());
        assert(vs.skip(0) =~= vs);
        assert(all =~= batch::transactions_of(vs.take(0)) + all);
    }
    while i < responses.len()
        invariant
            i <= responses.len(),
            vs == batch::views(responses@),
            all == batch::transactions_of(vs),
            batch::versions_fit(all, start as int),
            version == start + batch::transactions_of(vs.take(i as int)).len(),
            all == batch::transactions_of(vs.take(i as int)) + batch::transactions_of(
                vs.skip(i as int),
            ),
            batch::consecutive_from(batch::transactions_of(vs.take(i as int)), start as int),
        decreases responses.len() - i,
    {
        let transactions = &responses[i].transactions;
        let ghost before = batch::transactions_of(vs.take(i as int));
        proof {
            batch::lemma_transactions_split(vs, i as int);
        }
        let ghost upto = batch::transactions_of(vs.take(i + 1));
        let mut j: usize = 0;
        while j < transactions.len()
            invariant
                j <= transactions.len(),
                i < responses.len(),
                vs == batch::views(responses@),
                all == batch::transactions_of(vs),
                transactions == responses[i as int].transactions,
                upto == before + transactions@,
                all == upto + batch::transactions_of(vs.skip(i + 1)),
                batch::versions_fit(all, start as int),
                version == start + before.len() + j,
                forall|k: int|
                    0 <= k < before.len() + j ==> (#[trigger] all[k]).version == start + k,
            decreases transactions.len() - j,
        {
            let ghost at = before.len() + j;
            assert(all[at as int] == transactions@[j as int]);
            if transactions[j].version != version {
                assert(all[at as int].version != start + at);
                return None;
            }
            assert(batch::consecutive_from(all.take(at + 1), start as int)) by {
                assert forall|k: int| 0 <= k < at + 1 implies (#[trigger] all.take(
                    at + 1,
                )[k]).version == start + k by {
                    assert(all.take(at + 1)[k] == all[k]);
                }
            }
            version += 1;
            j += 1;
        }
        assert forall|k: int| 0 <= k < upto.len() implies (#[trigger] upto[k]).version == start
            + k by {
            assert(upto[k] == all[k]);
        }
        i += 1;
    }
    proof {
        assert(vs.take(i as int) =~= vs);
    }
    Some(version)
}

/// Keeps the first `count` transactions of a batch, and says how many that is.
fn keep_first(responses: Vec<TransactionsResponse>, count: u64) -> (kept: (
    Vec<TransactionsResponse>,
    u64,
))
    ensures
        batch::views(kept.0@) == batch::first_transactions(batch::views(responses@), count as nat),
        kept.1 == batch::transactions_of(batch::views(kept.0@)).len(),
{
    let ghost vs = batch::views(responses@);
    let mut responses = responses;
    let mut used: u64 = 0;
    let mut i: usize = 0;
    proof {
        assert(vs.take(0) =~= Seq::empty());
        assert(vs.skip(0) =~= vs);
        assert(batch::first_transactions(vs, count as nat) =~= vs.take(0) + batch::first_transactions(
            vs.skip(0),
            count as nat,
        ));
    }
    #[verifier::loop_isolation(false)]
    while i < responses.len() && used < count
        invariant
            i <= responses.len(),
            used <= count,
            vs == batch::views(responses@),
            used == batch::transactions_of(vs.take(i as int)).len(),
            batch::first_transactions(vs, count as nat) == vs.take(i as int) + batch::first_transactions(
                vs.skip(i as int),
                (count - used) as nat,
            ),
        decreases responses.len() - i,
    {
        let size = responses[i].transactions.len() as u64;
        let ghost rest = vs.skip(i as int);
        proof {
            batch::lemma_transactions_split(vs, i as int);
            assert(rest[0] == vs[i as int]);
            assert(rest.skip(1) =~= vs.skip(i + 1));
            assert(vs[i as int].transactions.len() == size);
        }
        if size > count - used {
            let room = (count - used) as usize;
            responses.truncate(i + 1);
            responses[i].transactions.truncate(room);
            proof {
                let last = ResponseView {
                    transactions: vs[i as int].transactions.take(room as int),
                    chain_id: vs[i as int].chain_id,
                };
                assert(batch::views(responses@) =~= vs.take(i as int) + seq![last]);
                assert(batch::first_transactions(rest, (count - used) as nat) =~= seq![last]);
                batch::lemma_transactions_of_add(vs.take(i as int), seq![last]);
                batch::lemma_single_response(last);
            }
            return (responses, count);
        }
        proof {
            assert(vs.take(i as int) + (seq![rest[0]] + batch::first_transactions(
                vs.skip(i + 1),
                (count - used - size) as nat,
            )) =~= vs.take(i + 1) + batch::first_transactions(
                vs.skip(i + 1),
                (count - used - size) as nat,
            ));
        }
        used += size;
        i += 1;
    }
    responses.truncate(i);
    proof {
        assert(batch::first_transactions(
            vs.skip(i as int),
            (count - used) as nat,
        ) =~= Seq::empty());
        assert(batch::views(responses@) =~= vs.take(i as int));
        assert(batch::first_transactions(vs, count as nat) =~= vs.take(i as int));
    }
    (responses, used)
}

impl GrpcResponseDispatcher {
    /// A dispatcher that starts at `starting_version`, for a channel that can
    /// hold `sender_capacity` messages.
    pub fn new(
        starting_version: u64,
        transaction_count: Option<u64>,
        num_storages: usize,
        sender_capacity: usize,
    ) -> (d: GrpcResponseDispatcher)
        ensures
            d == (GrpcResponseDispatcher {
                next_version_to_process: starting_version,
                transaction_count,
                num_storages,
                sender_capacity,
            }),
    {
        GrpcResponseDispatcher {
            next_version_to_process: starting_version,
            transaction_count,
            num_storages,
            sender_capacity,
        }
    }

    /// Takes in what was read from the storages: rejects a batch with an empty
    /// response or with a version out of place, trims the rest to what the
    /// stream still owes, and moves past what is kept.
    pub fn fetch_internal(
        &mut self,
        fetched: Result<Vec<TransactionsResponse>, StorageReadError>,
    ) -> (result: Result<Vec<TransactionsResponse>, StorageReadError>)
        requires
            countable(*old(self), fetch_view(fetched)),
        ensures
            fetch_view(result) == checked_batch(*old(self), fetch_view(fetched)),
            *final(self) == after_batch(*old(self), fetch_view(fetched)),
    {
        let responses = match fetched {
            Ok(responses) => responses,
            Err(e) => {
                return Err(e);
            },
        };
        let ghost vs = batch::views(responses@);
        if any_response_empty(&responses) {
            return Err(transient_error("Empty responses from storages."));
        }
        let end = match count_versions(&responses, self.next_version_to_process) {
            Some(end) => end,
            None => {
                return Err(transient_error("Version mismatch in response."));
            },
        };
        match self.transaction_count {
            Some(count) => {
                proof {
                    batch::lemma_first_transactions(vs, count as nat);
                }
                let (kept, size) = keep_first(responses, count);
                self.transaction_count = Some(count - size);
                self.next_version_to_process = self.next_version_to_process + size;
                Ok(kept)
            },
            None => {
                self.next_version_to_process = end;
                Ok(responses)
            },
        }
    }
}

} // verus!
