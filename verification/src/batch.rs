//! Batches of transactions: what makes a batch acceptable, and which part of it
//! a bounded stream keeps.

use vstd::prelude::*;

verus! {

/// A point in time, in seconds and nanoseconds since the Unix epoch.
#[derive(Clone, Copy, PartialEq, Eq, Structural)]
pub struct Timestamp {
    pub seconds: i64,
    pub nanos: i32,
}

/// A transaction of the stream. The payload is carried through unread.
pub struct Transaction {
    pub version: u64,
    pub timestamp: Option<Timestamp>,
    pub payload: Vec<u8>,
}

/// One message of the stream.
pub struct TransactionsResponse {
    pub transactions: Vec<Transaction>,
    pub chain_id: Option<u64>,
}

/// What a [`TransactionsResponse`] holds.
#[verifier::ext_equal]
pub struct ResponseView {
    pub transactions: Seq<Transaction>,
    pub chain_id: Option<u64>,
}

impl View for TransactionsResponse {
    type V = ResponseView;

    open spec fn view(&self) -> ResponseView {
        ResponseView { transactions: self.transactions@, chain_id: self.chain_id }
    }
}

/// What a sequence of responses holds.
pub open spec fn views(responses: Seq<TransactionsResponse>) -> Seq<ResponseView> {
    Seq::new(responses.len(), |i: int| responses[i]@)
}

/// All transactions of `responses`, in order.
pub open spec fn transactions_of(responses: Seq<ResponseView>) -> Seq<Transaction>
    decreases responses.len(),
{
    if responses.len() == 0 {
        Seq::empty()
    } else {
        responses[0].transactions + transactions_of(responses.skip(1))
    }
}

/// The versions of `transactions` count up from `start` without a gap.
pub open spec fn consecutive_from(transactions: Seq<Transaction>, start: int) -> bool {
    forall|i: int|
        0 <= i < transactions.len() ==> (#[trigger] transactions[i]).version == start + i
}

/// Some response holds no transaction.
pub open spec fn some_response_empty(responses: Seq<ResponseView>) -> bool {
    exists|i: int| 0 <= i < responses.len() && (#[trigger] responses[i]).transactions.len() == 0
}

/// Counting through the matching transactions never passes the largest version number.
pub open spec fn versions_fit(transactions: Seq<Transaction>, start: int) -> bool {
    forall|k: int|
        0 <= k <= transactions.len() && consecutive_from(#[trigger] transactions.take(k), start)
            ==> start + k <= u64::MAX
}

/// The first `count` transactions of `responses`: whole responses as long as they
/// fit, then the part of the next one that still does.
pub open spec fn first_transactions(responses: Seq<ResponseView>, count: nat) -> Seq<ResponseView>
    decreases responses.len(),
{
    if count == 0 || responses.len() == 0 {
        Seq::empty()
    } else if responses[0].transactions.len() <= count {
        seq![responses[0]] + first_transactions(
            responses.skip(1),
            (count - responses[0].transactions.len()) as nat,
        )
    } else {
        seq![
            ResponseView {
                transactions: responses[0].transactions.take(count as int),
                chain_id: responses[0].chain_id,
            },
        ]
    }
}

/// What a stream that still owes `remaining` transactions keeps of `responses`;
/// a stream without a limit keeps everything.
pub open spec fn kept_responses(
    responses: Seq<ResponseView>,
    remaining: Option<u64>,
) -> Seq<ResponseView> {
    match remaining {
        Some(count) => first_transactions(responses, count as nat),
        None => responses,
    }
}

/// Taking the first `count` transactions of a batch takes exactly the first
/// `count` of its transactions, or all of them where there are fewer.
pub proof fn lemma_first_transactions(responses: Seq<ResponseView>, count: nat)
    ensures
        transactions_of(first_transactions(responses, count)) == transactions_of(responses).take(
            if count <= transactions_of(responses).len() {
                count as int
            } else {
                transactions_of(responses).len() as int
            },
        ),
    decreases responses.len(),
{
    let all = transactions_of(responses);
    if count == 0 || responses.len() == 0 {
        assert(transactions_of(first_transactions(responses, count)) =~= Seq::empty());
    } else if responses[0].transactions.len() <= count {
        let head = responses[0].transactions;
        let rest = (count - head.len()) as nat;
        lemma_first_transactions(responses.skip(1), rest);
        let kept = first_transactions(responses, count);
        assert(kept.skip(1) =~= first_transactions(responses.skip(1), rest));
        assert(kept[0] == responses[0]);
        assert(transactions_of(kept) =~= all.take(
            if count <= all.len() {
                count as int
            } else {
                all.len() as int
            },
        ));
    } else {
        let kept = first_transactions(responses, count);
        assert(kept.skip(1) =~= Seq::empty());
        assert(transactions_of(kept.skip(1)) =~= Seq::empty());
        assert(transactions_of(kept) =~= all.take(count as int));
    }
}

/// No response that is kept is empty, where none of the batch is.
pub proof fn lemma_first_transactions_not_empty(responses: Seq<ResponseView>, count: nat)
    requires
        !some_response_empty(responses),
    ensures
        !some_response_empty(first_transactions(responses, count)),
        count > 0 && responses.len() > 0 ==> first_transactions(responses, count).len() > 0,
    decreases responses.len(),
{
    if count > 0 && responses.len() > 0 && responses[0].transactions.len() <= count {
        let tail = responses.skip(1);
        assert forall|i: int| 0 <= i < tail.len() implies (
        #[trigger] tail[i]).transactions.len() != 0 by {
            assert(tail[i] == responses[i + 1]);
        }
        let rest = (count - responses[0].transactions.len()) as nat;
        lemma_first_transactions_not_empty(tail, rest);
        let kept = first_transactions(responses, count);
        assert forall|i: int| 0 <= i < kept.len() implies (
        #[trigger] kept[i]).transactions.len() != 0 by {
            if i > 0 {
                assert(kept[i] == first_transactions(tail, rest)[i - 1]);
            }
        }
    }
}

/// Splitting a batch splits its transactions.
pub proof fn lemma_transactions_of_add(a: Seq<ResponseView>, b: Seq<ResponseView>)
    ensures
        transactions_of(a + b) == transactions_of(a) + transactions_of(b),
    decreases a.len(),
{
    if a.len() == 0 {
        assert(a + b =~= b);
        assert(transactions_of(a + b) =~= transactions_of(a) + transactions_of(b));
    } else {
        lemma_transactions_of_add(a.skip(1), b);
        assert((a + b).skip(1) =~= a.skip(1) + b);
        assert((a + b)[0] == a[0]);
        assert(transactions_of(a + b) =~= transactions_of(a) + transactions_of(b));
    }
}

/// A batch of one response holds that response's transactions.
pub proof fn lemma_single_response(response: ResponseView)
    ensures
        transactions_of(seq![response]) == response.transactions,
{
    assert(seq![response].skip(1) =~= Seq::empty());
    assert(transactions_of(seq![response].skip(1)) =~= Seq::empty());
    assert(transactions_of(seq![response]) =~= response.transactions);
}

/// The transactions of a batch, split before and after its response `i`.
pub proof fn lemma_transactions_split(responses: Seq<ResponseView>, i: int)
    requires
        0 <= i < responses.len(),
    ensures
        transactions_of(responses.take(i + 1)) == transactions_of(responses.take(i))
            + responses[i].transactions,
        transactions_of(responses) == transactions_of(responses.take(i)) + transactions_of(
            responses.skip(i),
        ),
        transactions_of(responses) == transactions_of(responses.take(i + 1)) + transactions_of(
            responses.skip(i + 1),
        ),
{
    let one = seq![responses[i]];
    assert(responses.take(i + 1) =~= responses.take(i) + one);
    lemma_transactions_of_add(responses.take(i), one);
    lemma_single_response(responses[i]);
    assert(responses =~= responses.take(i) + responses.skip(i));
    lemma_transactions_of_add(responses.take(i), responses.skip(i));
    assert(responses =~= responses.take(i + 1) + responses.skip(i + 1));
    lemma_transactions_of_add(responses.take(i + 1), responses.skip(i + 1));
}

} // verus!
