//! Differences between two outputs of one replayed transaction.

use crate::bytes::same_bytes;
use crate::ordered_keys;
use crate::text;
use std::collections::BTreeMap;
use vstd::prelude::*;

verus! {

broadcast use vstd::std_specs::btree::group_btree_axioms;

/// The type of an event's data. Tags are totally ordered: `rank` is the place
/// of a tag in that order, so two tags are the same when their ranks are.
#[derive(Clone, Debug, PartialEq, Eq)]
pub struct TypeTag {
    pub rank: u64,
    pub canonical: String,
    pub is_fee_statement: bool,
}

/// An event that a transaction emitted.
#[derive(Clone, Debug, PartialEq, Eq)]
pub struct ContractEvent {
    pub type_tag: TypeTag,
    pub event_data: Vec<u8>,
}

/// The key of a state value. Keys are totally ordered: `rank` is the place of a
/// key in that order, so two keys are the same when their ranks are.
#[derive(Clone, Debug, PartialEq, Eq)]
pub struct StateKey {
    pub rank: u64,
    pub debug: String,
    pub is_total_supply: bool,
    pub is_account_balance: bool,
}

/// Two tags are told apart by their ranks: with the same rank they have the same
/// text, and all fee statements are of one type.
pub open spec fn tags_agree(a: TypeTag, b: TypeTag) -> bool {
    &&& a.rank == b.rank ==> a.canonical@ == b.canonical@ && a.is_fee_statement
        == b.is_fee_statement
    &&& a.is_fee_statement && b.is_fee_statement ==> a.rank == b.rank
}

/// Two keys are told apart by their ranks: with the same rank they have the same
/// text and stand for the same kind of value, and there is one total supply.
pub open spec fn keys_agree(a: StateKey, b: StateKey) -> bool {
    &&& a.rank == b.rank ==> {
        &&& a.debug@ == b.debug@
        &&& a.is_total_supply == b.is_total_supply
        &&& a.is_account_balance == b.is_account_balance
    }
    &&& a.is_total_supply && b.is_total_supply ==> a.rank == b.rank
}

/// The tags of two lists of events are all told apart by their ranks.
pub open spec fn valid_tags(left: Seq<ContractEvent>, right: Seq<ContractEvent>) -> bool {
    forall|i: int, j: int|
        0 <= i < (left + right).len() && 0 <= j < (left + right).len() ==> tags_agree(
            (#[trigger] (left + right)[i]).type_tag,
            (#[trigger] (left + right)[j]).type_tag,
        )
}

/// The keys of two write sets are kept in their places, and are told apart by
/// their ranks.
pub open spec fn valid_keys(
    left: Map<u64, (StateKey, WriteOp)>,
    right: Map<u64, (StateKey, WriteOp)>,
) -> bool {
    &&& writes_in_place(left)
    &&& writes_in_place(right)
    &&& forall|k: u64, l: u64| #[trigger]
        left.contains_key(k) && #[trigger] left.contains_key(l) ==> keys_agree(
            left[k].0,
            left[l].0,
        )
    &&& forall|k: u64, l: u64| #[trigger]
        right.contains_key(k) && #[trigger] right.contains_key(l) ==> keys_agree(
            right[k].0,
            right[l].0,
        )
    &&& forall|k: u64, l: u64| #[trigger]
        left.contains_key(k) && #[trigger] right.contains_key(l) ==> keys_agree(
            left[k].0,
            right[l].0,
        )
}

/// What is kept under the key changes with the gas: the total supply, and the
/// balances of accounts.
pub open spec fn gas_related(key: StateKey) -> bool {
    key.is_total_supply || key.is_account_balance
}

/// What is paid for a state value, and when it was created.
#[derive(Clone, Copy, Debug, PartialEq, Eq, Structural)]
pub struct StateValueMetadata {
    pub slot_deposit: u64,
    pub bytes_deposit: u64,
    pub creation_time_usecs: u64,
}

/// A write to one state value. Writes of the older kind carry no metadata.
#[derive(Clone, Debug, PartialEq, Eq)]
pub enum WriteOp {
    Creation { data: Vec<u8>, metadata: Option<StateValueMetadata> },
    Modification { data: Vec<u8>, metadata: Option<StateValueMetadata> },
    Deletion { metadata: Option<StateValueMetadata> },
}

/// What a [`WriteOp`] does.
pub enum WriteOpView {
    Creation(Seq<u8>, Option<StateValueMetadata>),
    Modification(Seq<u8>, Option<StateValueMetadata>),
    Deletion(Option<StateValueMetadata>),
}

impl View for WriteOp {
    type V = WriteOpView;

    open spec fn view(&self) -> WriteOpView {
        match self {
            WriteOp::Creation { data, metadata } => WriteOpView::Creation(data@, *metadata),
            WriteOp::Modification { data, metadata } => WriteOpView::Modification(data@, *metadata),
            WriteOp::Deletion { metadata } => WriteOpView::Deletion(*metadata),
        }
    }
}

/// How an executed transaction ended: its canonical encoding, by which two
/// statuses are compared, and its debugging form.
#[derive(Clone, Debug, PartialEq, Eq)]
pub struct ExecutionStatus {
    pub encoded: Vec<u8>,
    pub debug: String,
}

/// Whether a transaction was kept, and how it ended if it was.
#[derive(Clone, Debug, PartialEq, Eq)]
pub enum TransactionStatus {
    Keep(ExecutionStatus),
    Discard,
    Retry,
}

/// The writes of a transaction, at most one for every key.
pub struct WriteSet {
    writes: BTreeMap<u64, (StateKey, WriteOp)>,
}

impl View for WriteSet {
    type V = Map<u64, (StateKey, WriteOp)>;

    closed spec fn view(&self) -> Map<u64, (StateKey, WriteOp)> {
        self.writes@
    }
}

/// What executing a transaction produced.
pub struct TransactionOutput {
    pub write_set: WriteSet,
    pub events: Vec<ContractEvent>,
    pub gas_used: u64,
    pub status: TransactionStatus,
}

/// One difference between two outputs: `left` is before, `right` is after.
#[derive(Debug, PartialEq, Eq)]
pub enum Diff {
    GasUsed { left: u64, right: u64 },
    ExecutionStatus { left: ExecutionStatus, right: ExecutionStatus },
    Event { left: Option<ContractEvent>, right: Option<ContractEvent> },
    WriteSet { state_key: StateKey, left: Option<WriteOp>, right: Option<WriteOp> },
}

/// All differences between a pair of outputs.
pub struct TransactionDiff {
    pub diffs: Vec<Diff>,
}

/// Builds the differences of a pair of outputs.
pub struct TransactionDiffBuilder {
    /// If set, differences that come with a different gas usage are ignored:
    /// the gas itself, the fee statements where both sides emitted one, the
    /// total supply, and the balances of accounts.
    pub allow_different_gas_usage: bool,
}

/// The writes under every key; a later write to a key replaces an earlier one.
pub open spec fn write_map(writes: Seq<(StateKey, WriteOp)>) -> Map<u64, (StateKey, WriteOp)>
    decreases writes.len(),
{
    if writes.len() == 0 {
        Map::empty()
    } else {
        write_map(writes.drop_last()).insert(writes.last().0.rank, writes.last())
    }
}

/// The events of every type; a later event of a type replaces an earlier one.
pub open spec fn event_map(events: Seq<ContractEvent>) -> Map<u64, ContractEvent>
    decreases events.len(),
{
    if events.len() == 0 {
        Map::empty()
    } else {
        event_map(events.drop_last()).insert(events.last().type_tag.rank, events.last())
    }
}

/// The value under `key`, if there is one.
pub open spec fn lookup<V>(map: Map<u64, V>, key: u64) -> Option<V> {
    if map.contains_key(key) {
        Some(map[key])
    } else {
        None
    }
}

/// An event counts as a difference to what the other side emitted of its type.
/// Different data counts, unless both sides are fee statements and the gas may differ.
pub open spec fn event_differs(
    allow_different_gas_usage: bool,
    left: ContractEvent,
    right: Option<ContractEvent>,
) -> bool {
    match right {
        Some(r) => {
            &&& left.event_data@ != r.event_data@
            &&& !(allow_different_gas_usage && left.type_tag.is_fee_statement)
        },
        None => true,
    }
}

/// A write counts as a difference to what the other side did to its key. The
/// total supply and the balances of accounts do not count where the gas may differ.
pub open spec fn write_differs(
    allow_different_gas_usage: bool,
    left: (StateKey, WriteOp),
    right: Option<(StateKey, WriteOp)>,
) -> bool {
    &&& !(right matches Some(r) && r.1@ == left.1@)
    &&& !(allow_different_gas_usage && gas_related(left.0))
}

/// The differences that the listed types of the left events make.
pub open spec fn left_event_diffs(
    allow_different_gas_usage: bool,
    keys: Seq<u64>,
    left: Map<u64, ContractEvent>,
    right: Map<u64, ContractEvent>,
) -> Seq<Diff>
    decreases keys.len(),
{
    if keys.len() == 0 {
        Seq::empty()
    } else {
        let before = left_event_diffs(allow_different_gas_usage, keys.drop_last(), left, right);
        let key = keys.last();
        if event_differs(allow_different_gas_usage, left[key], lookup(right, key)) {
            before.push(Diff::Event { left: Some(left[key]), right: lookup(right, key) })
        } else {
            before
        }
    }
}

/// One difference for every type that only the right side emitted.
pub open spec fn right_event_diffs(keys: Seq<u64>, right: Map<u64, ContractEvent>) -> Seq<Diff> {
    Seq::new(keys.len(), |i: int| Diff::Event { left: None, right: Some(right[keys[i]]) })
}

/// All differences between two lists of events: first by the types of the left
/// side, then by those that only the right side has, each in the order of the types.
pub open spec fn event_diffs(
    allow_different_gas_usage: bool,
    left: Seq<ContractEvent>,
    right: Seq<ContractEvent>,
) -> Seq<Diff> {
    let l = event_map(left);
    let r = event_map(right);
    left_event_diffs(allow_different_gas_usage, ordered_keys::ordered(l.dom()), l, r)
        + right_event_diffs(ordered_keys::ordered(r.dom().difference(l.dom())), r)
}

/// The write part of a lookup.
pub open spec fn write_of(entry: Option<(StateKey, WriteOp)>) -> Option<WriteOp> {
    match entry {
        Some(e) => Some(e.1),
        None => None,
    }
}

/// The differences that the listed keys of the left writes make.
pub open spec fn left_write_diffs(
    allow_different_gas_usage: bool,
    keys: Seq<u64>,
    left: Map<u64, (StateKey, WriteOp)>,
    right: Map<u64, (StateKey, WriteOp)>,
) -> Seq<Diff>
    decreases keys.len(),
{
    if keys.len() == 0 {
        Seq::empty()
    } else {
        let before = left_write_diffs(allow_different_gas_usage, keys.drop_last(), left, right);
        let key = keys.last();
        if write_differs(allow_different_gas_usage, left[key], lookup(right, key)) {
            before.push(
                Diff::WriteSet {
                    state_key: left[key].0,
                    left: Some(left[key].1),
                    right: write_of(lookup(right, key)),
                },
            )
        } else {
            before
        }
    }
}

/// The differences that the listed keys make which only the right side wrote to.
pub open spec fn right_write_diffs(
    allow_different_gas_usage: bool,
    keys: Seq<u64>,
    right: Map<u64, (StateKey, WriteOp)>,
) -> Seq<Diff>
    decreases keys.len(),
{
    if keys.len() == 0 {
        Seq::empty()
    } else {
        let before = right_write_diffs(allow_different_gas_usage, keys.drop_last(), right);
        let key = keys.last();
        if allow_different_gas_usage && gas_related(right[key].0) {
            before
        } else {
            before.push(
                Diff::WriteSet {
                    state_key: right[key].0,
                    left: None,
                    right: Some(right[key].1),
                },
            )
        }
    }
}

/// All differences between two write sets, in the same order as for events.
pub open spec fn write_diffs(
    allow_different_gas_usage: bool,
    left: Map<u64, (StateKey, WriteOp)>,
    right: Map<u64, (StateKey, WriteOp)>,
) -> Seq<Diff> {
    left_write_diffs(
        allow_different_gas_usage,
        ordered_keys::ordered(left.dom()),
        left,
        right,
    ) + right_write_diffs(
        allow_different_gas_usage,
        ordered_keys::ordered(right.dom().difference(left.dom())),
        right,
    )
}

/// The difference between two statuses, if there is one.
pub open spec fn status_diffs(left: ExecutionStatus, right: ExecutionStatus) -> Seq<Diff> {
    if left.encoded@ == right.encoded@ {
        Seq::empty()
    } else {
        seq![Diff::ExecutionStatus { left, right }]
    }
}

/// The difference between two amounts of gas, if there is one that counts.
pub open spec fn gas_diffs(allow_different_gas_usage: bool, left: u64, right: u64) -> Seq<Diff> {
    if left == right || allow_different_gas_usage {
        Seq::empty()
    } else {
        seq![Diff::GasUsed { left, right }]
    }
}

/// All differences between two outputs of kept transactions.
pub open spec fn output_diffs(
    allow_different_gas_usage: bool,
    left: TransactionOutput,
    right: TransactionOutput,
) -> Seq<Diff> {
    status_diffs(left.status->Keep_0, right.status->Keep_0) + gas_diffs(
        allow_different_gas_usage,
        left.gas_used,
        right.gas_used,
    ) + event_diffs(allow_different_gas_usage, left.events@, right.events@) + write_diffs(
        allow_different_gas_usage,
        left.write_set@,
        right.write_set@,
    )
}

/// The writes of a map are kept under their own keys.
pub open spec fn writes_in_place(writes: Map<u64, (StateKey, WriteOp)>) -> bool {
    forall|key: u64| #[trigger] writes.contains_key(key) ==> writes[key].0.rank == key
}

/// A map made from a list of writes keeps them under their own keys.
proof fn lemma_writes_in_place(writes: Seq<(StateKey, WriteOp)>)
    ensures
        writes_in_place(write_map(writes)),
    decreases writes.len(),
{
    if writes.len() > 0 {
        lemma_writes_in_place(writes.drop_last());
        let before = write_map(writes.drop_last());
        assert forall|key: u64| #[trigger] write_map(writes).contains_key(key) implies write_map(
            writes,
        )[key].0.rank == key by {
            if key != writes.last().0.rank {
                assert(before.contains_key(key));
            }
        }
    }
}

impl StateKey {
    /// Whether what is kept under the key changes with the gas.
    pub fn depends_on_gas(&self) -> (depends: bool)
        ensures
            depends == gas_related(*self),
    {
        self.is_total_supply || self.is_account_balance
    }
}

impl WriteSet {
    /// Collects writes; a later write to a key replaces an earlier one.
    pub fn new(writes: Vec<(StateKey, WriteOp)>) -> (set: WriteSet)
        ensures
            set@ == write_map(writes@),
            writes_in_place(set@),
            forall|key: u64| #[trigger]
                set@.contains_key(key) ==> exists|i: int|
                    0 <= i < writes@.len() && (#[trigger] writes@[i]).0.rank == key,
            forall|i: int| #[trigger]
                crate::output_laws::last_of_key(writes@, i) ==> set@.contains_key(
                    writes@[i].0.rank,
                ) && set@[writes@[i].0.rank] == writes@[i],
    {
        let ghost all = writes@;
        let mut map: BTreeMap<u64, (StateKey, WriteOp)> = BTreeMap::new();
        proof {
            assert(all.take(0) =~= Seq::empty());
        }
        for write in it: writes.into_iter()
            invariant
                it.seq() == all,
                map@ == write_map(all.take(it.index() as int)),
        {
            let key = write.0.rank;
            map.insert(key, write);
            proof {
                let next = all.take(it.index() + 1);
                assert(next.drop_last() =~= all.take(it.index() as int));
                assert(next.last() == write);
            }
        }
        proof {
            assert(all.take(all.len() as int) =~= all);
            lemma_writes_in_place(all);
            assert forall|key: u64| #[trigger] map@.contains_key(key) implies exists|i: int|
                0 <= i < all.len() && (#[trigger] all[i]).0.rank == key by {
                crate::output_laws::law_last_write_counts(all, key);
            }
            assert forall|i: int| #[trigger]
                crate::output_laws::last_of_key(all, i) implies map@.contains_key(all[i].0.rank)
                && map@[all[i].0.rank] == all[i] by {
                crate::output_laws::lemma_last_write_is_kept(all, i);
            }
        }
        WriteSet { writes: map }
    }
}

/// Keys the events by their types.
fn events_by_type(events: Vec<ContractEvent>) -> (map: BTreeMap<u64, ContractEvent>)
    ensures
        map@ == event_map(events@),
{
    let ghost all = events@;
    let mut map: BTreeMap<u64, ContractEvent> = BTreeMap::new();
    proof {
        assert(all.take(0) =~= Seq::empty());
    }
    for event in it: events.into_iter()
        invariant
            it.seq() == all,
            map@ == event_map(all.take(it.index() as int)),
    {
        let key = event.type_tag.rank;
        map.insert(key, event);
        proof {
            let next = all.take(it.index() + 1);
            assert(next.drop_last() =~= all.take(it.index() as int));
            assert(next.last() == event);
        }
    }
    proof {
        assert(all.take(all.len() as int) =~= all);
    }
    map
}

fn same_metadata(a: &Option<StateValueMetadata>, b: &Option<StateValueMetadata>) -> (same: bool)
    ensures
        same == (*a == *b),
{
    match (a, b) {
        (Some(x), Some(y)) => *x == *y,
        (None, None) => true,
        _ => false,
    }
}

impl WriteOp {
    /// A creation without metadata.
    pub fn legacy_creation(data: Vec<u8>) -> (op: WriteOp)
        ensures
            op == (WriteOp::Creation { data, metadata: None }),
    {
        WriteOp::Creation { data, metadata: None }
    }

    /// A modification without metadata.
    pub fn legacy_modification(data: Vec<u8>) -> (op: WriteOp)
        ensures
            op == (WriteOp::Modification { data, metadata: None }),
    {
        WriteOp::Modification { data, metadata: None }
    }

    /// A creation with metadata.
    pub fn creation(data: Vec<u8>, metadata: StateValueMetadata) -> (op: WriteOp)
        ensures
            op == (WriteOp::Creation { data, metadata: Some(metadata) }),
    {
        WriteOp::Creation { data, metadata: Some(metadata) }
    }

    /// Whether two writes do the same.
    pub fn same_as(&self, other: &WriteOp) -> (same: bool)
        ensures
            same == (self@ == other@),
    {
        match (self, other) {
            (
                WriteOp::Creation { data: a, metadata: m },
                WriteOp::Creation { data: b, metadata: n },
            ) => same_bytes(a, b) && same_metadata(m, n),
            (
                WriteOp::Modification { data: a, metadata: m },
                WriteOp::Modification { data: b, metadata: n },
            ) => same_bytes(a, b) && same_metadata(m, n),
            (WriteOp::Deletion { metadata: m }, WriteOp::Deletion { metadata: n }) => {
                same_metadata(m, n)
            },
            _ => false,
        }
    }
}

/// The entries of `now` are those of `all` whose keys do not occur in `gone`.
spec fn without<V>(now: Map<u64, V>, all: Map<u64, V>, gone: Seq<u64>) -> bool {
    forall|k: u64|
        #![trigger now.contains_key(k)]
        {
            &&& now.contains_key(k) <==> all.contains_key(k) && !gone.contains(k)
            &&& now.contains_key(k) ==> now[k] == all[k]
        }
}

proof fn lemma_without_step<V>(
    before: Map<u64, V>,
    after: Map<u64, V>,
    all: Map<u64, V>,
    keys: Seq<u64>,
    i: int,
)
    requires
        0 <= i < keys.len(),
        without(before, all, keys.take(i)),
        after == before.remove(keys[i]),
    ensures
        without(after, all, keys.take(i + 1)),
{
    let gone = keys.take(i + 1);
    assert forall|k: u64| #[trigger] after.contains_key(k) <==> all.contains_key(k)
        && !gone.contains(k) by {
        assert(before.contains_key(k) <==> all.contains_key(k) && !keys.take(i).contains(k));
        if keys.take(i).contains(k) {
            let j = choose|j: int| 0 <= j < i && keys.take(i)[j] == k;
            assert(gone[j] == k);
        }
        if gone.contains(k) {
            let j = choose|j: int| 0 <= j < i + 1 && gone[j] == k;
            if j < i {
                assert(keys.take(i)[j] == k);
            }
        }
        assert(gone[i] == keys[i]);
    }
    assert forall|k: u64| #[trigger] after.contains_key(k) implies after[k] == all[k] by {
        assert(before.contains_key(k));
    }
}

proof fn lemma_next_key_is_left<V>(now: Map<u64, V>, all: Map<u64, V>, keys: Seq<u64>, i: int)
    requires
        0 <= i < keys.len(),
        ordered_keys::ascending(keys),
        forall|k: u64| #[trigger] keys.contains(k) <==> all.contains_key(k),
        without(now, all, keys.take(i)),
    ensures
        now.contains_key(keys[i]),
        now[keys[i]] == all[keys[i]],
        !keys.take(i).contains(keys[i]),
{
    assert(keys.contains(keys[i]));
    assert(!keys.take(i).contains(keys[i]));
    assert(now.contains_key(keys[i]) <==> all.contains_key(keys[i]) && !keys.take(i).contains(
        keys[i],
    ));
}

impl TransactionDiffBuilder {
    /// A builder that reports every difference.
    pub fn new() -> (builder: TransactionDiffBuilder)
        ensures
            !builder.allow_different_gas_usage,
    {
        TransactionDiffBuilder { allow_different_gas_usage: false }
    }

    /// The differences between two outputs. Replayed transactions are kept, so
    /// both statuses have to be.
    pub fn build_from_outputs(&self, left: TransactionOutput, right: TransactionOutput) -> (diff:
        TransactionDiff)
        requires
            left.status is Keep,
            right.status is Keep,
        ensures
            diff.diffs@ == output_diffs(self.allow_different_gas_usage, left, right),
            printable(diff.diffs@),
            !self.allow_different_gas_usage ==> (diff.diffs@.len() == 0 <==> {
                &&& left.status->Keep_0.encoded@ == right.status->Keep_0.encoded@
                &&& left.gas_used == right.gas_used
                &&& crate::diff_laws::same_events(
                    event_map(left.events@),
                    event_map(right.events@),
                )
                &&& crate::diff_laws::same_writes(left.write_set@, right.write_set@)
            }),
    {
        let mut diffs: Vec<Diff> = Vec::new();
        let ghost l = left;
        let ghost r = right;
        match (left.status, right.status) {
            (
                TransactionStatus::Keep(left_status),
                TransactionStatus::Keep(right_status),
            ) => if !same_bytes(&left_status.encoded, &right_status.encoded) {
                diffs.push(Diff::ExecutionStatus { left: left_status, right: right_status });
            },
            _ => {},
        }
        let ghost first = status_diffs(l.status->Keep_0, r.status->Keep_0);
        assert(diffs@ =~= first);
        if left.gas_used != right.gas_used && !self.allow_different_gas_usage {
            diffs.push(Diff::GasUsed { left: left.gas_used, right: right.gas_used });
        }
        let ghost second = first + gas_diffs(
            self.allow_different_gas_usage,
            l.gas_used,
            r.gas_used,
        );
        assert(diffs@ =~= second);
        let mut events = self.diff_events(left.events, right.events);
        let mut writes = self.diff_write_sets(left.write_set, right.write_set);
        diffs.append(&mut events);
        diffs.append(&mut writes);
        proof {
            crate::diff_laws::law_no_diff_means_same(l, r);
        }
        TransactionDiff { diffs }
    }

    /// The differences between two lists of events.
    pub fn diff_events(&self, left: Vec<ContractEvent>, right: Vec<ContractEvent>) -> (diffs: Vec<
        Diff,
    >)
        ensures
            diffs@ == event_diffs(self.allow_different_gas_usage, left@, right@),
            printable(diffs@),
    {
        let allow = self.allow_different_gas_usage;
        let ghost lm = event_map(left@);
        let ghost rm = event_map(right@);
        let mut left = events_by_type(left);
        let mut right = events_by_type(right);
        let keys = ordered_keys::ordered_keys(&left);
        let mut diffs: Vec<Diff> = Vec::new();
        proof {
            ordered_keys::lemma_ordered(lm.dom());
            assert(keys@.take(0) =~= Seq::empty());
        }
        let mut i: usize = 0;
        while i < keys.len()
            invariant
                i <= keys.len(),
                allow == self.allow_different_gas_usage,
                keys@ == ordered_keys::ordered(lm.dom()),
                ordered_keys::ascending(keys@),
                forall|k: u64| #[trigger] keys@.contains(k) <==> lm.contains_key(k),
                without(left@, lm, keys@.take(i as int)),
                without(right@, rm, keys@.take(i as int)),
                diffs@ == left_event_diffs(allow, keys@.take(i as int), lm, rm),
                printable(diffs@),
            decreases keys.len() - i,
        {
            let key = keys[i];
            let ghost lefts = left@;
            let ghost rights = right@;
            proof {
                lemma_next_key_is_left(left@, lm, keys@, i as int);
                assert(rights.contains_key(key) <==> rm.contains_key(key));
                let next = keys@.take(i + 1);
                assert(next.drop_last() =~= keys@.take(i as int));
                assert(next.last() == key);
            }
            let maybe_left = left.remove(&key);
            let maybe_right = right.remove(&key);
            proof {
                lemma_without_step(lefts, left@, lm, keys@, i as int);
                lemma_without_step(rights, right@, rm, keys@, i as int);
                assert(maybe_right == lookup(rm, key));
            }
            if let Some(left_event) = maybe_left {
                let differs = match &maybe_right {
                    Some(right_event) => {
                        !same_bytes(&left_event.event_data, &right_event.event_data) && !(allow
                            && left_event.type_tag.is_fee_statement)
                    },
                    None => true,
                };
                if differs {
                    diffs.push(Diff::Event { left: Some(left_event), right: maybe_right });
                }
            }
            i += 1;
        }
        let ghost lefts = diffs@;
        proof {
            assert(keys@.take(i as int) =~= keys@);
        }
        let ghost only_right = right@;
        let rest = ordered_keys::ordered_keys(&right);
        proof {
            assert(right@.dom() =~= rm.dom().difference(lm.dom())) by {
                assert forall|k: u64| right@.dom().contains(k) <==> rm.dom().difference(
                    lm.dom(),
                ).contains(k) by {
                    assert(right@.contains_key(k) <==> rm.contains_key(k) && !keys@.contains(k));
                }
            }
            ordered_keys::lemma_ordered(right@.dom());
            assert(rest@.take(0) =~= Seq::empty());
            assert(diffs@ =~= lefts + right_event_diffs(rest@.take(0), rm));
        }
        let mut j: usize = 0;
        while j < rest.len()
            invariant
                j <= rest.len(),
                rest@ == ordered_keys::ordered(only_right.dom()),
                ordered_keys::ascending(rest@),
                forall|k: u64| #[trigger] rest@.contains(k) <==> only_right.contains_key(k),
                forall|k: u64| #[trigger]
                    only_right.contains_key(k) ==> only_right[k] == rm[k],
                without(right@, only_right, rest@.take(j as int)),
                diffs@ == lefts + right_event_diffs(rest@.take(j as int), rm),
                printable(diffs@),
            decreases rest.len() - j,
        {
            let key = rest[j];
            let ghost rights = right@;
            proof {
                lemma_next_key_is_left(right@, only_right, rest@, j as int);
                assert(rest@.contains(key));
                assert(only_right.contains_key(key));
            }
            let maybe_right = right.remove(&key);
            proof {
                lemma_without_step(rights, right@, only_right, rest@, j as int);
            }
            if let Some(right_event) = maybe_right {
                diffs.push(Diff::Event { left: None, right: Some(right_event) });
            }
            j += 1;
            proof {
                assert(right_event_diffs(rest@.take(j as int), rm) =~= right_event_diffs(
                    rest@.take(j - 1),
                    rm,
                ).push(Diff::Event { left: None, right: Some(rm[key]) }));
                assert(diffs@ =~= lefts + right_event_diffs(rest@.take(j as int), rm));
            }
        }
        proof {
            assert(rest@.take(j as int) =~= rest@);
        }
        diffs
    }

    /// The differences between two write sets.
    pub fn diff_write_sets(&self, left: WriteSet, right: WriteSet) -> (diffs: Vec<Diff>)
        ensures
            diffs@ == write_diffs(self.allow_different_gas_usage, left@, right@),
            printable(diffs@),
    {
        let allow = self.allow_different_gas_usage;
        let ghost lm = left@;
        let ghost rm = right@;
        let mut left = left.writes;
        let mut right = right.writes;
        let keys = ordered_keys::ordered_keys(&left);
        let mut diffs: Vec<Diff> = Vec::new();
        proof {
            ordered_keys::lemma_ordered(lm.dom());
            assert(keys@.take(0) =~= Seq::empty());
        }
        let mut i: usize = 0;
        while i < keys.len()
            invariant
                i <= keys.len(),
                allow == self.allow_different_gas_usage,
                keys@ == ordered_keys::ordered(lm.dom()),
                ordered_keys::ascending(keys@),
                forall|k: u64| #[trigger] keys@.contains(k) <==> lm.contains_key(k),
                without(left@, lm, keys@.take(i as int)),
                without(right@, rm, keys@.take(i as int)),
                diffs@ == left_write_diffs(allow, keys@.take(i as int), lm, rm),
                printable(diffs@),
            decreases keys.len() - i,
        {
            let key = keys[i];
            let ghost lefts = left@;
            let ghost rights = right@;
            proof {
                lemma_next_key_is_left(left@, lm, keys@, i as int);
                assert(rights.contains_key(key) <==> rm.contains_key(key));
                let next = keys@.take(i + 1);
                assert(next.drop_last() =~= keys@.take(i as int));
                assert(next.last() == key);
            }
            let maybe_left = left.remove(&key);
            let maybe_right = right.remove(&key);
            proof {
                lemma_without_step(lefts, left@, lm, keys@, i as int);
                lemma_without_step(rights, right@, rm, keys@, i as int);
                assert(maybe_right == lookup(rm, key));
            }
            if let Some((state_key, left_op)) = maybe_left {
                let same = match &maybe_right {
                    Some(entry) => entry.1.same_as(&left_op),
                    None => false,
                };
                if !same && !(allow && state_key.depends_on_gas()) {
                    let right_op = match maybe_right {
                        Some((_, op)) => Some(op),
                        None => None,
                    };
                    diffs.push(
                        Diff::WriteSet { state_key, left: Some(left_op), right: right_op },
                    );
                }
            }
            i += 1;
        }
        let ghost lefts = diffs@;
        proof {
            assert(keys@.take(i as int) =~= keys@);
        }
        let ghost only_right = right@;
        let rest = ordered_keys::ordered_keys(&right);
        proof {
            assert(right@.dom() =~= rm.dom().difference(lm.dom())) by {
                assert forall|k: u64| right@.dom().contains(k) <==> rm.dom().difference(
                    lm.dom(),
                ).contains(k) by {
                    assert(right@.contains_key(k) <==> rm.contains_key(k) && !keys@.contains(k));
                }
            }
            ordered_keys::lemma_ordered(right@.dom());
            assert(rest@.take(0) =~= Seq::empty());
            assert(diffs@ =~= lefts + right_write_diffs(allow, rest@.take(0), rm));
        }
        let mut j: usize = 0;
        while j < rest.len()
            invariant
                j <= rest.len(),
                rest@ == ordered_keys::ordered(only_right.dom()),
                ordered_keys::ascending(rest@),
                forall|k: u64| #[trigger] rest@.contains(k) <==> only_right.contains_key(k),
                forall|k: u64| #[trigger]
                    only_right.contains_key(k) ==> only_right[k] == rm[k],
                without(right@, only_right, rest@.take(j as int)),
                diffs@ == lefts + right_write_diffs(allow, rest@.take(j as int), rm),
                printable(diffs@),
            decreases rest.len() - j,
        {
            let key = rest[j];
            let ghost rights = right@;
            proof {
                lemma_next_key_is_left(right@, only_right, rest@, j as int);
                assert(rest@.contains(key));
                assert(only_right.contains_key(key));
            }
            let maybe_right = right.remove(&key);
            proof {
                lemma_without_step(rights, right@, only_right, rest@, j as int);
            }
            if let Some((state_key, right_op)) = maybe_right {
                if !(allow && state_key.depends_on_gas()) {
                    diffs.push(Diff::WriteSet { state_key, left: None, right: Some(right_op) });
                }
            }
            j += 1;
            proof {
                let next = rest@.take(j as int);
                assert(next.drop_last() =~= rest@.take(j - 1));
                assert(next.last() == key);
                assert(diffs@ =~= lefts + right_write_diffs(allow, next, rm));
            }
        }
        proof {
            assert(rest@.take(j as int) =~= rest@);
        }
        diffs
    }
}

/// Every event difference names an event.
pub open spec fn printable(diffs: Seq<Diff>) -> bool {
    forall|i: int|
        0 <= i < diffs.len() ==> (#[trigger] diffs[i] matches Diff::Event { left, right } ==> left
            is Some || right is Some)
}

/// The line that reports a difference.
pub open spec fn diff_line(diff: Diff) -> Seq<char> {
    match diff {
        Diff::GasUsed { left, right } => "[gas used] before: "@ + text::decimal(left as nat)
            + ", after: "@ + text::decimal(right as nat) + "\n"@,
        Diff::ExecutionStatus { left, right } => "[execution status] before: "@ + left.debug@
            + ", after: "@ + right.debug@ + "\n"@,
        Diff::Event { left: None, right } => "[event] "@ + right->0.type_tag.canonical@
            + " was not emitted before"@ + "\n"@,
        Diff::Event { left: Some(left), right: None } => "[event] "@ + left.type_tag.canonical@
            + " is not emitted anymore"@ + "\n"@,
        Diff::Event { left: Some(left), right: Some(_) } => "[event] "@
            + left.type_tag.canonical@ + " has changed its data"@ + "\n"@,
        Diff::WriteSet { state_key, left: None, .. } => "[write] "@ + state_key.debug@
            + " was not written to before"@ + "\n"@,
        Diff::WriteSet { state_key, left: Some(_), right: None } => "[write] "@
            + state_key.debug@ + " is not written to anymore"@ + "\n"@,
        Diff::WriteSet { state_key, left: Some(_), right: Some(_) } => "[write] "@
            + state_key.debug@ + " has changed its value"@ + "\n"@,
    }
}

/// The lines that report some differences.
pub open spec fn diff_lines(diffs: Seq<Diff>) -> Seq<char>
    decreases diffs.len(),
{
    if diffs.len() == 0 {
        Seq::empty()
    } else {
        diff_lines(diffs.drop_last()) + diff_line(diffs.last())
    }
}

/// Appends a line made of three parts.
fn append_line(report: &mut String, label: &str, name: &str, remark: &str)
    ensures
        final(report)@ == old(report)@ + (label@ + name@ + remark@ + "\n"@),
{
    report.append(label);
    report.append(name);
    report.append(remark);
    report.append("\n");
    proof {
        assert(report@ =~= old(report)@ + (label@ + name@ + remark@ + "\n"@));
    }
}

/// Appends a line that shows a value before and after.
fn append_change(report: &mut String, label: &str, before: &str, after: &str)
    ensures
        final(report)@ == old(report)@ + (label@ + before@ + ", after: "@ + after@ + "\n"@),
{
    report.append(label);
    report.append(before);
    report.append(", after: ");
    report.append(after);
    report.append("\n");
    proof {
        assert(report@ =~= old(report)@ + (label@ + before@ + ", after: "@ + after@ + "\n"@));
    }
}

fn append_diff(report: &mut String, diff: &Diff)
    requires
        *diff matches Diff::Event { left, right } ==> left is Some || right is Some,
    ensures
        final(report)@ == old(report)@ + diff_line(*diff),
{
    match diff {
        Diff::GasUsed { left, right } => {
            let before = text::decimal_string(*left);
            let after = text::decimal_string(*right);
            append_change(report, "[gas used] before: ", before.as_str(), after.as_str());
        },
        Diff::ExecutionStatus { left, right } => {
            append_change(
                report,
                "[execution status] before: ",
                left.debug.as_str(),
                right.debug.as_str(),
            );
        },
        Diff::Event { left, right } => match (left, right) {
            (None, Some(event)) => {
                append_line(
                    report,
                    "[event] ",
                    event.type_tag.canonical.as_str(),
                    " was not emitted before",
                );
            },
            (Some(event), None) => {
                append_line(
                    report,
                    "[event] ",
                    event.type_tag.canonical.as_str(),
                    " is not emitted anymore",
                );
            },
            (Some(event), Some(_)) => {
                append_line(
                    report,
                    "[event] ",
                    event.type_tag.canonical.as_str(),
                    " has changed its data",
                );
            },
            (None, None) => {},
        },
        Diff::WriteSet { state_key, left, right } => match (left, right) {
            (None, _) => {
                append_line(
                    report,
                    "[write] ",
                    state_key.debug.as_str(),
                    " was not written to before",
                );
            },
            (Some(_), None) => {
                append_line(
                    report,
                    "[write] ",
                    state_key.debug.as_str(),
                    " is not written to anymore",
                );
            },
            (Some(_), Some(_)) => {
                append_line(
                    report,
                    "[write] ",
                    state_key.debug.as_str(),
                    " has changed its value",
                );
            },
        },
    }
}

impl TransactionDiff {
    /// The text that shows the differences, one to a line, between two marks.
    pub fn report(&self) -> (report: String)
        requires
            printable(self.diffs@),
        ensures
            report@ == " >>>>> \n"@ + diff_lines(self.diffs@) + " <<<<< \n"@,
    {
        let mut report = String::from_str(" >>>>> \n");
        let mut i: usize = 0;
        proof {
            assert(self.diffs@.take(0) =~= Seq::empty());
            assert(report@ =~= " >>>>> \n"@ + diff_lines(self.diffs@.take(0)));
        }
        while i < self.diffs.len()
            invariant
                i <= self.diffs.len(),
                printable(self.diffs@),
                report@ == " >>>>> \n"@ + diff_lines(self.diffs@.take(i as int)),
            decreases self.diffs.len() - i,
        {
            append_diff(&mut report, &self.diffs[i]);
            i += 1;
            proof {
                let shown = self.diffs@.take(i as int);
                assert(shown.drop_last() =~= self.diffs@.take(i - 1));
                assert(shown.last() == self.diffs[i - 1]);
                assert(report@ =~= " >>>>> \n"@ + diff_lines(shown));
            }
        }
        proof {
            assert(self.diffs@.take(i as int) =~= self.diffs@);
        }
        report.append(" <<<<< \n");
        report
    }
}

} // verus!
