//! What two outputs show, from the lists of events and writes that they are made
//! of to the lines of the report.

use crate::diff;
use crate::diff::{
    ContractEvent, Diff, ExecutionStatus, StateKey, StateValueMetadata, TransactionOutput, WriteOp,
    WriteOpView,
};
use crate::diff_laws;
use crate::ordered_keys;
use crate::text;
use vstd::prelude::*;

verus! {

/// No write behind this one is to the same key.
pub open spec fn last_of_key(writes: Seq<(StateKey, WriteOp)>, i: int) -> bool {
    &&& 0 <= i < writes.len()
    &&& forall|j: int| i < j < writes.len() ==> (#[trigger] writes[j]).0.rank != writes[i].0.rank
}

/// Of every key the last write counts, whatever it does: the one under a key is
/// a write to that key, and no write to the key comes after it.
pub proof fn law_last_write_counts(writes: Seq<(StateKey, WriteOp)>, key: u64)
    ensures
        diff::write_map(writes).contains_key(key) <==> exists|i: int|
            0 <= i < writes.len() && (#[trigger] writes[i]).0.rank == key,
        diff::write_map(writes).contains_key(key) ==> exists|i: int|
            #[trigger] last_of_key(writes, i) && writes[i] == diff::write_map(writes)[key]
                && writes[i].0.rank == key,
    decreases writes.len(),
{
    if writes.len() > 0 {
        let before = writes.drop_last();
        law_last_write_counts(before, key);
        let n = writes.len() - 1;
        if writes.last().0.rank == key {
            assert(last_of_key(writes, n));
            assert(writes[n] == diff::write_map(writes)[key]);
        } else {
            if diff::write_map(before).contains_key(key) {
                let i = choose|i: int|
                    #[trigger] last_of_key(before, i) && before[i] == diff::write_map(before)[key]
                        && before[i].0.rank == key;
                assert forall|j: int| i < j < writes.len() implies (#[trigger] writes[j]).0.rank
                    != writes[i].0.rank by {
                    if j < n {
                        assert(before[j].0.rank != before[i].0.rank);
                    }
                }
                assert(last_of_key(writes, i));
                assert(writes[i] == diff::write_map(writes)[key]);
            }
            if exists|i: int| 0 <= i < writes.len() && (#[trigger] writes[i]).0.rank == key {
                let i = choose|i: int|
                    0 <= i < writes.len() && (#[trigger] writes[i]).0.rank == key;
                assert(before[i].0.rank == key);
            }
        }
    }
}

/// The write under the key of a last write is that write.
pub(crate) proof fn lemma_last_write_is_kept(writes: Seq<(StateKey, WriteOp)>, i: int)
    requires
        last_of_key(writes, i),
    ensures
        diff::write_map(writes).contains_key(writes[i].0.rank),
        diff::write_map(writes)[writes[i].0.rank] == writes[i],
{
    let key = writes[i].0.rank;
    law_last_write_counts(writes, key);
    let j = choose|j: int|
        #[trigger] last_of_key(writes, j) && writes[j] == diff::write_map(writes)[key]
            && writes[j].0.rank == key;
    if i < j {
        assert(writes[j].0.rank != writes[i].0.rank);
    } else if j < i {
        assert(writes[i].0.rank != writes[j].0.rank);
    }
}

/// Every last write of the one list is matched by one of the other, to the same
/// key and with the same effect.
pub open spec fn writes_matched(
    one: Seq<(StateKey, WriteOp)>,
    other: Seq<(StateKey, WriteOp)>,
) -> bool {
    forall|i: int| #[trigger]
        last_of_key(one, i) ==> exists|j: int| #[trigger]
            last_of_key(other, j) && other[j].0.rank == one[i].0.rank && same_effect(
                one[i].1,
                other[j].1,
            )
}

/// Two writes do the same: they are of one kind, with the same data and metadata.
pub open spec fn same_effect(a: WriteOp, b: WriteOp) -> bool {
    match (a, b) {
        (
            WriteOp::Creation { data: x, metadata: m },
            WriteOp::Creation { data: y, metadata: n },
        ) => x@ == y@ && m == n,
        (
            WriteOp::Modification { data: x, metadata: m },
            WriteOp::Modification { data: y, metadata: n },
        ) => x@ == y@ && m == n,
        (WriteOp::Deletion { metadata: m }, WriteOp::Deletion { metadata: n }) => m == n,
        _ => false,
    }
}

/// A write shows its kind, its data and its metadata, so two show the same exactly
/// when they do the same.
pub proof fn law_writes_show_all(
    data: Vec<u8>,
    metadata: Option<StateValueMetadata>,
    a: WriteOp,
    b: WriteOp,
)
    ensures
        (WriteOp::Creation { data, metadata })@ == WriteOpView::Creation(data@, metadata),
        (WriteOp::Modification { data, metadata })@ == WriteOpView::Modification(data@, metadata),
        (WriteOp::Deletion { metadata })@ == WriteOpView::Deletion(metadata),
        a@ == b@ <==> same_effect(a, b),
{
}

/// Where nothing is ignored, two lists of writes show no difference exactly when
/// their last writes to all keys do the same.
pub proof fn law_no_write_diff_means_same_last_writes(
    left: Seq<(StateKey, WriteOp)>,
    right: Seq<(StateKey, WriteOp)>,
)
    ensures
        diff::write_diffs(false, diff::write_map(left), diff::write_map(right)).len() == 0
            <==> writes_matched(left, right) && writes_matched(right, left),
{
    let l = diff::write_map(left);
    let r = diff::write_map(right);
    diff_laws::law_no_write_diff_means_same(l, r);
    if diff_laws::same_writes(l, r) {
        lemma_matched(left, right);
        assert(diff_laws::same_writes(r, l)) by {
            assert forall|key: u64| #[trigger] r.contains_key(key) implies r[key].1@
                == l[key].1@ by {
                assert(l.dom().contains(key));
                assert(l.contains_key(key));
            }
        }
        lemma_matched(right, left);
    }
    if writes_matched(left, right) && writes_matched(right, left) {
        lemma_kept_match(left, right);
        lemma_kept_match(right, left);
        assert(l.dom() =~= r.dom()) by {
            assert forall|key: u64| l.dom().contains(key) <==> r.dom().contains(key) by {
                assert(l.contains_key(key) ==> r.contains_key(key));
                assert(r.contains_key(key) ==> l.contains_key(key));
            }
        }
    }
}

proof fn lemma_matched(one: Seq<(StateKey, WriteOp)>, other: Seq<(StateKey, WriteOp)>)
    requires
        diff_laws::same_writes(diff::write_map(one), diff::write_map(other)),
    ensures
        writes_matched(one, other),
{
    assert forall|i: int| #[trigger] last_of_key(one, i) implies exists|j: int| #[trigger]
        last_of_key(other, j) && other[j].0.rank == one[i].0.rank && same_effect(
            one[i].1,
            other[j].1,
        ) by {
        lemma_last_write_is_kept(one, i);
        let key = one[i].0.rank;
        assert(diff::write_map(one).contains_key(key));
        assert(diff::write_map(other).dom().contains(key));
        law_last_write_counts(other, key);
        let j = choose|j: int|
            #[trigger] last_of_key(other, j) && other[j] == diff::write_map(other)[key]
                && other[j].0.rank == key;
        assert(last_of_key(other, j));
        assert(one[i].1@ == other[j].1@);
    }
}

proof fn lemma_kept_match(one: Seq<(StateKey, WriteOp)>, other: Seq<(StateKey, WriteOp)>)
    requires
        writes_matched(one, other),
    ensures
        forall|key: u64| #[trigger]
            diff::write_map(one).contains_key(key) ==> diff::write_map(other).contains_key(key)
                && diff::write_map(one)[key].1@ == diff::write_map(other)[key].1@,
{
    assert forall|key: u64| #[trigger] diff::write_map(one).contains_key(key) implies
        diff::write_map(other).contains_key(key) && diff::write_map(one)[key].1@
        == diff::write_map(other)[key].1@ by {
        law_last_write_counts(one, key);
        let i = choose|i: int|
            #[trigger] last_of_key(one, i) && one[i] == diff::write_map(one)[key]
                && one[i].0.rank == key;
        let j = choose|j: int| #[trigger]
            last_of_key(other, j) && other[j].0.rank == one[i].0.rank && same_effect(
                one[i].1,
                other[j].1,
            );
        lemma_last_write_is_kept(other, j);
    }
}

/// The differences between two outputs are the one between their statuses, the
/// one between what they used of gas, those between their events and those
/// between their writes, in this order, each with the left side on the left.
pub proof fn law_output_diffs_are_exact(
    allow: bool,
    left: TransactionOutput,
    right: TransactionOutput,
)
    requires
        left.status is Keep,
        right.status is Keep,
    ensures
        ({
            let a = left.status->Keep_0;
            let b = right.status->Keep_0;
            let statuses = if a.encoded@ != b.encoded@ {
                seq![Diff::ExecutionStatus { left: a, right: b }]
            } else {
                seq![]
            };
            let gas = if left.gas_used != right.gas_used && !allow {
                seq![Diff::GasUsed { left: left.gas_used, right: right.gas_used }]
            } else {
                seq![]
            };
            diff::output_diffs(allow, left, right) == statuses + gas + diff::event_diffs(
                allow,
                left.events@,
                right.events@,
            ) + diff::write_diffs(allow, left.write_set@, right.write_set@)
        }),
{
}

/// Differences between events come in the order of their types: first all types
/// that the left side emitted, then those that only the right side did.
pub proof fn law_event_diffs_are_ordered(
    allow: bool,
    left: Seq<ContractEvent>,
    right: Seq<ContractEvent>,
    i: int,
    j: int,
)
    requires
        0 <= i < j < diff::event_diffs(allow, left, right).len(),
    ensures
        match (
            diff::event_diffs(allow, left, right)[i],
            diff::event_diffs(allow, left, right)[j],
        ) {
            (Diff::Event { left: Some(a), .. }, Diff::Event { left: Some(b), .. }) => {
                a.type_tag.rank < b.type_tag.rank
            },
            (Diff::Event { left: Some(_), .. }, Diff::Event { left: None, right: Some(_) }) => true,
            (
                Diff::Event { left: None, right: Some(a) },
                Diff::Event { left: None, right: Some(b) },
            ) => a.type_tag.rank < b.type_tag.rank,
            _ => false,
        },
{
    let l = diff::event_map(left);
    let r = diff::event_map(right);
    let lk = ordered_keys::ordered(l.dom());
    let rk = ordered_keys::ordered(r.dom().difference(l.dom()));
    ordered_keys::lemma_ordered(l.dom());
    ordered_keys::lemma_ordered(r.dom().difference(l.dom()));
    diff_laws::lemma_events_in_place(left);
    diff_laws::lemma_events_in_place(right);
    assert forall|x: int| 0 <= x < lk.len() implies l.contains_key(#[trigger] lk[x]) by {
        assert(lk.contains(lk[x]));
    }
    diff_laws::lemma_left_event_order(allow, lk, l, r);
    let ld = diff::left_event_diffs(allow, lk, l, r);
    lemma_left_events_are_left(allow, lk, l, r);
    let all = diff::event_diffs(allow, left, right);
    assert(all == ld + diff::right_event_diffs(rk, r));
    if j < ld.len() {
        assert(all[i] == ld[i] && all[j] == ld[j]);
    } else {
        let y = j - ld.len();
        assert(rk.contains(rk[y]));
        assert(r.contains_key(rk[y]));
        if i < ld.len() {
            assert(all[i] == ld[i]);
        } else {
            let x = i - ld.len();
            assert(rk.contains(rk[x]));
            assert(r.contains_key(rk[x]));
            assert(rk[x] < rk[y]);
        }
    }
}

proof fn lemma_left_events_are_left(
    allow: bool,
    keys: Seq<u64>,
    left: Map<u64, ContractEvent>,
    right: Map<u64, ContractEvent>,
)
    ensures
        forall|i: int|
            0 <= i < diff::left_event_diffs(allow, keys, left, right).len() ==> (
            #[trigger] diff::left_event_diffs(allow, keys, left, right)[i] matches Diff::Event {
                left: Some(_),
                ..
            }),
    decreases keys.len(),
{
    if keys.len() > 0 {
        lemma_left_events_are_left(allow, keys.drop_last(), left, right);
    }
}

/// Differences between write sets come in the order of their keys: first all
/// keys that the left side wrote to, then those that only the right side did.
pub proof fn law_write_diffs_are_ordered(
    allow: bool,
    left: Map<u64, (StateKey, WriteOp)>,
    right: Map<u64, (StateKey, WriteOp)>,
    i: int,
    j: int,
)
    requires
        diff::writes_in_place(left),
        diff::writes_in_place(right),
        0 <= i < j < diff::write_diffs(allow, left, right).len(),
    ensures
        match (
            diff::write_diffs(allow, left, right)[i],
            diff::write_diffs(allow, left, right)[j],
        ) {
            (
                Diff::WriteSet { state_key: a, left: Some(_), .. },
                Diff::WriteSet { state_key: b, left: Some(_), .. },
            ) => a.rank < b.rank,
            (
                Diff::WriteSet { left: Some(_), .. },
                Diff::WriteSet { left: None, right: Some(_), .. },
            ) => true,
            (
                Diff::WriteSet { state_key: a, left: None, right: Some(_) },
                Diff::WriteSet { state_key: b, left: None, right: Some(_) },
            ) => a.rank < b.rank,
            _ => false,
        },
{
    let lk = ordered_keys::ordered(left.dom());
    let rk = ordered_keys::ordered(right.dom().difference(left.dom()));
    ordered_keys::lemma_ordered(left.dom());
    ordered_keys::lemma_ordered(right.dom().difference(left.dom()));
    assert forall|x: int| 0 <= x < lk.len() implies left.contains_key(#[trigger] lk[x]) by {
        assert(lk.contains(lk[x]));
    }
    assert forall|x: int| 0 <= x < rk.len() implies right.contains_key(#[trigger] rk[x]) by {
        assert(rk.contains(rk[x]));
    }
    diff_laws::lemma_left_write_order(allow, lk, left, right);
    diff_laws::lemma_right_write_order(allow, rk, right);
    lemma_left_writes_are_left(allow, lk, left, right);
    lemma_right_writes_are_right(allow, rk, right);
    let ld = diff::left_write_diffs(allow, lk, left, right);
    let rd = diff::right_write_diffs(allow, rk, right);
    let all = diff::write_diffs(allow, left, right);
    assert(all == ld + rd);
    if j < ld.len() {
        assert(all[i] == ld[i] && all[j] == ld[j]);
    } else if i < ld.len() {
        assert(all[i] == ld[i] && all[j] == rd[j - ld.len()]);
    } else {
        assert(all[i] == rd[i - ld.len()] && all[j] == rd[j - ld.len()]);
    }
}

proof fn lemma_left_writes_are_left(
    allow: bool,
    keys: Seq<u64>,
    left: Map<u64, (StateKey, WriteOp)>,
    right: Map<u64, (StateKey, WriteOp)>,
)
    ensures
        forall|i: int|
            0 <= i < diff::left_write_diffs(allow, keys, left, right).len() ==> (
            #[trigger] diff::left_write_diffs(allow, keys, left, right)[i] matches Diff::WriteSet {
                left: Some(_),
                ..
            }),
    decreases keys.len(),
{
    if keys.len() > 0 {
        lemma_left_writes_are_left(allow, keys.drop_last(), left, right);
    }
}

proof fn lemma_right_writes_are_right(
    allow: bool,
    keys: Seq<u64>,
    right: Map<u64, (StateKey, WriteOp)>,
)
    ensures
        forall|i: int|
            0 <= i < diff::right_write_diffs(allow, keys, right).len() ==> (
            #[trigger] diff::right_write_diffs(allow, keys, right)[i] matches Diff::WriteSet {
                left: None,
                right: Some(_),
                ..
            }),
    decreases keys.len(),
{
    if keys.len() > 0 {
        lemma_right_writes_are_right(allow, keys.drop_last(), right);
    }
}

/// The report has a line to every difference, in their order: the lines of two
/// lists of differences one behind the other are those of the first and then
/// those of the second.
pub proof fn law_lines_follow_the_differences(a: Seq<Diff>, b: Seq<Diff>, d: Diff)
    ensures
        diff::diff_lines(a + b) == diff::diff_lines(a) + diff::diff_lines(b),
        diff::diff_lines(seq![d]) == diff::diff_line(d),
        diff::diff_lines(Seq::empty()).len() == 0,
    decreases b.len(),
{
    let one = seq![d];
    assert(one.drop_last() =~= Seq::empty());
    assert(diff::diff_lines(one.drop_last()) =~= Seq::empty());
    assert(diff::diff_lines(one) =~= diff::diff_line(one.last()));
    if b.len() == 0 {
        assert(a + b =~= a);
        assert(diff::diff_lines(a) + diff::diff_lines(b) =~= diff::diff_lines(a));
    } else {
        law_lines_follow_the_differences(a, b.drop_last(), d);
        assert((a + b).drop_last() =~= a + b.drop_last());
        assert(diff::diff_lines(a + b) =~= diff::diff_lines(a) + diff::diff_lines(b));
    }
}

/// The line of a difference names what differs, and says how.
pub proof fn law_lines_say_what_differs(
    x: u64,
    y: u64,
    s: ExecutionStatus,
    t: ExecutionStatus,
    e: ContractEvent,
    f: ContractEvent,
    key: StateKey,
    v: WriteOp,
    w: Option<WriteOp>,
    u: WriteOp,
)
    ensures
        diff::diff_line(Diff::GasUsed { left: x, right: y }) == "[gas used] before: "@
            + text::decimal(x as nat) + ", after: "@ + text::decimal(y as nat) + "\n"@,
        diff::diff_line(Diff::ExecutionStatus { left: s, right: t })
            == "[execution status] before: "@ + s.debug@ + ", after: "@ + t.debug@ + "\n"@,
        diff::diff_line(Diff::Event { left: None, right: Some(f) }) == "[event] "@
            + f.type_tag.canonical@ + " was not emitted before"@ + "\n"@,
        diff::diff_line(Diff::Event { left: Some(e), right: None }) == "[event] "@
            + e.type_tag.canonical@ + " is not emitted anymore"@ + "\n"@,
        diff::diff_line(Diff::Event { left: Some(e), right: Some(f) }) == "[event] "@
            + e.type_tag.canonical@ + " has changed its data"@ + "\n"@,
        diff::diff_line(Diff::WriteSet { state_key: key, left: None, right: w }) == "[write] "@
            + key.debug@ + " was not written to before"@ + "\n"@,
        diff::diff_line(Diff::WriteSet { state_key: key, left: Some(v), right: None })
            == "[write] "@ + key.debug@ + " is not written to anymore"@ + "\n"@,
        diff::diff_line(Diff::WriteSet { state_key: key, left: Some(v), right: Some(u) })
            == "[write] "@ + key.debug@ + " has changed its value"@ + "\n"@,
{
}

} // verus!
