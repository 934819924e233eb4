//! What is left out of the differences where the gas may differ, and that nothing
//! else is.

use crate::diff;
use crate::diff::{ContractEvent, Diff, StateKey, TransactionOutput, WriteOp};
use crate::diff_laws;
use crate::ordered_keys;
use vstd::prelude::*;

verus! {

/// Both sides emitted a fee statement. A difference of events is about one type,
/// so the left side tells.
pub open spec fn fee_pair(d: Diff) -> bool {
    d matches Diff::Event { left: Some(left), right: Some(_) } && left.type_tag.is_fee_statement
}

/// A write to a key that depends on the gas.
pub open spec fn gas_write(d: Diff) -> bool {
    d matches Diff::WriteSet { state_key, .. } && (state_key.is_total_supply
        || state_key.is_account_balance)
}

/// A difference that comes with a different gas usage.
pub open spec fn gas_trace(d: Diff) -> bool {
    d is GasUsed || fee_pair(d) || gas_write(d)
}

/// The differences that do not come with a different gas usage.
pub open spec fn without_gas_traces(diffs: Seq<Diff>) -> Seq<Diff> {
    diffs.filter(|d: Diff| !gas_trace(d))
}

proof fn lemma_without_push(diffs: Seq<Diff>, d: Diff)
    ensures
        without_gas_traces(diffs.push(d)) == if gas_trace(d) {
            without_gas_traces(diffs)
        } else {
            without_gas_traces(diffs).push(d)
        },
{
    reveal(Seq::filter);
    assert(diffs.push(d).drop_last() =~= diffs);
}

proof fn lemma_without_add(a: Seq<Diff>, b: Seq<Diff>)
    ensures
        without_gas_traces(a + b) == without_gas_traces(a) + without_gas_traces(b),
{
    Seq::filter_distributes_over_add(a, b, |d: Diff| !gas_trace(d));
}

/// Where there is nothing to leave out, everything stays.
proof fn lemma_without_none(diffs: Seq<Diff>)
    requires
        forall|i: int| 0 <= i < diffs.len() ==> !gas_trace(#[trigger] diffs[i]),
    ensures
        without_gas_traces(diffs) == diffs,
    decreases diffs.len(),
{
    reveal(Seq::filter);
    if diffs.len() > 0 {
        assert forall|i: int| 0 <= i < diffs.drop_last().len() implies !gas_trace(
            #[trigger] diffs.drop_last()[i],
        ) by {
            assert(diffs.drop_last()[i] == diffs[i]);
        }
        lemma_without_none(diffs.drop_last());
        assert(!gas_trace(diffs[diffs.len() - 1]));
        assert(diffs.drop_last().push(diffs.last()) =~= diffs);
    }
}

proof fn lemma_left_events(
    keys: Seq<u64>,
    left: Map<u64, ContractEvent>,
    right: Map<u64, ContractEvent>,
)
    ensures
        diff::left_event_diffs(true, keys, left, right) == without_gas_traces(
            diff::left_event_diffs(false, keys, left, right),
        ),
    decreases keys.len(),
{
    if keys.len() == 0 {
        lemma_without_none(Seq::empty());
    } else {
        let shorter = keys.drop_last();
        let key = keys.last();
        let d = Diff::Event { left: Some(left[key]), right: diff::lookup(right, key) };
        lemma_left_events(shorter, left, right);
        lemma_without_push(diff::left_event_diffs(false, shorter, left, right), d);
    }
}

/// Where the gas may differ, the differences between events are those that there
/// are otherwise, in the same order, but for the pairs of fee statements.
pub proof fn law_only_fee_pairs_are_left_out(left: Seq<ContractEvent>, right: Seq<ContractEvent>)
    ensures
        diff::event_diffs(true, left, right) == diff::event_diffs(false, left, right).filter(
            |d: Diff| !fee_pair(d),
        ),
{
    lemma_events_without(left, right);
    let all = diff::event_diffs(false, left, right);
    assert forall|i: int| 0 <= i < all.len() implies #[trigger] all[i] is Event by {
        assert(all.contains(all[i]));
        diff_laws::law_event_diffs_are_exact(false, left, right, all[i]);
    }
    lemma_events_filter(all);
}

/// Of events the only traces are the pairs of fee statements.
proof fn lemma_events_filter(diffs: Seq<Diff>)
    requires
        forall|i: int| 0 <= i < diffs.len() ==> #[trigger] diffs[i] is Event,
    ensures
        without_gas_traces(diffs) == diffs.filter(|d: Diff| !fee_pair(d)),
    decreases diffs.len(),
{
    reveal(Seq::filter);
    if diffs.len() > 0 {
        assert forall|i: int| 0 <= i < diffs.drop_last().len() implies (
        #[trigger] diffs.drop_last()[i]) is Event by {
            assert(diffs.drop_last()[i] == diffs[i]);
        }
        lemma_events_filter(diffs.drop_last());
        assert(diffs[diffs.len() - 1] is Event);
    }
}

proof fn lemma_events_without(left: Seq<ContractEvent>, right: Seq<ContractEvent>)
    ensures
        diff::event_diffs(true, left, right) == without_gas_traces(
            diff::event_diffs(false, left, right),
        ),
{
    let l = diff::event_map(left);
    let r = diff::event_map(right);
    let lk = ordered_keys::ordered(l.dom());
    let rk = ordered_keys::ordered(r.dom().difference(l.dom()));
    let rd = diff::right_event_diffs(rk, r);
    lemma_left_events(lk, l, r);
    lemma_without_none(rd);
    lemma_without_add(diff::left_event_diffs(false, lk, l, r), rd);
}

/// The event under a key is one of the list.
proof fn lemma_event_of_list(events: Seq<ContractEvent>, key: u64) -> (at: int)
    requires
        diff::event_map(events).contains_key(key),
    ensures
        0 <= at < events.len(),
        events[at] == diff::event_map(events)[key],
        events[at].type_tag.rank == key,
{
    diff_laws::law_last_event_counts(events, key);
    choose|i: int|
        {
            &&& 0 <= i < events.len()
            &&& #[trigger] events[i] == diff::event_map(events)[key]
            &&& events[i].type_tag.rank == key
            &&& forall|j: int|
                i < j < events.len() ==> (#[trigger] events[j]).type_tag.rank != key
        }
}

/// A pair of fee statements is of that type on both sides.
pub proof fn law_fee_pair_is_one_type(
    left: Seq<ContractEvent>,
    right: Seq<ContractEvent>,
    d: Diff,
)
    requires
        diff::valid_tags(left, right),
        diff::event_diffs(false, left, right).contains(d),
        d matches Diff::Event { left: Some(_), right: Some(_) },
    ensures
        d matches Diff::Event { left: Some(l), right: Some(r) } && l.type_tag.rank
            == r.type_tag.rank && l.type_tag.canonical@ == r.type_tag.canonical@
            && l.type_tag.is_fee_statement == r.type_tag.is_fee_statement,
{
    let l = diff::event_map(left);
    let r = diff::event_map(right);
    diff_laws::law_event_diffs_are_exact(false, left, right, d);
    let key = choose|key: u64| #[trigger]
        diff_laws::event_type_differs(false, l, r, key) && d == diff_laws::event_entry(l, r, key);
    let i = lemma_event_of_list(left, key);
    let j = lemma_event_of_list(right, key);
    assert((left + right)[i] == left[i]);
    assert((left + right)[left.len() + j] == right[j]);
    assert(diff::tags_agree(left[i].type_tag, right[j].type_tag));
}

/// At most one difference is left out of those between events.
pub proof fn law_at_most_one_fee_pair(
    left: Seq<ContractEvent>,
    right: Seq<ContractEvent>,
    i: int,
    j: int,
)
    requires
        diff::valid_tags(left, right),
        0 <= i < diff::event_diffs(false, left, right).len(),
        0 <= j < diff::event_diffs(false, left, right).len(),
        fee_pair(diff::event_diffs(false, left, right)[i]),
        fee_pair(diff::event_diffs(false, left, right)[j]),
    ensures
        i == j,
{
    let all = diff::event_diffs(false, left, right);
    let l = diff::event_map(left);
    let r = diff::event_map(right);
    assert(all.contains(all[i]) && all.contains(all[j]));
    diff_laws::law_event_diffs_are_exact(false, left, right, all[i]);
    diff_laws::law_event_diffs_are_exact(false, left, right, all[j]);
    let a = choose|key: u64| #[trigger]
        diff_laws::event_type_differs(false, l, r, key) && all[i] == diff_laws::event_entry(
            l,
            r,
            key,
        );
    let b = choose|key: u64| #[trigger]
        diff_laws::event_type_differs(false, l, r, key) && all[j] == diff_laws::event_entry(
            l,
            r,
            key,
        );
    let x = lemma_event_of_list(left, a);
    let y = lemma_event_of_list(left, b);
    assert((left + right)[x] == left[x] && (left + right)[y] == left[y]);
    assert(diff::tags_agree(left[x].type_tag, left[y].type_tag));
    if i < j {
        diff_laws::law_every_type_is_reported_once(false, left, right, i, j);
    } else if j < i {
        diff_laws::law_every_type_is_reported_once(false, left, right, j, i);
    }
}

/// An event type that only one side emitted is reported, whatever it is and
/// whether the gas may differ or not.
pub proof fn law_one_sided_event_is_reported(
    allow: bool,
    left: Seq<ContractEvent>,
    right: Seq<ContractEvent>,
    key: u64,
)
    requires
        diff::event_map(left).contains_key(key) != diff::event_map(right).contains_key(key),
    ensures
        diff::event_diffs(allow, left, right).contains(
            diff_laws::event_entry(diff::event_map(left), diff::event_map(right), key),
        ),
{
    let l = diff::event_map(left);
    let r = diff::event_map(right);
    assert(diff_laws::event_type_differs(allow, l, r, key));
    diff_laws::law_event_diffs_are_exact(
        allow,
        left,
        right,
        diff_laws::event_entry(l, r, key),
    );
}

proof fn lemma_left_writes(
    keys: Seq<u64>,
    left: Map<u64, (StateKey, WriteOp)>,
    right: Map<u64, (StateKey, WriteOp)>,
)
    ensures
        diff::left_write_diffs(true, keys, left, right) == without_gas_traces(
            diff::left_write_diffs(false, keys, left, right),
        ),
    decreases keys.len(),
{
    if keys.len() == 0 {
        lemma_without_none(Seq::empty());
    } else {
        let shorter = keys.drop_last();
        let key = keys.last();
        let d = Diff::WriteSet {
            state_key: left[key].0,
            left: Some(left[key].1),
            right: diff::write_of(diff::lookup(right, key)),
        };
        lemma_left_writes(shorter, left, right);
        lemma_without_push(diff::left_write_diffs(false, shorter, left, right), d);
    }
}

proof fn lemma_right_writes(keys: Seq<u64>, right: Map<u64, (StateKey, WriteOp)>)
    ensures
        diff::right_write_diffs(true, keys, right) == without_gas_traces(
            diff::right_write_diffs(false, keys, right),
        ),
    decreases keys.len(),
{
    if keys.len() == 0 {
        lemma_without_none(Seq::empty());
    } else {
        let shorter = keys.drop_last();
        let key = keys.last();
        let d = Diff::WriteSet {
            state_key: right[key].0,
            left: None,
            right: Some(right[key].1),
        };
        lemma_right_writes(shorter, right);
        lemma_without_push(diff::right_write_diffs(false, shorter, right), d);
    }
}

proof fn lemma_writes_without(
    left: Map<u64, (StateKey, WriteOp)>,
    right: Map<u64, (StateKey, WriteOp)>,
)
    ensures
        diff::write_diffs(true, left, right) == without_gas_traces(
            diff::write_diffs(false, left, right),
        ),
{
    let lk = ordered_keys::ordered(left.dom());
    let rk = ordered_keys::ordered(right.dom().difference(left.dom()));
    lemma_left_writes(lk, left, right);
    lemma_right_writes(rk, right);
    lemma_without_add(
        diff::left_write_diffs(false, lk, left, right),
        diff::right_write_diffs(false, rk, right),
    );
}

/// Of writes the only traces are those to keys that depend on the gas.
proof fn lemma_writes_filter(diffs: Seq<Diff>)
    requires
        forall|i: int| 0 <= i < diffs.len() ==> #[trigger] diffs[i] is WriteSet,
    ensures
        without_gas_traces(diffs) == diffs.filter(|d: Diff| !gas_write(d)),
    decreases diffs.len(),
{
    reveal(Seq::filter);
    if diffs.len() > 0 {
        assert forall|i: int| 0 <= i < diffs.drop_last().len() implies (
        #[trigger] diffs.drop_last()[i]) is WriteSet by {
            assert(diffs.drop_last()[i] == diffs[i]);
        }
        lemma_writes_filter(diffs.drop_last());
        assert(diffs[diffs.len() - 1] is WriteSet);
    }
}

/// Where the gas may differ, the differences between write sets are those that
/// there are otherwise, in the same order, but for the keys that depend on the
/// gas.
pub proof fn law_only_gas_writes_are_left_out(
    left: Map<u64, (StateKey, WriteOp)>,
    right: Map<u64, (StateKey, WriteOp)>,
)
    ensures
        diff::write_diffs(true, left, right) == diff::write_diffs(false, left, right).filter(
            |d: Diff| !gas_write(d),
        ),
{
    lemma_writes_without(left, right);
    let all = diff::write_diffs(false, left, right);
    assert forall|i: int| 0 <= i < all.len() implies #[trigger] all[i] is WriteSet by {
        assert(all.contains(all[i]));
        diff_laws::law_write_diffs_are_exact(false, left, right, all[i]);
    }
    lemma_writes_filter(all);
}

/// A key that one side says depends on the gas depends on it on the other side
/// too, so that either side tells whether its writes are left out.
pub proof fn law_gas_keys_agree(
    left: Map<u64, (StateKey, WriteOp)>,
    right: Map<u64, (StateKey, WriteOp)>,
    key: u64,
)
    requires
        diff::valid_keys(left, right),
        left.contains_key(key),
        right.contains_key(key),
    ensures
        diff::gas_related(left[key].0) == diff::gas_related(right[key].0),
        diff::gas_related(left[key].0) == (left[key].0.is_total_supply
            || left[key].0.is_account_balance),
{
    assert(diff::keys_agree(left[key].0, right[key].0));
}

/// Where the gas may differ, the differences between outputs are those that there
/// are otherwise, in the same order, but for the gas itself, the pairs of fee
/// statements, and the writes to keys that depend on the gas.
pub proof fn law_only_gas_traces_are_left_out(left: TransactionOutput, right: TransactionOutput)
    requires
        left.status is Keep,
        right.status is Keep,
    ensures
        diff::output_diffs(true, left, right) == diff::output_diffs(false, left, right).filter(
            |d: Diff| !gas_trace(d),
        ),
{
    let s = diff::status_diffs(left.status->Keep_0, right.status->Keep_0);
    let g = diff::gas_diffs(false, left.gas_used, right.gas_used);
    let e = diff::event_diffs(false, left.events@, right.events@);
    let w = diff::write_diffs(false, left.write_set@, right.write_set@);
    lemma_without_none(s);
    lemma_without_none(Seq::empty());
    if g.len() > 0 {
        lemma_without_push(Seq::empty(), g[0]);
        assert(g =~= Seq::empty().push(g[0]));
    } else {
        assert(g =~= Seq::empty());
    }
    assert(without_gas_traces(g) =~= Seq::empty());
    lemma_events_without(left.events@, right.events@);
    lemma_writes_without(left.write_set@, right.write_set@);
    lemma_without_add(s, g);
    lemma_without_add(s + g, e);
    lemma_without_add(s + g + e, w);
    assert(without_gas_traces(diff::output_diffs(false, left, right)) =~= diff::output_diffs(
        true,
        left,
        right,
    ));
}

} // verus!
