//! What holds of the differences between any two outputs.

use crate::diff;
use crate::diff::{ContractEvent, Diff, ExecutionStatus, StateKey, TransactionOutput, WriteOp};
use crate::ordered_keys;
use vstd::prelude::*;

verus! {

/// The events of a map are kept under their own types.
proof fn lemma_event_map(events: Seq<ContractEvent>, key: u64)
    ensures
        diff::event_map(events).contains_key(key) ==> diff::event_map(events)[key].type_tag.rank
            == key,
    decreases events.len(),
{
    if events.len() > 0 {
        lemma_event_map(events.drop_last(), key);
    }
}

/// Of every type the last event counts: the one under a key is an event of that
/// type, and no event of the type comes after it.
pub proof fn law_last_event_counts(events: Seq<ContractEvent>, key: u64)
    ensures
        diff::event_map(events).contains_key(key) <==> exists|i: int|
            0 <= i < events.len() && (#[trigger] events[i]).type_tag.rank == key,
        diff::event_map(events).contains_key(key) ==> exists|i: int|
            {
                &&& 0 <= i < events.len()
                &&& #[trigger] events[i] == diff::event_map(events)[key]
                &&& events[i].type_tag.rank == key
                &&& forall|j: int|
                    i < j < events.len() ==> (#[trigger] events[j]).type_tag.rank != key
            },
    decreases events.len(),
{
    if events.len() > 0 {
        let before = events.drop_last();
        law_last_event_counts(before, key);
        let n = events.len() - 1;
        if events.last().type_tag.rank == key {
            assert(events[n] == diff::event_map(events)[key]);
        } else {
            if diff::event_map(before).contains_key(key) {
                let i = choose|i: int|
                    {
                        &&& 0 <= i < before.len()
                        &&& #[trigger] before[i] == diff::event_map(before)[key]
                        &&& before[i].type_tag.rank == key
                        &&& forall|j: int|
                            i < j < before.len() ==> (#[trigger] before[j]).type_tag.rank != key
                    };
                assert(events[i] == diff::event_map(events)[key]);
                assert forall|j: int| i < j < events.len() implies (
                #[trigger] events[j]).type_tag.rank != key by {
                    if j < n {
                        assert(before[j].type_tag.rank != key);
                    }
                }
            }
            if exists|i: int|
                0 <= i < events.len() && (#[trigger] events[i]).type_tag.rank == key {
                let i = choose|i: int|
                    0 <= i < events.len() && (#[trigger] events[i]).type_tag.rank == key;
                assert(before[i].type_tag.rank == key);
            }
        }
    }
}

/// What is reported of one event type: what both sides emitted of it.
pub open spec fn event_entry(
    left: Map<u64, ContractEvent>,
    right: Map<u64, ContractEvent>,
    key: u64,
) -> Diff {
    Diff::Event {
        left: if left.contains_key(key) {
            Some(left[key])
        } else {
            None
        },
        right: if right.contains_key(key) {
            Some(right[key])
        } else {
            None
        },
    }
}

/// The two sides differ in an event type: only one has it, or the data is not the
/// same. Where the gas may differ, the data of fee statements may.
pub open spec fn event_type_differs(
    allow: bool,
    left: Map<u64, ContractEvent>,
    right: Map<u64, ContractEvent>,
    key: u64,
) -> bool {
    if left.contains_key(key) && right.contains_key(key) {
        &&& left[key].event_data@ != right[key].event_data@
        &&& !(allow && left[key].type_tag.is_fee_statement)
    } else {
        left.contains_key(key) || right.contains_key(key)
    }
}

proof fn lemma_left_event_diffs(
    allow: bool,
    keys: Seq<u64>,
    left: Map<u64, ContractEvent>,
    right: Map<u64, ContractEvent>,
)
    requires
        forall|i: int| 0 <= i < keys.len() ==> left.contains_key(#[trigger] keys[i]),
    ensures
        forall|d: Diff| #[trigger]
            diff::left_event_diffs(allow, keys, left, right).contains(d) <==> exists|i: int|
                0 <= i < keys.len() && event_type_differs(allow, left, right, #[trigger] keys[i])
                    && d == event_entry(left, right, keys[i]),
    decreases keys.len(),
{
    let all = diff::left_event_diffs(allow, keys, left, right);
    if keys.len() > 0 {
        let shorter = keys.drop_last();
        let n = keys.len() - 1;
        assert forall|i: int| 0 <= i < shorter.len() implies left.contains_key(
            #[trigger] shorter[i],
        ) by {
            assert(shorter[i] == keys[i]);
        }
        lemma_left_event_diffs(allow, shorter, left, right);
        let before = diff::left_event_diffs(allow, shorter, left, right);
        assert(left.contains_key(keys[n]));
        assert forall|d: Diff| #[trigger] all.contains(d) <==> exists|i: int|
            0 <= i < keys.len() && event_type_differs(allow, left, right, #[trigger] keys[i]) && d
                == event_entry(left, right, keys[i]) by {
            if all.contains(d) {
                let x = choose|x: int| 0 <= x < all.len() && all[x] == d;
                if x < before.len() {
                    assert(before[x] == d);
                    assert(before.contains(d));
                    let i = choose|i: int|
                        0 <= i < shorter.len() && event_type_differs(
                            allow,
                            left,
                            right,
                            #[trigger] shorter[i],
                        ) && d == event_entry(left, right, shorter[i]);
                    assert(keys[i] == shorter[i]);
                } else {
                    assert(event_type_differs(allow, left, right, keys[n]));
                }
            }
            if exists|i: int|
                0 <= i < keys.len() && event_type_differs(allow, left, right, #[trigger] keys[i])
                    && d == event_entry(left, right, keys[i]) {
                let i = choose|i: int|
                    0 <= i < keys.len() && event_type_differs(
                        allow,
                        left,
                        right,
                        #[trigger] keys[i],
                    ) && d == event_entry(left, right, keys[i]);
                if i < n {
                    assert(shorter[i] == keys[i]);
                    assert(before.contains(d));
                    let x = choose|x: int| 0 <= x < before.len() && before[x] == d;
                    assert(all[x] == d);
                } else {
                    assert(all[all.len() - 1] == d);
                }
            }
        }
    }
}

/// The differences of two lists of events are exactly the event types in which
/// they differ, each with what both sides emitted of it.
pub proof fn law_event_diffs_are_exact(
    allow: bool,
    left: Seq<ContractEvent>,
    right: Seq<ContractEvent>,
    d: Diff,
)
    ensures
        diff::event_diffs(allow, left, right).contains(d) <==> exists|key: u64|
            #[trigger] event_type_differs(
                allow,
                diff::event_map(left),
                diff::event_map(right),
                key,
            ) && d == event_entry(diff::event_map(left), diff::event_map(right), key),
{
    let l = diff::event_map(left);
    let r = diff::event_map(right);
    let lk = ordered_keys::ordered(l.dom());
    let rk = ordered_keys::ordered(r.dom().difference(l.dom()));
    ordered_keys::lemma_ordered(l.dom());
    ordered_keys::lemma_ordered(r.dom().difference(l.dom()));
    assert forall|i: int| 0 <= i < lk.len() implies l.contains_key(#[trigger] lk[i]) by {
        assert(lk.contains(lk[i]));
    }
    lemma_left_event_diffs(allow, lk, l, r);
    let ld = diff::left_event_diffs(allow, lk, l, r);
    let rd = diff::right_event_diffs(rk, r);
    let all = diff::event_diffs(allow, left, right);
    assert(all == ld + rd);
    if all.contains(d) {
        let x = choose|x: int| 0 <= x < all.len() && all[x] == d;
        if x < ld.len() {
            assert(ld[x] == d);
            assert(ld.contains(d));
            let i = choose|i: int|
                0 <= i < lk.len() && event_type_differs(allow, l, r, #[trigger] lk[i]) && d
                    == event_entry(l, r, lk[i]);
            assert(event_type_differs(allow, l, r, lk[i]));
        } else {
            let key = rk[x - ld.len()];
            assert(rk.contains(key));
            assert(d == rd[x - ld.len()]);
            assert(event_type_differs(allow, l, r, key));
        }
    }
    if exists|key: u64| #[trigger] event_type_differs(allow, l, r, key) && d == event_entry(
        l,
        r,
        key,
    ) {
        let key = choose|key: u64| #[trigger]
            event_type_differs(allow, l, r, key) && d == event_entry(l, r, key);
        if l.contains_key(key) {
            assert(lk.contains(key));
            let i = choose|i: int| 0 <= i < lk.len() && lk[i] == key;
            assert(event_type_differs(allow, l, r, lk[i]));
            assert(ld.contains(d));
            let x = choose|x: int| 0 <= x < ld.len() && ld[x] == d;
            assert(all[x] == d);
        } else {
            assert(rk.contains(key));
            let i = choose|i: int| 0 <= i < rk.len() && rk[i] == key;
            assert(rd[i] == d);
            assert(all[ld.len() + i] == d);
        }
    }
}

/// Both sides emitted the same types, with the same data of each.
pub open spec fn same_events(
    left: Map<u64, ContractEvent>,
    right: Map<u64, ContractEvent>,
) -> bool {
    &&& left.dom() == right.dom()
    &&& forall|key: u64| #[trigger]
        left.contains_key(key) ==> left[key].event_data@ == right[key].event_data@
}

/// Where nothing is ignored, events show no difference exactly when both sides
/// emitted the same.
pub proof fn law_no_event_diff_means_same(left: Seq<ContractEvent>, right: Seq<ContractEvent>)
    ensures
        diff::event_diffs(false, left, right).len() == 0 <==> same_events(
            diff::event_map(left),
            diff::event_map(right),
        ),
{
    let l = diff::event_map(left);
    let r = diff::event_map(right);
    let all = diff::event_diffs(false, left, right);
    if all.len() == 0 {
        assert forall|key: u64| !event_type_differs(false, l, r, key) by {
            law_event_diffs_are_exact(false, left, right, event_entry(l, r, key));
        }
        assert forall|key: u64| l.dom().contains(key) <==> r.dom().contains(key) by {
            assert(!event_type_differs(false, l, r, key));
        }
        assert(l.dom() =~= r.dom());
        assert forall|key: u64| #[trigger] l.contains_key(key) implies l[key].event_data@
            == r[key].event_data@ by {
            assert(!event_type_differs(false, l, r, key));
        }
    } else {
        let d = all[0];
        assert(all.contains(d));
        law_event_diffs_are_exact(false, left, right, d);
        let key = choose|key: u64| #[trigger]
            event_type_differs(false, l, r, key) && d == event_entry(l, r, key);
        assert(event_type_differs(false, l, r, key));
        if same_events(l, r) {
            assert(l.dom().contains(key) <==> r.dom().contains(key));
        }
    }
}

/// What is reported of one key: what both sides did to it.
pub open spec fn write_entry(
    left: Map<u64, (StateKey, WriteOp)>,
    right: Map<u64, (StateKey, WriteOp)>,
    key: u64,
) -> Diff {
    Diff::WriteSet {
        state_key: if left.contains_key(key) {
            left[key].0
        } else {
            right[key].0
        },
        left: if left.contains_key(key) {
            Some(left[key].1)
        } else {
            None
        },
        right: if right.contains_key(key) {
            Some(right[key].1)
        } else {
            None
        },
    }
}

/// The two sides differ in what they did to a key: only one wrote to it, or they
/// wrote something else. Where the gas may differ, the total supply and the
/// balances of accounts may.
pub open spec fn write_key_differs(
    allow: bool,
    left: Map<u64, (StateKey, WriteOp)>,
    right: Map<u64, (StateKey, WriteOp)>,
    key: u64,
) -> bool {
    if left.contains_key(key) {
        &&& !(right.contains_key(key) && left[key].1@ == right[key].1@)
        &&& !(allow && (left[key].0.is_total_supply || left[key].0.is_account_balance))
    } else {
        &&& right.contains_key(key)
        &&& !(allow && (right[key].0.is_total_supply || right[key].0.is_account_balance))
    }
}

proof fn lemma_left_write_diffs(
    allow: bool,
    keys: Seq<u64>,
    left: Map<u64, (StateKey, WriteOp)>,
    right: Map<u64, (StateKey, WriteOp)>,
)
    requires
        forall|i: int| 0 <= i < keys.len() ==> left.contains_key(#[trigger] keys[i]),
    ensures
        forall|d: Diff| #[trigger]
            diff::left_write_diffs(allow, keys, left, right).contains(d) <==> exists|i: int|
                0 <= i < keys.len() && write_key_differs(allow, left, right, #[trigger] keys[i])
                    && d == write_entry(left, right, keys[i]),
    decreases keys.len(),
{
    let all = diff::left_write_diffs(allow, keys, left, right);
    if keys.len() > 0 {
        let shorter = keys.drop_last();
        let n = keys.len() - 1;
        assert forall|i: int| 0 <= i < shorter.len() implies left.contains_key(
            #[trigger] shorter[i],
        ) by {
            assert(shorter[i] == keys[i]);
        }
        lemma_left_write_diffs(allow, shorter, left, right);
        let before = diff::left_write_diffs(allow, shorter, left, right);
        assert(left.contains_key(keys[n]));
        assert forall|d: Diff| #[trigger] all.contains(d) <==> exists|i: int|
            0 <= i < keys.len() && write_key_differs(allow, left, right, #[trigger] keys[i]) && d
                == write_entry(left, right, keys[i]) by {
            if all.contains(d) {
                let x = choose|x: int| 0 <= x < all.len() && all[x] == d;
                if x < before.len() {
                    assert(before[x] == d);
                    assert(before.contains(d));
                    let i = choose|i: int|
                        0 <= i < shorter.len() && write_key_differs(
                            allow,
                            left,
                            right,
                            #[trigger] shorter[i],
                        ) && d == write_entry(left, right, shorter[i]);
                    assert(keys[i] == shorter[i]);
                } else {
                    assert(write_key_differs(allow, left, right, keys[n]));
                }
            }
            if exists|i: int|
                0 <= i < keys.len() && write_key_differs(allow, left, right, #[trigger] keys[i])
                    && d == write_entry(left, right, keys[i]) {
                let i = choose|i: int|
                    0 <= i < keys.len() && write_key_differs(
                        allow,
                        left,
                        right,
                        #[trigger] keys[i],
                    ) && d == write_entry(left, right, keys[i]);
                if i < n {
                    assert(shorter[i] == keys[i]);
                    assert(before.contains(d));
                    let x = choose|x: int| 0 <= x < before.len() && before[x] == d;
                    assert(all[x] == d);
                } else {
                    assert(all[all.len() - 1] == d);
                }
            }
        }
    }
}

proof fn lemma_right_write_diffs(
    allow: bool,
    keys: Seq<u64>,
    left: Map<u64, (StateKey, WriteOp)>,
    right: Map<u64, (StateKey, WriteOp)>,
)
    requires
        forall|i: int|
            0 <= i < keys.len() ==> !left.contains_key(#[trigger] keys[i]) && right.contains_key(
                keys[i],
            ),
    ensures
        forall|d: Diff| #[trigger]
            diff::right_write_diffs(allow, keys, right).contains(d) <==> exists|i: int|
                0 <= i < keys.len() && write_key_differs(allow, left, right, #[trigger] keys[i])
                    && d == write_entry(left, right, keys[i]),
    decreases keys.len(),
{
    let all = diff::right_write_diffs(allow, keys, right);
    if keys.len() > 0 {
        let shorter = keys.drop_last();
        let n = keys.len() - 1;
        assert forall|i: int| 0 <= i < shorter.len() implies !left.contains_key(
            #[trigger] shorter[i],
        ) && right.contains_key(shorter[i]) by {
            assert(shorter[i] == keys[i]);
        }
        lemma_right_write_diffs(allow, shorter, left, right);
        let before = diff::right_write_diffs(allow, shorter, right);
        assert(!left.contains_key(keys[n]) && right.contains_key(keys[n]));
        assert forall|d: Diff| #[trigger] all.contains(d) <==> exists|i: int|
            0 <= i < keys.len() && write_key_differs(allow, left, right, #[trigger] keys[i]) && d
                == write_entry(left, right, keys[i]) by {
            if all.contains(d) {
                let x = choose|x: int| 0 <= x < all.len() && all[x] == d;
                if x < before.len() {
                    assert(before[x] == d);
                    assert(before.contains(d));
                    let i = choose|i: int|
                        0 <= i < shorter.len() && write_key_differs(
                            allow,
                            left,
                            right,
                            #[trigger] shorter[i],
                        ) && d == write_entry(left, right, shorter[i]);
                    assert(keys[i] == shorter[i]);
                } else {
                    assert(write_key_differs(allow, left, right, keys[n]));
                }
            }
            if exists|i: int|
                0 <= i < keys.len() && write_key_differs(allow, left, right, #[trigger] keys[i])
                    && d == write_entry(left, right, keys[i]) {
                let i = choose|i: int|
                    0 <= i < keys.len() && write_key_differs(
                        allow,
                        left,
                        right,
                        #[trigger] keys[i],
                    ) && d == write_entry(left, right, keys[i]);
                if i < n {
                    assert(shorter[i] == keys[i]);
                    assert(before.contains(d));
                    let x = choose|x: int| 0 <= x < before.len() && before[x] == d;
                    assert(all[x] == d);
                } else {
                    assert(all[all.len() - 1] == d);
                }
            }
        }
    }
}

/// The differences of two write sets are exactly the keys in which they differ,
/// each with what both sides did to it.
pub proof fn law_write_diffs_are_exact(
    allow: bool,
    left: Map<u64, (StateKey, WriteOp)>,
    right: Map<u64, (StateKey, WriteOp)>,
    d: Diff,
)
    ensures
        diff::write_diffs(allow, left, right).contains(d) <==> exists|key: u64|
            #[trigger] write_key_differs(allow, left, right, key) && d == write_entry(
                left,
                right,
                key,
            ),
{
    let lk = ordered_keys::ordered(left.dom());
    let rk = ordered_keys::ordered(right.dom().difference(left.dom()));
    ordered_keys::lemma_ordered(left.dom());
    ordered_keys::lemma_ordered(right.dom().difference(left.dom()));
    assert forall|i: int| 0 <= i < lk.len() implies left.contains_key(#[trigger] lk[i]) by {
        assert(lk.contains(lk[i]));
    }
    lemma_left_write_diffs(allow, lk, left, right);
    assert forall|i: int| 0 <= i < rk.len() implies !left.contains_key(#[trigger] rk[i])
        && right.contains_key(rk[i]) by {
        assert(rk.contains(rk[i]));
    }
    lemma_right_write_diffs(allow, rk, left, right);
    let ld = diff::left_write_diffs(allow, lk, left, right);
    let rd = diff::right_write_diffs(allow, rk, right);
    let all = diff::write_diffs(allow, left, right);
    assert(all == ld + rd);
    if all.contains(d) {
        let x = choose|x: int| 0 <= x < all.len() && all[x] == d;
        if x < ld.len() {
            assert(ld[x] == d);
            assert(ld.contains(d));
            let i = choose|i: int|
                0 <= i < lk.len() && write_key_differs(allow, left, right, #[trigger] lk[i]) && d
                    == write_entry(left, right, lk[i]);
            assert(write_key_differs(allow, left, right, lk[i]));
        } else {
            assert(d == rd[x - ld.len()]);
            assert(rd.contains(d));
            let i = choose|i: int|
                0 <= i < rk.len() && write_key_differs(allow, left, right, #[trigger] rk[i]) && d
                    == write_entry(left, right, rk[i]);
            assert(write_key_differs(allow, left, right, rk[i]));
        }
    }
    if exists|key: u64| #[trigger] write_key_differs(allow, left, right, key) && d == write_entry(
        left,
        right,
        key,
    ) {
        let key = choose|key: u64| #[trigger]
            write_key_differs(allow, left, right, key) && d == write_entry(left, right, key);
        if left.contains_key(key) {
            assert(lk.contains(key));
            let i = choose|i: int| 0 <= i < lk.len() && lk[i] == key;
            assert(write_key_differs(allow, left, right, lk[i]));
            assert(ld.contains(d));
            let x = choose|x: int| 0 <= x < ld.len() && ld[x] == d;
            assert(all[x] == d);
        } else {
            assert(rk.contains(key));
            let i = choose|i: int| 0 <= i < rk.len() && rk[i] == key;
            assert(write_key_differs(allow, left, right, rk[i]));
            assert(rd.contains(d));
            let x = choose|x: int| 0 <= x < rd.len() && rd[x] == d;
            assert(all[ld.len() + x] == d);
        }
    }
}

/// Both sides wrote to the same keys, and did the same to each.
pub open spec fn same_writes(
    left: Map<u64, (StateKey, WriteOp)>,
    right: Map<u64, (StateKey, WriteOp)>,
) -> bool {
    &&& left.dom() == right.dom()
    &&& forall|key: u64| #[trigger] left.contains_key(key) ==> left[key].1@ == right[key].1@
}

/// Where nothing is ignored, write sets show no difference exactly when both
/// sides did the same.
pub proof fn law_no_write_diff_means_same(
    left: Map<u64, (StateKey, WriteOp)>,
    right: Map<u64, (StateKey, WriteOp)>,
)
    ensures
        diff::write_diffs(false, left, right).len() == 0 <==> same_writes(left, right),
{
    let all = diff::write_diffs(false, left, right);
    if all.len() == 0 {
        assert forall|key: u64| !write_key_differs(false, left, right, key) by {
            law_write_diffs_are_exact(false, left, right, write_entry(left, right, key));
        }
        assert forall|key: u64| left.dom().contains(key) <==> right.dom().contains(key) by {
            assert(!write_key_differs(false, left, right, key));
        }
        assert(left.dom() =~= right.dom());
        assert forall|key: u64| #[trigger] left.contains_key(key) implies left[key].1@
            == right[key].1@ by {
            assert(!write_key_differs(false, left, right, key));
        }
    } else {
        let d = all[0];
        assert(all.contains(d));
        law_write_diffs_are_exact(false, left, right, d);
        let key = choose|key: u64| #[trigger]
            write_key_differs(false, left, right, key) && d == write_entry(left, right, key);
        assert(write_key_differs(false, left, right, key));
        if same_writes(left, right) {
            assert(left.dom().contains(key) <==> right.dom().contains(key));
        }
    }
}

/// Where nothing is ignored, two outputs show no difference exactly when
/// status, gas, events and writes are the same.
pub proof fn law_no_diff_means_same(left: TransactionOutput, right: TransactionOutput)
    requires
        left.status is Keep,
        right.status is Keep,
    ensures
        diff::output_diffs(false, left, right).len() == 0 <==> {
            &&& left.status->Keep_0.encoded@ == right.status->Keep_0.encoded@
            &&& left.gas_used == right.gas_used
            &&& same_events(diff::event_map(left.events@), diff::event_map(right.events@))
            &&& same_writes(left.write_set@, right.write_set@)
        },
{
    law_no_event_diff_means_same(left.events@, right.events@);
    law_no_write_diff_means_same(left.write_set@, right.write_set@);
}

/// Where the gas may differ, neither the gas itself, nor a pair of fee
/// statements, nor any write to the total supply or to the balance of an account
/// is reported, whichever sides made it.
pub proof fn law_gas_differences_are_ignored(left: TransactionOutput, right: TransactionOutput)
    requires
        left.status is Keep,
        right.status is Keep,
    ensures
        forall|i: int|
            0 <= i < diff::output_diffs(true, left, right).len() ==> match (
            #[trigger] diff::output_diffs(true, left, right)[i]) {
                Diff::GasUsed { .. } => false,
                Diff::Event { left: Some(l), right: Some(_) } => !l.type_tag.is_fee_statement,
                Diff::WriteSet { state_key, .. } => !state_key.is_total_supply
                    && !state_key.is_account_balance,
                _ => true,
            },
{
    let all = diff::output_diffs(true, left, right);
    let s = diff::status_diffs(left.status->Keep_0, right.status->Keep_0);
    let e = diff::event_diffs(true, left.events@, right.events@);
    let w = diff::write_diffs(true, left.write_set@, right.write_set@);
    assert(all =~= s + e + w);
    assert forall|i: int| 0 <= i < all.len() implies match #[trigger] all[i] {
        Diff::GasUsed { .. } => false,
        Diff::Event { left: Some(l), right: Some(_) } => !l.type_tag.is_fee_statement,
        Diff::WriteSet { state_key, .. } => !state_key.is_total_supply
            && !state_key.is_account_balance,
        _ => true,
    } by {
        let d = all[i];
        if i < s.len() {
            assert(d == s[i]);
        } else if i < s.len() + e.len() {
            assert(d == e[i - s.len()]);
            assert(e.contains(d));
            law_event_diffs_are_exact(true, left.events@, right.events@, d);
        } else {
            assert(d == w[i - s.len() - e.len()]);
            assert(w.contains(d));
            law_write_diffs_are_exact(true, left.write_set@, right.write_set@, d);
        }
    }
}

/// The place, in its order, of what a difference is about.
pub open spec fn reported_rank(diff: Diff) -> u64 {
    match diff {
        Diff::Event { left: Some(event), .. } => event.type_tag.rank,
        Diff::Event { left: None, right: Some(event) } => event.type_tag.rank,
        Diff::WriteSet { state_key, .. } => state_key.rank,
        _ => 0,
    }
}

/// The events of a map are kept under their own types.
pub open spec fn events_in_place(events: Map<u64, ContractEvent>) -> bool {
    forall|key: u64| #[trigger] events.contains_key(key) ==> events[key].type_tag.rank == key
}

pub(crate) proof fn lemma_events_in_place(events: Seq<ContractEvent>)
    ensures
        events_in_place(diff::event_map(events)),
{
    assert forall|key: u64| #[trigger] diff::event_map(events).contains_key(key) implies
        diff::event_map(events)[key].type_tag.rank == key by {
        lemma_event_map(events, key);
    }
}

pub(crate) proof fn lemma_left_event_order(
    allow: bool,
    keys: Seq<u64>,
    left: Map<u64, ContractEvent>,
    right: Map<u64, ContractEvent>,
)
    requires
        ordered_keys::ascending(keys),
        forall|i: int| 0 <= i < keys.len() ==> left.contains_key(#[trigger] keys[i]),
        events_in_place(left),
    ensures
        ({
            let diffs = diff::left_event_diffs(allow, keys, left, right);
            &&& forall|i: int|
                0 <= i < diffs.len() ==> keys.contains(reported_rank(#[trigger] diffs[i]))
            &&& forall|i: int, j: int|
                0 <= i < j < diffs.len() ==> reported_rank(#[trigger] diffs[i]) < reported_rank(
                    #[trigger] diffs[j],
                )
        }),
    decreases keys.len(),
{
    if keys.len() > 0 {
        let shorter = keys.drop_last();
        let n = keys.len() - 1;
        assert forall|i: int| 0 <= i < shorter.len() implies left.contains_key(
            #[trigger] shorter[i],
        ) by {
            assert(shorter[i] == keys[i]);
        }
        lemma_left_event_order(allow, shorter, left, right);
        let before = diff::left_event_diffs(allow, shorter, left, right);
        let diffs = diff::left_event_diffs(allow, keys, left, right);
        assert(left.contains_key(keys[n]));
        assert forall|i: int| 0 <= i < diffs.len() implies keys.contains(
            reported_rank(#[trigger] diffs[i]),
        ) by {
            if i < before.len() {
                assert(diffs[i] == before[i]);
                let at = choose|at: int|
                    0 <= at < shorter.len() && shorter[at] == reported_rank(before[i]);
                assert(keys[at] == reported_rank(diffs[i]));
            } else {
                assert(keys[n] == reported_rank(diffs[i]));
            }
        }
        assert forall|i: int, j: int| 0 <= i < j < diffs.len() implies reported_rank(
            #[trigger] diffs[i],
        ) < reported_rank(#[trigger] diffs[j]) by {
            assert(diffs[i] == before[i]);
            if j < before.len() {
                assert(diffs[j] == before[j]);
            } else {
                let at = choose|at: int|
                    0 <= at < shorter.len() && shorter[at] == reported_rank(before[i]);
                assert(keys[at] < keys[n]);
            }
        }
    }
}

/// Every event type is reported at most once.
pub proof fn law_every_type_is_reported_once(
    allow: bool,
    left: Seq<ContractEvent>,
    right: Seq<ContractEvent>,
    i: int,
    j: int,
)
    requires
        0 <= i < j < diff::event_diffs(allow, left, right).len(),
    ensures
        reported_rank(diff::event_diffs(allow, left, right)[i]) != reported_rank(
            diff::event_diffs(allow, left, right)[j],
        ),
{
    let l = diff::event_map(left);
    let r = diff::event_map(right);
    let lk = ordered_keys::ordered(l.dom());
    let rk = ordered_keys::ordered(r.dom().difference(l.dom()));
    ordered_keys::lemma_ordered(l.dom());
    ordered_keys::lemma_ordered(r.dom().difference(l.dom()));
    lemma_events_in_place(left);
    lemma_events_in_place(right);
    assert forall|x: int| 0 <= x < lk.len() implies l.contains_key(#[trigger] lk[x]) by {
        assert(lk.contains(lk[x]));
    }
    lemma_left_event_order(allow, lk, l, r);
    let ld = diff::left_event_diffs(allow, lk, l, r);
    let all = diff::event_diffs(allow, left, right);
    assert(all == ld + diff::right_event_diffs(rk, r));
    if j < ld.len() {
        assert(all[i] == ld[i] && all[j] == ld[j]);
    } else {
        let y = j - ld.len();
        assert(rk.contains(rk[y]));
        assert(r.contains_key(rk[y]));
        assert(reported_rank(all[j]) == rk[y]);
        if i < ld.len() {
            assert(all[i] == ld[i]);
            assert(lk.contains(reported_rank(ld[i])));
            assert(l.dom().contains(reported_rank(ld[i])));
        } else {
            let x = i - ld.len();
            assert(rk.contains(rk[x]));
            assert(r.contains_key(rk[x]));
            assert(reported_rank(all[i]) == rk[x]);
            assert(rk[x] < rk[y]);
        }
    }
}

pub(crate) proof fn lemma_left_write_order(
    allow: bool,
    keys: Seq<u64>,
    left: Map<u64, (StateKey, WriteOp)>,
    right: Map<u64, (StateKey, WriteOp)>,
)
    requires
        ordered_keys::ascending(keys),
        forall|i: int| 0 <= i < keys.len() ==> left.contains_key(#[trigger] keys[i]),
        diff::writes_in_place(left),
    ensures
        ({
            let diffs = diff::left_write_diffs(allow, keys, left, right);
            &&& forall|i: int|
                0 <= i < diffs.len() ==> keys.contains(reported_rank(#[trigger] diffs[i]))
            &&& forall|i: int, j: int|
                0 <= i < j < diffs.len() ==> reported_rank(#[trigger] diffs[i]) < reported_rank(
                    #[trigger] diffs[j],
                )
        }),
    decreases keys.len(),
{
    if keys.len() > 0 {
        let shorter = keys.drop_last();
        let n = keys.len() - 1;
        assert forall|i: int| 0 <= i < shorter.len() implies left.contains_key(
            #[trigger] shorter[i],
        ) by {
            assert(shorter[i] == keys[i]);
        }
        lemma_left_write_order(allow, shorter, left, right);
        let before = diff::left_write_diffs(allow, shorter, left, right);
        let diffs = diff::left_write_diffs(allow, keys, left, right);
        assert(left.contains_key(keys[n]));
        assert forall|i: int| 0 <= i < diffs.len() implies keys.contains(
            reported_rank(#[trigger] diffs[i]),
        ) by {
            if i < before.len() {
                assert(diffs[i] == before[i]);
                let at = choose|at: int|
                    0 <= at < shorter.len() && shorter[at] == reported_rank(before[i]);
                assert(keys[at] == reported_rank(diffs[i]));
            } else {
                assert(keys[n] == reported_rank(diffs[i]));
            }
        }
        assert forall|i: int, j: int| 0 <= i < j < diffs.len() implies reported_rank(
            #[trigger] diffs[i],
        ) < reported_rank(#[trigger] diffs[j]) by {
            assert(diffs[i] == before[i]);
            if j < before.len() {
                assert(diffs[j] == before[j]);
            } else {
                let at = choose|at: int|
                    0 <= at < shorter.len() && shorter[at] == reported_rank(before[i]);
                assert(keys[at] < keys[n]);
            }
        }
    }
}

pub(crate) proof fn lemma_right_write_order(
    allow: bool,
    keys: Seq<u64>,
    right: Map<u64, (StateKey, WriteOp)>,
)
    requires
        ordered_keys::ascending(keys),
        forall|i: int| 0 <= i < keys.len() ==> right.contains_key(#[trigger] keys[i]),
        diff::writes_in_place(right),
    ensures
        ({
            let diffs = diff::right_write_diffs(allow, keys, right);
            &&& forall|i: int|
                0 <= i < diffs.len() ==> keys.contains(reported_rank(#[trigger] diffs[i]))
            &&& forall|i: int, j: int|
                0 <= i < j < diffs.len() ==> reported_rank(#[trigger] diffs[i]) < reported_rank(
                    #[trigger] diffs[j],
                )
        }),
    decreases keys.len(),
{
    if keys.len() > 0 {
        let shorter = keys.drop_last();
        let n = keys.len() - 1;
        assert forall|i: int| 0 <= i < shorter.len() implies right.contains_key(
            #[trigger] shorter[i],
        ) by {
            assert(shorter[i] == keys[i]);
        }
        lemma_right_write_order(allow, shorter, right);
        let before = diff::right_write_diffs(allow, shorter, right);
        let diffs = diff::right_write_diffs(allow, keys, right);
        assert(right.contains_key(keys[n]));
        assert forall|i: int| 0 <= i < diffs.len() implies keys.contains(
            reported_rank(#[trigger] diffs[i]),
        ) by {
            if i < before.len() {
                assert(diffs[i] == before[i]);
                let at = choose|at: int|
                    0 <= at < shorter.len() && shorter[at] == reported_rank(before[i]);
                assert(keys[at] == reported_rank(diffs[i]));
            } else {
                assert(keys[n] == reported_rank(diffs[i]));
            }
        }
        assert forall|i: int, j: int| 0 <= i < j < diffs.len() implies reported_rank(
            #[trigger] diffs[i],
        ) < reported_rank(#[trigger] diffs[j]) by {
            assert(diffs[i] == before[i]);
            if j < before.len() {
                assert(diffs[j] == before[j]);
            } else {
                let at = choose|at: int|
                    0 <= at < shorter.len() && shorter[at] == reported_rank(before[i]);
                assert(keys[at] < keys[n]);
            }
        }
    }
}

/// Every key is reported at most once.
pub proof fn law_every_key_is_reported_once(
    allow: bool,
    left: Map<u64, (StateKey, WriteOp)>,
    right: Map<u64, (StateKey, WriteOp)>,
    i: int,
    j: int,
)
    requires
        diff::writes_in_place(left),
        diff::writes_in_place(right),
        0 <= i < j < diff::write_diffs(allow, left, right).len(),
    ensures
        reported_rank(diff::write_diffs(allow, left, right)[i]) != reported_rank(
            diff::write_diffs(allow, left, right)[j],
        ),
{
    let lk = ordered_keys::ordered(left.dom());
    let rk = ordered_keys::ordered(right.dom().difference(left.dom()));
    ordered_keys::lemma_ordered(left.dom());
    ordered_keys::lemma_ordered(right.dom().difference(left.dom()));
    assert forall|x: int| 0 <= x < lk.len() implies left.contains_key(#[trigger] lk[x]) by {
        assert(lk.contains(lk[x]));
    }
    assert forall|x: int| 0 <= x < rk.len() implies right.contains_key(#[trigger] rk[x]) by {
        assert(rk.contains(rk[x]));
    }
    lemma_left_write_order(allow, lk, left, right);
    lemma_right_write_order(allow, rk, right);
    let ld = diff::left_write_diffs(allow, lk, left, right);
    let rd = diff::right_write_diffs(allow, rk, right);
    let all = diff::write_diffs(allow, left, right);
    assert(all == ld + rd);
    if j < ld.len() {
        assert(all[i] == ld[i] && all[j] == ld[j]);
    } else {
        let y = j - ld.len();
        assert(all[j] == rd[y]);
        assert(rk.contains(reported_rank(rd[y])));
        if i < ld.len() {
            assert(all[i] == ld[i]);
            assert(lk.contains(reported_rank(ld[i])));
            assert(left.dom().contains(reported_rank(ld[i])));
        } else {
            let x = i - ld.len();
            assert(all[i] == rd[x]);
            assert(reported_rank(rd[x]) < reported_rank(rd[y]));
        }
    }
}

/// A difference seen from the other side.
pub open spec fn mirrored(diff: Diff) -> Diff {
    match diff {
        Diff::GasUsed { left, right } => Diff::GasUsed { left: right, right: left },
        Diff::ExecutionStatus { left, right } => Diff::ExecutionStatus { left: right, right: left },
        Diff::Event { left, right } => Diff::Event { left: right, right: left },
        Diff::WriteSet { state_key, left, right } => Diff::WriteSet {
            state_key,
            left: right,
            right: left,
        },
    }
}

/// Where nothing is ignored, exchanging the two sides mirrors every difference
/// between their events.
pub proof fn law_event_diffs_mirror(
    left: Seq<ContractEvent>,
    right: Seq<ContractEvent>,
    d: Diff,
)
    ensures
        diff::event_diffs(false, left, right).contains(d) <==> diff::event_diffs(
            false,
            right,
            left,
        ).contains(mirrored(d)),
{
    let l = diff::event_map(left);
    let r = diff::event_map(right);
    law_event_diffs_are_exact(false, left, right, d);
    law_event_diffs_are_exact(false, right, left, mirrored(d));
    if diff::event_diffs(false, left, right).contains(d) {
        let key = choose|key: u64| #[trigger]
            event_type_differs(false, l, r, key) && d == event_entry(l, r, key);
        assert(event_type_differs(false, r, l, key));
    }
    if diff::event_diffs(false, right, left).contains(mirrored(d)) {
        let key = choose|key: u64| #[trigger]
            event_type_differs(false, r, l, key) && mirrored(d) == event_entry(r, l, key);
        assert(event_type_differs(false, l, r, key));
    }
}

/// Where nothing is ignored, exchanging the two sides mirrors every difference
/// between their write sets, provided that they write a key in the same way.
pub proof fn law_write_diffs_mirror(
    left: Map<u64, (StateKey, WriteOp)>,
    right: Map<u64, (StateKey, WriteOp)>,
    d: Diff,
)
    requires
        forall|key: u64|
            #![trigger left.contains_key(key)]
            #![trigger right.contains_key(key)]
            left.contains_key(key) && right.contains_key(key) ==> left[key].0 == right[key].0,
    ensures
        diff::write_diffs(false, left, right).contains(d) <==> diff::write_diffs(
            false,
            right,
            left,
        ).contains(mirrored(d)),
{
    law_write_diffs_are_exact(false, left, right, d);
    law_write_diffs_are_exact(false, right, left, mirrored(d));
    if diff::write_diffs(false, left, right).contains(d) {
        let key = choose|key: u64| #[trigger]
            write_key_differs(false, left, right, key) && d == write_entry(left, right, key);
        assert(write_key_differs(false, right, left, key));
    }
    if diff::write_diffs(false, right, left).contains(mirrored(d)) {
        let key = choose|key: u64| #[trigger]
            write_key_differs(false, right, left, key) && mirrored(d) == write_entry(
                right,
                left,
                key,
            );
        assert(write_key_differs(false, left, right, key));
    }
}

/// What a difference shows. Two keys are the same when their ranks are, so a key
/// shows as its rank.
#[verifier::ext_equal]
pub enum DiffView {
    GasUsed { left: u64, right: u64 },
    ExecutionStatus { left: ExecutionStatus, right: ExecutionStatus },
    Event { left: Option<ContractEvent>, right: Option<ContractEvent> },
    WriteSet { rank: u64, left: Option<WriteOp>, right: Option<WriteOp> },
}

/// What a difference shows.
pub open spec fn shown(diff: Diff) -> DiffView {
    match diff {
        Diff::GasUsed { left, right } => DiffView::GasUsed { left, right },
        Diff::ExecutionStatus { left, right } => DiffView::ExecutionStatus { left, right },
        Diff::Event { left, right } => DiffView::Event { left, right },
        Diff::WriteSet { state_key, left, right } => DiffView::WriteSet {
            rank: state_key.rank,
            left,
            right,
        },
    }
}

/// What differences show.
pub open spec fn all_shown(diffs: Seq<Diff>) -> Seq<DiffView> {
    diffs.map_values(|diff: Diff| shown(diff))
}

/// What a difference shows from the other side.
pub open spec fn swapped(view: DiffView) -> DiffView {
    match view {
        DiffView::GasUsed { left, right } => DiffView::GasUsed { left: right, right: left },
        DiffView::ExecutionStatus { left, right } => DiffView::ExecutionStatus {
            left: right,
            right: left,
        },
        DiffView::Event { left, right } => DiffView::Event { left: right, right: left },
        DiffView::WriteSet { rank, left, right } => DiffView::WriteSet {
            rank,
            left: right,
            right: left,
        },
    }
}

/// What differences show from the other side.
pub open spec fn all_swapped(views: Seq<DiffView>) -> Seq<DiffView> {
    views.map_values(|view: DiffView| swapped(view))
}

/// Of two outputs that are compared in both directions, what one direction shows
/// the other shows swapped.
proof fn lemma_shown_is_swapped(x: TransactionOutput, y: TransactionOutput, view: DiffView)
    requires
        diff::writes_in_place(x.write_set@),
        diff::writes_in_place(y.write_set@),
        all_shown(diff::output_diffs(false, x, y)).contains(view),
    ensures
        all_shown(diff::output_diffs(false, y, x)).contains(swapped(view)),
{
    let there = diff::output_diffs(false, x, y);
    let back = diff::output_diffs(false, y, x);
    let at = choose|at: int| 0 <= at < there.len() && all_shown(there)[at] == view;
    let d = there[at];
    assert(view == shown(d));
    let s = diff::status_diffs(x.status->Keep_0, y.status->Keep_0);
    let g = diff::gas_diffs(false, x.gas_used, y.gas_used);
    let e = diff::event_diffs(false, x.events@, y.events@);
    let w = diff::write_diffs(false, x.write_set@, y.write_set@);
    let s2 = diff::status_diffs(y.status->Keep_0, x.status->Keep_0);
    let g2 = diff::gas_diffs(false, y.gas_used, x.gas_used);
    let e2 = diff::event_diffs(false, y.events@, x.events@);
    let w2 = diff::write_diffs(false, y.write_set@, x.write_set@);
    assert(there =~= s + g + e + w);
    assert(back =~= s2 + g2 + e2 + w2);
    assert(s.len() == s2.len() && g.len() == g2.len());
    if at < s.len() {
        assert(d == s[at]);
        assert(back[0] == s2[0]);
        assert(all_shown(back)[0] == swapped(view));
    } else if at < s.len() + g.len() {
        assert(d == g[at - s.len()]);
        assert(back[s2.len() as int] == g2[0]);
        assert(all_shown(back)[s2.len() as int] == swapped(view));
    } else if at < s.len() + g.len() + e.len() {
        assert(d == e[at - s.len() - g.len()]);
        assert(e.contains(d));
        law_event_diffs_mirror(x.events@, y.events@, d);
        let to = choose|to: int| 0 <= to < e2.len() && e2[to] == mirrored(d);
        law_event_diffs_are_exact(false, x.events@, y.events@, d);
        let place = s2.len() + g2.len() + to;
        assert(back[place] == mirrored(d));
        assert(all_shown(back)[place] == swapped(view));
    } else {
        assert(d == w[at - s.len() - g.len() - e.len()]);
        assert(w.contains(d));
        let l = x.write_set@;
        let r = y.write_set@;
        law_write_diffs_are_exact(false, l, r, d);
        let key = choose|key: u64| #[trigger]
            write_key_differs(false, l, r, key) && d == write_entry(l, r, key);
        assert(l.contains_key(key) || r.contains_key(key));
        assert(write_key_differs(false, r, l, key));
        let other = write_entry(r, l, key);
        law_write_diffs_are_exact(false, r, l, other);
        assert(w2.contains(other));
        let to = choose|to: int| 0 <= to < w2.len() && w2[to] == other;
        let place = s2.len() + g2.len() + e2.len() + to;
        assert(back[place] == other);
        assert(all_shown(back)[place] == swapped(view));
    }
}

/// No difference shows twice.
proof fn lemma_shown_once(x: TransactionOutput, y: TransactionOutput)
    requires
        diff::writes_in_place(x.write_set@),
        diff::writes_in_place(y.write_set@),
    ensures
        all_shown(diff::output_diffs(false, x, y)).no_duplicates(),
{
    let there = diff::output_diffs(false, x, y);
    let views = all_shown(there);
    let s = diff::status_diffs(x.status->Keep_0, y.status->Keep_0);
    let g = diff::gas_diffs(false, x.gas_used, y.gas_used);
    let e = diff::event_diffs(false, x.events@, y.events@);
    let w = diff::write_diffs(false, x.write_set@, y.write_set@);
    let a = s.len() as int;
    let b = a + g.len();
    let c = b + e.len();
    assert(there =~= s + g + e + w);
    assert forall|i: int| 0 <= i < there.len() implies {
        &&& i < a <==> #[trigger] there[i] is ExecutionStatus
        &&& a <= i < b <==> there[i] is GasUsed
        &&& b <= i < c <==> there[i] is Event
        &&& c <= i <==> there[i] is WriteSet
    } by {
        if i < a {
            assert(there[i] == s[i]);
        } else if i < b {
            assert(there[i] == g[i - a]);
        } else if i < c {
            assert(there[i] == e[i - b]);
            assert(e.contains(there[i]));
            law_event_diffs_are_exact(false, x.events@, y.events@, there[i]);
        } else {
            assert(there[i] == w[i - c]);
            assert(w.contains(there[i]));
            law_write_diffs_are_exact(false, x.write_set@, y.write_set@, there[i]);
        }
    }
    assert forall|i: int, j: int| 0 <= i < j < views.len() implies views[i] != views[j] by {
        assert(views[i] == shown(there[i]) && views[j] == shown(there[j]));
        if b <= i && j < c {
            assert(there[i] == e[i - b] && there[j] == e[j - b]);
            law_every_type_is_reported_once(false, x.events@, y.events@, i - b, j - b);
        } else if c <= i {
            assert(there[i] == w[i - c] && there[j] == w[j - c]);
            law_every_key_is_reported_once(
                false,
                x.write_set@,
                y.write_set@,
                i - c,
                j - c,
            );
        }
    }
}

/// Where nothing is ignored, exchanging two outputs gives the same differences
/// with the sides exchanged in every one.
pub proof fn law_output_diffs_mirror(x: TransactionOutput, y: TransactionOutput)
    requires
        x.status is Keep,
        y.status is Keep,
        diff::writes_in_place(x.write_set@),
        diff::writes_in_place(y.write_set@),
    ensures
        all_shown(diff::output_diffs(false, y, x)).to_multiset() == all_swapped(
            all_shown(diff::output_diffs(false, x, y)),
        ).to_multiset(),
{
    let there = all_shown(diff::output_diffs(false, x, y));
    let back = all_shown(diff::output_diffs(false, y, x));
    let mirror = all_swapped(there);
    lemma_shown_once(x, y);
    lemma_shown_once(y, x);
    assert forall|i: int, j: int| 0 <= i < j < mirror.len() implies mirror[i] != mirror[j] by {
        assert(mirror[i] == swapped(there[i]) && mirror[j] == swapped(there[j]));
        assert(swapped(mirror[i]) == there[i] && swapped(mirror[j]) == there[j]);
    }
    assert forall|view: DiffView| #[trigger] back.contains(view) <==> mirror.contains(view) by {
        if back.contains(view) {
            lemma_shown_is_swapped(y, x, view);
            let i = choose|i: int| 0 <= i < there.len() && there[i] == swapped(view);
            assert(mirror[i] == swapped(swapped(view)));
            assert(mirror[i] == view);
        }
        if mirror.contains(view) {
            let i = choose|i: int| 0 <= i < mirror.len() && mirror[i] == view;
            assert(there.contains(there[i]));
            lemma_shown_is_swapped(x, y, there[i]);
        }
    }
    lemma_same_multiset(back, mirror);
}

/// Two lists without repetitions that hold the same are the same but for order.
proof fn lemma_same_multiset(a: Seq<DiffView>, b: Seq<DiffView>)
    requires
        a.no_duplicates(),
        b.no_duplicates(),
        forall|view: DiffView| #[trigger] a.contains(view) <==> b.contains(view),
    ensures
        a.to_multiset() == b.to_multiset(),
{
    a.to_multiset_ensures();
    b.to_multiset_ensures();
    a.lemma_multiset_has_no_duplicates();
    b.lemma_multiset_has_no_duplicates();
    assert forall|view: DiffView| a.to_multiset().count(view) == b.to_multiset().count(view) by {
        assert(a.contains(view) <==> a.to_multiset().count(view) > 0);
        assert(b.contains(view) <==> b.to_multiset().count(view) > 0);
        if a.contains(view) {
            assert(a.to_multiset().contains(view));
            assert(b.to_multiset().contains(view));
        }
    }
    assert(a.to_multiset() =~= b.to_multiset());
}

/// An output does not differ from itself.
pub proof fn law_output_equals_itself(allow: bool, x: TransactionOutput)
    requires
        x.status is Keep,
    ensures
        diff::output_diffs(allow, x, x).len() == 0,
{
    let e = diff::event_diffs(allow, x.events@, x.events@);
    let w = diff::write_diffs(allow, x.write_set@, x.write_set@);
    if e.len() > 0 {
        assert(e.contains(e[0]));
        law_event_diffs_are_exact(allow, x.events@, x.events@, e[0]);
    }
    if w.len() > 0 {
        assert(w.contains(w[0]));
        law_write_diffs_are_exact(allow, x.write_set@, x.write_set@, w[0]);
    }
}

} // verus!
