use aptos_toolkit::diff::{
    ContractEvent, Diff, ExecutionStatus, StateKey, StateValueMetadata, TransactionDiff,
    TransactionDiffBuilder, TransactionOutput, TransactionStatus, TypeTag, WriteOp, WriteSet,
};

// Type tags in their order: the ranks follow the names.
fn event(name: &str, data: Vec<u8>) -> ContractEvent {
    let names = [
        "0x1::event::EventA",
        "0x1::event::EventB",
        "0x1::event::EventC",
        "0x1::event::EventD",
        "0x1::transaction_fee::FeeStatement",
    ];
    let rank = names.iter().position(|n| *n == name).unwrap();
    ContractEvent {
        type_tag: TypeTag {
            rank: rank as u64,
            canonical: name.to_string(),
            is_fee_statement: rank == 4,
        },
        event_data: data,
    }
}

fn raw_key(name: &str) -> StateKey {
    let names = [
        "key-1", "key-2", "key-3", "key-4", "key-5", "key-6", "supply", "balance",
    ];
    let rank = names.iter().position(|n| *n == name).unwrap();
    StateKey {
        rank: rank as u64,
        debug: format!("raw({})", name),
        is_total_supply: name == "supply",
        is_account_balance: name == "balance",
    }
}

fn metadata(microseconds: u64) -> StateValueMetadata {
    StateValueMetadata {
        slot_deposit: 1,
        bytes_deposit: 2,
        creation_time_usecs: microseconds,
    }
}

fn status(encoded: u8, debug: &str) -> TransactionStatus {
    TransactionStatus::Keep(ExecutionStatus {
        encoded: vec![encoded],
        debug: debug.to_string(),
    })
}

fn output(
    writes: Vec<(StateKey, WriteOp)>,
    events: Vec<ContractEvent>,
    gas_used: u64,
    status: TransactionStatus,
) -> TransactionOutput {
    TransactionOutput {
        write_set: WriteSet::new(writes),
        events,
        gas_used,
        status,
    }
}

fn lenient() -> TransactionDiffBuilder {
    TransactionDiffBuilder {
        allow_different_gas_usage: true,
    }
}

#[test]
fn test_diff_events() {
    let events_1 = vec![
        event("0x1::event::EventA", vec![0, 1, 2]),
        event("0x1::event::EventB", vec![0, 1, 2]),
        event("0x1::event::EventD", vec![0, 1, 2]),
    ];

    let events_2 = vec![
        event("0x1::event::EventA", vec![0, 1, 2]),
        event("0x1::event::EventC", vec![0, 1, 2]),
        event("0x1::event::EventD", vec![0, 1, 3]),
    ];

    let expected_diffs = vec![
        Diff::Event {
            left: Some(event("0x1::event::EventB", vec![0, 1, 2])),
            right: None,
        },
        Diff::Event {
            left: None,
            right: Some(event("0x1::event::EventC", vec![0, 1, 2])),
        },
        Diff::Event {
            left: Some(event("0x1::event::EventD", vec![0, 1, 2])),
            right: Some(event("0x1::event::EventD", vec![0, 1, 3])),
        },
    ];

    let diffs = TransactionDiffBuilder::new().diff_events(events_1, events_2);
    assert_eq!(diffs.len(), 3);
    assert!(diffs.iter().all(|diff| expected_diffs.contains(diff)));
}

#[test]
fn test_diff_write_sets() {
    let write_set_1 = WriteSet::new(vec![
        // Same in 2nd write set.
        (raw_key("key-1"), WriteOp::legacy_creation(vec![0, 1, 2])),
        // Does not exist in 2nd write set.
        (raw_key("key-2"), WriteOp::legacy_creation(vec![0, 1, 2])),
        // Different from 2nd write-set.
        (raw_key("key-4"), WriteOp::legacy_creation(vec![0, 1, 2])),
        (raw_key("key-5"), WriteOp::legacy_creation(vec![0, 1, 2])),
        (
            raw_key("key-6"),
            WriteOp::creation(vec![0, 1, 2], metadata(100)),
        ),
    ]);

    let write_set_2 = WriteSet::new(vec![
        // Same in 1st write set.
        (raw_key("key-1"), WriteOp::legacy_creation(vec![0, 1, 2])),
        // Does not exist in 1st write set.
        (raw_key("key-3"), WriteOp::legacy_creation(vec![0, 1, 2])),
        // Different from 1st write-set.
        (raw_key("key-4"), WriteOp::legacy_creation(vec![0, 1, 3])),
        (raw_key("key-5"), WriteOp::legacy_modification(vec![0, 1, 2])),
        (
            raw_key("key-6"),
            WriteOp::creation(vec![0, 1, 2], metadata(200)),
        ),
    ]);

    let expected_diffs = vec![
        Diff::WriteSet {
            state_key: raw_key("key-2"),
            left: Some(WriteOp::legacy_creation(vec![0, 1, 2])),
            right: None,
        },
        Diff::WriteSet {
            state_key: raw_key("key-3"),
            left: None,
            right: Some(WriteOp::legacy_creation(vec![0, 1, 2])),
        },
        Diff::WriteSet {
            state_key: raw_key("key-4"),
            left: Some(WriteOp::legacy_creation(vec![0, 1, 2])),
            right: Some(WriteOp::legacy_creation(vec![0, 1, 3])),
        },
        Diff::WriteSet {
            state_key: raw_key("key-5"),
            left: Some(WriteOp::legacy_creation(vec![0, 1, 2])),
            right: Some(WriteOp::legacy_modification(vec![0, 1, 2])),
        },
        Diff::WriteSet {
            state_key: raw_key("key-6"),
            left: Some(WriteOp::creation(vec![0, 1, 2], metadata(100))),
            right: Some(WriteOp::creation(vec![0, 1, 2], metadata(200))),
        },
    ];

    let diffs = TransactionDiffBuilder::new().diff_write_sets(write_set_1, write_set_2);
    assert_eq!(diffs.len(), 5);
    assert!(diffs.iter().all(|diff| expected_diffs.contains(diff)));
}

#[test]
fn event_diffs_come_left_first_and_in_order() {
    let diffs = TransactionDiffBuilder::new().diff_events(
        vec![
            event("0x1::event::EventD", vec![1]),
            event("0x1::event::EventB", vec![1]),
        ],
        vec![
            event("0x1::event::EventC", vec![1]),
            event("0x1::event::EventA", vec![1]),
        ],
    );
    assert_eq!(
        diffs,
        vec![
            Diff::Event {
                left: Some(event("0x1::event::EventB", vec![1])),
                right: None,
            },
            Diff::Event {
                left: Some(event("0x1::event::EventD", vec![1])),
                right: None,
            },
            Diff::Event {
                left: None,
                right: Some(event("0x1::event::EventA", vec![1])),
            },
            Diff::Event {
                left: None,
                right: Some(event("0x1::event::EventC", vec![1])),
            },
        ]
    );
}

#[test]
fn last_event_of_a_type_counts() {
    let twice = vec![
        event("0x1::event::EventA", vec![1]),
        event("0x1::event::EventA", vec![2]),
    ];
    let builder = TransactionDiffBuilder::new();
    let once = vec![event("0x1::event::EventA", vec![2])];
    assert!(builder.diff_events(twice, once).is_empty());

    let twice = vec![
        event("0x1::event::EventA", vec![1]),
        event("0x1::event::EventA", vec![2]),
    ];
    let once = vec![event("0x1::event::EventA", vec![1])];
    assert_eq!(builder.diff_events(twice, once).len(), 1);
}

#[test]
fn equal_outputs_do_not_differ() {
    let make = || {
        output(
            vec![(raw_key("key-1"), WriteOp::legacy_creation(vec![7]))],
            vec![event("0x1::event::EventA", vec![1])],
            10,
            status(0, "Success"),
        )
    };
    let diff = TransactionDiffBuilder::new().build_from_outputs(make(), make());
    assert!(diff.diffs.is_empty());
    assert_eq!(diff.report(), " >>>>> \n <<<<< \n");
}

#[test]
fn all_parts_of_outputs_are_compared() {
    let left = output(
        vec![(raw_key("key-1"), WriteOp::legacy_creation(vec![7]))],
        vec![event("0x1::event::EventA", vec![1])],
        10,
        status(0, "Success"),
    );
    let right = output(
        vec![(raw_key("key-2"), WriteOp::Deletion { metadata: None })],
        vec![event("0x1::event::EventA", vec![2])],
        11,
        status(1, "OutOfGas"),
    );
    let diff = TransactionDiffBuilder::new().build_from_outputs(left, right);
    assert_eq!(diff.diffs.len(), 5);
    assert_eq!(
        diff.report(),
        concat_lines(&[
            " >>>>> ",
            "[execution status] before: Success, after: OutOfGas",
            "[gas used] before: 10, after: 11",
            "[event] 0x1::event::EventA has changed its data",
            "[write] raw(key-1) is not written to anymore",
            "[write] raw(key-2) was not written to before",
            " <<<<< ",
        ])
    );
}

fn concat_lines(lines: &[&str]) -> String {
    let mut text = String::new();
    for line in lines {
        text.push_str(line);
        text.push('\n');
    }
    text
}

#[test]
fn every_line_of_the_report() {
    let diff = TransactionDiff {
        diffs: vec![
            Diff::Event {
                left: None,
                right: Some(event("0x1::event::EventA", vec![])),
            },
            Diff::Event {
                left: Some(event("0x1::event::EventB", vec![])),
                right: None,
            },
            Diff::WriteSet {
                state_key: raw_key("key-3"),
                left: Some(WriteOp::legacy_creation(vec![1])),
                right: Some(WriteOp::legacy_creation(vec![2])),
            },
            Diff::GasUsed {
                left: 0,
                right: 18446744073709551615,
            },
        ],
    };
    assert_eq!(
        diff.report(),
        concat_lines(&[
            " >>>>> ",
            "[event] 0x1::event::EventA was not emitted before",
            "[event] 0x1::event::EventB is not emitted anymore",
            "[write] raw(key-3) has changed its value",
            "[gas used] before: 0, after: 18446744073709551615",
            " <<<<< ",
        ])
    );
}

#[test]
fn gas_differences_can_be_ignored() {
    let make = |gas: u8| {
        output(
            vec![
                (raw_key("supply"), WriteOp::legacy_modification(vec![gas])),
                (raw_key("balance"), WriteOp::legacy_modification(vec![gas])),
            ],
            vec![event("0x1::transaction_fee::FeeStatement", vec![gas])],
            gas as u64,
            status(0, "Success"),
        )
    };
    assert!(lenient()
        .build_from_outputs(make(1), make(2))
        .diffs
        .is_empty());
    assert_eq!(
        TransactionDiffBuilder::new()
            .build_from_outputs(make(1), make(2))
            .diffs
            .len(),
        4
    );
}

#[test]
fn one_sided_fee_statement_is_reported() {
    let fee = || vec![event("0x1::transaction_fee::FeeStatement", vec![1])];
    assert_eq!(lenient().diff_events(fee(), vec![]).len(), 1);
    assert_eq!(lenient().diff_events(vec![], fee()).len(), 1);
}

#[test]
fn one_sided_writes_that_depend_on_gas_can_be_ignored() {
    let strict = TransactionDiffBuilder::new();
    let nothing = || WriteSet::new(vec![]);
    for name in ["supply", "balance"] {
        let write = || WriteSet::new(vec![(raw_key(name), WriteOp::legacy_creation(vec![1]))]);
        assert!(lenient().diff_write_sets(write(), nothing()).is_empty());
        assert!(lenient().diff_write_sets(nothing(), write()).is_empty());
        assert_eq!(strict.diff_write_sets(write(), nothing()).len(), 1);
        assert_eq!(strict.diff_write_sets(nothing(), write()).len(), 1);
        assert!(raw_key(name).depends_on_gas());
    }
    let other = || WriteSet::new(vec![(raw_key("key-1"), WriteOp::legacy_creation(vec![1]))]);
    assert_eq!(lenient().diff_write_sets(other(), nothing()).len(), 1);
    assert_eq!(lenient().diff_write_sets(nothing(), other()).len(), 1);
    assert!(!raw_key("key-1").depends_on_gas());
}

#[test]
fn exchanged_outputs_mirror_the_differences() {
    let one = || {
        output(
            vec![
                (raw_key("key-1"), WriteOp::legacy_creation(vec![7])),
                (raw_key("key-2"), WriteOp::legacy_creation(vec![7])),
            ],
            vec![event("0x1::event::EventA", vec![1])],
            10,
            status(0, "Success"),
        )
    };
    let other = || {
        output(
            vec![(raw_key("key-2"), WriteOp::legacy_creation(vec![8]))],
            vec![event("0x1::event::EventB", vec![1])],
            11,
            status(1, "OutOfGas"),
        )
    };
    let builder = TransactionDiffBuilder::new();
    let there = builder.build_from_outputs(one(), other()).diffs;
    let back = builder.build_from_outputs(other(), one()).diffs;
    assert_eq!(there.len(), 6);
    assert_eq!(back.len(), 6);
    for diff in there {
        let mirrored = match diff {
            Diff::GasUsed { left, right } => Diff::GasUsed {
                left: right,
                right: left,
            },
            Diff::ExecutionStatus { left, right } => Diff::ExecutionStatus {
                left: right,
                right: left,
            },
            Diff::Event { left, right } => Diff::Event {
                left: right,
                right: left,
            },
            Diff::WriteSet {
                state_key,
                left,
                right,
            } => Diff::WriteSet {
                state_key,
                left: right,
                right: left,
            },
        };
        assert!(back.contains(&mirrored));
    }
}

#[test]
fn later_write_to_a_key_counts() {
    let set = WriteSet::new(vec![
        (raw_key("key-1"), WriteOp::legacy_creation(vec![1])),
        (raw_key("key-1"), WriteOp::legacy_creation(vec![2])),
    ]);
    let other = WriteSet::new(vec![(raw_key("key-1"), WriteOp::legacy_creation(vec![2]))]);
    assert!(TransactionDiffBuilder::new()
        .diff_write_sets(set, other)
        .is_empty());
}

#[test]
fn exchanged_sides_mirror_the_differences() {
    let one = || {
        vec![
            event("0x1::event::EventA", vec![1]),
            event("0x1::event::EventB", vec![1]),
        ]
    };
    let other = || {
        vec![
            event("0x1::event::EventB", vec![2]),
            event("0x1::event::EventC", vec![1]),
        ]
    };
    let builder = TransactionDiffBuilder::new();
    let there = builder.diff_events(one(), other());
    let back = builder.diff_events(other(), one());
    assert_eq!(there.len(), 3);
    assert_eq!(back.len(), 3);
    for diff in there {
        match diff {
            Diff::Event { left, right } => assert!(back.contains(&Diff::Event {
                left: right,
                right: left,
            })),
            _ => unreachable!(),
        }
    }
}

#[test]
fn every_key_is_reported_once() {
    let set = |first: u8| {
        WriteSet::new(vec![
            (raw_key("key-1"), WriteOp::legacy_creation(vec![first])),
            (raw_key("key-1"), WriteOp::legacy_modification(vec![first])),
            (raw_key("key-2"), WriteOp::legacy_creation(vec![first])),
        ])
    };
    let diffs = TransactionDiffBuilder::new().diff_write_sets(set(1), set(2));
    let keys: Vec<u64> = diffs
        .iter()
        .map(|diff| match diff {
            Diff::WriteSet { state_key, .. } => state_key.rank,
            _ => unreachable!(),
        })
        .collect();
    assert_eq!(keys, vec![0, 1]);
}

#[test]
fn only_gas_traces_are_left_out() {
    let make = |value: u8| {
        output(
            vec![
                (raw_key("key-1"), WriteOp::legacy_creation(vec![value])),
                (raw_key("supply"), WriteOp::legacy_modification(vec![value])),
                (raw_key("balance"), WriteOp::legacy_modification(vec![value])),
            ],
            vec![
                event("0x1::event::EventA", vec![value]),
                event("0x1::transaction_fee::FeeStatement", vec![value]),
            ],
            value as u64,
            status(value, "Status"),
        )
    };
    let all = TransactionDiffBuilder::new()
        .build_from_outputs(make(1), make(2))
        .diffs;
    let kept = lenient().build_from_outputs(make(1), make(2)).diffs;
    let expected: Vec<Diff> = all
        .into_iter()
        .filter(|diff| match diff {
            Diff::GasUsed { .. } => false,
            Diff::Event {
                left: Some(left),
                right: Some(_),
            } => !left.type_tag.is_fee_statement,
            Diff::WriteSet { state_key, .. } => !state_key.depends_on_gas(),
            _ => true,
        })
        .collect();
    assert_eq!(kept, expected);
    assert_eq!(kept.len(), 3);
}
