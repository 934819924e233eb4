use aptos_toolkit::batch::{Timestamp, Transaction, TransactionsResponse};
use aptos_toolkit::dispatch_run::{
    dispatch_report, fetch_report, fetch_source, Action, DispatchRun, Event, FetchSource, Phase, RunError,
    StorageReadStatus,
};
use aptos_toolkit::grpc_response_dispatcher::{GrpcResponseDispatcher, StorageReadError};
use aptos_toolkit::rpc_status::Status;

type Message = Result<TransactionsResponse, Status>;

fn create_transactions(starting_version: u64, size: usize) -> Vec<Transaction> {
    let mut transactions = vec![];
    for i in 0..size {
        transactions.push(Transaction {
            version: starting_version + i as u64,
            timestamp: None,
            payload: vec![],
        });
    }
    transactions
}

// A storage that holds consecutive transactions.
struct MockStorage {
    chain_id: u64,
    start: u64,
    size: usize,
}

impl MockStorage {
    fn new(chain_id: u64, start: u64, size: usize) -> Self {
        MockStorage {
            chain_id,
            start,
            size,
        }
    }

    fn get_transactions(&self, version: u64) -> StorageReadStatus {
        let end = self.start + self.size as u64;
        if version < self.start {
            StorageReadStatus::NotFound
        } else if version >= end {
            StorageReadStatus::NotAvailableYet
        } else {
            StorageReadStatus::Found(vec![create_transactions(version, (end - version) as usize)])
        }
    }
}

// A channel whose client may go away, and how the storages are polled.
struct World {
    storages: Vec<MockStorage>,
    capacity: usize,
    received: Vec<Message>,
    // The client closes the channel after that many looks at the sender.
    closed_after: usize,
    sender_checks: usize,
    // Whether the client takes messages out of the channel.
    client_reads: bool,
    slept: Vec<u64>,
}

impl World {
    fn new(storages: Vec<MockStorage>, capacity: usize) -> Self {
        World {
            storages,
            capacity,
            received: vec![],
            closed_after: usize::MAX,
            sender_checks: 0,
            client_reads: true,
            slept: vec![],
        }
    }

    fn is_closed(&self) -> bool {
        self.sender_checks > self.closed_after
    }

    // Does what an action asks for; `Err` holds the result of a run that is over.
    fn perform(&mut self, action: Action) -> Result<Event, Result<(), RunError>> {
        match action {
            Action::CheckSender => {
                self.sender_checks += 1;
                Ok(Event::SenderChecked {
                    closed: self.is_closed(),
                })
            }
            Action::ReadMetadata { storage } => {
                Ok(Event::MetadataRead(Ok(self.storages[storage].chain_id)))
            }
            Action::ReadTransactions { storage, version } => Ok(Event::TransactionsRead(Ok(
                self.storages[storage].get_transactions(version),
            ))),
            Action::Sleep { millis } => {
                self.slept.push(millis);
                Ok(Event::Slept)
            }
            Action::Send { item, timeout_secs } => {
                assert_eq!(timeout_secs, 120);
                if self.is_closed() || (!self.client_reads && self.received.len() >= self.capacity)
                {
                    Ok(Event::Sent { delivered: false })
                } else {
                    self.received.push(item);
                    Ok(Event::Sent { delivered: true })
                }
            }
            Action::ObserveDrain => Ok(Event::DrainObserved {
                elapsed_millis: 0,
                capacity: self.capacity,
            }),
            Action::Finish(result) => Err(result),
        }
    }

    fn run(&mut self, start: u64, count: Option<u64>) -> Result<(), RunError> {
        let dispatcher =
            GrpcResponseDispatcher::new(start, count, self.storages.len(), self.capacity);
        let (mut run, mut action) = dispatcher.run();
        loop {
            match self.perform(action) {
                Ok(event) => {
                    let (next_run, next_action) = run.step(event);
                    run = next_run;
                    action = next_action;
                }
                Err(result) => return result,
            }
        }
    }
}

#[test]
fn test_finite_stream() {
    let mut world = World::new(
        vec![
            MockStorage::new(1, 20, 100),
            MockStorage::new(2, 10, 20),
            MockStorage::new(3, 0, 15),
        ],
        100,
    );
    let run_result = world.run(0, Some(40));
    assert!(run_result.is_ok());

    let mut transactions = vec![];
    for response in world.received {
        match response {
            Ok(response) => {
                for transaction in response.transactions {
                    transactions.push(transaction);
                }
            }
            Err(_) => panic!("the stream must not fail"),
        }
    }
    assert_eq!(transactions.len(), 40);
    for (current_version, t) in transactions.into_iter().enumerate() {
        assert_eq!(t.version, current_version as u64);
    }
}

#[test]
fn test_storages_gap() {
    let mut world = World::new(
        vec![MockStorage::new(1, 30, 100), MockStorage::new(2, 10, 10)],
        100,
    );
    let run_result = world.run(15, Some(30));
    assert!(run_result.is_err());

    let mut received = world.received.into_iter();
    let first_response = received.next().unwrap();
    assert!(first_response.is_ok());
    if let Ok(transactions_response) = first_response {
        assert!(transactions_response.transactions.len() == 5);
    }
    let second_response = received.next().unwrap();
    // Gap is detected.
    assert!(second_response.is_err());
    if let Err(status) = second_response {
        assert_eq!(status.code, 13);
        assert_eq!(
            status.message,
            "Failed to fetch transactions from storages, GrpcResponseDispatcher"
        );
    }
    assert!(received.next().is_none());
}

#[test]
fn test_infinite_stream_with_client_closure() {
    let mut world = World::new(
        vec![
            MockStorage::new(1, 20, 20),
            MockStorage::new(2, 10, 30),
            MockStorage::new(3, 0, 15),
        ],
        100,
    );
    // The client goes away after the dispatcher has waited for a while.
    world.closed_after = 100;
    let task_result = world.run(0, None);

    let mut received = world.received.into_iter();
    let first_peek = received.next();
    // transactions 0 - 15
    assert!(first_peek.is_some());
    let first_response = first_peek.unwrap();
    assert!(first_response.is_ok());
    if let Ok(transactions_response) = first_response {
        assert!(transactions_response.transactions.len() == 15);
        assert_eq!(transactions_response.chain_id, Some(3));
    }
    let second_peek = received.next();
    // transactions 15 - 40
    assert!(second_peek.is_some());
    let second_response = second_peek.unwrap();
    assert!(second_response.is_ok());
    if let Ok(transactions_response) = second_response {
        assert!(transactions_response.transactions.len() == 25);
    }
    let third_peek = received.next();
    match third_peek {
        None => {}
        _ => unreachable!("This is not possible."),
    }
    // The dispatcher should exit with an error.
    assert!(task_result.is_err());
    assert!(world.slept.iter().all(|millis| *millis == 10));
    assert!(!world.slept.is_empty());
}

#[test]
fn test_not_found_in_all_storages() {
    let mut world = World::new(vec![MockStorage::new(1, 20, 100)], 100);
    let run_result = world.run(0, Some(40));
    assert!(run_result.is_err());
    let first_response = world.received.into_iter().next().unwrap();
    assert!(first_response.is_err());
}

#[test]
fn test_back_pressure_from_client_should_error() {
    let mut world = World::new(
        vec![MockStorage::new(1, 200, 200), MockStorage::new(1, 0, 200)],
        1,
    );
    world.client_reads = false;
    let run_result = world.run(0, None);
    assert!(run_result.is_err());
    // First the channel is full, then the sender is closed.
    let first_response = world.received.into_iter().next().unwrap();
    assert!(first_response.is_ok());
    match run_result {
        Err(error) => assert_eq!(error.message(), "Failed to send response to downstream."),
        Ok(_) => unreachable!(),
    }
}

fn response(version: u64, size: usize) -> TransactionsResponse {
    TransactionsResponse {
        transactions: create_transactions(version, size),
        chain_id: Some(4),
    }
}

fn versions(responses: &[TransactionsResponse]) -> Vec<Vec<u64>> {
    responses
        .iter()
        .map(|r| r.transactions.iter().map(|t| t.version).collect())
        .collect()
}

#[test]
fn batch_is_trimmed_to_what_is_owed() {
    let mut dispatcher = GrpcResponseDispatcher::new(5, Some(4), 1, 10);
    let fetched = dispatcher.fetch_internal(Ok(vec![response(5, 3), response(8, 3), response(11, 1)]));
    match fetched {
        Ok(responses) => {
            assert_eq!(versions(&responses), vec![vec![5, 6, 7], vec![8]]);
            assert_eq!(responses[1].chain_id, Some(4));
        }
        Err(_) => panic!("the batch is good"),
    }
    assert_eq!(dispatcher.next_version_to_process, 9);
    assert_eq!(dispatcher.transaction_count, Some(0));
}

#[test]
fn unbounded_stream_keeps_all() {
    let mut dispatcher = GrpcResponseDispatcher::new(5, None, 1, 10);
    assert!(dispatcher
        .fetch_internal(Ok(vec![response(5, 3), response(8, 3)]))
        .is_ok());
    assert_eq!(dispatcher.next_version_to_process, 11);
    assert_eq!(dispatcher.transaction_count, None);
}

fn transient_message(result: Result<Vec<TransactionsResponse>, StorageReadError>) -> String {
    match result {
        Err(StorageReadError::TransientError(name, message)) => {
            assert_eq!(name, "GrpcResponseDispatcher");
            message
        }
        _ => panic!("a transient error was expected"),
    }
}

#[test]
fn bad_batches_are_rejected_and_change_nothing() {
    let before = GrpcResponseDispatcher::new(5, Some(4), 1, 10);
    let mut dispatcher = before;
    let empty = dispatcher.fetch_internal(Ok(vec![response(5, 3), response(8, 0)]));
    assert_eq!(transient_message(empty), "Empty responses from storages.");
    let gap = dispatcher.fetch_internal(Ok(vec![response(5, 3), response(9, 1)]));
    assert_eq!(transient_message(gap), "Version mismatch in response.");
    let early = dispatcher.fetch_internal(Ok(vec![response(4, 3)]));
    assert_eq!(transient_message(early), "Version mismatch in response.");
    assert!(dispatcher == before);

    match dispatcher.fetch_internal(Err(StorageReadError::PermenantError(
        "store".to_string(),
        "gone".to_string(),
    ))) {
        Err(StorageReadError::PermenantError(name, message)) => {
            assert_eq!(name, "store");
            assert_eq!(message, "gone");
        }
        _ => panic!("the error must come back"),
    }
    assert!(dispatcher == before);
}

#[test]
fn retries_are_limited() {
    let dispatcher = GrpcResponseDispatcher::new(0, None, 1, 10);
    let (mut run, mut action) = dispatcher.run();
    let mut reads: usize = 0;
    let mut pauses: usize = 0;
    let item = loop {
        let event = match action {
            Action::CheckSender => Event::SenderChecked { closed: false },
            Action::ReadMetadata { storage } => {
                assert_eq!(storage, 0);
                reads += 1;
                Event::MetadataRead(Err(StorageReadError::TransientError(
                    "store".to_string(),
                    "busy".to_string(),
                )))
            }
            Action::Sleep { millis } => {
                assert_eq!(millis, 500);
                pauses += 1;
                Event::Slept
            }
            Action::Send { item, .. } => break item,
            _ => panic!("nothing else is expected"),
        };
        let (next_run, next_action) = run.step(event);
        run = next_run;
        action = next_action;
    };
    assert_eq!(reads, 100);
    assert_eq!(pauses, 100);
    match item {
        Err(status) => {
            assert_eq!(status.code, 13);
            assert_eq!(status.message, "Failed to fetch transactions from storages.");
        }
        Ok(_) => panic!("the stream must fail"),
    }
    match run.step(Event::Sent { delivered: true }).1 {
        Action::Finish(Err(error)) => assert_eq!(
            error.message(),
            "Failed to fetch transactions from storages."
        ),
        _ => panic!("the run must be over"),
    }
}

#[test]
fn empty_stream_ends_at_once() {
    let mut world = World::new(vec![MockStorage::new(1, 0, 10)], 100);
    assert!(world.run(0, Some(0)).is_ok());
    assert!(world.received.is_empty());
    assert_eq!(world.sender_checks, 0);
}

#[test]
fn bounded_stream_waits_for_a_slow_client() {
    let dispatcher = GrpcResponseDispatcher::new(0, Some(0), 1, 10);
    let (run, action) = dispatcher.run();
    assert!(matches!(action, Action::ObserveDrain));
    let (run, action) = run.step(Event::DrainObserved {
        elapsed_millis: 60_000,
        capacity: 9,
    });
    assert!(matches!(action, Action::Sleep { millis: 1000 }));
    let (run, action) = run.step(Event::Slept);
    assert!(matches!(action, Action::ObserveDrain));
    let (run, action) = run.step(Event::DrainObserved {
        elapsed_millis: 60_001,
        capacity: 9,
    });
    assert!(matches!(action, Action::Finish(Ok(()))));
    assert!(matches!(run.phase, Phase::Done));
}

#[test]
fn drained_channel_ends_the_wait() {
    let (run, _) = GrpcResponseDispatcher::new(0, Some(0), 1, 10).run();
    let (_, action) = run.step(Event::DrainObserved {
        elapsed_millis: 0,
        capacity: 10,
    });
    assert!(matches!(action, Action::Finish(Ok(()))));
}

#[test]
fn closed_sender_fails_the_run() {
    let (run, action): (DispatchRun, Action) =
        GrpcResponseDispatcher::new(0, None, 1, 10).run();
    assert!(matches!(action, Action::CheckSender));
    let (run, action) = run.step(Event::SenderChecked { closed: true });
    match action {
        Action::Send { item: Err(status), .. } => assert_eq!(
            status.message,
            "Failed to fetch transactions from storages, GrpcResponseDispatcher"
        ),
        _ => panic!("the client is told"),
    }
    let (_, action) = run.step(Event::Sent { delivered: false });
    assert!(matches!(action, Action::Finish(Err(RunError::SendFailed))));
}

#[test]
fn report_of_a_response() {
    let mut sent = response(7, 3);
    sent.transactions[0].timestamp = Some(Timestamp {
        seconds: 5,
        nanos: 6,
    });
    let report = dispatch_report(&Ok(sent)).unwrap();
    assert_eq!(report.first_version, 7);
    assert_eq!(report.end_version, 9);
    assert_eq!(report.num_of_transactions, 3);
    assert_eq!(report.first_version_timestamp.unwrap().seconds, 5);
    assert!(report.end_version_timestamp.is_none());
    assert!(dispatch_report(&Err(Status::internal("no".to_string()))).is_none());
}

#[test]
fn internal_status_keeps_the_message() {
    let status = Status::internal("broken".to_string());
    assert_eq!(status.code, 13);
    assert_eq!(status.message, "broken");
}

#[test]
fn sources_of_batches() {
    assert!(fetch_source(0) == FetchSource::Memory);
    assert!(fetch_source(1) == FetchSource::Filestore);
    assert!(fetch_source(2) == FetchSource::Filestore);
}

#[test]
fn report_of_a_fetch() {
    let mut dispatcher = GrpcResponseDispatcher::new(5, None, 2, 10);
    assert!(fetch_report(&dispatcher, 5, 1).is_none());
    assert!(dispatcher.fetch_internal(Ok(vec![response(5, 3)])).is_ok());
    let report = fetch_report(&dispatcher, 5, 1).unwrap();
    assert!(report.source == FetchSource::Filestore);
    assert_eq!(report.start_version, 5);
    assert_eq!(report.end_version, 7);
    assert_eq!(report.num_of_transactions, 3);
}

#[test]
fn empty_response_is_found_before_versions_are_counted() {
    let mut dispatcher = GrpcResponseDispatcher::new(u64::MAX, None, 1, 10);
    let batch = vec![response(u64::MAX, 1), response(0, 0)];
    assert_eq!(
        transient_message(dispatcher.fetch_internal(Ok(batch))),
        "Empty responses from storages."
    );
    let mismatch = dispatcher.fetch_internal(Ok(vec![response(3, 1)]));
    assert_eq!(transient_message(mismatch), "Version mismatch in response.");
}
