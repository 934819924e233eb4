use aptos_toolkit::randomness::{
    dealt_secret_from_input, dealt_secret_from_shares, decrypt_key_map, finished_session,
    num_validators, verify_dkg_transcript, verify_step, wait_for_dkg_finish, AccountAddress,
    DkgSession, DkgState, VerifyAction, VerifyEvent, VerifyPhase, WaitDecision,
};

fn address(low: u128) -> AccountAddress {
    AccountAddress { high: 1, low }
}

fn session(dealer_epoch: u64) -> DkgSession {
    DkgSession {
        dealer_epoch,
        dealer_validator_set: vec![address(1), address(2)],
        target_validator_set: vec![address(2), address(3), address(1)],
        transcript: vec![1, 2, 3],
    }
}

fn state(in_progress: bool, last_completed: Option<DkgSession>) -> DkgState {
    DkgState {
        in_progress,
        last_completed,
    }
}

#[test]
fn waits_until_the_session_is_over() {
    let again = WaitDecision::Sleep { secs: 1 };
    let stop = WaitDecision::Stop;
    assert_eq!(wait_for_dkg_finish(&state(false, None), None, 10, 0), again);
    assert_eq!(
        wait_for_dkg_finish(&state(true, Some(session(4))), None, 10, 0),
        again
    );
    assert_eq!(
        wait_for_dkg_finish(&state(false, Some(session(4))), None, 10, 0),
        stop
    );
    assert_eq!(
        wait_for_dkg_finish(&state(false, Some(session(4))), Some(5), 10, 9),
        stop
    );
    assert_eq!(
        wait_for_dkg_finish(&state(false, Some(session(4))), Some(4), 10, 9),
        again
    );
    // The time is up.
    assert_eq!(wait_for_dkg_finish(&state(true, None), None, 10, 10), stop);
}

#[test]
fn late_session_is_not_returned() {
    let found = finished_session(state(false, Some(session(4))), 10, 9);
    assert_eq!(found.unwrap().dealer_epoch, 4);
    assert!(finished_session(state(false, Some(session(4))), 10, 10).is_none());
    assert!(finished_session(state(false, None), 10, 9).is_none());
}

#[test]
fn validators_are_counted() {
    assert_eq!(num_validators(&session(0)), 3);
}

#[test]
fn later_key_of_an_address_counts() {
    let keys = decrypt_key_map(vec![
        (address(1), "a"),
        (address(2), "b"),
        (address(1), "c"),
    ]);
    assert_eq!(keys.get(&address(1)), Some(&"c"));
    assert_eq!(keys.get(&address(2)), Some(&"b"));
    assert_eq!(keys.get(&address(3)), None);
    assert_eq!(
        keys.get(&AccountAddress { high: 2, low: 1 }),
        None
    );
}

#[test]
fn secrets_are_put_together_from_the_right_keys() {
    let keys = decrypt_key_map(vec![
        (address(1), "a"),
        (address(2), "b"),
        (address(3), "c"),
    ]);
    let session = session(0);
    assert_eq!(
        dealt_secret_from_shares(&session.target_validator_set, &keys),
        vec![(0, &"b"), (1, &"c"), (2, &"a")]
    );
    assert_eq!(
        dealt_secret_from_input(&vec![1, 0, 1], &session.dealer_validator_set, &keys),
        vec![&"b", &"a", &"b"]
    );
}

fn check(
    parsed: Result<(), String>,
    verified: Result<(), String>,
    from_shares: Vec<u8>,
    from_inputs: Vec<u8>,
) -> Result<(), String> {
    let (mut phase, mut action) = verify_dkg_transcript();
    loop {
        let event = match action {
            VerifyAction::ParseTranscript => VerifyEvent::Parsed(parsed.clone()),
            VerifyAction::VerifyTranscript => VerifyEvent::Verified(verified.clone()),
            VerifyAction::ReconstructFromShares => {
                VerifyEvent::SecretFromShares(from_shares.clone())
            }
            VerifyAction::ReconstructFromInputs => {
                VerifyEvent::SecretFromInputs(from_inputs.clone())
            }
            VerifyAction::Finish(result) => {
                assert!(matches!(phase, VerifyPhase::Done));
                return result;
            }
        };
        let next = verify_step(phase, event);
        phase = next.0;
        action = next.1;
    }
}

#[test]
fn good_transcript_passes() {
    assert_eq!(check(Ok(()), Ok(()), vec![1, 2], vec![1, 2]), Ok(()));
}

#[test]
fn bad_transcripts_fail() {
    assert_eq!(
        check(Err("eof".to_string()), Ok(()), vec![], vec![]),
        Err(
            "DKG transcript verification failed with transcript deserialization error: eof"
                .to_string()
        )
    );
    assert_eq!(
        check(Ok(()), Err("not signed".to_string()), vec![], vec![]),
        Err("not signed".to_string())
    );
    assert_eq!(
        check(Ok(()), Ok(()), vec![1], vec![2]),
        Err("dkg transcript verification failed with final check failure".to_string())
    );
}
